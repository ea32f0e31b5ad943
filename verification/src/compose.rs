//! The walks over the widget tree: measuring natural sizes, hit-testing,
//! the recursive measurement-and-draw pass, and routing one widget's input
//! to it by id.

use vstd::prelude::*;
use crate::border_layout::{is_center_slot, row_slot_uuid, BorderLayout};
use crate::child_window::{
    ChildType,
    KeyEventData,
    LayoutNode,
    MouseButton,
    Orientation,
    UserEvent,
    WheelDelta,
    WidgetId,
};
use crate::event_bus::EventQueue;
use crate::row_layout::RowLayout;
use crate::scroll_layout::ScrollLayout;
use crate::tab_layout::TabLayout;
use crate::window_base::WindowBase;
use crate::{valid_coord, valid_dim, MAX_DIM};

verus! {

/// Clamps a mathematical size into the dimension range.
pub open spec fn clamp_dim(v: int) -> int {
    if v < 0 {
        0
    } else if v > MAX_DIM {
        MAX_DIM as int
    } else {
        v
    }
}

fn clamp_dim_exec(v: i128) -> (r: i64)
    ensures
        r as int == clamp_dim(v as int),
        valid_dim(r),
{
    if v < 0 {
        0
    } else if v > MAX_DIM as i128 {
        MAX_DIM
    } else {
        v as i64
    }
}

/// The natural size of a child: a widget's drawing size; a layout's own
/// measure, clamped into the dimension range.
pub open spec fn spec_nat_size(c: ChildType) -> (int, int)
    decreases c,
{
    match c {
        ChildType::Window(w) => (w.spec_drawing_size().0 as int, w.spec_drawing_size().1 as int),
        ChildType::Layout(l) => spec_layout_nat_size(*l),
    }
}

/// The natural size of a layout: a row measures its children plus padding;
/// a border measures its outer row; scroll and tab layouts report their own
/// stored size.
pub open spec fn spec_layout_nat_size(l: LayoutNode) -> (int, int)
    decreases l,
{
    match l {
        LayoutNode::Row(r) => spec_row_nat_size(r),
        LayoutNode::Border(b) => spec_row_nat_size(b.rows),
        LayoutNode::Scroll(s) => (s.layout_base.width as int, s.layout_base.height as int),
        LayoutNode::Tab(t) => (t.layout_base.width as int, t.layout_base.height as int),
    }
}

/// The minimum size a row needs to show its children with padding: along the
/// axis one leading pad plus each child's extent and trailing pad, across
/// the axis the largest child; plus one extra pad on every edge. Each
/// partial extent is clamped into the dimension range.
pub open spec fn spec_row_nat_size(r: RowLayout) -> (int, int)
    decreases r,
{
    let (w0, h0) = spec_row_nat_to(r.children@, r.orientation, r.inner_padding, r.children@.len() as int);
    if r.orientation == Orientation::Horizontal {
        (clamp_dim(w0 + r.inner_padding + 2 * r.inner_padding), clamp_dim(h0 + 2 * r.inner_padding))
    } else {
        (clamp_dim(w0 + 2 * r.inner_padding), clamp_dim(h0 + r.inner_padding + 2 * r.inner_padding))
    }
}

/// The running measure over the first `k` children: the sum of extents and
/// pads along the axis, and the maximum across it.
pub open spec fn spec_row_nat_to(s: Seq<ChildType>, o: Orientation, p: i64, k: int) -> (int, int)
    decreases s, k,
{
    if k <= 0 || k > s.len() {
        (0, 0)
    } else {
        let (w, h) = spec_row_nat_to(s, o, p, k - 1);
        let (cw, ch) = spec_nat_size(s[k - 1]);
        let (cw, ch) = (clamp_dim(cw), clamp_dim(ch));
        if o == Orientation::Horizontal {
            (
                w + cw + p,
                if ch > h {
                    ch
                } else {
                    h
                },
            )
        } else {
            (
                if cw > w {
                    cw
                } else {
                    w
                },
                h + ch + p,
            )
        }
    }
}

/// Measures the natural size of a child, clamped into the dimension range.
pub fn nat_size(c: &ChildType) -> (r: (i64, i64))
    requires
        c.wf(),
    ensures
        r.0 as int == clamp_dim(spec_nat_size(*c).0),
        r.1 as int == clamp_dim(spec_nat_size(*c).1),
        valid_dim(r.0),
        valid_dim(r.1),
    decreases *c,
{
    match c {
        ChildType::Window(w) => w.get_drawing_size(),
        ChildType::Layout(l) => layout_nat_size(&**l),
    }
}

/// Measures the natural size of a layout, clamped into the dimension range.
pub fn layout_nat_size(l: &LayoutNode) -> (r: (i64, i64))
    requires
        l.wf(),
    ensures
        r.0 as int == clamp_dim(spec_layout_nat_size(*l).0),
        r.1 as int == clamp_dim(spec_layout_nat_size(*l).1),
        valid_dim(r.0),
        valid_dim(r.1),
    decreases *l,
{
    match l {
        LayoutNode::Row(r) => row_nat_size(r),
        LayoutNode::Border(b) => row_nat_size(&b.rows),
        LayoutNode::Scroll(s) => (s.layout_base.width, s.layout_base.height),
        LayoutNode::Tab(t) => (t.layout_base.width, t.layout_base.height),
    }
}

/// Measures the minimum size a row needs to display its children with
/// padding.
pub fn row_nat_size(r: &RowLayout) -> (res: (i64, i64))
    requires
        r.wf(),
    ensures
        res.0 as int == spec_row_nat_size(*r).0,
        res.1 as int == spec_row_nat_size(*r).1,
        valid_dim(res.0),
        valid_dim(res.1),
    decreases *r,
{
    let ghost s = r.children@;
    let n = r.children.len();
    let p = r.inner_padding;
    let mut w: i128 = 0;
    let mut h: i128 = 0;
    let mut i: usize = 0;
    while i < n
        invariant
            r.wf(),
            n == s.len(),
            s == r.children@,
            p == r.inner_padding,
            i <= n,
            w as int == spec_row_nat_to(s, r.orientation, p, i as int).0,
            h as int == spec_row_nat_to(s, r.orientation, p, i as int).1,
            0 <= w <= (i as int) * 0x80000001 + 0x40000000,
            0 <= h <= (i as int) * 0x80000001 + 0x40000000,
        decreases n - i,
    {
        proof {
            assert(s[i as int].wf());
            assert(decreases_to!(*r => r.children));
            assert(decreases_to!(r.children => r.children@));
            assert(decreases_to!(r.children@ => r.children@[i as int]));
        }
        let c = &r.children[i];
        let (cw, ch) = nat_size(c);
        match r.orientation {
            Orientation::Horizontal => {
                w = w + cw as i128 + p as i128;
                if ch as i128 > h {
                    h = ch as i128;
                }
            },
            Orientation::Vertical => {
                if cw as i128 > w {
                    w = cw as i128;
                }
                h = h + ch as i128 + p as i128;
            },
        }
        i = i + 1;
    }
    match r.orientation {
        Orientation::Horizontal => (
            clamp_dim_exec(w + p as i128 + 2 * p as i128),
            clamp_dim_exec(h + 2 * p as i128),
        ),
        Orientation::Vertical => (
            clamp_dim_exec(w + 2 * p as i128),
            clamp_dim_exec(h + p as i128 + 2 * p as i128),
        ),
    }
}

/// Whether a widget's drawn region contains the point, in main-window
/// coordinates.
pub open spec fn spec_contains(w: WindowBase, x: i64, y: i64) -> bool {
    let (dw, dh) = w.spec_drawing_size();
    &&& w.main_win_x <= x <= w.main_win_x + dw
    &&& w.main_win_y <= y <= w.main_win_y + dh
}

/// The hit-test over one child: which widget owns the point, and which
/// events the walk fires on the way (a tab header hit on an inactive tab
/// asks for a tab switch instead of returning a target).
pub open spec fn spec_hit(c: ChildType, x: i64, y: i64) -> (Option<WidgetId>, Seq<UserEvent>)
    decreases c, 1int, 0int,
{
    match c {
        ChildType::Window(w) => if spec_contains(w, x, y) {
            (Some(w.uuid), Seq::empty())
        } else {
            (None, Seq::empty())
        },
        ChildType::Layout(l) => spec_layout_hit(*l, x, y),
    }
}

/// The hit-test over one layout.
pub open spec fn spec_layout_hit(l: LayoutNode, x: i64, y: i64) -> (
    Option<WidgetId>,
    Seq<UserEvent>,
)
    decreases l, 1int, 0int,
{
    match l {
        LayoutNode::Row(r) => spec_row_hit_from(r.children@, x, y, 0),
        LayoutNode::Border(b) => spec_row_hit_from(b.rows.children@, x, y, 0),
        LayoutNode::Scroll(s) => (s.spec_hit(x, y), Seq::empty()),
        LayoutNode::Tab(t) => spec_tab_hit(t, x, y),
    }
}

/// The hit-test over a row's children, scanning from index `k`: the first
/// child owning the point wins; events fired by nested walks before the
/// winner are kept.
pub open spec fn spec_row_hit_from(s: Seq<ChildType>, x: i64, y: i64, k: int) -> (
    Option<WidgetId>,
    Seq<UserEvent>,
)
    decreases s, 2int, s.len() - k,
{
    if k < 0 || k >= s.len() {
        (None, Seq::empty())
    } else {
        match s[k] {
            ChildType::Window(w) => if spec_contains(w, x, y) {
                (Some(w.uuid), Seq::empty())
            } else {
                spec_row_hit_from(s, x, y, k + 1)
            },
            ChildType::Layout(l) => {
                let (r, ev) = spec_layout_hit(*l, x, y);
                if r is Some {
                    (r, ev)
                } else {
                    let (r2, ev2) = spec_row_hit_from(s, x, y, k + 1);
                    (r2, ev + ev2)
                }
            },
        }
    }
}

/// The hit-test over a tab layout: within the header strip, the tab whose
/// span holds the point either hands out its close button, or — when it is
/// not the active tab — asks for a tab switch and hands out nothing; below
/// the strip, the active tab's contents take over.
pub open spec fn spec_tab_hit(t: TabLayout, x: i64, y: i64) -> (Option<WidgetId>, Seq<UserEvent>)
    decreases t, 1int, 0int,
{
    if y - t.layout_base.main_win_y <= t.tab_top_height {
        spec_tab_header_hit_from(t, x, 0)
    } else {
        match t.active_tab {
            Some(id) => match t.spec_index_of(id) {
                Some(i) => if 0 <= i < t.tabs@.len() {
                    match t.tabs@[i].contents {
                        ChildType::Window(w) => (Some(w.uuid), Seq::empty()),
                        ChildType::Layout(l) => spec_layout_hit(*l, x, y),
                    }
                } else {
                    (None, Seq::empty())
                },
                None => (None, Seq::empty()),
            },
            None => (None, Seq::empty()),
        }
    }
}

/// The header scan from tab `k` on.
pub open spec fn spec_tab_header_hit_from(t: TabLayout, x: i64, k: int) -> (
    Option<WidgetId>,
    Seq<UserEvent>,
)
    decreases t, 0int, t.tabs@.len() - k,
{
    if k < 0 || k >= t.tabs@.len() {
        (None, Seq::empty())
    } else {
        let tab = t.tabs@[k];
        if tab.top_start_x <= x <= tab.top_start_x + tab.top_width {
            let bw = tab.close_btn.spec_drawing_size().0;
            let right = tab.top_start_x + tab.top_width - crate::tab_layout::TOP_RIGHT_PADDING;
            if right - bw <= x <= right {
                (Some(tab.close_btn.uuid), Seq::empty())
            } else if t.active_tab == Some(tab.uuid) {
                (None, Seq::empty())
            } else {
                (
                    None,
                    seq![
                        UserEvent::TabSelected(
                            t.layout_base.main_win_uuid,
                            t.layout_base.uuid,
                            tab.uuid,
                        ),
                    ],
                )
            }
        } else {
            spec_tab_header_hit_from(t, x, k + 1)
        }
    }
}

/// Hit-tests one child: returns the widget owning the point and publishes
/// whatever the walk fires (such as a tab-switch request) on the bus.
pub fn node_hit(c: &ChildType, x: i64, y: i64, events: &mut EventQueue) -> (r: Option<WidgetId>)
    requires
        c.wf(),
        valid_coord(x),
        valid_coord(y),
    ensures
        r == spec_hit(*c, x, y).0,
        final(events)@ == old(events)@ + spec_hit(*c, x, y).1,
    decreases *c, 1int, 0int,
{
    let res = match c {
        ChildType::Window(w) => {
            let (dw, dh) = w.get_drawing_size();
            if w.main_win_x <= x && x <= w.main_win_x + dw && w.main_win_y <= y && y
                <= w.main_win_y + dh {
                Some(w.uuid)
            } else {
                None
            }
        },
        ChildType::Layout(l) => layout_hit(&**l, x, y, events),
    };
    proof {
        assert(final(events)@ =~= old(events)@ + spec_hit(*c, x, y).1);
    }
    res
}

/// Hit-tests one layout.
pub fn layout_hit(l: &LayoutNode, x: i64, y: i64, events: &mut EventQueue) -> (r: Option<
    WidgetId,
>)
    requires
        l.wf(),
        valid_coord(x),
        valid_coord(y),
    ensures
        r == spec_layout_hit(*l, x, y).0,
        final(events)@ == old(events)@ + spec_layout_hit(*l, x, y).1,
    decreases *l, 1int, 0int,
{
    let res = match l {
        LayoutNode::Row(r) => row_hit(r, x, y, events),
        LayoutNode::Border(b) => row_hit(&b.rows, x, y, events),
        LayoutNode::Scroll(s) => s.get_child_at(x, y),
        LayoutNode::Tab(t) => tab_hit(t, x, y, events),
    };
    proof {
        assert(final(events)@ =~= old(events)@ + spec_layout_hit(*l, x, y).1);
    }
    res
}

/// Hit-tests a row's children in stacking order.
pub fn row_hit(r: &RowLayout, x: i64, y: i64, events: &mut EventQueue) -> (res: Option<WidgetId>)
    requires
        r.wf(),
        valid_coord(x),
        valid_coord(y),
    ensures
        res == spec_row_hit_from(r.children@, x, y, 0).0,
        final(events)@ == old(events)@ + spec_row_hit_from(r.children@, x, y, 0).1,
    decreases *r, 0int, 0int,
{
    let ghost s = r.children@;
    let ghost base = old(events)@.len() as int;
    let n = r.children.len();
    let mut i: usize = 0;
    while i < n
        invariant
            r.wf(),
            n == s.len(),
            s == r.children@,
            i <= n,
            valid_coord(x),
            valid_coord(y),
            spec_row_hit_from(s, x, y, 0).0 == spec_row_hit_from(s, x, y, i as int).0,
            base == old(events)@.len(),
            events@.len() >= base,
            events@.subrange(0, base) == old(events)@,
            spec_row_hit_from(s, x, y, 0).1 == events@.skip(base) + spec_row_hit_from(
                s,
                x,
                y,
                i as int,
            ).1,
        decreases n - i,
    {
        proof {
            assert(s[i as int].wf());
            assert(decreases_to!(*r => r.children));
            assert(decreases_to!(r.children => r.children@));
            assert(decreases_to!(r.children@ => r.children@[i as int]));
        }
        let c = &r.children[i];
        match c {
            ChildType::Window(w) => {
                let (dw, dh) = w.get_drawing_size();
                if w.main_win_x <= x && x <= w.main_win_x + dw && w.main_win_y <= y && y
                    <= w.main_win_y + dh {
                    proof {
                        assert(events@ =~= old(events)@ + events@.skip(base));
                        assert(spec_row_hit_from(s, x, y, 0).1 =~= events@.skip(base));
                    }
                    return Some(w.uuid);
                }
            },
            ChildType::Layout(l) => {
                let hit = layout_hit(&**l, x, y, events);
                proof {
                    assert(events@.subrange(0, base) =~= old(events)@);
                }
                match hit {
                    Some(id) => {
                        proof {
                            assert(events@ =~= old(events)@ + events@.skip(base));
                            assert(spec_row_hit_from(s, x, y, 0).1 =~= events@.skip(base));
                        }
                        return Some(id);
                    },
                    None => {
                        proof {
                            assert(spec_row_hit_from(s, x, y, 0).1 =~= events@.skip(base)
                                + spec_row_hit_from(s, x, y, i as int + 1).1);
                        }
                    },
                }
            },
        }
        i = i + 1;
    }
    proof {
        assert(events@ =~= old(events)@ + events@.skip(base));
        assert(spec_row_hit_from(s, x, y, 0).1 =~= events@.skip(base));
    }
    None
}

/// Hit-tests a tab layout's header strip and, below it, the active tab's
/// contents.
#[verifier::rlimit(60)]
pub fn tab_hit(t: &TabLayout, x: i64, y: i64, events: &mut EventQueue) -> (res: Option<WidgetId>)
    requires
        t.wf(),
        valid_coord(x),
        valid_coord(y),
    ensures
        res == spec_tab_hit(*t, x, y).0,
        final(events)@ == old(events)@ + spec_tab_hit(*t, x, y).1,
    decreases *t, 0int, 0int,
{
    if y - t.layout_base.main_win_y <= t.tab_top_height {
        let n = t.tabs.len();
        let mut i: usize = 0;
        while i < n
            invariant
                t.wf(),
                n == t.tabs@.len(),
                i <= n,
                valid_coord(x),
                y - t.layout_base.main_win_y <= t.tab_top_height,
                spec_tab_header_hit_from(*t, x, 0).0 == spec_tab_header_hit_from(
                    *t,
                    x,
                    i as int,
                ).0,
                spec_tab_header_hit_from(*t, x, 0).1 == spec_tab_header_hit_from(
                    *t,
                    x,
                    i as int,
                ).1,
                events@ == old(events)@,
            decreases n - i,
        {
            proof {
                assert(t.tabs@[i as int].wf());
            }
            let tab = &t.tabs[i];
            if tab.top_start_x <= x && x <= tab.top_start_x + tab.top_width {
                let (bw, _bh) = tab.close_btn.get_drawing_size();
                let right = tab.top_start_x + tab.top_width - crate::tab_layout::TOP_RIGHT_PADDING;
                if right - bw <= x && x <= right {
                    proof {
                        assert(spec_tab_hit(*t, x, y) == spec_tab_header_hit_from(*t, x, 0));
                        assert(events@ =~= old(events)@ + spec_tab_hit(*t, x, y).1);
                    }
                    return Some(tab.close_btn.uuid);
                }
                let is_active = match t.active_tab {
                    Some(id) => id == tab.uuid,
                    None => false,
                };
                if is_active {
                    proof {
                        assert(spec_tab_hit(*t, x, y).0 == spec_tab_header_hit_from(*t, x, 0).0
                            && spec_tab_hit(*t, x, y).1 == spec_tab_header_hit_from(
                            *t,
                            x,
                            0,
                        ).1);
                        assert(events@ =~= old(events)@ + spec_tab_hit(*t, x, y).1);
                    }
                    return None;
                }
                events.publish(
                    UserEvent::TabSelected(
                        t.layout_base.main_win_uuid,
                        t.layout_base.uuid,
                        tab.uuid,
                    ),
                );
                proof {
                    assert(spec_tab_hit(*t, x, y).0 == spec_tab_header_hit_from(*t, x, 0).0
                        && spec_tab_hit(*t, x, y).1 == spec_tab_header_hit_from(*t, x, 0).1);
                    assert(events@ =~= old(events)@ + spec_tab_hit(*t, x, y).1);
                }
                return None;
            }
            i = i + 1;
        }
        proof {
            assert(spec_tab_hit(*t, x, y).0 == spec_tab_header_hit_from(*t, x, 0).0
                && spec_tab_hit(*t, x, y).1 == spec_tab_header_hit_from(*t, x, 0).1);
            assert(events@ =~= old(events)@ + spec_tab_hit(*t, x, y).1);
        }
        None
    } else {
        match &t.active_tab {
            Some(id) => {
                match t.index_of(*id) {
                    Some(i) => {
                        proof {
                            assert(t.tabs@[i as int].wf());
                            assert(decreases_to!(*t => t.tabs));
                            assert(decreases_to!(t.tabs => t.tabs@));
                            assert(decreases_to!(t.tabs@ => t.tabs@[i as int]));
                            assert(decreases_to!(t.tabs@[i as int] => t.tabs@[i as int].contents));
                        }
                        let tab = &t.tabs[i];
                        let res = match &tab.contents {
                            ChildType::Window(w) => Some(w.uuid),
                            ChildType::Layout(l) => layout_hit(&**l, x, y, events),
                        };
                        proof {
                            assert(events@ =~= old(events)@ + spec_tab_hit(*t, x, y).1);
                        }
                        res
                    },
                    None => {
                        proof {
                            assert(events@ =~= old(events)@ + spec_tab_hit(*t, x, y).1);
                        }
                        None
                    },
                }
            },
            None => {
                proof {
                    assert(events@ =~= old(events)@ + spec_tab_hit(*t, x, y).1);
                }
                None
            },
        }
    }
}

} // verus!

verus! {

/// What the row algorithm reads of one child slot: its id, its natural size
/// (clamped into the dimension range) and, for widgets, the declared
/// minimum.
pub open spec fn spec_meta(c: ChildType) -> crate::row_geometry::ChildMeta {
    crate::row_geometry::ChildMeta {
        id: c.spec_id(),
        nat_w: clamp_dim(spec_nat_size(c).0) as i64,
        nat_h: clamp_dim(spec_nat_size(c).1) as i64,
        min: match c {
            ChildType::Window(w) => w.min_size,
            ChildType::Layout(_) => None,
        },
    }
}

/// The metadata of every child slot, in order.
pub open spec fn spec_metas(s: Seq<ChildType>) -> Seq<crate::row_geometry::ChildMeta> {
    Seq::new(s.len(), |i: int| spec_meta(s[i]))
}

/// Clamps a coordinate into the coordinate range.
fn clamp_coord_exec(v: i64) -> (r: i64)
    ensures
        r as int == crate::row_geometry::clamp_coord(v as int),
        valid_coord(r),
{
    if v < -MAX_DIM {
        -MAX_DIM
    } else if v > MAX_DIM {
        MAX_DIM
    } else {
        v
    }
}

/// The layer a laid-out child slot hands back and caches: a widget's own
/// layer; a row's, scroll's or tab's composed layer; a border's outer-row
/// layer.
pub open spec fn spec_cached_layer(c: ChildType) -> tiny_skia::Pixmap {
    match c {
        ChildType::Window(w) => w.pixmap,
        ChildType::Layout(l) => match *l {
            LayoutNode::Row(r) => r.layout_base.pixmap,
            LayoutNode::Border(b) => b.rows.layout_base.pixmap,
            LayoutNode::Scroll(s) => s.layout_base.pixmap,
            LayoutNode::Tab(t) => t.layout_base.pixmap,
        },
    }
}

/// The row's composed layer after its first `k` children are drawn: a blank
/// layer of the region's size, with each laid-out child's layer blitted at
/// its computed place, in stacking order.
pub open spec fn spec_row_composite(
    before: Seq<ChildType>,
    after: Seq<ChildType>,
    o: Orientation,
    p: i64,
    fill: crate::child_window::LayoutFill,
    width: i64,
    height: i64,
    k: int,
) -> tiny_skia::Pixmap
    decreases k,
{
    if k <= 0 {
        crate::raster::filled_layer(
            crate::raster::layer_alloc_dims(width, height).0,
            crate::raster::layer_alloc_dims(width, height).1,
            0,
            0,
            0,
            0,
        )
    } else {
        let place = crate::row_geometry::row_place(spec_metas(before), k - 1, o, p, fill, width, height);
        crate::raster::blitted_layer(
            spec_row_composite(before, after, o, p, fill, width, height, k - 1),
            crate::raster::clamp_blit(place.x as int),
            crate::raster::clamp_blit(place.y as int),
            spec_cached_layer(after[k - 1]),
        )
    }
}

/// The composite of the first `k` children reads only those children.
proof fn lemma_composite_prefix(
    before: Seq<ChildType>,
    a1: Seq<ChildType>,
    a2: Seq<ChildType>,
    o: Orientation,
    p: i64,
    fill: crate::child_window::LayoutFill,
    width: i64,
    height: i64,
    k: int,
)
    requires
        forall|j: int| 0 <= j < k ==> a1[j] == a2[j],
    ensures
        spec_row_composite(before, a1, o, p, fill, width, height, k) == spec_row_composite(
            before,
            a2,
            o,
            p,
            fill,
            width,
            height,
            k,
        ),
    decreases k,
{
    if k > 0 {
        lemma_composite_prefix(before, a1, a2, o, p, fill, width, height, k - 1);
    }
}

/// Lays out one child slot at the given position and size: a widget is asked
/// to redraw there, a layout recursively arranges its own children there.
/// Hands back the laid-out slot and the layer it rendered.
pub fn node_layout(c: ChildType, x: i64, y: i64, width: i64, height: i64, events: &mut EventQueue) -> (r: (
    ChildType,
    tiny_skia::Pixmap,
))
    requires
        c.wf(),
        valid_coord(x),
        valid_coord(y),
        valid_dim(width),
        valid_dim(height),
    ensures
        r.0.wf(),
        r.0.spec_id() == c.spec_id(),
        r.0.spec_loc() == (x, y),
        (c matches ChildType::Window(w) ==> r.0 == ChildType::Window(
            w.spec_redraw(x, y, width, height, false),
        ) && r.1 == w.spec_redraw(x, y, width, height, false).pixmap),
        row_slot_uuid(r.0) == row_slot_uuid(c),
        r.1 == spec_cached_layer(r.0),
    decreases c,
{
    match c {
        ChildType::Window(mut w) => {
            let pix = w.redraw(x, y, width, height, false);
            (ChildType::Window(w), pix)
        },
        ChildType::Layout(l) => {
            let (l2, pix) = match *l {
                LayoutNode::Row(r) => {
                    let (r2, pix) = row_layout_run(r, x, y, width, height, events);
                    (LayoutNode::Row(r2), pix)
                },
                LayoutNode::Border(b) => {
                    let (b2, pix) = border_layout_run(b, x, y, width, height, events);
                    (LayoutNode::Border(b2), pix)
                },
                LayoutNode::Scroll(s) => {
                    let (s2, pix) = scroll_layout_run(s, x, y, width, height, events);
                    (LayoutNode::Scroll(s2), pix)
                },
                LayoutNode::Tab(t) => {
                    let (t2, pix) = tab_layout_run(t, x, y, width, height, events);
                    (LayoutNode::Tab(t2), pix)
                },
            };
            (ChildType::Layout(Box::new(l2)), pix)
        },
    }
}

/// A widget redrawn at a computed place: positioned at the place's offset
/// from the row's origin (clamped into the coordinate range) and sized to
/// the place's extent (clamped below at zero).
pub open spec fn spec_place_redraw(
    wb: WindowBase,
    x: i64,
    y: i64,
    place: crate::row_geometry::Place,
) -> WindowBase {
    wb.spec_redraw(
        crate::row_geometry::clamp_coord(x + place.x) as i64,
        crate::row_geometry::clamp_coord(y + place.y) as i64,
        if place.width < 0 {
            0
        } else {
            place.width
        },
        if place.height < 0 {
            0
        } else {
            place.height
        },
        false,
    )
}

/// One pass of the row algorithm: sizes and positions are computed from the
/// children's current metadata, every child is laid out at its place (its
/// position clamped into the coordinate range, its size into the dimension
/// range), and the children's layers are composited into the row's own
/// layer, which is cached and returned.
pub fn row_layout_run(
    l: RowLayout,
    x: i64,
    y: i64,
    width: i64,
    height: i64,
    events: &mut EventQueue,
) -> (r: (RowLayout, tiny_skia::Pixmap))
    requires
        l.wf(),
        valid_coord(x),
        valid_coord(y),
        valid_dim(width),
        valid_dim(height),
    ensures
        r.0.wf(),
        r.0.layout_base.uuid == l.layout_base.uuid,
        r.0.layout_base.main_win_x == x,
        r.0.layout_base.main_win_y == y,
        r.0.orientation == l.orientation,
        r.0.inner_padding == l.inner_padding,
        r.0.fill_algorithm == l.fill_algorithm,
        r.1 == r.0.layout_base.pixmap,
        r.1 == spec_row_composite(
            l.children@,
            r.0.children@,
            l.orientation,
            l.inner_padding,
            l.fill_algorithm,
            width,
            height,
            l.children@.len() as int,
        ),
        crate::raster::layer_width(r.1) == crate::raster::layer_alloc_dims(width, height).0,
        crate::raster::layer_height(r.1) == crate::raster::layer_alloc_dims(width, height).1,
        r.0.children@.len() == l.children@.len(),
        (forall|i: int|
            0 <= i < l.children@.len() ==> (#[trigger] r.0.children@[i]).spec_id()
                == l.children@[i].spec_id()),
        (forall|i: int|
            0 <= i < l.children@.len() ==> row_slot_uuid(#[trigger] r.0.children@[i])
                == row_slot_uuid(l.children@[i])),
        (forall|i: int|
            0 <= i < l.children@.len() ==> (#[trigger] r.0.children@[i]).spec_loc().0 as int
                == crate::row_geometry::clamp_coord(
                x + crate::row_geometry::row_place(
                    spec_metas(l.children@),
                    i,
                    l.orientation,
                    l.inner_padding,
                    l.fill_algorithm,
                    width,
                    height,
                ).x,
            ) && (#[trigger] r.0.children@[i]).spec_loc().1 as int
                == crate::row_geometry::clamp_coord(
                y + crate::row_geometry::row_place(
                    spec_metas(l.children@),
                    i,
                    l.orientation,
                    l.inner_padding,
                    l.fill_algorithm,
                    width,
                    height,
                ).y,
            )),
        // Each widget child was re-rendered at its computed place and size.
        (forall|i: int|
            0 <= i < l.children@.len() ==> (l.children@[i] matches ChildType::Window(wb)
                ==> #[trigger] r.0.children@[i] == ChildType::Window(
                spec_place_redraw(
                    wb,
                    x,
                    y,
                    crate::row_geometry::row_place(
                        spec_metas(l.children@),
                        i,
                        l.orientation,
                        l.inner_padding,
                        l.fill_algorithm,
                        width,
                        height,
                    ),
                ),
            ))),
    decreases l,
{
    let RowLayout {
        mut layout_base,
        orientation,
        inner_padding,
        mut children,
        fill_algorithm,
        max_width,
        max_height,
    } = l;
    layout_base.main_win_x = x;
    layout_base.main_win_y = y;
    let mut pixmap = crate::raster::layer_new_or_fallback(width, height);

    // Collect each child's metadata: id, natural size, declared minimum.
    let n = children.len();
    let mut metas: Vec<crate::row_geometry::ChildMeta> = Vec::new();
    let mut i: usize = 0;
    while i < n
        invariant
            n == children@.len(),
            children@ == l.children@,
            l.wf(),
            i <= n,
            metas@.len() == i,
            forall|j: int| 0 <= j < i ==> #[trigger] metas@[j] == spec_meta(children@[j]),
        decreases n - i,
    {
        proof {
            assert(l.children@[i as int].wf());
        }
        let c = &children[i];
        let (nw, nh) = nat_size(c);
        let min = match c {
            ChildType::Window(w) => w.min_size,
            ChildType::Layout(_) => None,
        };
        metas.push(crate::row_geometry::ChildMeta { id: c.id(), nat_w: nw, nat_h: nh, min });
        i = i + 1;
    }
    proof {
        assert(metas@ =~= spec_metas(l.children@));
        assert(crate::row_geometry::all_children_wf(metas@));
    }
    let places = crate::row_geometry::compute_row_places(
        &metas,
        orientation,
        inner_padding,
        fill_algorithm,
        width,
        height,
    );

    // Lay out each child at its place and composite its layer.
    let mut new_children: Vec<ChildType> = Vec::new();
    let mut i: usize = 0;
    while i < n
        invariant
            n == l.children@.len(),
            children@ == l.children@.skip(i as int),
            l.wf(),
            i <= n,
            valid_coord(x),
            valid_coord(y),
            valid_dim(width),
            valid_dim(height),
            places@.len() == n,
            forall|j: int|
                0 <= j < n ==> #[trigger] places@[j] == crate::row_geometry::row_place(
                    spec_metas(l.children@),
                    j,
                    l.orientation,
                    l.inner_padding,
                    l.fill_algorithm,
                    width,
                    height,
                ),
            crate::raster::layer_width(pixmap) == crate::raster::layer_alloc_dims(
                width,
                height,
            ).0,
            crate::raster::layer_height(pixmap) == crate::raster::layer_alloc_dims(
                width,
                height,
            ).1,
            pixmap == spec_row_composite(
                l.children@,
                new_children@,
                l.orientation,
                l.inner_padding,
                l.fill_algorithm,
                width,
                height,
                i as int,
            ),
            new_children@.len() == i,
            forall|j: int|
                0 <= j < i ==> (#[trigger] new_children@[j]).wf() && new_children@[j].spec_id()
                    == l.children@[j].spec_id() && row_slot_uuid(new_children@[j])
                    == row_slot_uuid(l.children@[j]) && new_children@[j].spec_loc().0 as int
                    == crate::row_geometry::clamp_coord(x + places@[j].x) && new_children@[
                    j
                ].spec_loc().1 as int == crate::row_geometry::clamp_coord(y + places@[j].y),
            forall|j: int|
                0 <= j < i ==> (l.children@[j] matches ChildType::Window(wb)
                    ==> #[trigger] new_children@[j] == ChildType::Window(
                    spec_place_redraw(wb, x, y, places@[j]),
                )),
        decreases n - i,
    {
        proof {
            assert(l.children@[i as int].wf());
            assert(children@[0] == l.children@[i as int]);
            assert(decreases_to!(l => l.children));
            assert(decreases_to!(l.children => l.children@));
            assert(decreases_to!(l.children@ => l.children@[i as int]));
        }
        let child = children.remove(0);
        let place = places[i];
        let cx = clamp_coord_exec(x + place.x);
        let cy = clamp_coord_exec(y + place.y);
        let cw = if place.width < 0 {
            0
        } else {
            place.width
        };
        let ch = if place.height < 0 {
            0
        } else {
            place.height
        };
        let (child2, child_pix) = node_layout(child, cx, cy, cw, ch, events);
        proof {
            let ghost prev = new_children@;
            lemma_composite_prefix(
                l.children@,
                prev,
                prev.push(child2),
                l.orientation,
                l.inner_padding,
                l.fill_algorithm,
                width,
                height,
                i as int,
            );
        }
        crate::raster::layer_blit_at(&mut pixmap, place.x, place.y, &child_pix);
        new_children.push(child2);
        i = i + 1;
    }
    layout_base.pixmap = pixmap.clone();
    let out = RowLayout {
        layout_base,
        orientation,
        inner_padding,
        children: new_children,
        fill_algorithm,
        max_width,
        max_height,
    };
    (out, pixmap)
}

/// One pass of the border layout: the outer row does the work, and the
/// border records its own position.
pub fn border_layout_run(
    b: BorderLayout,
    x: i64,
    y: i64,
    width: i64,
    height: i64,
    events: &mut EventQueue,
) -> (r: (BorderLayout, tiny_skia::Pixmap))
    requires
        b.wf(),
        valid_coord(x),
        valid_coord(y),
        valid_dim(width),
        valid_dim(height),
    ensures
        r.0.wf(),
        r.0.layout_base.uuid == b.layout_base.uuid,
        r.0.layout_base.main_win_x == x,
        r.0.layout_base.main_win_y == y,
        r.0.center_uuid == b.center_uuid,
        r.0.rows.fill_algorithm == b.rows.fill_algorithm,
        r.0.rows.orientation == b.rows.orientation,
        r.0.rows.inner_padding == b.rows.inner_padding,
        r.0.rows.layout_base.main_win_x == x,
        r.0.rows.layout_base.main_win_y == y,
        r.1 == r.0.rows.layout_base.pixmap,
        r.1 == spec_row_composite(
            b.rows.children@,
            r.0.rows.children@,
            b.rows.orientation,
            b.rows.inner_padding,
            b.rows.fill_algorithm,
            width,
            height,
            b.rows.children@.len() as int,
        ),
        crate::raster::layer_width(r.1) == crate::raster::layer_alloc_dims(width, height).0,
        crate::raster::layer_height(r.1) == crate::raster::layer_alloc_dims(width, height).1,
        r.0.rows.children@.len() == b.rows.children@.len(),
        (forall|i: int|
            0 <= i < b.rows.children@.len() ==> (#[trigger] r.0.rows.children@[i]).spec_loc().0
                as int == crate::row_geometry::clamp_coord(
                x + crate::row_geometry::row_place(
                    spec_metas(b.rows.children@),
                    i,
                    b.rows.orientation,
                    b.rows.inner_padding,
                    b.rows.fill_algorithm,
                    width,
                    height,
                ).x,
            ) && r.0.rows.children@[i].spec_loc().1 as int == crate::row_geometry::clamp_coord(
                y + crate::row_geometry::row_place(
                    spec_metas(b.rows.children@),
                    i,
                    b.rows.orientation,
                    b.rows.inner_padding,
                    b.rows.fill_algorithm,
                    width,
                    height,
                ).y,
            )),
    decreases b,
{
    let BorderLayout { mut layout_base, rows, center_uuid } = b;
    layout_base.main_win_x = x;
    layout_base.main_win_y = y;
    proof {
        assert(decreases_to!(b => b.rows));
    }
    let (rows2, pixmap) = row_layout_run(rows, x, y, width, height, events);
    proof {
        let ci = choose|i: int|
            0 <= i < b.rows.children@.len() && is_center_slot(
                #[trigger] b.rows.children@[i],
                center_uuid,
            );
        assert(row_slot_uuid(rows2.children@[ci]) == row_slot_uuid(b.rows.children@[ci]));
        assert(is_center_slot(rows2.children@[ci], center_uuid));
    }
    (BorderLayout { layout_base, rows: rows2, center_uuid }, pixmap)
}

} // verus!

verus! {

/// A size capped by an optional maximum.
pub open spec fn spec_capped(v: i64, max: Option<i64>) -> int {
    match max {
        Some(m) => if v > m {
            m as int
        } else {
            v as int
        },
        None => v as int,
    }
}

fn capped(v: i64, max: Option<i64>) -> (r: i64)
    ensures
        r as int == spec_capped(v, max),
{
    match max {
        Some(m) => if v > m {
            m
        } else {
            v
        },
        None => v,
    }
}

/// The scroll layout's composed layer: a blank layer of the layout's
/// (capped) size; with a child attached, the child's layer at the origin,
/// and each visible bar's layer over it along its far edge — bars are
/// composited over the child, so they are never occluded.
pub open spec fn spec_scroll_composite(after: ScrollLayout, width: i64, height: i64) -> tiny_skia::Pixmap {
    let base = crate::raster::filled_layer(
        crate::raster::layer_alloc_dims(after.layout_base.width, after.layout_base.height).0,
        crate::raster::layer_alloc_dims(after.layout_base.width, after.layout_base.height).1,
        0,
        0,
        0,
        0,
    );
    match after.child {
        None => base,
        Some(c) => {
            let with_child = crate::raster::blitted_layer(base, 0, 0, c.pixmap);
            let with_v = if after.v_scroll.spec_visible() {
                crate::raster::blitted_layer(
                    with_child,
                    crate::raster::clamp_blit(width - crate::scroll_bar::BAR_SIZE),
                    0,
                    after.v_scroll.window_base.pixmap,
                )
            } else {
                with_child
            };
            if after.h_scroll.spec_visible() {
                crate::raster::blitted_layer(
                    with_v,
                    0,
                    crate::raster::clamp_blit(height - crate::scroll_bar::BAR_SIZE),
                    after.h_scroll.window_base.pixmap,
                )
            } else {
                with_v
            }
        },
    }
}

/// One pass of the scroll layout — one frame of the scroll-coordination
/// protocol: the child's four scroll bounds and current values are read and
/// pushed into the bars; each bar's visibility follows from that fresh range
/// alone; the child's drawable region loses the visible bars' thickness; the
/// visible bars are rendered at the far edges and composited over the child.
pub fn scroll_layout_run(
    s: ScrollLayout,
    x: i64,
    y: i64,
    width: i64,
    height: i64,
    events: &mut EventQueue,
) -> (r: (ScrollLayout, tiny_skia::Pixmap))
    requires
        s.wf(),
        valid_coord(x),
        valid_coord(y),
        valid_dim(width),
        valid_dim(height),
    ensures
        r.0.wf(),
        r.0.layout_base.uuid == s.layout_base.uuid,
        r.0.layout_base.main_win_x == x,
        r.0.layout_base.main_win_y == y,
        r.0.layout_base.width as int == clamp_dim(spec_capped(width, s.max_width)),
        r.0.layout_base.height as int == clamp_dim(spec_capped(height, s.max_height)),
        r.1 == r.0.layout_base.pixmap,
        r.1 == spec_scroll_composite(r.0, width, height),
        r.0.h_scroll.window_base.uuid == s.h_scroll.window_base.uuid,
        r.0.v_scroll.window_base.uuid == s.v_scroll.window_base.uuid,
        s.child is None ==> r.0.h_scroll == s.h_scroll && r.0.v_scroll == s.v_scroll && r.0.child
            is None && final(events)@ == old(events)@,
        s.child matches Some(c) ==> {
            // The child's scroll ranges were pushed into the bars, whose
            // visibility now follows from those ranges alone.
            &&& r.0.h_scroll.min_value == c.x_scroll_min
            &&& r.0.h_scroll.max_value == c.x_scroll_max
            &&& r.0.h_scroll.value == c.x_scroll
            &&& r.0.h_scroll.spec_visible() == (c.x_scroll_max > c.x_scroll_min)
            &&& r.0.v_scroll.min_value == c.y_scroll_min
            &&& r.0.v_scroll.max_value == c.y_scroll_max
            &&& r.0.v_scroll.value == c.y_scroll
            &&& r.0.v_scroll.spec_visible() == (c.y_scroll_max > c.y_scroll_min)
            // The child was redrawn into the region less the visible bars.
            &&& (r.0.child matches Some(c2) && c2 == ({
                let vsize: i64 = if c.y_scroll_max > c.y_scroll_min {
                    crate::scroll_bar::BAR_SIZE
                } else {
                    0
                };
                let hsize: i64 = if c.x_scroll_max > c.x_scroll_min {
                    crate::scroll_bar::BAR_SIZE
                } else {
                    0
                };
                let c1 = WindowBase {
                    width: clamp_dim(clamp_dim(spec_capped(width, s.max_width)) - vsize) as i64,
                    height: clamp_dim(
                        clamp_dim(spec_capped(height, s.max_height)) - hsize,
                    ) as i64,
                    ..c
                };
                c1.spec_redraw(
                    x,
                    y,
                    clamp_dim(width - vsize) as i64,
                    clamp_dim(height - hsize) as i64,
                    true,
                )
            }))
        },
{
    let ScrollLayout { mut layout_base, max_width, max_height, child, mut h_scroll, mut v_scroll }
        = s;
    layout_base.main_win_x = x;
    layout_base.main_win_y = y;
    layout_base.width = clamp_dim_exec(capped(width, max_width) as i128);
    layout_base.height = clamp_dim_exec(capped(height, max_height) as i128);
    let mut pixmap = crate::raster::layer_new_or_fallback(layout_base.width, layout_base.height);

    let new_child = match child {
        Some(mut c) => {
            // Read the child's scroll bounds and push them into the bars.
            let h_min = c.x_scroll_min;
            let h_max = c.x_scroll_max;
            let h_value = c.x_scroll;
            let v_min = c.y_scroll_min;
            let v_max = c.y_scroll_max;
            let v_value = c.y_scroll;
            h_scroll.set_range(h_min, h_max, h_value, events);
            let h_visible = h_scroll.is_visible();
            v_scroll.set_range(v_min, v_max, v_value, events);
            let v_visible = v_scroll.is_visible();

            // Render the visible bars along the far edges.
            let bar = crate::scroll_bar::BAR_SIZE;
            let v_pix = if v_visible {
                let v_height = if h_visible {
                    height - bar
                } else {
                    height
                };
                Some(
                    v_scroll.redraw(
                        clamp_coord_exec(x + layout_base.width - bar),
                        y,
                        bar,
                        if v_height < 0 {
                            0
                        } else {
                            v_height
                        },
                        true,
                    ),
                )
            } else {
                None
            };
            let h_pix = if h_scroll.is_visible() {
                let h_width = if v_visible {
                    width - bar
                } else {
                    width
                };
                Some(
                    h_scroll.redraw(
                        x,
                        clamp_coord_exec(y + layout_base.height - bar),
                        if h_width < 0 {
                            0
                        } else {
                            h_width
                        },
                        bar,
                        true,
                    ),
                )
            } else {
                None
            };

            // The child fills the layout less the visible bars.
            let vsize: i64 = if v_visible {
                bar
            } else {
                0
            };
            let hsize: i64 = if h_visible {
                bar
            } else {
                0
            };
            c.width = clamp_dim_exec(layout_base.width as i128 - vsize as i128);
            c.height = clamp_dim_exec(layout_base.height as i128 - hsize as i128);
            let cw = if width - vsize < 0 {
                0
            } else {
                width - vsize
            };
            let chh = if height - hsize < 0 {
                0
            } else {
                height - hsize
            };
            let child_pix = c.redraw(x, y, cw, chh, true);

            // Composite: the child first, then the bars over it along the
            // far edges, so the bars are never occluded.
            crate::raster::layer_blit_at(&mut pixmap, 0, 0, &child_pix);
            match &v_pix {
                Some(p) => crate::raster::layer_blit_at(&mut pixmap, width - bar, 0, p),
                None => {},
            }
            match &h_pix {
                Some(p) => crate::raster::layer_blit_at(&mut pixmap, 0, height - bar, p),
                None => {},
            }
            Some(c)
        },
        None => None,
    };
    layout_base.pixmap = pixmap.clone();
    (
        ScrollLayout { layout_base, max_width, max_height, child: new_child, h_scroll, v_scroll },
        pixmap,
    )
}

/// The width of one tab's header: left edge, title at one character cell per
/// byte, gap, close button, right padding — clamped into the dimension
/// range.
pub open spec fn spec_tab_header_width(f: crate::tab_layout::FontMetrics, tab: crate::tab_layout::Tab) -> int {
    clamp_dim(
        2 + f.char_width * tab.title_len + 15 + tab.close_btn.spec_drawing_size().0
            + crate::tab_layout::TOP_RIGHT_PADDING,
    )
}

/// Where tab `k`'s header starts: after every earlier header, saturating at
/// the edge of the coordinate range.
pub open spec fn spec_tab_span_start(
    tabs: Seq<crate::tab_layout::Tab>,
    f: crate::tab_layout::FontMetrics,
    k: int,
) -> int
    decreases k,
{
    if k <= 0 || k > tabs.len() {
        0
    } else {
        clamp_dim(
            spec_tab_span_start(tabs, f, k - 1) + spec_tab_header_width(f, tabs[k - 1]),
        )
    }
}

/// One pass of the tab layout: the header spans are recomputed from the
/// font metrics (with no metrics set they are left as they were), and the
/// active tab's contents are laid out inset by the frame margin below the
/// header strip; only the active tab's contents are rendered.
#[verifier::rlimit(100)]
pub fn tab_layout_run(
    t: TabLayout,
    x: i64,
    y: i64,
    width: i64,
    height: i64,
    events: &mut EventQueue,
) -> (r: (TabLayout, tiny_skia::Pixmap))
    requires
        t.wf(),
        valid_coord(x),
        valid_coord(y),
        valid_dim(width),
        valid_dim(height),
    ensures
        r.0.wf(),
        r.0.layout_base.uuid == t.layout_base.uuid,
        r.0.layout_base.main_win_x == x,
        r.0.layout_base.main_win_y == y,
        r.0.layout_base.width as int == clamp_dim(spec_capped(width, t.max_width)),
        r.0.layout_base.height as int == clamp_dim(spec_capped(height, t.max_height)),
        r.0.active_tab == t.active_tab,
        r.0.font == t.font,
        r.0.tab_top_height == t.tab_top_height,
        r.1 == r.0.layout_base.pixmap,
        crate::raster::layer_width(r.1) == crate::raster::layer_alloc_dims(width, height).0,
        crate::raster::layer_height(r.1) == crate::raster::layer_alloc_dims(width, height).1,
        r.0.tabs@.len() == t.tabs@.len(),
        (forall|i: int|
            0 <= i < t.tabs@.len() ==> (#[trigger] r.0.tabs@[i]).uuid == t.tabs@[i].uuid),
        (t.font matches Some(f) ==> forall|i: int|
            0 <= i < t.tabs@.len() ==> (#[trigger] r.0.tabs@[i]).top_start_x as int
                == spec_tab_span_start(t.tabs@, f, i) && r.0.tabs@[i].top_width as int
                == spec_tab_header_width(f, t.tabs@[i])),
        (t.font is None ==> forall|i: int|
            0 <= i < t.tabs@.len() ==> (#[trigger] r.0.tabs@[i]).top_start_x == t.tabs@[i
            ].top_start_x && r.0.tabs@[i].top_width == t.tabs@[i].top_width),
        ({
            let base = crate::raster::filled_layer(
                crate::raster::layer_alloc_dims(width, height).0,
                crate::raster::layer_alloc_dims(width, height).1,
                0,
                0,
                0,
                0,
            );
            let bars = match t.font {
                Some(_f) => spec_tab_header_bars(
                    base,
                    r.0.tabs@,
                    t.active_tab,
                    t.tab_top_height,
                    t.tabs@.len() as int,
                ),
                None => base,
            };
            let header_end = match t.font {
                Some(f) => spec_tab_span_start(t.tabs@, f, t.tabs@.len() as int),
                None => 0int,
            };
            let framed = spec_tab_frame(bars, t.tab_top_height, width, height, header_end as i64);
            match r.0.active_tab {
                Some(aid) => match r.0.spec_index_of(aid) {
                    Some(i) => {
                        // The active tab's contents were laid out inset
                        // inside the content frame and composited there.
                        &&& r.0.tabs@[i].contents.spec_loc().0 == x
                        &&& r.0.tabs@[i].contents.spec_loc().1 as int
                            == crate::row_geometry::clamp_coord(y + t.tab_top_height + 2)
                        &&& r.1 == crate::raster::blitted_layer(
                            framed,
                            2,
                            crate::raster::clamp_blit(t.tab_top_height + 2),
                            spec_cached_layer(r.0.tabs@[i].contents),
                        )
                    },
                    None => r.1 == framed,
                },
                None => r.1 == framed,
            }
        }),
    decreases t,
{
    let TabLayout {
        mut layout_base,
        font,
        mut tabs,
        active_tab,
        tab_top_height,
        max_width,
        max_height,
    } = t;
    layout_base.main_win_x = x;
    layout_base.main_win_y = y;
    layout_base.width = clamp_dim_exec(capped(width, max_width) as i128);
    layout_base.height = clamp_dim_exec(capped(height, max_height) as i128);
    let mut pixmap = crate::raster::layer_new_or_fallback(width, height);

    // Recompute the header spans from the font metrics, drawing each tab's
    // header edges as the spans settle.
    let n = tabs.len();
    let mut header_end: i64 = 0;
    let mut new_tabs: Vec<crate::tab_layout::Tab> = Vec::new();
    match font {
        Some(metrics) => {
            let mut acc: i64 = 0;
            let mut i: usize = 0;
            while i < n
                invariant
                    t.wf(),
                    t.font == Some(metrics),
                    n == t.tabs@.len(),
                    tabs@ == t.tabs@.skip(i as int),
                    i <= n,
                    valid_dim(width),
                    valid_dim(height),
                    valid_dim(tab_top_height),
                    tab_top_height == t.tab_top_height,
                    active_tab == t.active_tab,
                    new_tabs@.len() == i,
                    acc as int == spec_tab_span_start(t.tabs@, metrics, i as int),
                    valid_dim(acc),
                    crate::raster::layer_width(pixmap) == crate::raster::layer_alloc_dims(
                        width,
                        height,
                    ).0,
                    crate::raster::layer_height(pixmap) == crate::raster::layer_alloc_dims(
                        width,
                        height,
                    ).1,
                    pixmap == spec_tab_header_bars(
                        crate::raster::filled_layer(
                            crate::raster::layer_alloc_dims(width, height).0,
                            crate::raster::layer_alloc_dims(width, height).1,
                            0,
                            0,
                            0,
                            0,
                        ),
                        new_tabs@,
                        active_tab,
                        tab_top_height,
                        i as int,
                    ),
                    forall|j: int|
                        0 <= j < i ==> (#[trigger] new_tabs@[j]).wf() && new_tabs@[j]
                            == (crate::tab_layout::Tab {
                            top_start_x: new_tabs@[j].top_start_x,
                            top_width: new_tabs@[j].top_width,
                            ..t.tabs@[j]
                        }) && new_tabs@[j].top_start_x as int == spec_tab_span_start(
                            t.tabs@,
                            metrics,
                            j,
                        ) && new_tabs@[j].top_width as int == spec_tab_header_width(
                            metrics,
                            t.tabs@[j],
                        ),
                decreases n - i,
            {
                proof {
                    assert(t.tabs@[i as int].wf());
                    assert(tabs@[0] == t.tabs@[i as int]);
                }
                let mut tab = tabs.remove(0);
                let (bw, _bh) = tab.close_btn.get_drawing_size();
                proof {
                    assert(
                        metrics.char_width as i128 * tab.title_len as i128 >= 0
                            && metrics.char_width as i128 * tab.title_len as i128
                            <= 0x40000000i128 * 0x10000000000000000i128
                    ) by (nonlinear_arith)
                        requires
                            0 <= metrics.char_width as i128 <= 0x40000000i128,
                            0 <= tab.title_len as i128 <= 0x10000000000000000i128,
                    ;
                }
                let header: i64 = clamp_dim_exec(
                    2 + metrics.char_width as i128 * tab.title_len as i128 + 15 + bw as i128
                        + crate::tab_layout::TOP_RIGHT_PADDING as i128,
                );
                tab.top_start_x = acc;
                tab.top_width = header;
                let is_active = match active_tab {
                    Some(a) => a == tab.uuid,
                    None => false,
                };
                let ghost prev_new = new_tabs@;
                draw_tab_header_bars(
                    &mut pixmap,
                    tab.top_start_x,
                    tab.top_width,
                    tab_top_height,
                    is_active,
                    Ghost(tab),
                    Ghost(active_tab),
                );
                acc = clamp_dim_exec(acc as i128 + header as i128);
                new_tabs.push(tab);
                proof {
                    let base = crate::raster::filled_layer(
                        crate::raster::layer_alloc_dims(width, height).0,
                        crate::raster::layer_alloc_dims(width, height).1,
                        0,
                        0,
                        0,
                        0,
                    );
                    lemma_header_bars_prefix(
                        base,
                        prev_new,
                        new_tabs@,
                        active_tab,
                        tab_top_height,
                        i as int,
                    );
                    lemma_header_bars_step(base, new_tabs@, active_tab, tab_top_height, i as int);
                }
                i = i + 1;
            }
            header_end = acc;
        },
        None => {
            let mut i: usize = 0;
            while i < n
                invariant
                    t.wf(),
                    n == t.tabs@.len(),
                    tabs@ == t.tabs@.skip(i as int),
                    i <= n,
                    new_tabs@.len() == i,
                    forall|j: int| 0 <= j < i ==> #[trigger] new_tabs@[j] == t.tabs@[j],
                decreases n - i,
            {
                proof {
                    assert(t.tabs@[i as int].wf());
                    assert(tabs@[0] == t.tabs@[i as int]);
                }
                let tab = tabs.remove(0);
                new_tabs.push(tab);
                i = i + 1;
            }
        },
    }

    // The header strip's remaining top line and the content frame.
    draw_tab_frame(&mut pixmap, tab_top_height, width, height, header_end);
    let ghost spans_tabs = new_tabs@;

    // Render the active tab's contents inset inside the content frame.
    let mut out_tabs = new_tabs;
    match active_tab {
        Some(active_id) => {
            let idx = find_tab_index(&out_tabs, active_id);
            match idx {
                Some(i) => {
                    let ghost pre_tabs = out_tabs@;
                    proof {
                        assert(out_tabs@[i as int].wf());
                        assert(decreases_to!(t => t.tabs));
                        assert(decreases_to!(t.tabs => t.tabs@));
                        assert(decreases_to!(t.tabs@ => t.tabs@[i as int]));
                        assert(decreases_to!(t.tabs@[i as int] => t.tabs@[i as int].contents));
                    }
                    let mut tab = out_tabs.remove(i);
                    let cx = x;
                    let cy = clamp_coord_exec(y + tab_top_height + 2);
                    let cw = if width - 4 < 0 {
                        0
                    } else {
                        width - 4
                    };
                    let chh = {
                        let v = height - tab_top_height - 4;
                        if v < 0 {
                            0
                        } else {
                            v
                        }
                    };
                    let mut contents = ChildType::Window(WindowBase::new(layout_base.main_win_uuid));
                    std::mem::swap(&mut contents, &mut tab.contents);
                    let (contents2, child_pix) = node_layout(contents, cx, cy, cw, chh, events);
                    tab.contents = contents2;
                    crate::raster::layer_blit_at(&mut pixmap, 2, tab_top_height + 2, &child_pix);
                    out_tabs.insert(i, tab);
                    proof {
                        assert(out_tabs@ =~= pre_tabs.update(i as int, out_tabs@[i as int]));
                        assert(forall|j: int|
                            0 <= j < out_tabs@.len() ==> (#[trigger] out_tabs@[j]).uuid
                                == pre_tabs[j].uuid);
                        assert(out_tabs@[i as int].uuid == active_id);
                        assert(forall|j: int| 0 <= j < i ==> out_tabs@[j].uuid != active_id);
                        assert(forall|j: int|
                            0 <= j < out_tabs@.len() ==> (#[trigger] out_tabs@[j]).top_start_x
                                == spans_tabs[j].top_start_x && out_tabs@[j].top_width
                                == spans_tabs[j].top_width && out_tabs@[j].uuid
                                == spans_tabs[j].uuid);
                    }
                },
                None => {},
            }
        },
        None => {},
    }
    proof {
        let base = crate::raster::filled_layer(
            crate::raster::layer_alloc_dims(width, height).0,
            crate::raster::layer_alloc_dims(width, height).1,
            0,
            0,
            0,
            0,
        );
        match font {
            Some(_metrics) => {
                lemma_header_bars_fields(
                    base,
                    spans_tabs,
                    out_tabs@,
                    active_tab,
                    tab_top_height,
                    n as int,
                );
            },
            None => {},
        }
    }
    layout_base.pixmap = pixmap.clone();
    (
        TabLayout {
            layout_base,
            font,
            tabs: out_tabs,
            active_tab,
            tab_top_height,
            max_width,
            max_height,
        },
        pixmap,
    )
}

/// The index of the first tab bearing `uuid`, if any.
fn find_tab_index(tabs: &Vec<crate::tab_layout::Tab>, uuid: WidgetId) -> (r: Option<usize>)
    ensures
        ({
            match r {
                Some(i) => 0 <= i < tabs@.len() && tabs@[i as int].uuid == uuid && (forall|j: int|
                    0 <= j < i ==> tabs@[j].uuid != uuid),
                None => forall|j: int| 0 <= j < tabs@.len() ==> tabs@[j].uuid != uuid,
            }
        }),
{
    let n = tabs.len();
    let mut i: usize = 0;
    while i < n
        invariant
            n == tabs@.len(),
            i <= n,
            forall|j: int| 0 <= j < i ==> tabs@[j].uuid != uuid,
        decreases n - i,
    {
        if tabs[i].uuid == uuid {
            return Some(i);
        }
        i = i + 1;
    }
    None
}

} // verus!

verus! {

/// One input or state operation routed to a single widget by id.
#[derive(Clone, Debug)]
pub enum WidgetOp {
    SetFocused(bool),
    MousePressed(MouseButton, i64, i64),
    MouseReleased(MouseButton, i64, i64),
    MouseDragStart(i64, i64),
    MouseDrag(i64, i64),
    MouseDragEnd(i64, i64),
    MouseMovement(i64, i64),
    MouseWheel(WheelDelta),
    KeyPressed(KeyEventData),
    KeyReleased(KeyEventData),
    SetXScroll(i64),
    SetYScroll(i64),
    SetText(String),
}

impl WidgetOp {
    /// Coordinates and values carried by the operation are in range.
    pub open spec fn wf(&self) -> bool {
        match self {
            WidgetOp::MousePressed(_, x, y) => valid_coord(*x) && valid_coord(*y),
            WidgetOp::MouseReleased(_, x, y) => valid_coord(*x) && valid_coord(*y),
            WidgetOp::MouseDragStart(x, y) => valid_coord(*x) && valid_coord(*y),
            WidgetOp::MouseDrag(x, y) => valid_coord(*x) && valid_coord(*y),
            WidgetOp::MouseDragEnd(x, y) => valid_coord(*x) && valid_coord(*y),
            WidgetOp::MouseMovement(x, y) => valid_coord(*x) && valid_coord(*y),
            WidgetOp::SetXScroll(v) => valid_coord(*v),
            WidgetOp::SetYScroll(v) => valid_coord(*v),
            _ => true,
        }
    }

    /// Checks that the operation's coordinates and values are in range.
    pub fn check_wf(&self) -> (r: bool)
        ensures
            r == self.wf(),
    {
        match self {
            WidgetOp::MousePressed(_, x, y) => -MAX_DIM <= *x && *x <= MAX_DIM && -MAX_DIM <= *y
                && *y <= MAX_DIM,
            WidgetOp::MouseReleased(_, x, y) => -MAX_DIM <= *x && *x <= MAX_DIM && -MAX_DIM <= *y
                && *y <= MAX_DIM,
            WidgetOp::MouseDragStart(x, y) => -MAX_DIM <= *x && *x <= MAX_DIM && -MAX_DIM <= *y
                && *y <= MAX_DIM,
            WidgetOp::MouseDrag(x, y) => -MAX_DIM <= *x && *x <= MAX_DIM && -MAX_DIM <= *y && *y
                <= MAX_DIM,
            WidgetOp::MouseDragEnd(x, y) => -MAX_DIM <= *x && *x <= MAX_DIM && -MAX_DIM <= *y
                && *y <= MAX_DIM,
            WidgetOp::MouseMovement(x, y) => -MAX_DIM <= *x && *x <= MAX_DIM && -MAX_DIM <= *y
                && *y <= MAX_DIM,
            WidgetOp::SetXScroll(v) => -MAX_DIM <= *v && *v <= MAX_DIM,
            WidgetOp::SetYScroll(v) => -MAX_DIM <= *v && *v <= MAX_DIM,
            _ => true,
        }
    }
}

/// What one operation does to a plain widget: focus and scroll positions
/// are stored; new text is stored and the widget re-renders its layer (as a
/// status bar does on a new message); a right press with context-menu
/// entries asks for the menu; every other input is a no-op a concrete widget
/// may refine.
pub open spec fn spec_apply_window_op(w: WindowBase, op: WidgetOp) -> WindowBase {
    match op {
        WidgetOp::SetFocused(b) => WindowBase { focused: b, ..w },
        WidgetOp::SetXScroll(v) => WindowBase { x_scroll: v, ..w },
        WidgetOp::SetYScroll(v) => WindowBase { y_scroll: v, ..w },
        WidgetOp::SetText(s) => {
            let w1 = WindowBase { text: Some(s), ..w };
            let dims = crate::raster::layer_alloc_dims(
                w1.spec_drawing_size().0,
                w1.spec_drawing_size().1,
            );
            WindowBase {
                pixmap: crate::raster::filled_layer(
                    dims.0,
                    dims.1,
                    w1.background_color.r,
                    w1.background_color.g,
                    w1.background_color.b,
                    w1.background_color.a,
                ),
                ..w1
            }
        },
        _ => w,
    }
}

/// The events one operation on a plain widget publishes: a right press with
/// context-menu entries asks for the menu; new text asks for the re-rendered
/// widget to be repainted at its place.
pub open spec fn spec_window_op_events(w: WindowBase, op: WidgetOp) -> Seq<UserEvent> {
    match op {
        WidgetOp::MousePressed(b, x, y) => if b == MouseButton::Right
            && w.context_menu_items@.len() > 0 {
            seq![UserEvent::ShowContextMenu(w.main_win_uuid, w.uuid, x, y)]
        } else {
            Seq::empty()
        },
        WidgetOp::SetText(_s) => seq![
            UserEvent::Redraw(
                w.main_win_uuid,
                w.main_win_x,
                w.main_win_y,
                spec_apply_window_op(w, op).pixmap,
            ),
        ],
        _ => Seq::empty(),
    }
}

/// Applies one operation to a plain widget.
pub fn apply_window_op(w: &mut WindowBase, op: &WidgetOp, events: &mut EventQueue)
    requires
        old(w).wf(),
        op.wf(),
    ensures
        final(w).wf(),
        *final(w) == spec_apply_window_op(*old(w), *op),
        final(events)@ == old(events)@ + spec_window_op_events(*old(w), *op),
{
    match op {
        WidgetOp::SetFocused(b) => {
            w.focused = *b;
        },
        WidgetOp::SetXScroll(v) => {
            w.x_scroll = *v;
        },
        WidgetOp::SetYScroll(v) => {
            w.y_scroll = *v;
        },
        WidgetOp::SetText(s) => {
            w.text = Some(s.clone());
            let (dw, dh) = w.get_drawing_size();
            let mut layer = crate::raster::layer_new_or_fallback(dw, dh);
            crate::raster::layer_fill(&mut layer, w.background_color);
            w.pixmap = layer;
            events.publish(
                UserEvent::Redraw(w.main_win_uuid, w.main_win_x, w.main_win_y, w.pixmap.clone()),
            );
        },
        WidgetOp::MousePressed(b, x, y) => {
            if matches!(b, MouseButton::Right) && w.context_menu_items.len() > 0 {
                events.publish(UserEvent::ShowContextMenu(w.main_win_uuid, w.uuid, *x, *y));
            }
        },
        _ => {},
    }
    proof {
        assert(events@ =~= old(events)@ + spec_window_op_events(*old(w), *op));
    }
}

/// The value one operation on a scroll bar yields for the scrolled child: a
/// press per the bar's press classification, a wheel step per its line
/// count, a drag while the slide is held per the cursor's track position;
/// every other operation yields nothing.
pub open spec fn spec_bar_value(b: crate::scroll_bar::ScrollBar, op: WidgetOp) -> Option<i64> {
    match op {
        WidgetOp::MousePressed(btn, x, y) => b.spec_pressed_value(btn, x, y),
        WidgetOp::MouseWheel(d) => Some(b.spec_wheel_value(d)),
        WidgetOp::MouseDrag(x, y) => if b.dragging_slide {
            Some(b.spec_drag_value(x, y) as i64)
        } else {
            None
        },
        _ => None,
    }
}

/// Applies one operation to a scroll bar; a new value for the scrolled child
/// is handed back when the interaction produced one. The bar's identity,
/// orientation and range are untouched.
pub fn apply_bar_op(
    b: &mut crate::scroll_bar::ScrollBar,
    op: &WidgetOp,
    events: &mut EventQueue,
) -> (r: Option<i64>)
    requires
        old(b).wf(),
        op.wf(),
    ensures
        final(b).wf(),
        final(b).window_base.uuid == old(b).window_base.uuid,
        final(b).orientation == old(b).orientation,
        final(b).min_value == old(b).min_value,
        final(b).max_value == old(b).max_value,
        r == spec_bar_value(*old(b), *op),
        (r matches Some(v) ==> valid_coord(v)),
{
    match op {
        WidgetOp::MousePressed(btn, x, y) => {
            let r = b.handle_mouse_pressed(*btn, *x, *y, events);
            proof {
                if r is Some {
                    assert(valid_coord(r->0));
                }
            }
            r
        },
        WidgetOp::MouseReleased(btn, x, y) => {
            b.handle_mouse_released(*btn, *x, *y);
            None
        },
        WidgetOp::MouseDrag(x, y) => b.handle_mouse_drag(*x, *y, events),
        WidgetOp::MouseWheel(d) => b.handle_mouse_wheel(*d, events),
        WidgetOp::SetFocused(f) => {
            b.window_base.focused = *f;
            None
        },
        _ => None,
    }
}

/// Routes one operation to the widget bearing `target` inside a scroll
/// layout. An operation landing on a bar that yields a new value is pushed
/// into the scrolled child's matching scroll position — bar interaction is
/// the only writer of that position.
pub fn scroll_dispatch(
    s: &mut ScrollLayout,
    target: WidgetId,
    op: &WidgetOp,
    events: &mut EventQueue,
)
    requires
        old(s).wf(),
        op.wf(),
    ensures
        final(s).wf(),
        final(s).layout_base == old(s).layout_base,
        final(s).h_scroll.window_base.uuid == old(s).h_scroll.window_base.uuid,
        final(s).v_scroll.window_base.uuid == old(s).v_scroll.window_base.uuid,
        (final(s).child matches Some(c2) ==> old(s).child matches Some(c) && c2.uuid == c.uuid),
        (old(s).child is None ==> final(s).child is None),
        // The horizontal bar's value lands in the child's horizontal scroll.
        target == old(s).h_scroll.window_base.uuid ==> final(s).v_scroll == old(s).v_scroll
            && final(s).child == (match old(s).child {
            Some(c) => Some(
                match spec_bar_value(old(s).h_scroll, *op) {
                    Some(v) => WindowBase { x_scroll: v, ..c },
                    None => c,
                },
            ),
            None => None,
        }),
        // The vertical bar's value lands in the child's vertical scroll.
        (target != old(s).h_scroll.window_base.uuid && target == old(
            s).v_scroll.window_base.uuid) ==> final(s).h_scroll == old(s).h_scroll && final(
            s).child == (match old(s).child {
            Some(c) => Some(
                match spec_bar_value(old(s).v_scroll, *op) {
                    Some(v) => WindowBase { y_scroll: v, ..c },
                    None => c,
                },
            ),
            None => None,
        }),
        // Any other target reaches the child exactly when the child bears it.
        (target != old(s).h_scroll.window_base.uuid && target != old(
            s).v_scroll.window_base.uuid) ==> final(s).h_scroll == old(s).h_scroll && final(
            s).v_scroll == old(s).v_scroll && final(s).child == (match old(s).child {
            Some(c) => if c.uuid == target {
                Some(spec_apply_window_op(c, *op))
            } else {
                Some(c)
            },
            None => None,
        }),
{
    if target == s.h_scroll.window_base.uuid {
        let nv = apply_bar_op(&mut s.h_scroll, op, events);
        match nv {
            Some(v) => {
                match &mut s.child {
                    Some(c) => {
                        c.x_scroll = v;
                    },
                    None => {},
                }
            },
            None => {},
        }
    } else if target == s.v_scroll.window_base.uuid {
        let nv = apply_bar_op(&mut s.v_scroll, op, events);
        match nv {
            Some(v) => {
                match &mut s.child {
                    Some(c) => {
                        c.y_scroll = v;
                    },
                    None => {},
                }
            },
            None => {},
        }
    } else {
        match &mut s.child {
            Some(c) => {
                if c.uuid == target {
                    apply_window_op(c, op, events);
                }
            },
            None => {},
        }
    }
}

} // verus!

verus! {

/// Routes one operation to the widget bearing `target` anywhere in the
/// child's subtree. Identities and the tree's shape are preserved; the
/// target widget takes the operation's effect, a scroll bar target may push
/// a fresh value into its scrolled sibling, and a press on a tab's close
/// button asks for that tab to be closed.
pub fn node_dispatch(
    c: ChildType,
    target: WidgetId,
    op: &WidgetOp,
    events: &mut EventQueue,
) -> (r: ChildType)
    requires
        c.wf(),
        op.wf(),
    ensures
        r.wf(),
        r.spec_id() == c.spec_id(),
        row_slot_uuid(r) == row_slot_uuid(c),
        spec_target_effect(spec_window_in(c, target), spec_window_in(r, target), *op),
    decreases c,
{
    match c {
        ChildType::Window(mut w) => {
            if w.uuid == target {
                apply_window_op(&mut w, op, events);
            }
            ChildType::Window(w)
        },
        ChildType::Layout(l) => {
            let l2 = match *l {
                LayoutNode::Row(row) => {
                    proof {
                        assert(row.wf());
                    }
                    let RowLayout {
                        layout_base,
                        orientation,
                        inner_padding,
                        children,
                        fill_algorithm,
                        max_width,
                        max_height,
                    } = row;
                    let children = dispatch_children(children, target, op, events);
                    LayoutNode::Row(
                        RowLayout {
                            layout_base,
                            orientation,
                            inner_padding,
                            children,
                            fill_algorithm,
                            max_width,
                            max_height,
                        },
                    )
                },
                LayoutNode::Border(b) => {
                    proof {
                        assert(b.wf());
                        assert(b.rows.wf());
                    }
                    let BorderLayout { layout_base, rows, center_uuid } = b;
                    let RowLayout {
                        layout_base: rows_base,
                        orientation,
                        inner_padding,
                        children,
                        fill_algorithm,
                        max_width,
                        max_height,
                    } = rows;
                    let children = dispatch_children(children, target, op, events);
                    let rows2 = RowLayout {
                        layout_base: rows_base,
                        orientation,
                        inner_padding,
                        children,
                        fill_algorithm,
                        max_width,
                        max_height,
                    };
                    proof {
                        let ci = choose|i: int|
                            0 <= i < b.rows.children@.len() && is_center_slot(
                                #[trigger] b.rows.children@[i],
                                center_uuid,
                            );
                        assert(row_slot_uuid(rows2.children@[ci]) == row_slot_uuid(
                            b.rows.children@[ci],
                        ));
                        assert(is_center_slot(rows2.children@[ci], center_uuid));
                    }
                    LayoutNode::Border(BorderLayout { layout_base, rows: rows2, center_uuid })
                },
                LayoutNode::Scroll(mut s) => {
                    scroll_dispatch(&mut s, target, op, events);
                    LayoutNode::Scroll(s)
                },
                LayoutNode::Tab(t) => LayoutNode::Tab(tab_dispatch(t, target, op, events)),
            };
            proof {
                assert(l2.wf());
            }
            ChildType::Layout(Box::new(l2))
        },
    }
}

/// Routes one operation through every child slot of a row.
pub fn dispatch_children(
    children: Vec<ChildType>,
    target: WidgetId,
    op: &WidgetOp,
    events: &mut EventQueue,
) -> (r: Vec<ChildType>)
    requires
        forall|i: int| 0 <= i < children@.len() ==> (#[trigger] children@[i]).wf(),
        op.wf(),
    ensures
        r@.len() == children@.len(),
        forall|i: int|
            0 <= i < children@.len() ==> (#[trigger] r@[i]).wf() && r@[i].spec_id()
                == children@[i].spec_id() && row_slot_uuid(r@[i]) == row_slot_uuid(
                children@[i],
            ),
        spec_target_effect(
            spec_window_in_children(children@, target, 0),
            spec_window_in_children(r@, target, 0),
            *op,
        ),
    decreases children,
{
    let ghost s0 = children@;
    let mut rest = children;
    let mut out: Vec<ChildType> = Vec::new();
    let n = rest.len();
    let mut i: usize = 0;
    while i < n
        invariant
            n == s0.len(),
            s0 == children@,
            rest@ == s0.skip(i as int),
            i <= n,
            op.wf(),
            forall|j: int| 0 <= j < s0.len() ==> (#[trigger] s0[j]).wf(),
            out@.len() == i,
            forall|j: int|
                0 <= j < i ==> (#[trigger] out@[j]).wf() && out@[j].spec_id() == s0[j].spec_id()
                    && row_slot_uuid(out@[j]) == row_slot_uuid(s0[j]) && spec_target_effect(
                    spec_window_in(s0[j], target),
                    spec_window_in(out@[j], target),
                    *op,
                ),
        decreases n - i,
    {
        proof {
            assert(s0[i as int].wf());
            assert(rest@[0] == s0[i as int]);
            assert(decreases_to!(children => children@));
            assert(decreases_to!(children@ => children@[i as int]));
        }
        let child = rest.remove(0);
        let child2 = node_dispatch(child, target, op, events);
        out.push(child2);
        i = i + 1;
    }
    proof {
        lemma_window_children_lift(s0, out@, target, *op, 0);
    }
    out
}

/// Routes one operation through a tab layout: its tabs' close buttons and,
/// recursively, every tab's contents. A press on a close button asks on the
/// bus for that tab to be closed, as the button was created to do.
fn tab_dispatch(t: TabLayout, target: WidgetId, op: &WidgetOp, events: &mut EventQueue) -> (r:
    TabLayout)
    requires
        t.wf(),
        op.wf(),
    ensures
        r.wf(),
        r.layout_base == t.layout_base,
        r.active_tab == t.active_tab,
        r.tabs@.len() == t.tabs@.len(),
        forall|i: int| 0 <= i < t.tabs@.len() ==> (#[trigger] r.tabs@[i]).uuid == t.tabs@[i].uuid,
        spec_target_effect(
            spec_window_in_tabs(t.tabs@, target, 0),
            spec_window_in_tabs(r.tabs@, target, 0),
            *op,
        ),
    decreases t,
{
    let TabLayout {
        layout_base,
        font,
        tabs,
        active_tab,
        tab_top_height,
        max_width,
        max_height,
    } = t;
    let ghost s0 = tabs@;
    let mut rest = tabs;
    let mut out: Vec<crate::tab_layout::Tab> = Vec::new();
    let n = rest.len();
    let mut i: usize = 0;
    while i < n
        invariant
            n == s0.len(),
            s0 == t.tabs@,
            t.wf(),
            rest@ == s0.skip(i as int),
            i <= n,
            op.wf(),
            out@.len() == i,
            forall|j: int|
                0 <= j < i ==> (#[trigger] out@[j]).wf() && out@[j].uuid == s0[j].uuid
                    && out@[j].close_btn == (if s0[j].close_btn.uuid == target {
                    spec_apply_window_op(s0[j].close_btn, *op)
                } else {
                    s0[j].close_btn
                }) && spec_target_effect(
                    spec_window_in(s0[j].contents, target),
                    spec_window_in(out@[j].contents, target),
                    *op,
                ),
        decreases n - i,
    {
        proof {
            assert(t.tabs@[i as int].wf());
            assert(rest@[0] == s0[i as int]);
            assert(decreases_to!(t => t.tabs));
            assert(decreases_to!(t.tabs => t.tabs@));
            assert(decreases_to!(t.tabs@ => t.tabs@[i as int]));
            assert(decreases_to!(t.tabs@[i as int] => t.tabs@[i as int].contents));
        }
        let mut tab = rest.remove(0);
        if tab.close_btn.uuid == target {
            // The close button was created to request closing its tab.
            let fire = matches!(op, WidgetOp::MousePressed(MouseButton::Left, _, _));
            apply_window_op(&mut tab.close_btn, op, events);
            if fire {
                events.publish(
                    UserEvent::CloseTab(layout_base.main_win_uuid, layout_base.uuid, tab.uuid),
                );
            }
        }
        let mut contents = ChildType::Window(WindowBase::new(layout_base.main_win_uuid));
        std::mem::swap(&mut contents, &mut tab.contents);
        let contents2 = node_dispatch(contents, target, op, events);
        tab.contents = contents2;
        out.push(tab);
        i = i + 1;
    }
    proof {
        lemma_window_tabs_lift(s0, out@, target, *op, 0);
    }
    TabLayout {
        layout_base,
        font,
        tabs: out,
        active_tab,
        tab_top_height,
        max_width,
        max_height,
    }
}

} // verus!

verus! {

/// What the tree-wide walks may do to a subtree: its shape and identities
/// are preserved.
pub open spec fn shape_preserved(before: ChildType, after: ChildType) -> bool {
    &&& after.wf()
    &&& after.spec_id() == before.spec_id()
    &&& row_slot_uuid(after) == row_slot_uuid(before)
}

/// Makes the tab bearing `tab_id` active in the tab layout bearing
/// `layout_id`, wherever that layout sits in the subtree.
pub fn set_active_tab_in(
    c: ChildType,
    layout_id: WidgetId,
    tab_id: WidgetId,
    events: &mut EventQueue,
) -> (r: ChildType)
    requires
        c.wf(),
    ensures
        shape_preserved(c, r),
        spec_tab_effect(
            spec_tab_layout_of(c, layout_id),
            spec_tab_layout_of(r, layout_id),
            tab_id,
        ),
    decreases c,
{
    match c {
        ChildType::Window(w) => ChildType::Window(w),
        ChildType::Layout(l) => {
            let l2 = match *l {
                LayoutNode::Row(row) => {
                    proof {
                        assert(row.wf());
                    }
                    let RowLayout {
                        layout_base,
                        orientation,
                        inner_padding,
                        children,
                        fill_algorithm,
                        max_width,
                        max_height,
                    } = row;
                    let children = set_active_tab_in_children(children, layout_id, tab_id, events);
                    LayoutNode::Row(
                        RowLayout {
                            layout_base,
                            orientation,
                            inner_padding,
                            children,
                            fill_algorithm,
                            max_width,
                            max_height,
                        },
                    )
                },
                LayoutNode::Border(b) => {
                    proof {
                        assert(b.wf());
                        assert(b.rows.wf());
                    }
                    let BorderLayout { layout_base, rows, center_uuid } = b;
                    let RowLayout {
                        layout_base: rows_base,
                        orientation,
                        inner_padding,
                        children,
                        fill_algorithm,
                        max_width,
                        max_height,
                    } = rows;
                    let children = set_active_tab_in_children(children, layout_id, tab_id, events);
                    let rows2 = RowLayout {
                        layout_base: rows_base,
                        orientation,
                        inner_padding,
                        children,
                        fill_algorithm,
                        max_width,
                        max_height,
                    };
                    proof {
                        let ci = choose|i: int|
                            0 <= i < b.rows.children@.len() && is_center_slot(
                                #[trigger] b.rows.children@[i],
                                center_uuid,
                            );
                        assert(row_slot_uuid(rows2.children@[ci]) == row_slot_uuid(
                            b.rows.children@[ci],
                        ));
                        assert(is_center_slot(rows2.children@[ci], center_uuid));
                    }
                    LayoutNode::Border(BorderLayout { layout_base, rows: rows2, center_uuid })
                },
                LayoutNode::Scroll(sc) => LayoutNode::Scroll(sc),
                LayoutNode::Tab(mut t) => {
                    if t.layout_base.uuid == layout_id {
                        t.set_active_tab_by_uuid(tab_id, events);
                        LayoutNode::Tab(t)
                    } else {
                        proof {
                            assert(t.wf());
                        }
                        let TabLayout {
                            layout_base,
                            font,
                            tabs,
                            active_tab,
                            tab_top_height,
                            max_width,
                            max_height,
                        } = t;
                        let tabs = set_active_tab_in_tabs(tabs, layout_id, tab_id, events);
                        LayoutNode::Tab(
                            TabLayout {
                                layout_base,
                                font,
                                tabs,
                                active_tab,
                                tab_top_height,
                                max_width,
                                max_height,
                            },
                        )
                    }
                },
            };
            proof {
                assert(l2.wf());
            }
            ChildType::Layout(Box::new(l2))
        },
    }
}

/// The walk of [`set_active_tab_in`] over a tab layout's tabs.
fn set_active_tab_in_tabs(
    tabs: Vec<crate::tab_layout::Tab>,
    layout_id: WidgetId,
    tab_id: WidgetId,
    events: &mut EventQueue,
) -> (r: Vec<crate::tab_layout::Tab>)
    requires
        forall|i: int| 0 <= i < tabs@.len() ==> (#[trigger] tabs@[i]).wf(),
    ensures
        r@.len() == tabs@.len(),
        forall|i: int|
            0 <= i < tabs@.len() ==> (#[trigger] r@[i]).wf() && r@[i].uuid == tabs@[i].uuid,
        spec_tab_effect(
            spec_tab_layout_in_tabs(tabs@, layout_id, 0),
            spec_tab_layout_in_tabs(r@, layout_id, 0),
            tab_id,
        ),
    decreases tabs,
{
    let ghost s0 = tabs@;
    let mut rest = tabs;
    let mut out: Vec<crate::tab_layout::Tab> = Vec::new();
    let n = rest.len();
    let mut i: usize = 0;
    while i < n
        invariant
            n == s0.len(),
            s0 == tabs@,
            rest@ == s0.skip(i as int),
            i <= n,
            forall|j: int| 0 <= j < s0.len() ==> (#[trigger] s0[j]).wf(),
            out@.len() == i,
            forall|j: int|
                0 <= j < i ==> (#[trigger] out@[j]).wf() && out@[j].uuid == s0[j].uuid
                    && spec_tab_effect(
                    spec_tab_layout_of(s0[j].contents, layout_id),
                    spec_tab_layout_of(out@[j].contents, layout_id),
                    tab_id,
                ),
        decreases n - i,
    {
        proof {
            assert(s0[i as int].wf());
            assert(rest@[0] == s0[i as int]);
            assert(decreases_to!(tabs => tabs@));
            assert(decreases_to!(tabs@ => tabs@[i as int]));
            assert(decreases_to!(tabs@[i as int] => tabs@[i as int].contents));
        }
        let mut tab = rest.remove(0);
        let mut contents = ChildType::Window(WindowBase::new(tab.close_btn.main_win_uuid));
        std::mem::swap(&mut contents, &mut tab.contents);
        let contents2 = set_active_tab_in(contents, layout_id, tab_id, events);
        tab.contents = contents2;
        out.push(tab);
        i = i + 1;
    }
    proof {
        lemma_tab_tabs_lift(s0, out@, layout_id, tab_id, 0);
    }
    out
}

/// The walk of [`set_active_tab_in`] over a row's children.
pub fn set_active_tab_in_children(
    children: Vec<ChildType>,
    layout_id: WidgetId,
    tab_id: WidgetId,
    events: &mut EventQueue,
) -> (r: Vec<ChildType>)
    requires
        forall|i: int| 0 <= i < children@.len() ==> (#[trigger] children@[i]).wf(),
    ensures
        r@.len() == children@.len(),
        forall|i: int|
            0 <= i < children@.len() ==> shape_preserved(children@[i], #[trigger] r@[i]),
        spec_tab_effect(
            spec_tab_layout_in_children(children@, layout_id, 0),
            spec_tab_layout_in_children(r@, layout_id, 0),
            tab_id,
        ),
    decreases children,
{
    let ghost s0 = children@;
    let mut rest = children;
    let mut out: Vec<ChildType> = Vec::new();
    let n = rest.len();
    let mut i: usize = 0;
    while i < n
        invariant
            n == s0.len(),
            s0 == children@,
            rest@ == s0.skip(i as int),
            i <= n,
            forall|j: int| 0 <= j < s0.len() ==> (#[trigger] s0[j]).wf(),
            out@.len() == i,
            forall|j: int| 0 <= j < i ==> shape_preserved(s0[j], #[trigger] out@[j]),
            forall|j: int|
                0 <= j < i ==> spec_tab_effect(
                    spec_tab_layout_of(s0[j], layout_id),
                    spec_tab_layout_of(#[trigger] out@[j], layout_id),
                    tab_id,
                ),
        decreases n - i,
    {
        proof {
            assert(s0[i as int].wf());
            assert(rest@[0] == s0[i as int]);
            assert(decreases_to!(children => children@));
            assert(decreases_to!(children@ => children@[i as int]));
        }
        let child = rest.remove(0);
        let child2 = set_active_tab_in(child, layout_id, tab_id, events);
        out.push(child2);
        i = i + 1;
    }
    proof {
        lemma_tab_children_lift(s0, out@, layout_id, tab_id, 0);
    }
    out
}

/// The widget bearing `id` that the tree hands out, searching depth-first:
/// a scroll layout resolves its own id and its bars' ids to its scrolled
/// child; a tab layout searches its tabs' contents.
pub open spec fn spec_find_window(c: ChildType, id: WidgetId) -> Option<WindowBase>
    decreases c, 1int, 0int,
{
    match c {
        ChildType::Window(w) => if w.uuid == id {
            Some(w)
        } else {
            None
        },
        ChildType::Layout(l) => match *l {
            LayoutNode::Row(r) => spec_find_in_children(r.children@, id, 0),
            LayoutNode::Border(b) => spec_find_in_children(b.rows.children@, id, 0),
            LayoutNode::Scroll(s) => if s.spec_resolves_to_child(id) {
                s.child
            } else {
                None
            },
            LayoutNode::Tab(t) => spec_find_in_tabs(t.tabs@, id, 0),
        },
    }
}

/// The search over a row's children from index `k`.
pub open spec fn spec_find_in_children(s: Seq<ChildType>, id: WidgetId, k: int) -> Option<
    WindowBase,
>
    decreases s, 2int, s.len() - k,
{
    if k < 0 || k >= s.len() {
        None
    } else {
        match spec_find_window(s[k], id) {
            Some(w) => Some(w),
            None => spec_find_in_children(s, id, k + 1),
        }
    }
}

/// The search over a tab layout's tabs from index `k`.
pub open spec fn spec_find_in_tabs(s: Seq<crate::tab_layout::Tab>, id: WidgetId, k: int) -> Option<
    WindowBase,
>
    decreases s, 2int, s.len() - k,
{
    if k < 0 || k >= s.len() {
        None
    } else {
        match spec_find_window(s[k].contents, id) {
            Some(w) => Some(w),
            None => spec_find_in_tabs(s, id, k + 1),
        }
    }
}

/// Finds the widget bearing `id` in the subtree; absence is a normal
/// outcome, not an error.
pub fn find_window<'a>(c: &'a ChildType, id: WidgetId) -> (r: Option<&'a WindowBase>)
    requires
        c.wf(),
    ensures
        (r matches Some(w) ==> spec_find_window(*c, id) == Some(*w)),
        (r is None ==> spec_find_window(*c, id) is None),
    decreases *c, 1int, 0int,
{
    match c {
        ChildType::Window(w) => if w.uuid == id {
            Some(w)
        } else {
            None
        },
        ChildType::Layout(l) => match &**l {
            LayoutNode::Row(r) => {
                proof {
                    assert(r.wf());
                }
                find_in_children(&r.children, id)
            },
            LayoutNode::Border(b) => {
                proof {
                    assert(b.wf());
                    assert(b.rows.wf());
                }
                find_in_children(&b.rows.children, id)
            },
            LayoutNode::Scroll(s) => {
                let resolves = s.layout_base.uuid == id || s.h_scroll.window_base.uuid == id
                    || s.v_scroll.window_base.uuid == id || (match &s.child {
                    Some(cw) => cw.uuid == id,
                    None => false,
                });
                if resolves {
                    match &s.child {
                        Some(cw) => Some(cw),
                        None => None,
                    }
                } else {
                    None
                }
            },
            LayoutNode::Tab(t) => {
                proof {
                    assert(t.wf());
                }
                find_in_tabs(&t.tabs, id)
            },
        },
    }
}

/// The search of [`find_window`] over a row's children.
pub fn find_in_children<'a>(children: &'a Vec<ChildType>, id: WidgetId) -> (r: Option<
    &'a WindowBase,
>)
    requires
        forall|i: int| 0 <= i < children@.len() ==> (#[trigger] children@[i]).wf(),
    ensures
        (r matches Some(w) ==> spec_find_in_children(children@, id, 0) == Some(*w)),
        (r is None ==> spec_find_in_children(children@, id, 0) is None),
    decreases *children, 0int, 0int,
{
    let n = children.len();
    let mut i: usize = 0;
    while i < n
        invariant
            n == children@.len(),
            i <= n,
            forall|j: int| 0 <= j < children@.len() ==> (#[trigger] children@[j]).wf(),
            spec_find_in_children(children@, id, 0) == spec_find_in_children(
                children@,
                id,
                i as int,
            ),
        decreases n - i,
    {
        proof {
            assert(children@[i as int].wf());
            assert(decreases_to!(*children => children@));
            assert(decreases_to!(children@ => children@[i as int]));
        }
        let hit = find_window(&children[i], id);
        match hit {
            Some(w) => {
                return Some(w);
            },
            None => {},
        }
        i = i + 1;
    }
    None
}

/// The search of [`find_window`] over a tab layout's tabs.
fn find_in_tabs<'a>(tabs: &'a Vec<crate::tab_layout::Tab>, id: WidgetId) -> (r: Option<
    &'a WindowBase,
>)
    requires
        forall|i: int| 0 <= i < tabs@.len() ==> (#[trigger] tabs@[i]).wf(),
    ensures
        (r matches Some(w) ==> spec_find_in_tabs(tabs@, id, 0) == Some(*w)),
        (r is None ==> spec_find_in_tabs(tabs@, id, 0) is None),
    decreases *tabs, 0int, 0int,
{
    let n = tabs.len();
    let mut i: usize = 0;
    while i < n
        invariant
            n == tabs@.len(),
            i <= n,
            forall|j: int| 0 <= j < tabs@.len() ==> (#[trigger] tabs@[j]).wf(),
            spec_find_in_tabs(tabs@, id, 0) == spec_find_in_tabs(tabs@, id, i as int),
        decreases n - i,
    {
        proof {
            assert(tabs@[i as int].wf());
            assert(decreases_to!(*tabs => tabs@));
            assert(decreases_to!(tabs@ => tabs@[i as int]));
            assert(decreases_to!(tabs@[i as int] => tabs@[i as int].contents));
        }
        let hit = find_window(&tabs[i].contents, id);
        match hit {
            Some(w) => {
                return Some(w);
            },
            None => {},
        }
        i = i + 1;
    }
    None
}

} // verus!

verus! {

/// Maintenance the controller runs on scroll layouts in response to bus
/// events: pushing a bar's announced value into the scrolled child, or
/// re-running a named scroll layout's pass at its recorded place.
#[derive(Clone, Copy, Debug)]
pub enum ScrollMaintenance {
    /// The bar bearing the id announced a new value on the given axis.
    ApplyValue(WidgetId, Orientation, i64),
    /// The scroll layout bearing the id should refresh its bars from its
    /// child.
    Refresh(WidgetId),
}

impl ScrollMaintenance {
    pub open spec fn wf(&self) -> bool {
        match self {
            ScrollMaintenance::ApplyValue(_, _, v) => valid_coord(*v),
            ScrollMaintenance::Refresh(_) => true,
        }
    }
}

/// Applies one piece of scroll maintenance to every scroll layout in the
/// subtree it addresses.
pub fn scroll_maintain(c: ChildType, m: ScrollMaintenance, events: &mut EventQueue) -> (r:
    ChildType)
    requires
        c.wf(),
        m.wf(),
    ensures
        shape_preserved(c, r),
        (m matches ScrollMaintenance::ApplyValue(b, o, v) ==> spec_owner_effect(
            spec_scroll_owner_of(c, b),
            spec_scroll_owner_of(r, b),
            b,
            o,
            v,
        )),
        (m matches ScrollMaintenance::Refresh(sid) ==> spec_refresh_effect(
            spec_scroll_by_id(c, sid),
            spec_scroll_by_id(r, sid),
        )),
    decreases c,
{
    match c {
        ChildType::Window(w) => ChildType::Window(w),
        ChildType::Layout(l) => {
            let l2 = match *l {
                LayoutNode::Row(row) => {
                    proof {
                        assert(row.wf());
                    }
                    let RowLayout {
                        layout_base,
                        orientation,
                        inner_padding,
                        children,
                        fill_algorithm,
                        max_width,
                        max_height,
                    } = row;
                    let children = scroll_maintain_children(children, m, events);
                    LayoutNode::Row(
                        RowLayout {
                            layout_base,
                            orientation,
                            inner_padding,
                            children,
                            fill_algorithm,
                            max_width,
                            max_height,
                        },
                    )
                },
                LayoutNode::Border(b) => {
                    proof {
                        assert(b.wf());
                        assert(b.rows.wf());
                    }
                    let BorderLayout { layout_base, rows, center_uuid } = b;
                    let RowLayout {
                        layout_base: rows_base,
                        orientation,
                        inner_padding,
                        children,
                        fill_algorithm,
                        max_width,
                        max_height,
                    } = rows;
                    let children = scroll_maintain_children(children, m, events);
                    let rows2 = RowLayout {
                        layout_base: rows_base,
                        orientation,
                        inner_padding,
                        children,
                        fill_algorithm,
                        max_width,
                        max_height,
                    };
                    proof {
                        let ci = choose|i: int|
                            0 <= i < b.rows.children@.len() && is_center_slot(
                                #[trigger] b.rows.children@[i],
                                center_uuid,
                            );
                        assert(row_slot_uuid(rows2.children@[ci]) == row_slot_uuid(
                            b.rows.children@[ci],
                        ));
                        assert(is_center_slot(rows2.children@[ci], center_uuid));
                    }
                    LayoutNode::Border(BorderLayout { layout_base, rows: rows2, center_uuid })
                },
                LayoutNode::Scroll(mut sc) => {
                    match m {
                        ScrollMaintenance::ApplyValue(bar_id, orientation, value) => {
                            let is_h = sc.h_scroll.window_base.uuid == bar_id;
                            let is_v = sc.v_scroll.window_base.uuid == bar_id;
                            // Only a visible bar's announcement reaches the
                            // child, as when the bar itself pushes a value.
                            let visible = if is_h {
                                sc.h_scroll.is_visible()
                            } else {
                                sc.v_scroll.is_visible()
                            };
                            if (is_h || is_v) && visible {
                                match &mut sc.child {
                                    Some(cw) => {
                                        match orientation {
                                            Orientation::Horizontal => {
                                                cw.x_scroll = value;
                                            },
                                            Orientation::Vertical => {
                                                cw.y_scroll = value;
                                            },
                                        }
                                    },
                                    None => {},
                                }
                            }
                            LayoutNode::Scroll(sc)
                        },
                        ScrollMaintenance::Refresh(scroll_id) => {
                            if sc.layout_base.uuid == scroll_id {
                                let x = sc.layout_base.main_win_x;
                                let y = sc.layout_base.main_win_y;
                                let w = sc.layout_base.width;
                                let h = sc.layout_base.height;
                                let (sc2, _pix) = scroll_layout_run(sc, x, y, w, h, events);
                                LayoutNode::Scroll(sc2)
                            } else {
                                LayoutNode::Scroll(sc)
                            }
                        },
                    }
                },
                LayoutNode::Tab(t) => {
                    proof {
                        assert(t.wf());
                    }
                    let TabLayout {
                        layout_base,
                        font,
                        tabs,
                        active_tab,
                        tab_top_height,
                        max_width,
                        max_height,
                    } = t;
                    let tabs = scroll_maintain_tabs(tabs, m, events);
                    LayoutNode::Tab(
                        TabLayout {
                            layout_base,
                            font,
                            tabs,
                            active_tab,
                            tab_top_height,
                            max_width,
                            max_height,
                        },
                    )
                },
            };
            proof {
                assert(l2.wf());
            }
            ChildType::Layout(Box::new(l2))
        },
    }
}

/// The walk of [`scroll_maintain`] over a tab layout's tabs.
fn scroll_maintain_tabs(
    tabs: Vec<crate::tab_layout::Tab>,
    m: ScrollMaintenance,
    events: &mut EventQueue,
) -> (r: Vec<crate::tab_layout::Tab>)
    requires
        forall|i: int| 0 <= i < tabs@.len() ==> (#[trigger] tabs@[i]).wf(),
        m.wf(),
    ensures
        r@.len() == tabs@.len(),
        forall|i: int|
            0 <= i < tabs@.len() ==> (#[trigger] r@[i]).wf() && r@[i].uuid == tabs@[i].uuid,
        (m matches ScrollMaintenance::ApplyValue(b, o, v) ==> spec_owner_effect(
            spec_scroll_owner_in_tabs(tabs@, b, 0),
            spec_scroll_owner_in_tabs(r@, b, 0),
            b,
            o,
            v,
        )),
        (m matches ScrollMaintenance::Refresh(sid) ==> spec_refresh_effect(
            spec_scroll_by_id_in_tabs(tabs@, sid, 0),
            spec_scroll_by_id_in_tabs(r@, sid, 0),
        )),
    decreases tabs,
{
    let ghost s0 = tabs@;
    let mut rest = tabs;
    let mut out: Vec<crate::tab_layout::Tab> = Vec::new();
    let n = rest.len();
    let mut i: usize = 0;
    while i < n
        invariant
            n == s0.len(),
            s0 == tabs@,
            rest@ == s0.skip(i as int),
            i <= n,
            m.wf(),
            forall|j: int| 0 <= j < s0.len() ==> (#[trigger] s0[j]).wf(),
            out@.len() == i,
            forall|j: int|
                0 <= j < i ==> (#[trigger] out@[j]).wf() && out@[j].uuid == s0[j].uuid,
            forall|j: int|
                0 <= j < i ==> (m matches ScrollMaintenance::ApplyValue(b, o, v)
                    ==> spec_owner_effect(
                    spec_scroll_owner_of(s0[j].contents, b),
                    spec_scroll_owner_of((#[trigger] out@[j]).contents, b),
                    b,
                    o,
                    v,
                )),
            forall|j: int|
                0 <= j < i ==> (m matches ScrollMaintenance::Refresh(sid)
                    ==> spec_refresh_effect(
                    spec_scroll_by_id(s0[j].contents, sid),
                    spec_scroll_by_id((#[trigger] out@[j]).contents, sid),
                )),
        decreases n - i,
    {
        proof {
            assert(s0[i as int].wf());
            assert(rest@[0] == s0[i as int]);
            assert(decreases_to!(tabs => tabs@));
            assert(decreases_to!(tabs@ => tabs@[i as int]));
            assert(decreases_to!(tabs@[i as int] => tabs@[i as int].contents));
        }
        let mut tab = rest.remove(0);
        let mut contents = ChildType::Window(WindowBase::new(tab.close_btn.main_win_uuid));
        std::mem::swap(&mut contents, &mut tab.contents);
        let contents2 = scroll_maintain(contents, m, events);
        tab.contents = contents2;
        out.push(tab);
        i = i + 1;
    }
    proof {
        match m {
            ScrollMaintenance::ApplyValue(b, o, v) => {
                lemma_owner_tabs_lift(s0, out@, b, o, v, 0);
            },
            ScrollMaintenance::Refresh(sid) => {
                lemma_refresh_tabs_lift(s0, out@, sid, 0);
            },
        }
    }
    out
}

/// The walk of [`scroll_maintain`] over a row's children.
pub fn scroll_maintain_children(
    children: Vec<ChildType>,
    m: ScrollMaintenance,
    events: &mut EventQueue,
) -> (r: Vec<ChildType>)
    requires
        forall|i: int| 0 <= i < children@.len() ==> (#[trigger] children@[i]).wf(),
        m.wf(),
    ensures
        r@.len() == children@.len(),
        forall|i: int|
            0 <= i < children@.len() ==> shape_preserved(children@[i], #[trigger] r@[i]),
        (m matches ScrollMaintenance::ApplyValue(b, o, v) ==> spec_owner_effect(
            spec_scroll_owner_in_children(children@, b, 0),
            spec_scroll_owner_in_children(r@, b, 0),
            b,
            o,
            v,
        )),
        (m matches ScrollMaintenance::Refresh(sid) ==> spec_refresh_effect(
            spec_scroll_by_id_in_children(children@, sid, 0),
            spec_scroll_by_id_in_children(r@, sid, 0),
        )),
    decreases children,
{
    let ghost s0 = children@;
    let mut rest = children;
    let mut out: Vec<ChildType> = Vec::new();
    let n = rest.len();
    let mut i: usize = 0;
    while i < n
        invariant
            n == s0.len(),
            s0 == children@,
            rest@ == s0.skip(i as int),
            i <= n,
            m.wf(),
            forall|j: int| 0 <= j < s0.len() ==> (#[trigger] s0[j]).wf(),
            out@.len() == i,
            forall|j: int| 0 <= j < i ==> shape_preserved(s0[j], #[trigger] out@[j]),
            forall|j: int|
                0 <= j < i ==> (m matches ScrollMaintenance::ApplyValue(b, o, v)
                    ==> spec_owner_effect(
                    spec_scroll_owner_of(s0[j], b),
                    spec_scroll_owner_of(#[trigger] out@[j], b),
                    b,
                    o,
                    v,
                )),
            forall|j: int|
                0 <= j < i ==> (m matches ScrollMaintenance::Refresh(sid)
                    ==> spec_refresh_effect(
                    spec_scroll_by_id(s0[j], sid),
                    spec_scroll_by_id(#[trigger] out@[j], sid),
                )),
        decreases n - i,
    {
        proof {
            assert(s0[i as int].wf());
            assert(rest@[0] == s0[i as int]);
            assert(decreases_to!(children => children@));
            assert(decreases_to!(children@ => children@[i as int]));
        }
        let child = rest.remove(0);
        let child2 = scroll_maintain(child, m, events);
        out.push(child2);
        i = i + 1;
    }
    proof {
        match m {
            ScrollMaintenance::ApplyValue(b, o, v) => {
                lemma_owner_children_lift(s0, out@, b, o, v, 0);
            },
            ScrollMaintenance::Refresh(sid) => {
                lemma_refresh_children_lift(s0, out@, sid, 0);
            },
        }
    }
    out
}

} // verus!

verus! {

/// Routes one operation to the widget bearing `target` anywhere under a
/// border layout; the layout keeps its shape, regions and fill discipline.
pub fn border_dispatch(
    b: &mut BorderLayout,
    target: WidgetId,
    op: &WidgetOp,
    events: &mut EventQueue,
)
    requires
        old(b).wf(),
        op.wf(),
    ensures
        final(b).wf(),
        final(b).layout_base == old(b).layout_base,
        final(b).center_uuid == old(b).center_uuid,
        final(b).rows.fill_algorithm == old(b).rows.fill_algorithm,
        spec_target_effect(
            spec_window_in_children(old(b).rows.children@, target, 0),
            spec_window_in_children(final(b).rows.children@, target, 0),
            *op,
        ),
{
    proof {
        assert(old(b).rows.wf());
    }
    let mut children: Vec<ChildType> = Vec::new();
    std::mem::swap(&mut children, &mut b.rows.children);
    let out = dispatch_children(children, target, op, events);
    b.rows.children = out;
    proof {
        let ci = choose|i: int|
            0 <= i < old(b).rows.children@.len() && is_center_slot(
                #[trigger] old(b).rows.children@[i],
                old(b).center_uuid,
            );
        assert(row_slot_uuid(b.rows.children@[ci]) == row_slot_uuid(old(b).rows.children@[ci]));
        assert(is_center_slot(b.rows.children@[ci], b.center_uuid));
    }
}

/// Makes a tab active by id anywhere under a border layout.
pub fn border_set_active_tab(
    b: &mut BorderLayout,
    layout_id: WidgetId,
    tab_id: WidgetId,
    events: &mut EventQueue,
)
    requires
        old(b).wf(),
    ensures
        final(b).wf(),
        final(b).layout_base == old(b).layout_base,
        final(b).center_uuid == old(b).center_uuid,
        final(b).rows.fill_algorithm == old(b).rows.fill_algorithm,
        spec_tab_effect(
            spec_tab_layout_in_children(old(b).rows.children@, layout_id, 0),
            spec_tab_layout_in_children(final(b).rows.children@, layout_id, 0),
            tab_id,
        ),
{
    proof {
        assert(old(b).rows.wf());
    }
    let mut children: Vec<ChildType> = Vec::new();
    std::mem::swap(&mut children, &mut b.rows.children);
    let out = set_active_tab_in_children(children, layout_id, tab_id, events);
    b.rows.children = out;
    proof {
        let ci = choose|i: int|
            0 <= i < old(b).rows.children@.len() && is_center_slot(
                #[trigger] old(b).rows.children@[i],
                old(b).center_uuid,
            );
        assert(row_slot_uuid(b.rows.children@[ci]) == row_slot_uuid(old(b).rows.children@[ci]));
        assert(is_center_slot(b.rows.children@[ci], b.center_uuid));
    }
}

/// Applies scroll maintenance anywhere under a border layout.
pub fn border_scroll_maintain(b: &mut BorderLayout, m: ScrollMaintenance, events: &mut EventQueue)
    requires
        old(b).wf(),
        m.wf(),
    ensures
        final(b).wf(),
        final(b).layout_base == old(b).layout_base,
        final(b).center_uuid == old(b).center_uuid,
        final(b).rows.fill_algorithm == old(b).rows.fill_algorithm,
        (m matches ScrollMaintenance::ApplyValue(bar, o, v) ==> spec_owner_effect(
            spec_scroll_owner_in_children(old(b).rows.children@, bar, 0),
            spec_scroll_owner_in_children(final(b).rows.children@, bar, 0),
            bar,
            o,
            v,
        )),
        (m matches ScrollMaintenance::Refresh(sid) ==> spec_refresh_effect(
            spec_scroll_by_id_in_children(old(b).rows.children@, sid, 0),
            spec_scroll_by_id_in_children(final(b).rows.children@, sid, 0),
        )),
{
    proof {
        assert(old(b).rows.wf());
    }
    let mut children: Vec<ChildType> = Vec::new();
    std::mem::swap(&mut children, &mut b.rows.children);
    let out = scroll_maintain_children(children, m, events);
    b.rows.children = out;
    proof {
        let ci = choose|i: int|
            0 <= i < old(b).rows.children@.len() && is_center_slot(
                #[trigger] old(b).rows.children@[i],
                old(b).center_uuid,
            );
        assert(row_slot_uuid(b.rows.children@[ci]) == row_slot_uuid(old(b).rows.children@[ci]));
        assert(is_center_slot(b.rows.children@[ci], b.center_uuid));
    }
}

/// Finds the widget bearing `id` anywhere under a border layout.
pub fn border_find_window<'a>(b: &'a BorderLayout, id: WidgetId) -> (r: Option<&'a WindowBase>)
    requires
        b.wf(),
    ensures
        (r matches Some(w) ==> spec_find_in_children(b.rows.children@, id, 0) == Some(*w)),
        (r is None ==> spec_find_in_children(b.rows.children@, id, 0) is None),
{
    proof {
        assert(b.rows.wf());
    }
    find_in_children(&b.rows.children, id)
}

} // verus!

verus! {

impl RowLayout {
    /// The widget owning the point, scanning the children in stacking
    /// order; tab switches the walk decides on are published on the bus.
    pub fn get_child_at(&self, x: i64, y: i64, events: &mut EventQueue) -> (r: Option<WidgetId>)
        requires
            self.wf(),
            valid_coord(x),
            valid_coord(y),
        ensures
            r == spec_row_hit_from(self.children@, x, y, 0).0,
    {
        row_hit(self, x, y, events)
    }

    /// The widget bearing the id, searched depth-first.
    pub fn get_child_with_id<'a>(&'a self, uuid: WidgetId) -> (r: Option<&'a WindowBase>)
        requires
            self.wf(),
        ensures
            (r matches Some(w) ==> spec_find_in_children(self.children@, uuid, 0) == Some(*w)),
            (r is None ==> spec_find_in_children(self.children@, uuid, 0) is None),
    {
        find_in_children(&self.children, uuid)
    }
}

impl BorderLayout {
    /// The widget owning the point, delegated to the outer row.
    pub fn get_child_at(&self, x: i64, y: i64, events: &mut EventQueue) -> (r: Option<WidgetId>)
        requires
            self.wf(),
            valid_coord(x),
            valid_coord(y),
        ensures
            r == spec_row_hit_from(self.rows.children@, x, y, 0).0,
    {
        proof {
            assert(self.rows.wf());
        }
        row_hit(&self.rows, x, y, events)
    }

    /// The widget bearing the id, searched depth-first.
    pub fn get_child_with_id<'a>(&'a self, uuid: WidgetId) -> (r: Option<&'a WindowBase>)
        requires
            self.wf(),
        ensures
            (r matches Some(w) ==> spec_find_in_children(self.rows.children@, uuid, 0) == Some(
                *w,
            )),
            (r is None ==> spec_find_in_children(self.rows.children@, uuid, 0) is None),
    {
        border_find_window(self, uuid)
    }
}

impl TabLayout {
    /// The widget owning the point: the header strip switches or closes
    /// tabs; below it, the active tab's contents take over.
    pub fn get_child_at(&self, x: i64, y: i64, events: &mut EventQueue) -> (r: Option<WidgetId>)
        requires
            self.wf(),
            valid_coord(x),
            valid_coord(y),
        ensures
            r == spec_tab_hit(*self, x, y).0,
    {
        tab_hit(self, x, y, events)
    }

    /// The widget bearing the id among the tabs' contents.
    pub fn get_child_with_id<'a>(&'a self, uuid: WidgetId) -> (r: Option<&'a WindowBase>)
        requires
            self.wf(),
        ensures
            (r matches Some(w) ==> spec_find_in_tabs(self.tabs@, uuid, 0) == Some(*w)),
            (r is None ==> spec_find_in_tabs(self.tabs@, uuid, 0) is None),
    {
        find_in_tabs(&self.tabs, uuid)
    }
}

} // verus!

verus! {

/// The plain widget bearing `id`, visited the way the dispatch walk visits
/// widgets: leaf widgets, scroll layouts' scrolled children (whose bars
/// shadow any id they share), and tabs' close buttons before their contents.
pub open spec fn spec_window_in(c: ChildType, id: WidgetId) -> Option<WindowBase>
    decreases c, 1int, 0int,
{
    match c {
        ChildType::Window(w) => if w.uuid == id {
            Some(w)
        } else {
            None
        },
        ChildType::Layout(l) => match *l {
            LayoutNode::Row(r) => spec_window_in_children(r.children@, id, 0),
            LayoutNode::Border(b) => spec_window_in_children(b.rows.children@, id, 0),
            LayoutNode::Scroll(s) => if id == s.h_scroll.window_base.uuid || id
                == s.v_scroll.window_base.uuid {
                None
            } else {
                match s.child {
                    Some(c) => if c.uuid == id {
                        Some(c)
                    } else {
                        None
                    },
                    None => None,
                }
            },
            LayoutNode::Tab(t) => spec_window_in_tabs(t.tabs@, id, 0),
        },
    }
}

/// The widget search of [`spec_window_in`] over a row's children from `k`.
pub open spec fn spec_window_in_children(s: Seq<ChildType>, id: WidgetId, k: int) -> Option<
    WindowBase,
>
    decreases s, 2int, s.len() - k,
{
    if k < 0 || k >= s.len() {
        None
    } else {
        match spec_window_in(s[k], id) {
            Some(w) => Some(w),
            None => spec_window_in_children(s, id, k + 1),
        }
    }
}

/// The widget search of [`spec_window_in`] over a tab layout's tabs from
/// `k`: each tab's close button first, then its contents.
pub open spec fn spec_window_in_tabs(s: Seq<crate::tab_layout::Tab>, id: WidgetId, k: int) -> Option<
    WindowBase,
>
    decreases s, 2int, s.len() - k,
{
    if k < 0 || k >= s.len() {
        None
    } else if s[k].close_btn.uuid == id {
        Some(s[k].close_btn)
    } else {
        match spec_window_in(s[k].contents, id) {
            Some(w) => Some(w),
            None => spec_window_in_tabs(s, id, k + 1),
        }
    }
}

/// What a dispatch does to the widget bearing the target: present before
/// means present after, with the operation applied; absent stays absent.
pub open spec fn spec_target_effect(
    before: Option<WindowBase>,
    after: Option<WindowBase>,
    op: WidgetOp,
) -> bool {
    match before {
        Some(w) => after == Some(spec_apply_window_op(w, op)),
        None => after is None,
    }
}

/// The target effect lifts pointwise over a row's children.
proof fn lemma_window_children_lift(
    s_old: Seq<ChildType>,
    s_new: Seq<ChildType>,
    id: WidgetId,
    op: WidgetOp,
    k: int,
)
    requires
        s_old.len() == s_new.len(),
        forall|j: int|
            0 <= j < s_old.len() ==> spec_target_effect(
                spec_window_in(s_old[j], id),
                spec_window_in(#[trigger] s_new[j], id),
                op,
            ),
    ensures
        spec_target_effect(
            spec_window_in_children(s_old, id, k),
            spec_window_in_children(s_new, id, k),
            op,
        ),
    decreases s_old.len() - k,
{
    if 0 <= k < s_old.len() {
        lemma_window_children_lift(s_old, s_new, id, op, k + 1);
    }
}

/// The target effect lifts pointwise over a tab layout's tabs.
proof fn lemma_window_tabs_lift(
    s_old: Seq<crate::tab_layout::Tab>,
    s_new: Seq<crate::tab_layout::Tab>,
    id: WidgetId,
    op: WidgetOp,
    k: int,
)
    requires
        s_old.len() == s_new.len(),
        forall|j: int|
            0 <= j < s_old.len() ==> (#[trigger] s_new[j]).close_btn == (if s_old[j].close_btn.uuid
                == id {
                spec_apply_window_op(s_old[j].close_btn, op)
            } else {
                s_old[j].close_btn
            }) && spec_target_effect(
                spec_window_in(s_old[j].contents, id),
                spec_window_in(s_new[j].contents, id),
                op,
            ),
    ensures
        spec_target_effect(
            spec_window_in_tabs(s_old, id, k),
            spec_window_in_tabs(s_new, id, k),
            op,
        ),
    decreases s_old.len() - k,
{
    if 0 <= k < s_old.len() {
        assert(spec_apply_window_op(s_old[k].close_btn, op).uuid == s_old[k].close_btn.uuid);
        lemma_window_tabs_lift(s_old, s_new, id, op, k + 1);
    }
}

} // verus!

verus! {

/// The first scroll layout owning the bar bearing `bar_id`, visited the way
/// the maintenance walk visits layouts.
pub open spec fn spec_scroll_owner_of(c: ChildType, bar_id: WidgetId) -> Option<ScrollLayout>
    decreases c, 1int, 0int,
{
    match c {
        ChildType::Window(_) => None,
        ChildType::Layout(l) => match *l {
            LayoutNode::Row(r) => spec_scroll_owner_in_children(r.children@, bar_id, 0),
            LayoutNode::Border(b) => spec_scroll_owner_in_children(b.rows.children@, bar_id, 0),
            LayoutNode::Scroll(s) => if s.h_scroll.window_base.uuid == bar_id
                || s.v_scroll.window_base.uuid == bar_id {
                Some(s)
            } else {
                None
            },
            LayoutNode::Tab(t) => spec_scroll_owner_in_tabs(t.tabs@, bar_id, 0),
        },
    }
}

/// The owner search of [`spec_scroll_owner_of`] over a row's children.
pub open spec fn spec_scroll_owner_in_children(s: Seq<ChildType>, bar_id: WidgetId, k: int) -> Option<
    ScrollLayout,
>
    decreases s, 2int, s.len() - k,
{
    if k < 0 || k >= s.len() {
        None
    } else {
        match spec_scroll_owner_of(s[k], bar_id) {
            Some(sc) => Some(sc),
            None => spec_scroll_owner_in_children(s, bar_id, k + 1),
        }
    }
}

/// The owner search of [`spec_scroll_owner_of`] over a tab layout's tabs.
pub open spec fn spec_scroll_owner_in_tabs(
    s: Seq<crate::tab_layout::Tab>,
    bar_id: WidgetId,
    k: int,
) -> Option<ScrollLayout>
    decreases s, 2int, s.len() - k,
{
    if k < 0 || k >= s.len() {
        None
    } else {
        match spec_scroll_owner_of(s[k].contents, bar_id) {
            Some(sc) => Some(sc),
            None => spec_scroll_owner_in_tabs(s, bar_id, k + 1),
        }
    }
}

/// What a bar's announced value does to the scroll layout owning the bar:
/// while that bar is visible, the value lands in the scrolled child's
/// position on the announced axis; an invisible bar's announcement changes
/// nothing, and without a child there is nothing to write.
pub open spec fn spec_apply_bar_value(
    s: ScrollLayout,
    bar_id: WidgetId,
    o: Orientation,
    v: i64,
) -> ScrollLayout {
    let is_h = s.h_scroll.window_base.uuid == bar_id;
    let is_v = s.v_scroll.window_base.uuid == bar_id;
    let visible = if is_h {
        s.h_scroll.spec_visible()
    } else {
        s.v_scroll.spec_visible()
    };
    if (is_h || is_v) && visible {
        match s.child {
            Some(c) => ScrollLayout {
                child: Some(
                    if o == Orientation::Horizontal {
                        WindowBase { x_scroll: v, ..c }
                    } else {
                        WindowBase { y_scroll: v, ..c }
                    },
                ),
                ..s
            },
            None => s,
        }
    } else {
        s
    }
}

/// What the maintenance walk does to the bar's owner: present before means
/// present after with the value applied; absent stays absent.
pub open spec fn spec_owner_effect(
    before: Option<ScrollLayout>,
    after: Option<ScrollLayout>,
    bar_id: WidgetId,
    o: Orientation,
    v: i64,
) -> bool {
    match before {
        Some(s) => after == Some(spec_apply_bar_value(s, bar_id, o, v)),
        None => after is None,
    }
}

/// The owner effect lifts pointwise over a row's children.
proof fn lemma_owner_children_lift(
    s_old: Seq<ChildType>,
    s_new: Seq<ChildType>,
    bar_id: WidgetId,
    o: Orientation,
    v: i64,
    k: int,
)
    requires
        s_old.len() == s_new.len(),
        forall|j: int|
            0 <= j < s_old.len() ==> spec_owner_effect(
                spec_scroll_owner_of(s_old[j], bar_id),
                spec_scroll_owner_of(#[trigger] s_new[j], bar_id),
                bar_id,
                o,
                v,
            ),
    ensures
        spec_owner_effect(
            spec_scroll_owner_in_children(s_old, bar_id, k),
            spec_scroll_owner_in_children(s_new, bar_id, k),
            bar_id,
            o,
            v,
        ),
    decreases s_old.len() - k,
{
    if 0 <= k < s_old.len() {
        lemma_owner_children_lift(s_old, s_new, bar_id, o, v, k + 1);
    }
}

/// The owner effect lifts pointwise over a tab layout's tabs.
proof fn lemma_owner_tabs_lift(
    s_old: Seq<crate::tab_layout::Tab>,
    s_new: Seq<crate::tab_layout::Tab>,
    bar_id: WidgetId,
    o: Orientation,
    v: i64,
    k: int,
)
    requires
        s_old.len() == s_new.len(),
        forall|j: int|
            0 <= j < s_old.len() ==> spec_owner_effect(
                spec_scroll_owner_of(s_old[j].contents, bar_id),
                spec_scroll_owner_of((#[trigger] s_new[j]).contents, bar_id),
                bar_id,
                o,
                v,
            ),
    ensures
        spec_owner_effect(
            spec_scroll_owner_in_tabs(s_old, bar_id, k),
            spec_scroll_owner_in_tabs(s_new, bar_id, k),
            bar_id,
            o,
            v,
        ),
    decreases s_old.len() - k,
{
    if 0 <= k < s_old.len() {
        lemma_owner_tabs_lift(s_old, s_new, bar_id, o, v, k + 1);
    }
}

} // verus!

verus! {

/// The first tab layout bearing `layout_id`, visited the way the activation
/// walk visits layouts (a matching layout is taken whole; only unmatched
/// ones are searched deeper).
pub open spec fn spec_tab_layout_of(c: ChildType, layout_id: WidgetId) -> Option<TabLayout>
    decreases c, 1int, 0int,
{
    match c {
        ChildType::Window(_) => None,
        ChildType::Layout(l) => match *l {
            LayoutNode::Row(r) => spec_tab_layout_in_children(r.children@, layout_id, 0),
            LayoutNode::Border(b) => spec_tab_layout_in_children(b.rows.children@, layout_id, 0),
            LayoutNode::Scroll(_) => None,
            LayoutNode::Tab(t) => if t.layout_base.uuid == layout_id {
                Some(t)
            } else {
                spec_tab_layout_in_tabs(t.tabs@, layout_id, 0)
            },
        },
    }
}

/// The search of [`spec_tab_layout_of`] over a row's children.
pub open spec fn spec_tab_layout_in_children(s: Seq<ChildType>, layout_id: WidgetId, k: int) -> Option<
    TabLayout,
>
    decreases s, 2int, s.len() - k,
{
    if k < 0 || k >= s.len() {
        None
    } else {
        match spec_tab_layout_of(s[k], layout_id) {
            Some(t) => Some(t),
            None => spec_tab_layout_in_children(s, layout_id, k + 1),
        }
    }
}

/// The search of [`spec_tab_layout_of`] over a tab layout's tabs.
pub open spec fn spec_tab_layout_in_tabs(
    s: Seq<crate::tab_layout::Tab>,
    layout_id: WidgetId,
    k: int,
) -> Option<TabLayout>
    decreases s, 2int, s.len() - k,
{
    if k < 0 || k >= s.len() {
        None
    } else {
        match spec_tab_layout_of(s[k].contents, layout_id) {
            Some(t) => Some(t),
            None => spec_tab_layout_in_tabs(s, layout_id, k + 1),
        }
    }
}

/// What activating `tab_id` does to the named tab layout: it becomes active
/// when one of the layout's tabs bears it; an id no tab bears is a lookup
/// miss and changes nothing. An absent layout stays absent.
pub open spec fn spec_tab_effect(
    before: Option<TabLayout>,
    after: Option<TabLayout>,
    tab_id: WidgetId,
) -> bool {
    match before {
        Some(t) => after == Some(
            TabLayout {
                active_tab: if t.spec_index_of(tab_id) is Some {
                    Some(tab_id)
                } else {
                    t.active_tab
                },
                ..t
            },
        ),
        None => after is None,
    }
}

/// The activation effect lifts pointwise over a row's children.
proof fn lemma_tab_children_lift(
    s_old: Seq<ChildType>,
    s_new: Seq<ChildType>,
    layout_id: WidgetId,
    tab_id: WidgetId,
    k: int,
)
    requires
        s_old.len() == s_new.len(),
        forall|j: int|
            0 <= j < s_old.len() ==> spec_tab_effect(
                spec_tab_layout_of(s_old[j], layout_id),
                spec_tab_layout_of(#[trigger] s_new[j], layout_id),
                tab_id,
            ),
    ensures
        spec_tab_effect(
            spec_tab_layout_in_children(s_old, layout_id, k),
            spec_tab_layout_in_children(s_new, layout_id, k),
            tab_id,
        ),
    decreases s_old.len() - k,
{
    if 0 <= k < s_old.len() {
        lemma_tab_children_lift(s_old, s_new, layout_id, tab_id, k + 1);
    }
}

/// The activation effect lifts pointwise over a tab layout's tabs.
proof fn lemma_tab_tabs_lift(
    s_old: Seq<crate::tab_layout::Tab>,
    s_new: Seq<crate::tab_layout::Tab>,
    layout_id: WidgetId,
    tab_id: WidgetId,
    k: int,
)
    requires
        s_old.len() == s_new.len(),
        forall|j: int|
            0 <= j < s_old.len() ==> spec_tab_effect(
                spec_tab_layout_of(s_old[j].contents, layout_id),
                spec_tab_layout_of((#[trigger] s_new[j]).contents, layout_id),
                tab_id,
            ),
    ensures
        spec_tab_effect(
            spec_tab_layout_in_tabs(s_old, layout_id, k),
            spec_tab_layout_in_tabs(s_new, layout_id, k),
            tab_id,
        ),
    decreases s_old.len() - k,
{
    if 0 <= k < s_old.len() {
        lemma_tab_tabs_lift(s_old, s_new, layout_id, tab_id, k + 1);
    }
}

} // verus!

verus! {

/// The first scroll layout bearing `sid` itself, visited the way the
/// maintenance walk visits layouts.
pub open spec fn spec_scroll_by_id(c: ChildType, sid: WidgetId) -> Option<ScrollLayout>
    decreases c, 1int, 0int,
{
    match c {
        ChildType::Window(_) => None,
        ChildType::Layout(l) => match *l {
            LayoutNode::Row(r) => spec_scroll_by_id_in_children(r.children@, sid, 0),
            LayoutNode::Border(b) => spec_scroll_by_id_in_children(b.rows.children@, sid, 0),
            LayoutNode::Scroll(s) => if s.layout_base.uuid == sid {
                Some(s)
            } else {
                None
            },
            LayoutNode::Tab(t) => spec_scroll_by_id_in_tabs(t.tabs@, sid, 0),
        },
    }
}

/// The search of [`spec_scroll_by_id`] over a row's children.
pub open spec fn spec_scroll_by_id_in_children(s: Seq<ChildType>, sid: WidgetId, k: int) -> Option<
    ScrollLayout,
>
    decreases s, 2int, s.len() - k,
{
    if k < 0 || k >= s.len() {
        None
    } else {
        match spec_scroll_by_id(s[k], sid) {
            Some(sc) => Some(sc),
            None => spec_scroll_by_id_in_children(s, sid, k + 1),
        }
    }
}

/// The search of [`spec_scroll_by_id`] over a tab layout's tabs.
pub open spec fn spec_scroll_by_id_in_tabs(
    s: Seq<crate::tab_layout::Tab>,
    sid: WidgetId,
    k: int,
) -> Option<ScrollLayout>
    decreases s, 2int, s.len() - k,
{
    if k < 0 || k >= s.len() {
        None
    } else {
        match spec_scroll_by_id(s[k].contents, sid) {
            Some(sc) => Some(sc),
            None => spec_scroll_by_id_in_tabs(s, sid, k + 1),
        }
    }
}

/// What a scroller refresh does to the named scroll layout: its bars take
/// the scrolled child's fresh ranges and values — so each bar's visibility
/// again follows from the child's range alone; with no child attached the
/// bars stay as they were. An absent layout stays absent.
pub open spec fn spec_refresh_effect(
    before: Option<ScrollLayout>,
    after: Option<ScrollLayout>,
) -> bool {
    match before {
        Some(s) => after matches Some(s2) && {
            &&& s2.layout_base.uuid == s.layout_base.uuid
            &&& (s.child matches Some(c) ==> {
                &&& s2.h_scroll.min_value == c.x_scroll_min
                &&& s2.h_scroll.max_value == c.x_scroll_max
                &&& s2.h_scroll.value == c.x_scroll
                &&& s2.h_scroll.spec_visible() == (c.x_scroll_max > c.x_scroll_min)
                &&& s2.v_scroll.min_value == c.y_scroll_min
                &&& s2.v_scroll.max_value == c.y_scroll_max
                &&& s2.v_scroll.value == c.y_scroll
                &&& s2.v_scroll.spec_visible() == (c.y_scroll_max > c.y_scroll_min)
            })
            &&& (s.child is None ==> s2.h_scroll == s.h_scroll && s2.v_scroll == s.v_scroll
                && s2.child is None)
        },
        None => after is None,
    }
}

/// The refresh effect lifts pointwise over a row's children.
proof fn lemma_refresh_children_lift(
    s_old: Seq<ChildType>,
    s_new: Seq<ChildType>,
    sid: WidgetId,
    k: int,
)
    requires
        s_old.len() == s_new.len(),
        forall|j: int|
            0 <= j < s_old.len() ==> spec_refresh_effect(
                spec_scroll_by_id(s_old[j], sid),
                spec_scroll_by_id(#[trigger] s_new[j], sid),
            ),
    ensures
        spec_refresh_effect(
            spec_scroll_by_id_in_children(s_old, sid, k),
            spec_scroll_by_id_in_children(s_new, sid, k),
        ),
    decreases s_old.len() - k,
{
    if 0 <= k < s_old.len() {
        lemma_refresh_children_lift(s_old, s_new, sid, k + 1);
    }
}

/// The refresh effect lifts pointwise over a tab layout's tabs.
proof fn lemma_refresh_tabs_lift(
    s_old: Seq<crate::tab_layout::Tab>,
    s_new: Seq<crate::tab_layout::Tab>,
    sid: WidgetId,
    k: int,
)
    requires
        s_old.len() == s_new.len(),
        forall|j: int|
            0 <= j < s_old.len() ==> spec_refresh_effect(
                spec_scroll_by_id(s_old[j].contents, sid),
                spec_scroll_by_id((#[trigger] s_new[j]).contents, sid),
            ),
    ensures
        spec_refresh_effect(
            spec_scroll_by_id_in_tabs(s_old, sid, k),
            spec_scroll_by_id_in_tabs(s_new, sid, k),
        ),
    decreases s_old.len() - k,
{
    if 0 <= k < s_old.len() {
        lemma_refresh_tabs_lift(s_old, s_new, sid, k + 1);
    }
}

} // verus!

verus! {

/// The first `k` operations of a list applied to one widget, in order.
pub open spec fn spec_apply_ops(w: WindowBase, ops: Seq<WidgetOp>, k: int) -> WindowBase
    decreases k,
{
    if k <= 0 || k > ops.len() {
        w
    } else {
        spec_apply_window_op(spec_apply_ops(w, ops, k - 1), ops[k - 1])
    }
}

/// The operations a list of routing steps carries, in order.
pub open spec fn spec_ops_of(steps: Seq<crate::routing::RouteStep>) -> Seq<WidgetOp> {
    steps.map_values(|s: crate::routing::RouteStep| s.op)
}

} // verus!

verus! {

/// The header bars of the first `k` tabs drawn over `base`: for each tab a
/// left edge, a right edge and a top edge around its span, and — for every
/// tab but the active one — a bottom edge closing its header off from the
/// contents below.
pub open spec fn spec_tab_header_bars(
    base: tiny_skia::Pixmap,
    tabs: Seq<crate::tab_layout::Tab>,
    active: Option<WidgetId>,
    top: i64,
    k: int,
) -> tiny_skia::Pixmap
    decreases k,
{
    if k <= 0 || k > tabs.len() {
        base
    } else {
        let prev = spec_tab_header_bars(base, tabs, active, top, k - 1);
        let tab = tabs[k - 1];
        let vdims = crate::raster::layer_alloc_dims(1, top);
        let vbar = crate::raster::filled_layer(vdims.0, vdims.1, 0, 0, 0, 255);
        let hdims = crate::raster::layer_alloc_dims(tab.top_width, 1);
        let hbar = crate::raster::filled_layer(hdims.0, hdims.1, 0, 0, 0, 255);
        let left = crate::raster::blitted_layer(
            prev,
            crate::raster::clamp_blit(tab.top_start_x as int),
            0,
            vbar,
        );
        let right = crate::raster::blitted_layer(
            left,
            crate::raster::clamp_blit(tab.top_start_x + tab.top_width),
            0,
            vbar,
        );
        let topped = crate::raster::blitted_layer(
            right,
            crate::raster::clamp_blit(tab.top_start_x as int),
            0,
            hbar,
        );
        if active == Some(tab.uuid) {
            topped
        } else {
            crate::raster::blitted_layer(
                topped,
                crate::raster::clamp_blit(tab.top_start_x as int),
                crate::raster::clamp_blit(top as int),
                hbar,
            )
        }
    }
}

/// The header strip's remaining top line and the content frame drawn over
/// the header bars: the top line from the last header's end to the right
/// edge, then the frame's right, bottom and left edges below the strip.
pub open spec fn spec_tab_frame(
    bars: tiny_skia::Pixmap,
    top: i64,
    width: i64,
    height: i64,
    header_end: i64,
) -> tiny_skia::Pixmap {
    let rdims = crate::raster::layer_alloc_dims((width - header_end) as i64, 1);
    let rem = crate::raster::filled_layer(rdims.0, rdims.1, 0, 0, 0, 255);
    let vdims = crate::raster::layer_alloc_dims(1, (height - top) as i64);
    let vbar = crate::raster::filled_layer(vdims.0, vdims.1, 0, 0, 0, 255);
    let hdims = crate::raster::layer_alloc_dims(width, 1);
    let hbar = crate::raster::filled_layer(hdims.0, hdims.1, 0, 0, 0, 255);
    let lined = crate::raster::blitted_layer(
        bars,
        crate::raster::clamp_blit(header_end as int),
        crate::raster::clamp_blit(top as int),
        rem,
    );
    let right = crate::raster::blitted_layer(
        lined,
        crate::raster::clamp_blit(width - 1),
        crate::raster::clamp_blit(top as int),
        vbar,
    );
    let bottom = crate::raster::blitted_layer(
        right,
        0,
        crate::raster::clamp_blit(height - 1),
        hbar,
    );
    crate::raster::blitted_layer(bottom, 0, crate::raster::clamp_blit(top as int), vbar)
}

/// Draws one tab's header bars at its span.
fn draw_tab_header_bars(
    pixmap: &mut tiny_skia::Pixmap,
    start: i64,
    header: i64,
    top: i64,
    is_active: bool,
    ghost_tab: Ghost<crate::tab_layout::Tab>,
    ghost_active: Ghost<Option<WidgetId>>,
)
    requires
        valid_coord(start),
        valid_dim(header),
        valid_dim(top),
        ghost_tab@.top_start_x == start,
        ghost_tab@.top_width == header,
        is_active == (ghost_active@ == Some(ghost_tab@.uuid)),
    ensures
        *final(pixmap) == spec_tab_header_bars(
            *old(pixmap),
            seq![ghost_tab@],
            ghost_active@,
            top,
            1,
        ),
        crate::raster::layer_width(*final(pixmap)) == crate::raster::layer_width(*old(pixmap)),
        crate::raster::layer_height(*final(pixmap)) == crate::raster::layer_height(*old(pixmap)),
{
    let black = crate::child_window::Rgba { r: 0, g: 0, b: 0, a: 255 };
    let mut vbar = crate::raster::layer_new_or_fallback(1, top);
    crate::raster::layer_fill(&mut vbar, black);
    let mut hbar = crate::raster::layer_new_or_fallback(header, 1);
    crate::raster::layer_fill(&mut hbar, black);
    proof {
        let vdims = crate::raster::layer_alloc_dims(1, top);
        assert(vbar == crate::raster::filled_layer(vdims.0, vdims.1, 0, 0, 0, 255));
        let hdims = crate::raster::layer_alloc_dims(header, 1);
        assert(hbar == crate::raster::filled_layer(hdims.0, hdims.1, 0, 0, 0, 255));
        assert(seq![ghost_tab@][0] == ghost_tab@);
        assert(spec_tab_header_bars(*old(pixmap), seq![ghost_tab@], ghost_active@, top, 0)
            == *old(pixmap));
    }
    crate::raster::layer_blit_at(pixmap, start, 0, &vbar);
    crate::raster::layer_blit_at(pixmap, start + header, 0, &vbar);
    crate::raster::layer_blit_at(pixmap, start, 0, &hbar);
    if !is_active {
        crate::raster::layer_blit_at(pixmap, start, top, &hbar);
    }
}

/// Draws the remaining top line and the content frame.
fn draw_tab_frame(pixmap: &mut tiny_skia::Pixmap, top: i64, width: i64, height: i64, header_end: i64)
    requires
        valid_dim(top),
        valid_dim(width),
        valid_dim(height),
        0 <= header_end <= MAX_DIM,
    ensures
        *final(pixmap) == spec_tab_frame(*old(pixmap), top, width, height, header_end),
        crate::raster::layer_width(*final(pixmap)) == crate::raster::layer_width(*old(pixmap)),
        crate::raster::layer_height(*final(pixmap)) == crate::raster::layer_height(*old(pixmap)),
{
    let black = crate::child_window::Rgba { r: 0, g: 0, b: 0, a: 255 };
    let mut rem = crate::raster::layer_new_or_fallback(width - header_end, 1);
    crate::raster::layer_fill(&mut rem, black);
    let mut vbar = crate::raster::layer_new_or_fallback(1, height - top);
    crate::raster::layer_fill(&mut vbar, black);
    let mut hbar = crate::raster::layer_new_or_fallback(width, 1);
    crate::raster::layer_fill(&mut hbar, black);
    crate::raster::layer_blit_at(pixmap, header_end, top, &rem);
    crate::raster::layer_blit_at(pixmap, width - 1, top, &vbar);
    crate::raster::layer_blit_at(pixmap, 0, height - 1, &hbar);
    crate::raster::layer_blit_at(pixmap, 0, top, &vbar);
}

/// One tab's bars over a base equal one more step of the fold.
proof fn lemma_header_bars_step(
    base: tiny_skia::Pixmap,
    tabs: Seq<crate::tab_layout::Tab>,
    active: Option<WidgetId>,
    top: i64,
    k: int,
)
    requires
        0 <= k < tabs.len(),
    ensures
        spec_tab_header_bars(base, tabs, active, top, k + 1) == spec_tab_header_bars(
            spec_tab_header_bars(base, tabs, active, top, k),
            seq![tabs[k]],
            active,
            top,
            1,
        ),
{
    let prev = spec_tab_header_bars(base, tabs, active, top, k);
    assert(spec_tab_header_bars(prev, seq![tabs[k]], active, top, 0) == prev);
    assert(seq![tabs[k]][0] == tabs[k]);
}

/// The header fold reads only each tab's span and identity.
proof fn lemma_header_bars_fields(
    base: tiny_skia::Pixmap,
    t1: Seq<crate::tab_layout::Tab>,
    t2: Seq<crate::tab_layout::Tab>,
    active: Option<WidgetId>,
    top: i64,
    k: int,
)
    requires
        forall|j: int|
            0 <= j < k ==> (#[trigger] t1[j]).top_start_x == t2[j].top_start_x
                && t1[j].top_width == t2[j].top_width && t1[j].uuid == t2[j].uuid,
        k <= t1.len(),
        k <= t2.len(),
    ensures
        spec_tab_header_bars(base, t1, active, top, k) == spec_tab_header_bars(
            base,
            t2,
            active,
            top,
            k,
        ),
    decreases k,
{
    if k > 0 {
        lemma_header_bars_fields(base, t1, t2, active, top, k - 1);
    }
}

/// The header fold of the first `k` tabs reads only those tabs.
proof fn lemma_header_bars_prefix(
    base: tiny_skia::Pixmap,
    t1: Seq<crate::tab_layout::Tab>,
    t2: Seq<crate::tab_layout::Tab>,
    active: Option<WidgetId>,
    top: i64,
    k: int,
)
    requires
        forall|j: int| 0 <= j < k ==> t1[j] == t2[j],
        k <= t1.len(),
        k <= t2.len(),
    ensures
        spec_tab_header_bars(base, t1, active, top, k) == spec_tab_header_bars(
            base,
            t2,
            active,
            top,
            k,
        ),
    decreases k,
{
    if k > 0 {
        lemma_header_bars_prefix(base, t1, t2, active, top, k - 1);
    }
}

} // verus!
