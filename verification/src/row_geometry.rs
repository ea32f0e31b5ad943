//! Sizing and placement of a row layout's children.
//!
//! Given each child's natural size and optional minimum size, the stacking
//! orientation, the inter-child padding, the fill policy and the region, this
//! module computes where every child is drawn:
//!
//! 1. a single child receives the full region minus the edge padding;
//! 2. otherwise the natural sizes plus padding are summed ("used space");
//! 3. if used space exceeds the region, children with a minimum are clamped
//!    to it first, then the remaining overflow is split as an equal
//!    per-child reduction among the children without a minimum (integer
//!    truncation permitted, drift is not corrected);
//! 4. remaining slack is handed out per the fill policy;
//! 5. children are placed sequentially along the axis, and each child's
//!    cross-axis extent is forced to the layout's full cross extent.
//!
//! All arithmetic is exact over `int` in the specification; the executable
//! code mirrors it in `i128` and clamps the final coordinates into the
//! coordinate range, which leaves them untouched for every geometry that
//! fits on a screen.

use vstd::prelude::*;
use crate::child_window::{LayoutFill, Orientation, WidgetId};
use crate::{valid_dim, MAX_DIM};

verus! {

/// What the row algorithm reads of one child: its identity, its natural
/// drawing size, and its declared minimum size, if any.
#[derive(Clone, Copy, Debug)]
pub struct ChildMeta {
    pub id: WidgetId,
    pub nat_w: i64,
    pub nat_h: i64,
    pub min: Option<(i64, i64)>,
}

/// A child's computed position and size, relative to the layout's origin.
#[derive(Clone, Copy, Debug, PartialEq, Eq, Structural)]
pub struct Place {
    pub x: i64,
    pub y: i64,
    pub width: i64,
    pub height: i64,
}

/// Most children a single row layout will lay out; keeps all of the
/// placement arithmetic within machine bounds.
pub const MAX_ROW_CHILDREN: usize = 4096;

impl ChildMeta {
    pub open spec fn wf(&self) -> bool {
        &&& valid_dim(self.nat_w)
        &&& valid_dim(self.nat_h)
        &&& (self.min matches Some(m) ==> valid_dim(m.0) && valid_dim(m.1))
    }

    /// The child's natural extent along the stacking axis.
    pub open spec fn nat_ax(&self, o: Orientation) -> int {
        if o == Orientation::Horizontal {
            self.nat_w as int
        } else {
            self.nat_h as int
        }
    }

    /// The child's minimum extent along the stacking axis (only meaningful
    /// when a minimum is declared).
    pub open spec fn min_ax(&self, o: Orientation) -> int {
        match self.min {
            Some(m) => if o == Orientation::Horizontal {
                m.0 as int
            } else {
                m.1 as int
            },
            None => 0,
        }
    }

    pub open spec fn has_min(&self) -> bool {
        self.min is Some
    }
}

/// The region's extent along the stacking axis.
pub open spec fn axis_len(o: Orientation, width: i64, height: i64) -> int {
    if o == Orientation::Horizontal {
        width as int
    } else {
        height as int
    }
}

/// The region's extent across the stacking axis.
pub open spec fn cross_len(o: Orientation, width: i64, height: i64) -> int {
    if o == Orientation::Horizontal {
        height as int
    } else {
        width as int
    }
}

/// Sum of the natural axis extents of the first `k` children.
pub open spec fn sum_nat_to(s: Seq<ChildMeta>, o: Orientation, k: int) -> int
    decreases k,
{
    if k <= 0 {
        0
    } else {
        sum_nat_to(s, o, k - 1) + s[k - 1].nat_ax(o)
    }
}

/// Sum over the first `k` children with a minimum of how far each exceeds
/// that minimum: the space the shrink pass reclaims by clamping them.
pub open spec fn sum_surplus_to(s: Seq<ChildMeta>, o: Orientation, k: int) -> int
    decreases k,
{
    if k <= 0 {
        0
    } else {
        sum_surplus_to(s, o, k - 1) + if s[k - 1].has_min() {
            s[k - 1].nat_ax(o) - s[k - 1].min_ax(o)
        } else {
            0int
        }
    }
}

/// How many of the first `k` children declare no minimum size.
pub open spec fn count_nomin_to(s: Seq<ChildMeta>, k: int) -> int
    decreases k,
{
    if k <= 0 {
        0
    } else {
        count_nomin_to(s, k - 1) + if s[k - 1].has_min() {
            0int
        } else {
            1int
        }
    }
}

/// Space used by all children at their natural sizes, with inter-child
/// padding between them and at both ends.
pub open spec fn used_natural(s: Seq<ChildMeta>, o: Orientation, p: i64) -> int {
    p * (s.len() + 1) + sum_nat_to(s, o, s.len() as int)
}

/// Whether the natural sizes overflow the region, so the shrink pass runs.
pub open spec fn shrinks(s: Seq<ChildMeta>, o: Orientation, p: i64, alen: int) -> bool {
    used_natural(s, o, p) > alen
}

/// The equal per-child reduction applied to children without a minimum when
/// clamping the others to their minimum was not enough.
pub open spec fn shrink_reduction(s: Seq<ChildMeta>, o: Orientation, p: i64, alen: int) -> int {
    if !shrinks(s, o, p, alen) {
        0
    } else {
        let t = used_natural(s, o, p) - alen - sum_surplus_to(s, o, s.len() as int);
        let nomin = count_nomin_to(s, s.len() as int);
        if t > 0 && nomin > 0 {
            t / nomin
        } else {
            0
        }
    }
}

/// A child's axis extent after the shrink pass: its minimum if it declared
/// one, else its natural extent less the equal reduction; untouched when
/// nothing shrinks.
pub open spec fn size_shrunk(c: ChildMeta, o: Orientation, shrink: bool, red: int) -> int {
    if !shrink {
        c.nat_ax(o)
    } else if c.has_min() {
        c.min_ax(o)
    } else {
        c.nat_ax(o) - red
    }
}

/// Sum of the post-shrink extents of the first `k` children.
pub open spec fn sum_shrunk_to(
    s: Seq<ChildMeta>,
    o: Orientation,
    shrink: bool,
    red: int,
    k: int,
) -> int
    decreases k,
{
    if k <= 0 {
        0
    } else {
        sum_shrunk_to(s, o, shrink, red, k - 1) + size_shrunk(s[k - 1], o, shrink, red)
    }
}

/// Whether child `i` is the one a `Single` fill policy pays its slack to:
/// the first child bearing the named id.
pub open spec fn is_fill_target(s: Seq<ChildMeta>, i: int, id: WidgetId) -> bool {
    &&& s[i].id == id
    &&& forall|j: int| 0 <= j < i ==> s[j].id != id
}

/// Slack left along the axis after the shrink pass, with the ordinary
/// padding counted.
pub open spec fn row_slack(s: Seq<ChildMeta>, o: Orientation, p: i64, alen: int) -> int {
    let shrink = shrinks(s, o, p, alen);
    let red = shrink_reduction(s, o, p, alen);
    alen - (p * (s.len() + 1) + sum_shrunk_to(s, o, shrink, red, s.len() as int))
}

/// The equal share of slack each child receives under `Evenly`, after the
/// padding is recomputed to include one extra gap at each end.
pub open spec fn row_even_share(s: Seq<ChildMeta>, o: Orientation, p: i64, alen: int) -> int {
    let shrink = shrinks(s, o, p, alen);
    let red = shrink_reduction(s, o, p, alen);
    let se = alen - (p * (s.len() + 3) + sum_shrunk_to(s, o, shrink, red, s.len() as int));
    if se > 0 && s.len() > 0 {
        se / s.len() as int
    } else {
        0
    }
}

/// The extra axis extent the fill policy grants child `i`.
pub open spec fn fill_bonus(
    s: Seq<ChildMeta>,
    i: int,
    o: Orientation,
    p: i64,
    fill: LayoutFill,
    alen: int,
) -> int {
    match fill {
        LayoutFill::Single(id) => if is_fill_target(s, i, id) && row_slack(s, o, p, alen) > 0 {
            row_slack(s, o, p, alen)
        } else {
            0
        },
        LayoutFill::Evenly => row_even_share(s, o, p, alen),
        LayoutFill::Unused => 0,
    }
}

/// Child `i`'s final axis extent: its post-shrink extent plus its fill
/// bonus.
pub open spec fn final_ax_size(
    s: Seq<ChildMeta>,
    i: int,
    o: Orientation,
    p: i64,
    fill: LayoutFill,
    alen: int,
) -> int {
    size_shrunk(s[i], o, shrinks(s, o, p, alen), shrink_reduction(s, o, p, alen)) + fill_bonus(
        s,
        i,
        o,
        p,
        fill,
        alen,
    )
}

/// Sum of the final axis extents of the first `k` children.
pub open spec fn sum_final_to(
    s: Seq<ChildMeta>,
    o: Orientation,
    p: i64,
    fill: LayoutFill,
    alen: int,
    k: int,
) -> int
    decreases k,
{
    if k <= 0 {
        0
    } else {
        sum_final_to(s, o, p, fill, alen, k - 1) + final_ax_size(s, k - 1, o, p, fill, alen)
    }
}

/// Child `i`'s axis position: after the leading padding and every earlier
/// child with its trailing padding.
pub open spec fn axis_pos(
    s: Seq<ChildMeta>,
    i: int,
    o: Orientation,
    p: i64,
    fill: LayoutFill,
    alen: int,
) -> int {
    p * (i + 1) + sum_final_to(s, o, p, fill, alen, i)
}

/// Clamps a mathematical coordinate into the coordinate range.
pub open spec fn clamp_coord(v: int) -> int {
    if v < -MAX_DIM {
        -(MAX_DIM as int)
    } else if v > MAX_DIM {
        MAX_DIM as int
    } else {
        v
    }
}

/// Where child `i` of a multi-child row is placed: positioned along the
/// stacking axis, spanning the full cross extent.
pub open spec fn row_place_multi(
    s: Seq<ChildMeta>,
    i: int,
    o: Orientation,
    p: i64,
    fill: LayoutFill,
    width: i64,
    height: i64,
) -> Place {
    let alen = axis_len(o, width, height);
    let clen = cross_len(o, width, height);
    let pos = clamp_coord(axis_pos(s, i, o, p, fill, alen));
    let size = clamp_coord(final_ax_size(s, i, o, p, fill, alen));
    if o == Orientation::Horizontal {
        Place { x: pos as i64, y: 0, width: size as i64, height: clen as i64 }
    } else {
        Place { x: 0, y: pos as i64, width: clen as i64, height: size as i64 }
    }
}

/// Where a row's only child is placed: the full region minus the edge
/// padding, regardless of the child's own bounds.
pub open spec fn row_place_single(p: i64, width: i64, height: i64) -> Place {
    Place {
        x: p,
        y: p,
        width: (width - 2 * p) as i64,
        height: (height - 2 * p) as i64,
    }
}

/// Where child `i` of the row is placed.
pub open spec fn row_place(
    s: Seq<ChildMeta>,
    i: int,
    o: Orientation,
    p: i64,
    fill: LayoutFill,
    width: i64,
    height: i64,
) -> Place {
    if s.len() == 1 {
        row_place_single(p, width, height)
    } else {
        row_place_multi(s, i, o, p, fill, width, height)
    }
}

/// When nothing shrinks, every post-shrink extent is the natural extent.
proof fn lemma_sum_shrunk_eq_nat(s: Seq<ChildMeta>, o: Orientation, k: int)
    ensures
        sum_shrunk_to(s, o, false, 0, k) == sum_nat_to(s, o, k),
    decreases k,
{
    if k > 0 {
        lemma_sum_shrunk_eq_nat(s, o, k - 1);
    }
}

/// Under the `Unused` fill policy, final extents are the post-shrink
/// extents.
proof fn lemma_sum_final_unused(s: Seq<ChildMeta>, o: Orientation, p: i64, alen: int, k: int)
    ensures
        sum_final_to(s, o, p, LayoutFill::Unused, alen, k) == sum_shrunk_to(
            s,
            o,
            shrinks(s, o, p, alen),
            shrink_reduction(s, o, p, alen),
            k,
        ),
    decreases k,
{
    if k > 0 {
        lemma_sum_final_unused(s, o, p, alen, k - 1);
    }
}

/// Row layout sizing, first half: when the children's natural sizes plus
/// padding fit in the region, no child is resized — each child's final axis
/// extent under the `Unused` fill policy is exactly its natural extent, and
/// the used space equals the sum of the natural sizes plus padding.
pub proof fn lemma_row_sizing_fits(s: Seq<ChildMeta>, o: Orientation, p: i64, alen: int)
    requires
        !shrinks(s, o, p, alen),
    ensures
        forall|i: int|
            0 <= i < s.len() ==> #[trigger] final_ax_size(s, i, o, p, LayoutFill::Unused, alen)
                == s[i].nat_ax(o),
        p * (s.len() + 1) + sum_final_to(s, o, p, LayoutFill::Unused, alen, s.len() as int)
            == used_natural(s, o, p),
{
    lemma_sum_shrunk_eq_nat(s, o, s.len() as int);
    lemma_sum_final_unused(s, o, p, alen, s.len() as int);
}

/// Row layout sizing, second half: a child that declared a minimum no larger
/// than its natural size is never given less than that minimum, whatever the
/// fill policy and however crowded the row is.
pub proof fn lemma_row_respects_minimum(
    s: Seq<ChildMeta>,
    i: int,
    o: Orientation,
    p: i64,
    fill: LayoutFill,
    alen: int,
)
    requires
        0 <= i < s.len(),
        s[i].has_min(),
        s[i].min_ax(o) <= s[i].nat_ax(o),
    ensures
        final_ax_size(s, i, o, p, fill, alen) >= s[i].min_ax(o),
{
    let shrink = shrinks(s, o, p, alen);
    let red = shrink_reduction(s, o, p, alen);
    assert(size_shrunk(s[i], o, shrink, red) >= s[i].min_ax(o));
    let se = alen - (p * (s.len() + 3) + sum_shrunk_to(s, o, shrink, red, s.len() as int));
    if se > 0 && s.len() > 0 {
        assert(se / s.len() as int >= 0) by (nonlinear_arith)
            requires
                se > 0,
                s.len() > 0,
        ;
    }
    assert(fill_bonus(s, i, o, p, fill, alen) >= 0);
}

/// The single-child shortcut: a row with exactly one child always gives that
/// child the full region minus the edge padding, regardless of the child's
/// own bounds and of the fill policy.
pub proof fn lemma_single_child_shortcut(
    s: Seq<ChildMeta>,
    o: Orientation,
    p: i64,
    fill: LayoutFill,
    width: i64,
    height: i64,
)
    requires
        s.len() == 1,
    ensures
        row_place(s, 0, o, p, fill, width, height) == (Place {
            x: p,
            y: p,
            width: (width - 2 * p) as i64,
            height: (height - 2 * p) as i64,
        }),
{
}

/// Every child's metadata is within the bounds the arithmetic is proved for.
pub open spec fn all_children_wf(s: Seq<ChildMeta>) -> bool {
    forall|i: int| 0 <= i < s.len() ==> #[trigger] s[i].wf()
}

/// Clamps a computed coordinate into the coordinate range.
fn clamp_coord_exec(v: i128) -> (r: i64)
    ensures
        r as int == clamp_coord(v as int),
{
    if v < -(MAX_DIM as i128) {
        -MAX_DIM
    } else if v > MAX_DIM as i128 {
        MAX_DIM
    } else {
        v as i64
    }
}

/// Computes where every child of a row layout is drawn, per the sizing,
/// shrink, fill and position passes described in [`row_place`].
pub fn compute_row_places(
    children: &Vec<ChildMeta>,
    o: Orientation,
    p: i64,
    fill: LayoutFill,
    width: i64,
    height: i64,
) -> (r: Vec<Place>)
    requires
        valid_dim(p),
        valid_dim(width),
        valid_dim(height),
        children@.len() <= MAX_ROW_CHILDREN,
        all_children_wf(children@),
    ensures
        r@.len() == children@.len(),
        forall|i: int|
            0 <= i < r@.len() ==> #[trigger] r@[i] == row_place(
                children@,
                i,
                o,
                p,
                fill,
                width,
                height,
            ),
{
    let ghost s = children@;
    let n = children.len();
    let mut places: Vec<Place> = Vec::new();
    if n == 0 {
        return places;
    }
    if n == 1 {
        places.push(
            Place { x: p, y: p, width: width - 2 * p, height: height - 2 * p },
        );
        return places;
    }

    let alen: i128 = if matches!(o, Orientation::Horizontal) {
        width as i128
    } else {
        height as i128
    };
    let clen: i64 = if matches!(o, Orientation::Horizontal) {
        height
    } else {
        width
    };
    proof {
        assert(alen == axis_len(o, width, height));
        assert(clen as int == cross_len(o, width, height));
    }
    let np1: i128 = n as i128 + 1;
    proof {
        assert(p as i128 * np1 <= 0x40000000i128 * 4097 && p as i128 * np1 >= 0)
            by (nonlinear_arith)
            requires
                0 <= p <= 0x40000000,
                2 <= np1 <= 4097,
        ;
    }
    let pad_total: i128 = p as i128 * np1;

    // Sizing pass: space used by the children at their natural sizes.
    let mut sum_nat: i128 = 0;
    let mut i: usize = 0;
    while i < n
        invariant
            n == s.len(),
            2 <= n <= MAX_ROW_CHILDREN,
            i <= n,
            all_children_wf(s),
            children@ == s,
            sum_nat == sum_nat_to(s, o, i as int),
            0 <= sum_nat <= i as int * 0x40000000,
        decreases n - i,
    {
        proof {
            assert(s[i as int].wf());
        }
        let c = &children[i];
        let nax: i64 = if matches!(o, Orientation::Horizontal) {
            c.nat_w
        } else {
            c.nat_h
        };
        sum_nat = sum_nat + nax as i128;
        i = i + 1;
    }
    let used0: i128 = pad_total + sum_nat;
    proof {
        assert(used0 == used_natural(s, o, p));
        assert(sum_nat <= 4096 * 0x40000000);
    }
    let shrink = used0 > alen;

    // Shrink pass, first half: clamping the children with a minimum
    // reclaims their surplus; the rest share the remaining overflow.
    let mut surplus: i128 = 0;
    let mut nomin: i128 = 0;
    let mut i: usize = 0;
    while i < n
        invariant
            n == s.len(),
            2 <= n <= MAX_ROW_CHILDREN,
            i <= n,
            all_children_wf(s),
            children@ == s,
            surplus == sum_surplus_to(s, o, i as int),
            -(i as int) * 0x40000000 <= surplus <= i as int * 0x40000000,
            nomin == count_nomin_to(s, i as int),
            0 <= nomin <= i as int,
        decreases n - i,
    {
        proof {
            assert(s[i as int].wf());
        }
        let c = &children[i];
        match c.min {
            Some((mw, mh)) => {
                let nax: i64 = if matches!(o, Orientation::Horizontal) {
                    c.nat_w
                } else {
                    c.nat_h
                };
                let mnx: i64 = if matches!(o, Orientation::Horizontal) {
                    mw
                } else {
                    mh
                };
                surplus = surplus + (nax as i128 - mnx as i128);
            },
            None => {
                nomin = nomin + 1;
            },
        }
        i = i + 1;
    }

    let red: i128 = if shrink {
        let t: i128 = used0 - alen - surplus;
        if t > 0 && nomin > 0 {
            proof {
                assert(t / nomin <= t && t / nomin >= 0) by (nonlinear_arith)
                    requires
                        t > 0,
                        nomin > 0,
                ;
            }
            t / nomin
        } else {
            0
        }
    } else {
        0
    };
    proof {
        assert(red == shrink_reduction(s, o, p, alen as int));
        assert(0 <= red <= 0x20000000000000);  // red <= used0 <= 2^43 + 2^42
    }

    // Shrink pass, second half: each child's post-shrink extent.
    let mut sum1: i128 = 0;
    let mut i: usize = 0;
    while i < n
        invariant
            n == s.len(),
            2 <= n <= MAX_ROW_CHILDREN,
            i <= n,
            all_children_wf(s),
            children@ == s,
            0 <= red <= 0x20000000000000,
            sum1 == sum_shrunk_to(s, o, shrink, red as int, i as int),
            -(i as int) * 0x40000000000000 <= sum1 <= i as int * 0x40000000000000,
        decreases n - i,
    {
        proof {
            assert(s[i as int].wf());
        }
        let c = &children[i];
        let nax: i64 = if matches!(o, Orientation::Horizontal) {
            c.nat_w
        } else {
            c.nat_h
        };
        let sz: i128 = if !shrink {
            nax as i128
        } else {
            match c.min {
                Some((mw, mh)) => {
                    if matches!(o, Orientation::Horizontal) {
                        mw as i128
                    } else {
                        mh as i128
                    }
                },
                None => nax as i128 - red,
            }
        };
        sum1 = sum1 + sz;
        i = i + 1;
    }

    // Fill pass: slack per the active fill policy.
    let slack: i128 = alen - (pad_total + sum1);
    proof {
        assert(slack == row_slack(s, o, p, alen as int));
        assert(-(4096int) * 0x40000000000000 <= sum1 <= 4096int * 0x40000000000000);
        assert(-0x80000000000000000 <= slack <= 0x80000000000000000);
    }
    let per: i128 = {
        let se: i128 = alen - (pad_total + 2 * p as i128 + sum1);
        proof {
            assert(pad_total + 2 * p as i128 == p * (s.len() + 3)) by (nonlinear_arith)
                requires
                    pad_total == p as i128 * np1,
                    np1 == n as i128 + 1,
                    n == s.len(),
            ;
        }
        if se > 0 {
            proof {
                assert(se / (n as i128) <= se && se / (n as i128) >= 0) by (nonlinear_arith)
                    requires
                        se > 0,
                        n >= 2,
                ;
            }
            se / (n as i128)
        } else {
            0
        }
    };
    proof {
        assert(per == row_even_share(s, o, p, alen as int));
        assert(0 <= per <= 0x80000000000000000);
    }

    // Position pass: children placed sequentially along the axis, each
    // spanning the full cross extent.
    let ghost fill_id: WidgetId = match fill {
        LayoutFill::Single(id) => id,
        _ => WidgetId { bits: 0 },
    };
    let mut given: bool = false;
    let mut pos: i128 = p as i128;
    let mut i: usize = 0;
    while i < n
        invariant
            n == s.len(),
            2 <= n <= MAX_ROW_CHILDREN,
            i <= n,
            all_children_wf(s),
            children@ == s,
            valid_dim(p),
            0 <= red <= 0x20000000000000,
            -0x80000000000000000 <= slack <= 0x80000000000000000,
            0 <= per <= 0x80000000000000000,
            slack == row_slack(s, o, p, alen as int),
            per == row_even_share(s, o, p, alen as int),
            shrink == shrinks(s, o, p, alen as int),
            red == shrink_reduction(s, o, p, alen as int),
            alen == axis_len(o, width, height),
            clen as int == cross_len(o, width, height),
            (fill matches LayoutFill::Single(id) ==> fill_id == id),
            (fill matches LayoutFill::Single(id) ==> (given <==> (exists|j: int|
                0 <= j < i && s[j].id == id))),
            pos == axis_pos(s, i as int, o, p, fill, alen as int),
            -(i as int + 1) * 0x200000000000000000 <= pos <= (i as int + 1) * 0x200000000000000000,
            places@.len() == i,
            forall|j: int|
                0 <= j < i ==> #[trigger] places@[j] == row_place_multi(
                    s,
                    j,
                    o,
                    p,
                    fill,
                    width,
                    height,
                ),
        decreases n - i,
    {
        proof {
            assert(s[i as int].wf());
        }
        let c = &children[i];
        let nax: i64 = if matches!(o, Orientation::Horizontal) {
            c.nat_w
        } else {
            c.nat_h
        };
        let sz1: i128 = if !shrink {
            nax as i128
        } else {
            match c.min {
                Some((mw, mh)) => {
                    if matches!(o, Orientation::Horizontal) {
                        mw as i128
                    } else {
                        mh as i128
                    }
                },
                None => nax as i128 - red,
            }
        };
        let bonus: i128 = match fill {
            LayoutFill::Single(id) => {
                if !given && c.id == id && slack > 0 {
                    slack
                } else {
                    0
                }
            },
            LayoutFill::Evenly => per,
            LayoutFill::Unused => 0,
        };
        let sz2: i128 = sz1 + bonus;
        proof {
            assert(sz2 == final_ax_size(s, i as int, o, p, fill, alen as int));
        }
        let place = if matches!(o, Orientation::Horizontal) {
            Place {
                x: clamp_coord_exec(pos),
                y: 0,
                width: clamp_coord_exec(sz2),
                height: clen,
            }
        } else {
            Place {
                x: 0,
                y: clamp_coord_exec(pos),
                width: clen,
                height: clamp_coord_exec(sz2),
            }
        };
        places.push(place);
        match fill {
            LayoutFill::Single(id) => {
                if c.id == id {
                    given = true;
                }
            },
            _ => {},
        }
        proof {
            assert(p as int * ((i as int) + 2) == p as int * ((i as int) + 1) + p as int)
                by (nonlinear_arith);
        }
        pos = pos + sz2 + p as i128;
        i = i + 1;
    }
    places
}

} // verus!
