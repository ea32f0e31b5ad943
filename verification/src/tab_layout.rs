//! A layout in which each child lives in its own tab. At most one tab is
//! active at a time; only the active tab's contents are rendered and
//! hit-tested, and a tab layout that has any tabs refuses to lose its last
//! one.

use vstd::prelude::*;
use crate::child_window::{ChildType, LayoutFill, UserEvent, WidgetId};
use crate::event_bus::EventQueue;
use crate::layout_base::LayoutBase;
use crate::row_geometry::MAX_ROW_CHILDREN;
use crate::window_base::WindowBase;
use crate::{valid_coord, valid_dim};

verus! {

/// Padding to the right of a tab header's close button, in pixels.
pub const TOP_RIGHT_PADDING: i64 = 6;

/// Integer metrics of a monospace header font: the core only reads the width
/// and height a character occupies. The embedding application measures its
/// font and hands the metrics in as plain values.
#[derive(Clone, Copy, Debug, PartialEq, Eq, Structural)]
pub struct FontMetrics {
    pub char_width: i64,
    pub char_height: i64,
}

/// One tab: its identity, title, owned close button, wrapped contents, and
/// the span its header occupies, as set by the last layout pass.
#[derive(Debug)]
pub struct Tab {
    pub uuid: WidgetId,
    pub title: String,
    /// Byte length of the title, fixed when the tab is created.
    pub title_len: usize,
    pub close_btn: WindowBase,
    pub contents: ChildType,
    /// X coordinate where the tab's header starts.
    pub top_start_x: i64,
    /// Width of the tab's header.
    pub top_width: i64,
}

#[derive(Debug)]
pub struct TabLayout {
    pub layout_base: LayoutBase,
    /// Header font metrics; with none set, header spans are not recomputed.
    pub font: Option<FontMetrics>,
    pub tabs: Vec<Tab>,
    /// The id of the active tab, if any. Being a single optional value, at
    /// most one tab is ever active.
    pub active_tab: Option<WidgetId>,
    /// Height of the header strip (title and close button).
    pub tab_top_height: i64,
    pub max_width: Option<i64>,
    pub max_height: Option<i64>,
}

impl Tab {
    pub open spec fn wf(&self) -> bool
        decreases self,
    {
        &&& self.close_btn.wf()
        &&& self.contents.wf()
        &&& valid_coord(self.top_start_x)
        &&& valid_dim(self.top_width)
    }
}

impl TabLayout {
    pub open spec fn wf(&self) -> bool
        decreases self,
    {
        &&& self.layout_base.wf()
        &&& valid_dim(self.tab_top_height)
        &&& (self.font matches Some(f) ==> valid_dim(f.char_width) && valid_dim(f.char_height))
        &&& self.tabs@.len() <= MAX_ROW_CHILDREN
        &&& (forall|i: int| 0 <= i < self.tabs@.len() ==> (#[trigger] self.tabs@[i]).wf())
    }

    pub fn new(main_win_uuid: WidgetId) -> (l: TabLayout)
        ensures
            l.wf(),
            l.tabs@.len() == 0,
            l.active_tab is None,
            l.tab_top_height == 30,
            l.font is None,
            l.layout_base.uuid.bits != 0,
            l.layout_base.main_win_uuid == main_win_uuid,
    {
        TabLayout {
            layout_base: LayoutBase::new(main_win_uuid),
            font: None,
            tabs: Vec::new(),
            active_tab: None,
            tab_top_height: 30,
            max_width: None,
            max_height: None,
        }
    }

    /// Supplies the metrics of the header font; header spans are computed
    /// from these on the next layout pass.
    pub fn set_font_metrics(&mut self, metrics: FontMetrics)
        requires
            valid_dim(metrics.char_width),
            valid_dim(metrics.char_height),
        ensures
            *final(self) == (TabLayout { font: Some(metrics), ..*old(self) }),
    {
        self.font = Some(metrics);
    }

    /// Adds a tab holding the given contents and makes it the active one; a
    /// full redraw is requested. The close button the tab owns asks, when
    /// pressed, for the tab to be closed.
    pub fn add_tab(&mut self, title: String, contents: ChildType, events: &mut EventQueue)
        requires
            old(self).wf(),
            contents.wf(),
            old(self).tabs@.len() < MAX_ROW_CHILDREN,
        ensures
            final(self).wf(),
            final(self).tabs@.len() == old(self).tabs@.len() + 1,
            final(self).tabs@.subrange(0, old(self).tabs@.len() as int) == old(self).tabs@,
            ({
                let t = final(self).tabs@.last();
                &&& t.title == title
                &&& t.contents == contents
                &&& t.top_start_x == 0 && t.top_width == 0
                &&& final(self).active_tab == Some(t.uuid)
            }),
            *final(self) == (TabLayout {
                tabs: final(self).tabs,
                active_tab: final(self).active_tab,
                ..*old(self)
            }),
            final(events)@ == old(events)@.push(
                UserEvent::RedrawAll(old(self).layout_base.main_win_uuid),
            ),
    {
        let tab_uuid = WidgetId::fresh();
        let mut close_btn = WindowBase::new(self.layout_base.main_win_uuid);
        close_btn.text = Some("x".to_owned());
        let title_len = title.as_str().len();
        let tab = Tab {
            uuid: tab_uuid,
            title,
            title_len,
            close_btn,
            contents,
            top_start_x: 0,
            top_width: 0,
        };
        self.tabs.push(tab);
        self.active_tab = Some(tab_uuid);
        events.publish(UserEvent::RedrawAll(self.layout_base.main_win_uuid));
        proof {
            assert(final(self).tabs@.subrange(0, old(self).tabs@.len() as int) =~= old(
                self,
            ).tabs@);
        }
    }

    /// The index of the active tab, if an active tab is set and present.
    pub open spec fn spec_active_index(&self) -> Option<int> {
        match self.active_tab {
            Some(id) => if exists|i: int| 0 <= i < self.tabs@.len() && self.tabs@[i].uuid == id {
                Some(choose|i: int| 0 <= i < self.tabs@.len() && self.tabs@[i].uuid == id)
            } else {
                None
            },
            None => None,
        }
    }

    /// The index of the first tab bearing `uuid`, if any.
    pub open spec fn spec_index_of(&self, uuid: WidgetId) -> Option<int> {
        if exists|i: int| 0 <= i < self.tabs@.len() && self.tabs@[i].uuid == uuid {
            Some(
                choose|i: int|
                    0 <= i < self.tabs@.len() && self.tabs@[i].uuid == uuid && forall|j: int|
                        0 <= j < i ==> self.tabs@[j].uuid != uuid,
            )
        } else {
            None
        }
    }

    /// The index of the first tab bearing `uuid`, if any.
    pub fn index_of(&self, uuid: WidgetId) -> (r: Option<usize>)
        ensures
            ({
                match r {
                    Some(i) => self.spec_index_of(uuid) == Some(i as int),
                    None => self.spec_index_of(uuid) is None,
                }
            }),
            ({
                match r {
                    Some(i) => {
                        &&& 0 <= i < self.tabs@.len()
                        &&& self.tabs@[i as int].uuid == uuid
                        &&& forall|j: int| 0 <= j < i ==> self.tabs@[j].uuid != uuid
                    },
                    None => forall|j: int|
                        0 <= j < self.tabs@.len() ==> self.tabs@[j].uuid != uuid,
                }
            }),
    {
        let n = self.tabs.len();
        let mut i: usize = 0;
        while i < n
            invariant
                n == self.tabs@.len(),
                i <= n,
                forall|j: int| 0 <= j < i ==> self.tabs@[j].uuid != uuid,
            decreases n - i,
        {
            if self.tabs[i].uuid == uuid {
                return Some(i);
            }
            i = i + 1;
        }
        None
    }

    /// Tab exclusivity: closing a tab removes the first tab bearing the id
    /// and makes the first remaining tab active; closing the only tab, or an
    /// id no tab bears, does nothing — once a tab layout holds a tab, its
    /// tab count never drops to zero.
    pub fn close_tab(&mut self, tab_uuid: WidgetId, events: &mut EventQueue)
        requires
            old(self).wf(),
        ensures
            final(self).wf(),
            old(self).tabs@.len() >= 1 ==> final(self).tabs@.len() >= 1,
            (old(self).tabs@.len() == 1 || old(self).spec_index_of(tab_uuid) is None) ==> *final(
                self) == *old(self) && final(events)@ == old(events)@,
            (old(self).tabs@.len() > 1 && old(self).spec_index_of(tab_uuid) is Some) ==> {
                let i = old(self).spec_index_of(tab_uuid)->0;
                &&& final(self).tabs@ == old(self).tabs@.remove(i)
                &&& final(self).active_tab == Some(final(self).tabs@[0].uuid)
                &&& *final(self) == (TabLayout {
                    tabs: final(self).tabs,
                    active_tab: final(self).active_tab,
                    ..*old(self)
                })
                &&& final(events)@ == old(events)@.push(
                    UserEvent::RedrawAll(old(self).layout_base.main_win_uuid),
                )
            },
    {
        if self.tabs.len() == 1 {
            return;
        }
        match self.index_of(tab_uuid) {
            Some(index) => {
                self.tabs.remove(index);
                let first = &self.tabs[0];
                self.active_tab = Some(first.uuid);
                events.publish(UserEvent::RedrawAll(self.layout_base.main_win_uuid));
            },
            None => {},
        }
    }

    /// Makes the tab at the given zero-based index active and requests a
    /// full redraw; an out-of-range index does nothing.
    pub fn set_active_tab(&mut self, index: usize, events: &mut EventQueue)
        requires
            old(self).wf(),
        ensures
            final(self).wf(),
            index < old(self).tabs@.len() ==> *final(self) == (TabLayout {
                active_tab: Some(old(self).tabs@[index as int].uuid),
                ..*old(self)
            }) && final(events)@ == old(events)@.push(
                UserEvent::RedrawAll(old(self).layout_base.main_win_uuid),
            ),
            index >= old(self).tabs@.len() ==> *final(self) == *old(self) && final(events)@
                == old(events)@,
    {
        if index >= self.tabs.len() {
            return;
        }
        let tab = &self.tabs[index];
        self.active_tab = Some(tab.uuid);
        events.publish(UserEvent::RedrawAll(self.layout_base.main_win_uuid));
    }

    /// Makes the tab bearing the id active — the controller calls this when
    /// it processes a tab-selected event — and requests a full redraw. An id
    /// no tab bears is a lookup miss and changes nothing.
    pub fn set_active_tab_by_uuid(&mut self, tab_uuid: WidgetId, events: &mut EventQueue)
        requires
            old(self).wf(),
        ensures
            final(self).wf(),
            old(self).spec_index_of(tab_uuid) is Some ==> *final(self) == (TabLayout {
                active_tab: Some(tab_uuid),
                ..*old(self)
            }) && final(events)@ == old(events)@.push(
                UserEvent::RedrawAll(old(self).layout_base.main_win_uuid),
            ),
            old(self).spec_index_of(tab_uuid) is None ==> *final(self) == *old(self) && final(
                events)@ == old(events)@,
    {
        match self.index_of(tab_uuid) {
            Some(_) => {
                self.active_tab = Some(tab_uuid);
                events.publish(UserEvent::RedrawAll(self.layout_base.main_win_uuid));
            },
            None => {},
        }
    }

    /// Removes every tab and clears the active tab.
    pub fn clear(&mut self)
        requires
            old(self).wf(),
        ensures
            final(self).wf(),
            final(self).tabs@.len() == 0,
            final(self).active_tab is None,
            *final(self) == (TabLayout {
                tabs: final(self).tabs,
                active_tab: None,
                ..*old(self)
            }),
    {
        self.tabs.clear();
        self.active_tab = None;
    }

    /// A tab layout has no fill policy; the call is ignored.
    pub fn set_fill(&mut self, _algorithm: LayoutFill)
        ensures
            *final(self) == *old(self),
    {
    }

    pub fn set_max_size(&mut self, width: i64, height: i64)
        ensures
            *final(self) == (TabLayout {
                max_width: Some(width),
                max_height: Some(height),
                ..*old(self)
            }),
    {
        self.max_width = Some(width);
        self.max_height = Some(height);
    }
}

/// Tab exclusivity, stated over states rather than one call: whatever the
/// active-tab field holds, it names at most one tab — two active positions
/// in one tab layout coincide whenever tab ids are distinct.
pub proof fn lemma_tab_exclusivity(t: TabLayout, i: int, j: int)
    requires
        0 <= i < t.tabs@.len(),
        0 <= j < t.tabs@.len(),
        t.active_tab == Some(t.tabs@[i].uuid),
        t.active_tab == Some(t.tabs@[j].uuid),
        forall|a: int, b: int|
            0 <= a < b < t.tabs@.len() ==> t.tabs@[a].uuid != t.tabs@[b].uuid,
    ensures
        i == j,
{
    if i < j {
        assert(t.tabs@[i].uuid != t.tabs@[j].uuid);
    } else if j < i {
        assert(t.tabs@[j].uuid != t.tabs@[i].uuid);
    }
}

} // verus!
