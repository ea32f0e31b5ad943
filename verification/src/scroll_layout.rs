//! A layout with a single scrollable child and two scroll bars.
//!
//! Each layout pass reads the child's scroll ranges and values, pushes them
//! into the bars, derives each bar's visibility from its fresh range, takes
//! the visible bars' thickness away from the child's drawable region, and
//! composites the bars over the child along the layout's far edges.

use vstd::prelude::*;
use crate::child_window::{LayoutFill, Orientation, UserEvent, WidgetId};
use crate::event_bus::EventQueue;
use crate::layout_base::LayoutBase;
use crate::scroll_bar::{ScrollBar, BAR_SIZE};
use crate::window_base::WindowBase;
use crate::{valid_coord, valid_dim};

verus! {

#[derive(Debug)]
pub struct ScrollLayout {
    pub layout_base: LayoutBase,
    pub max_width: Option<i64>,
    pub max_height: Option<i64>,
    /// The window being scrolled, if one is attached.
    pub child: Option<WindowBase>,
    pub h_scroll: ScrollBar,
    pub v_scroll: ScrollBar,
}

impl ScrollLayout {
    pub open spec fn wf(&self) -> bool {
        &&& self.layout_base.wf()
        &&& self.h_scroll.wf()
        &&& self.v_scroll.wf()
        &&& (self.child matches Some(c) ==> c.wf())
        &&& self.h_scroll.orientation == Orientation::Horizontal
        &&& self.v_scroll.orientation == Orientation::Vertical
    }

    pub fn new(main_win_uuid: WidgetId) -> (l: ScrollLayout)
        ensures
            l.wf(),
            l.child is None,
            l.h_scroll.min_value == 0 && l.h_scroll.max_value == 0 && l.h_scroll.value == 0,
            l.v_scroll.min_value == 0 && l.v_scroll.max_value == 0 && l.v_scroll.value == 0,
            !l.h_scroll.spec_visible(),
            !l.v_scroll.spec_visible(),
            l.layout_base.uuid.bits != 0,
            l.layout_base.main_win_uuid == main_win_uuid,
    {
        ScrollLayout {
            layout_base: LayoutBase::new(main_win_uuid),
            max_width: None,
            max_height: None,
            child: None,
            h_scroll: ScrollBar::new(main_win_uuid, Orientation::Horizontal),
            v_scroll: ScrollBar::new(main_win_uuid, Orientation::Vertical),
        }
    }

    /// The ids of the horizontal and the vertical scroll bar, in that order.
    pub fn get_scroll_bar_uuids(&self) -> (r: (WidgetId, WidgetId))
        ensures
            r == (self.h_scroll.window_base.uuid, self.v_scroll.window_base.uuid),
    {
        (self.h_scroll.window_base.uuid, self.v_scroll.window_base.uuid)
    }

    /// Attaches the window to be scrolled, replacing any previous one. From
    /// here on, a value produced by either bar is pushed into this child's
    /// scroll position by the owning layout — the bars are the only such
    /// writer.
    pub fn add_child(&mut self, child: WindowBase) -> (r: Result<(), String>)
        requires
            old(self).wf(),
            child.wf(),
        ensures
            final(self).wf(),
            r is Ok,
            *final(self) == (ScrollLayout { child: Some(child), ..*old(self) }),
    {
        self.child = Some(child);
        Ok(())
    }

    /// A scroll layout never nests another layout; the structural error
    /// names the refusal.
    pub fn add_layout(&mut self) -> (r: Result<(), String>)
        ensures
            *final(self) == *old(self),
            (r matches Err(m) && m@ == "Nested layout is not supported by ScrollLayout"@),
    {
        Err("Nested layout is not supported by ScrollLayout".to_owned())
    }

    /// Detaches the scrolled child.
    pub fn clear(&mut self)
        ensures
            *final(self) == (ScrollLayout { child: None, ..*old(self) }),
    {
        self.child = None;
    }

    /// A scroll layout has no fill policy of its own; the call is ignored.
    pub fn set_fill(&mut self, _algorithm: LayoutFill)
        ensures
            *final(self) == *old(self),
    {
    }

    pub fn set_max_size(&mut self, width: i64, height: i64)
        ensures
            *final(self) == (ScrollLayout {
                max_width: Some(width),
                max_height: Some(height),
                ..*old(self)
            }),
    {
        self.max_width = Some(width);
        self.max_height = Some(height);
    }

    /// Who a point belongs to: the vertical bar's strip along the right
    /// edge, the horizontal bar's strip along the bottom edge — each only
    /// while that bar is visible, an invisible bar is never hit — else the
    /// scrolled child; points outside the layout's region belong to nobody.
    pub open spec fn spec_hit(&self, x: i64, y: i64) -> Option<WidgetId> {
        let lx = self.layout_base.main_win_x as int;
        let ly = self.layout_base.main_win_y as int;
        let w = self.layout_base.width as int;
        let h = self.layout_base.height as int;
        if x < lx || x > lx + w || y < ly || y > ly + h {
            None
        } else if self.v_scroll.spec_visible() && x >= lx + w - BAR_SIZE {
            Some(self.v_scroll.window_base.uuid)
        } else if self.h_scroll.spec_visible() && y >= ly + h - BAR_SIZE {
            Some(self.h_scroll.window_base.uuid)
        } else {
            match self.child {
                Some(c) => Some(c.uuid),
                None => None,
            }
        }
    }

    /// Hit-tests the layout; a bar whose range is empty is not visible and
    /// is never returned.
    pub fn get_child_at(&self, x: i64, y: i64) -> (r: Option<WidgetId>)
        requires
            self.wf(),
            valid_coord(x),
            valid_coord(y),
        ensures
            r == self.spec_hit(x, y),
    {
        let lx = self.layout_base.main_win_x;
        let ly = self.layout_base.main_win_y;
        let w = self.layout_base.width;
        let h = self.layout_base.height;
        if x < lx || x > lx + w || y < ly || y > ly + h {
            return None;
        }
        if self.v_scroll.is_visible() && x >= lx + w - BAR_SIZE {
            return Some(self.v_scroll.window_base.uuid);
        }
        if self.h_scroll.is_visible() && y >= ly + h - BAR_SIZE {
            return Some(self.h_scroll.window_base.uuid);
        }
        match &self.child {
            Some(c) => Some(c.uuid),
            None => None,
        }
    }

    /// Whether `uuid` names this layout itself, one of its bars, or its
    /// child — each of which resolves to the scrolled child.
    pub open spec fn spec_resolves_to_child(&self, uuid: WidgetId) -> bool {
        ||| self.layout_base.uuid == uuid
        ||| self.h_scroll.window_base.uuid == uuid
        ||| self.v_scroll.window_base.uuid == uuid
        ||| (self.child matches Some(c) && c.uuid == uuid)
    }
}

} // verus!
