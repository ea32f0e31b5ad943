//! The tooltip overlay: one per top-level window, created hidden at startup
//! and repositioned, retitled and shown on use, never recreated.

use vstd::prelude::*;
use crate::child_window::WidgetId;
use crate::{valid_coord, valid_dim};

verus! {

#[derive(Debug)]
pub struct ToolTip {
    pub uuid: WidgetId,
    pub main_win_uuid: WidgetId,
    /// Whether the tooltip's window is currently shown.
    pub visible: bool,
    /// Screen position of the tooltip's window.
    pub x: i64,
    pub y: i64,
    pub width: i64,
    pub height: i64,
    /// The text being shown.
    pub text: String,
}

impl ToolTip {
    pub open spec fn wf(&self) -> bool {
        &&& valid_coord(self.x)
        &&& valid_coord(self.y)
        &&& valid_dim(self.width)
        &&& valid_dim(self.height)
    }

    /// A fresh, hidden tooltip.
    pub fn new(uuid: WidgetId, main_win_uuid: WidgetId, width: i64, height: i64) -> (t: ToolTip)
        requires
            valid_dim(width),
            valid_dim(height),
        ensures
            t.wf(),
            !t.visible,
            t.uuid == uuid,
            t.main_win_uuid == main_win_uuid,
    {
        ToolTip {
            uuid,
            main_win_uuid,
            visible: false,
            x: 0,
            y: 0,
            width,
            height,
            text: "".to_owned(),
        }
    }

    pub fn set_visible(&mut self, visible: bool)
        ensures
            *final(self) == (ToolTip { visible, ..*old(self) }),
    {
        self.visible = visible;
    }

    /// Moves the tooltip's window to the given screen position.
    pub fn move_window(&mut self, x: i64, y: i64)
        ensures
            *final(self) == (ToolTip { x, y, ..*old(self) }),
    {
        self.x = x;
        self.y = y;
    }

    pub fn set_text(&mut self, text: String)
        ensures
            *final(self) == (ToolTip { text, ..*old(self) }),
    {
        self.text = text;
    }
}

} // verus!
