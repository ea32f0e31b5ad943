//! The context menu overlay: one per top-level window, created hidden at
//! startup and repositioned and repopulated on use, never recreated.

use vstd::prelude::*;
use crate::child_window::{ContextMenuItem, WidgetId};
use crate::window_base::WindowBase;
use crate::{valid_coord, valid_dim};

verus! {

#[derive(Debug)]
pub struct ContextMenu {
    pub uuid: WidgetId,
    pub main_win_uuid: WidgetId,
    /// Whether the menu's window is currently shown.
    pub visible: bool,
    /// Screen position of the menu's window.
    pub x: i64,
    pub y: i64,
    pub width: i64,
    pub height: i64,
    /// The entries shown, repopulated from the source widget on each use.
    pub items: Vec<ContextMenuItem>,
}

impl ContextMenu {
    pub open spec fn wf(&self) -> bool {
        &&& valid_coord(self.x)
        &&& valid_coord(self.y)
        &&& valid_dim(self.width)
        &&& valid_dim(self.height)
    }

    /// A fresh, hidden menu.
    pub fn new(uuid: WidgetId, main_win_uuid: WidgetId, width: i64, height: i64) -> (m:
        ContextMenu)
        requires
            valid_dim(width),
            valid_dim(height),
        ensures
            m.wf(),
            !m.visible,
            m.uuid == uuid,
            m.main_win_uuid == main_win_uuid,
            m.items@.len() == 0,
    {
        ContextMenu { uuid, main_win_uuid, visible: false, x: 0, y: 0, width, height, items: Vec::new() }
    }

    pub fn set_visible(&mut self, visible: bool)
        ensures
            *final(self) == (ContextMenu { visible, ..*old(self) }),
    {
        self.visible = visible;
    }

    /// Moves the menu's window to the given screen position.
    pub fn move_window(&mut self, x: i64, y: i64)
        ensures
            *final(self) == (ContextMenu { x, y, ..*old(self) }),
    {
        self.x = x;
        self.y = y;
    }

    /// Removes every entry.
    pub fn clear(&mut self)
        ensures
            final(self).items@.len() == 0,
            *final(self) == (ContextMenu { items: final(self).items, ..*old(self) }),
    {
        self.items.clear();
    }

    /// Appends one entry.
    pub fn add_item(&mut self, item: ContextMenuItem)
        ensures
            final(self).items@ == old(self).items@.push(item),
            *final(self) == (ContextMenu { items: final(self).items, ..*old(self) }),
    {
        self.items.push(item);
    }

    pub fn set_size(&mut self, width: i64, height: i64)
        requires
            valid_dim(width),
            valid_dim(height),
        ensures
            *final(self) == (ContextMenu { width, height, ..*old(self) }),
    {
        self.width = width;
        self.height = height;
    }

    /// Replaces the entries with the given widget's registered entries, in
    /// their registration order. The menu's size is not derived here: label
    /// widths come from a font the embedding application owns, which
    /// measures them and sizes the menu through `set_size`.
    pub fn populate_from(&mut self, source: &WindowBase)
        ensures
            final(self).items@ == source.context_menu_items@,
            *final(self) == (ContextMenu { items: final(self).items, ..*old(self) }),
    {
        self.items.clear();
        let n = source.context_menu_items.len();
        let mut i: usize = 0;
        while i < n
            invariant
                n == source.context_menu_items@.len(),
                i <= n,
                self.items@ == source.context_menu_items@.subrange(0, i as int),
                *self == (ContextMenu { items: self.items, ..*old(self) }),
            decreases n - i,
        {
            self.items.push(source.context_menu_items[i].clone());
            proof {
                assert(self.items@ =~= source.context_menu_items@.subrange(0, i as int + 1));
            }
            i = i + 1;
        }
        proof {
            assert(self.items@ =~= source.context_menu_items@);
        }
    }
}

} // verus!
