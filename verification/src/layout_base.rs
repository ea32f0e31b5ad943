//! Base state shared by every layout: identity, geometry within the main
//! window, and the cached layer of the last composition.

use vstd::prelude::*;
use crate::child_window::WidgetId;
use crate::event_bus::EventQueue;
use crate::raster::layer_new_or_fallback;
use crate::child_window::UserEvent;
use crate::{valid_coord, valid_dim};

verus! {

/// Base layout object that is contained within each concrete layout.
#[derive(Debug)]
pub struct LayoutBase {
    /// The layout's unique id.
    pub uuid: WidgetId,
    /// Id of the outermost parent window.
    pub main_win_uuid: WidgetId,
    /// The layout's contents, as composed by the last layout pass.
    pub pixmap: tiny_skia::Pixmap,
    /// The layout's location within the main window.
    pub main_win_x: i64,
    pub main_win_y: i64,
    /// Size of the layout.
    pub width: i64,
    pub height: i64,
    /// A display name, for diagnostics.
    pub name: String,
}

impl LayoutBase {
    pub open spec fn wf(&self) -> bool {
        &&& valid_coord(self.main_win_x)
        &&& valid_coord(self.main_win_y)
        &&& valid_dim(self.width)
        &&& valid_dim(self.height)
    }

    /// A fresh layout base at the origin with a minimal blank layer.
    pub fn new(main_win_uuid: WidgetId) -> (l: LayoutBase)
        ensures
            l.wf(),
            l.main_win_uuid == main_win_uuid,
            l.main_win_x == 0 && l.main_win_y == 0,
            l.width == 1 && l.height == 1,
            l.uuid.bits != 0,
    {
        LayoutBase {
            uuid: WidgetId::fresh(),
            main_win_uuid,
            pixmap: layer_new_or_fallback(1, 1),
            main_win_x: 0,
            main_win_y: 0,
            width: 1,
            height: 1,
            name: "<unspecified>".to_owned(),
        }
    }

    /// Asks the controller to repaint this layout's cached layer at its
    /// current location.
    pub fn update(&self, events: &mut EventQueue)
        ensures
            final(events)@ == old(events)@.push(
                UserEvent::Redraw(self.main_win_uuid, self.main_win_x, self.main_win_y, self.pixmap),
            ),
    {
        events.publish(
            UserEvent::Redraw(
                self.main_win_uuid,
                self.main_win_x,
                self.main_win_y,
                self.pixmap.clone(),
            ),
        );
    }
}

} // verus!
