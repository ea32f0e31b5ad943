//! Base state shared by every leaf widget: identity, geometry, scroll state,
//! focus and enablement, text, colors, context-menu entries, and the cached
//! layer of the last render.

use vstd::prelude::*;
use crate::child_window::{ContextMenuItem, LayoutType, MouseButton, Rgba, UserEvent, WidgetId};
use crate::event_bus::EventQueue;
use crate::raster::{
    filled_layer,
    layer_alloc_dims,
    layer_fill,
    layer_height,
    layer_new_or_fallback,
    layer_width,
};
use crate::{valid_coord, valid_dim, MAX_DIM};

verus! {

/// A weak, non-owning back-reference to the container holding a widget:
/// only its identity and kind, never an ownership edge.
#[derive(Clone, Copy, Debug, PartialEq, Eq, Structural)]
pub struct ParentRef {
    pub id: WidgetId,
    pub kind: LayoutType,
}

/// Base child window object that is contained within each concrete widget.
#[derive(Debug)]
pub struct WindowBase {
    /// Kind of the concrete widget, for runtime inspection.
    pub window_type: String,
    /// The widget's unique id.
    pub uuid: WidgetId,
    /// Id of the outermost parent window.
    pub main_win_uuid: WidgetId,
    /// Whether the widget is enabled.
    pub enabled: bool,
    /// Whether the widget has input focus.
    pub focused: bool,
    /// The widget's location within the main window.
    pub main_win_x: i64,
    pub main_win_y: i64,
    /// Size of the widget.
    pub width: i64,
    pub height: i64,
    /// Location within the owning layout.
    pub layout_x: i64,
    pub layout_y: i64,
    /// Smallest size the widget may be drawn at.
    pub min_size: Option<(i64, i64)>,
    /// Largest size the widget may be drawn at.
    pub max_size: Option<(i64, i64)>,
    /// Scroll value and range of each axis.
    pub x_scroll: i64,
    pub x_scroll_min: i64,
    pub x_scroll_max: i64,
    pub y_scroll: i64,
    pub y_scroll_min: i64,
    pub y_scroll_max: i64,
    /// The widget's contents, as rendered by the last redraw.
    pub pixmap: tiny_skia::Pixmap,
    /// Text associated with the widget.
    pub text: Option<String>,
    /// Solid background color.
    pub background_color: Rgba,
    /// A display name, for diagnostics.
    pub name: String,
    /// Entries of the widget's context menu.
    pub context_menu_items: Vec<ContextMenuItem>,
    /// Weak back-reference to the owning container.
    pub parent: Option<ParentRef>,
    /// Tooltip text, if any.
    pub tooltip_text: Option<String>,
}

impl WindowBase {
    /// Geometry and scroll state stay inside the bounds the layout arithmetic
    /// is proved for.
    pub open spec fn wf(&self) -> bool {
        &&& valid_coord(self.main_win_x)
        &&& valid_coord(self.main_win_y)
        &&& valid_dim(self.width)
        &&& valid_dim(self.height)
        &&& valid_coord(self.layout_x)
        &&& valid_coord(self.layout_y)
        &&& (self.min_size matches Some(m) ==> valid_dim(m.0) && valid_dim(m.1))
        &&& (self.max_size matches Some(m) ==> valid_dim(m.0) && valid_dim(m.1))
        &&& valid_coord(self.x_scroll)
        &&& valid_coord(self.x_scroll_min)
        &&& valid_coord(self.x_scroll_max)
        &&& valid_coord(self.y_scroll)
        &&& valid_coord(self.y_scroll_min)
        &&& valid_coord(self.y_scroll_max)
    }

    /// The size the widget is drawn at: its size clamped from below by the
    /// minimum size and from above by the maximum size, in that order.
    pub open spec fn spec_drawing_size(&self) -> (i64, i64) {
        let (w0, h0) = match self.min_size {
            Some(m) => (
                if self.width < m.0 {
                    m.0
                } else {
                    self.width
                },
                if self.height < m.1 {
                    m.1
                } else {
                    self.height
                },
            ),
            None => (self.width, self.height),
        };
        match self.max_size {
            Some(m) => (
                if w0 > m.0 {
                    m.0
                } else {
                    w0
                },
                if h0 > m.1 {
                    m.1
                } else {
                    h0
                },
            ),
            None => (w0, h0),
        }
    }

    /// A fresh widget base: enabled, unfocused, unscrolled, at the origin
    /// with zero size and a minimal blank layer.
    pub fn new(main_win_uuid: WidgetId) -> (w: WindowBase)
        ensures
            w.wf(),
            w.main_win_uuid == main_win_uuid,
            w.enabled,
            !w.focused,
            w.width == 0 && w.height == 0,
            w.main_win_x == 0 && w.main_win_y == 0,
            w.min_size is None && w.max_size is None,
            w.x_scroll == 0 && w.x_scroll_min == 0 && w.x_scroll_max == 0,
            w.y_scroll == 0 && w.y_scroll_min == 0 && w.y_scroll_max == 0,
            w.text is None,
            w.tooltip_text is None,
            w.parent is None,
            w.context_menu_items@.len() == 0,
            w.uuid.bits != 0,
            w.pixmap == filled_layer(1, 1, 0, 0, 0, 0),
            layer_width(w.pixmap) == 1 && layer_height(w.pixmap) == 1,
    {
        WindowBase {
            window_type: unknown_type_name(),
            uuid: WidgetId::fresh(),
            main_win_uuid,
            enabled: true,
            focused: false,
            main_win_x: 0,
            main_win_y: 0,
            width: 0,
            height: 0,
            layout_x: 0,
            layout_y: 0,
            min_size: None,
            max_size: None,
            x_scroll: 0,
            x_scroll_min: 0,
            x_scroll_max: 0,
            y_scroll: 0,
            y_scroll_min: 0,
            y_scroll_max: 0,
            pixmap: layer_new_or_fallback(1, 1),
            text: None,
            background_color: Rgba::white(),
            name: unspecified_name(),
            context_menu_items: Vec::new(),
            parent: None,
            tooltip_text: None,
        }
    }

    /// Adds an entry at the end of the widget's context menu.
    pub fn add_context_menu_item(&mut self, item: ContextMenuItem)
        ensures
            final(self).context_menu_items@ == old(self).context_menu_items@.push(item),
            *final(self) == (WindowBase {
                context_menu_items: final(self).context_menu_items,
                ..*old(self)
            }),
    {
        self.context_menu_items.push(item);
    }

    /// Adds a separator entry (a dashed label bound to no command).
    pub fn add_context_menu_separator(&mut self)
        ensures
            final(self).context_menu_items@.len() == old(self).context_menu_items@.len() + 1,
            *final(self) == (WindowBase {
                context_menu_items: final(self).context_menu_items,
                ..*old(self)
            }),
    {
        let label = separator_label();
        self.context_menu_items.push(ContextMenuItem { label, command: 0 });
    }

    /// The size the widget will be drawn at, which is its size clamped to
    /// `[min, max]` whenever those bounds are set.
    pub fn get_drawing_size(&self) -> (r: (i64, i64))
        ensures
            r == self.spec_drawing_size(),
    {
        let mut width = self.width;
        let mut height = self.height;
        match self.min_size {
            Some((min_width, min_height)) => {
                if width < min_width {
                    width = min_width;
                }
                if height < min_height {
                    height = min_height;
                }
            },
            None => {},
        }
        match self.max_size {
            Some((max_width, max_height)) => {
                if width > max_width {
                    width = max_width;
                }
                if height > max_height {
                    height = max_height;
                }
            },
            None => {},
        }
        (width, height)
    }

    /// On a right press, asks the controller to show this widget's context
    /// menu, provided the widget has any entries; other buttons do nothing
    /// here.
    pub fn handle_mouse_pressed(
        &mut self,
        button: MouseButton,
        mouse_x: i64,
        mouse_y: i64,
        events: &mut EventQueue,
    )
        ensures
            *final(self) == *old(self),
            (button == MouseButton::Right && old(self).context_menu_items@.len() > 0)
                ==> final(events)@ == old(events)@.push(
                UserEvent::ShowContextMenu(
                    old(self).main_win_uuid,
                    old(self).uuid,
                    mouse_x,
                    mouse_y,
                ),
            ),
            !(button == MouseButton::Right && old(self).context_menu_items@.len() > 0)
                ==> final(events)@ == old(events)@,
    {
        match button {
            MouseButton::Right => {
                if self.context_menu_items.len() > 0 {
                    events.publish(
                        UserEvent::ShowContextMenu(
                            self.main_win_uuid,
                            self.uuid,
                            mouse_x,
                            mouse_y,
                        ),
                    );
                }
            },
            _ => {},
        }
    }

    /// The state after `redraw(x, y, width, height, force)`: the widget is
    /// repositioned to `(x, y)`; if `force` is set or the requested size
    /// differs from the current one, the widget takes the new size and
    /// re-renders its background into a freshly sized layer; otherwise the
    /// cached layer is kept untouched.
    pub open spec fn spec_redraw(
        &self,
        x: i64,
        y: i64,
        width: i64,
        height: i64,
        force: bool,
    ) -> WindowBase {
        let moved = WindowBase { main_win_x: x, main_win_y: y, ..*self };
        if !force && width == self.width && height == self.height {
            moved
        } else {
            let resized = WindowBase { width, height, ..moved };
            let dims = layer_alloc_dims(
                resized.spec_drawing_size().0,
                resized.spec_drawing_size().1,
            );
            WindowBase {
                pixmap: filled_layer(
                    dims.0,
                    dims.1,
                    self.background_color.r,
                    self.background_color.g,
                    self.background_color.b,
                    self.background_color.a,
                ),
                ..resized
            }
        }
    }

    /// Updates the widget's display: repositions it, re-renders when forced
    /// or resized, and returns the widget's layer. The layer returned is
    /// always the one cached afterwards, so a repeated call with identical
    /// arguments and `force` unset returns the identical layer.
    pub fn redraw(
        &mut self,
        x: i64,
        y: i64,
        width: i64,
        height: i64,
        force: bool,
        ) -> (r: tiny_skia::Pixmap)
        requires
            old(self).wf(),
            valid_coord(x),
            valid_coord(y),
            valid_dim(width),
            valid_dim(height),
        ensures
            final(self).wf(),
            *final(self) == old(self).spec_redraw(x, y, width, height, force),
            r == final(self).pixmap,
    {
        self.main_win_x = x;
        self.main_win_y = y;
        if !force && width == self.width && height == self.height {
            self.pixmap.clone()
        } else {
            self.width = width;
            self.height = height;
            let (dw, dh) = self.get_drawing_size();
            let mut layer = layer_new_or_fallback(dw, dh);
            layer_fill(&mut layer, self.background_color);
            self.pixmap = layer;
            self.pixmap.clone()
        }
    }

    /// Enumerates this widget's registered context-menu entries into the
    /// shared menu overlay, replacing whatever it held.
    pub fn populate_context_menu(&self, menu: &mut crate::context_menu::ContextMenu)
        ensures
            final(menu).items@ == self.context_menu_items@,
    {
        menu.populate_from(self);
    }

    /// Asks the controller to repaint this widget's cached layer at its
    /// current location.
    pub fn update(&self, events: &mut EventQueue)
        ensures
            final(events)@ == old(events)@.push(
                UserEvent::Redraw(self.main_win_uuid, self.main_win_x, self.main_win_y, self.pixmap),
            ),
    {
        events.publish(
            UserEvent::Redraw(
                self.main_win_uuid,
                self.main_win_x,
                self.main_win_y,
                self.pixmap.clone(),
            ),
        );
    }
}

/// Redraw idempotence: redrawing twice with identical arguments and `force`
/// unset leaves the widget exactly where the first redraw left it, so both
/// calls return bit-identical layer content.
pub proof fn lemma_redraw_idempotent(w: WindowBase, x: i64, y: i64, width: i64, height: i64)
    ensures
        ({
            let w1 = w.spec_redraw(x, y, width, height, false);
            let w2 = w1.spec_redraw(x, y, width, height, false);
            w2 == w1 && w2.pixmap == w1.pixmap
        }),
{
}

fn unknown_type_name() -> String {
    "unknown".to_owned()
}

fn unspecified_name() -> String {
    "unspecified".to_owned()
}

fn separator_label() -> String {
    "----------".to_owned()
}

} // verus!
