//! A retained-mode GUI widget toolkit core: a layout engine over an owned
//! widget/layout tree, an event bus, and the input-routing state machine of a
//! top-level window controller.
//!
//! Rendering composes opaque raster layers; the OS windowing layer and leaf
//! widget painting live outside this crate and talk to it through plain
//! values.
//!
//! This is deliberately a core, not a full widget set: concrete leaf widgets
//! (buttons, labels, text editors, lists, tables, sliders, image views) are
//! external collaborators. Each is composed into the tree as a plain widget
//! — the shared widget state, geometry, scrolling and input surface live
//! here — while its painting and item logic belong to the embedding
//! application.

pub mod border_layout;
pub mod child_window;
pub mod compose;
pub mod context_menu;
pub mod event_bus;
pub mod image_view;
pub mod list;
pub mod layout_base;
pub mod row_layout;
pub mod popup;
pub mod raster;
pub mod row_geometry;
pub mod routing;
pub mod scroll_bar;
pub mod scroll_layout;
pub mod tab_layout;
pub mod tooltip;
pub mod window_base;
pub mod window_utils;

use vstd::prelude::*;

verus! {

/// Largest coordinate or dimension the layout engine works with, in pixels.
///
/// Keeping every coordinate within this bound lets all layout arithmetic be
/// proved free of overflow in `i64`.
pub const MAX_DIM: i64 = 0x40000000;

/// A dimension (width, height, padding) the layout engine accepts.
pub open spec fn valid_dim(v: i64) -> bool {
    0 <= v <= MAX_DIM
}

/// A coordinate the layout engine accepts.
pub open spec fn valid_coord(v: i64) -> bool {
    -MAX_DIM <= v <= MAX_DIM
}

} // verus!

use crate::border_layout::BorderLayout;
use crate::child_window::{
    BorderLocation,
    ChildType,
    KeyEventData,
    LayoutArgs,
    MouseButton,
    Rgba,
    UserEvent,
    WheelDelta,
    WidgetId,
};
use crate::compose::{
    border_dispatch,
    border_find_window,
    border_layout_run,
    border_scroll_maintain,
    border_set_active_tab,
    row_hit,
    ScrollMaintenance,
    WidgetOp,
};
use crate::context_menu::ContextMenu;
use crate::event_bus::EventQueue;
use crate::popup::PopUp;
use crate::raster::{layer_blit_at, layer_fill, layer_new_or_fallback};
use crate::routing::{
    route_keyboard,
    route_mouse_move,
    route_mouse_pressed,
    route_mouse_released,
    route_mouse_wheel,
    RouteStep,
    RouteTarget,
};
use crate::tooltip::ToolTip;
use crate::window_base::WindowBase;

verus! {

/// Placement of the main window: an exact rectangle, or one relative to the
/// monitor in thousandths of its size.
#[derive(Clone, Copy, Debug, PartialEq, Eq, Structural)]
pub enum MainAppSize {
    Actual(i64, i64, i64, i64),
    Relative(u32, u32, u32, u32),
}

/// Which bus events the application handles itself. An event whose flag is
/// set is handed back as an action instead of receiving its default
/// processing — mirroring an application that registered that callback.
#[derive(Clone, Copy, Debug, PartialEq, Eq, Structural, Default)]
pub struct HandlerSet {
    pub caret_moved: bool,
    pub close_tab: bool,
    pub create_context_menu: bool,
    pub delete_items: bool,
    pub process_selected_items: bool,
    pub redraw: bool,
    pub redraw_all: bool,
    pub selection_changed: bool,
    pub set_list: bool,
    pub slider_value_changed: bool,
    pub user_defined: bool,
}

/// Work the controller hands back to the embedding application: callbacks
/// to invoke and surface operations only the platform layer can perform.
#[derive(Debug)]
pub enum AppAction {
    /// Invoke the caret-moved callback.
    CaretMoved(WidgetId, usize, usize),
    /// Invoke the close-tab callback.
    CloseTab(WidgetId, WidgetId),
    /// Invoke the context-menu callback.
    CreateContextMenu(WidgetId, i64, i64),
    /// Invoke the delete-items callback.
    DeleteItems(WidgetId, WidgetId),
    /// Invoke the process-selected-items callback.
    ProcessSelectedItems(WidgetId),
    /// Invoke the redraw callback with the partial layer.
    Redraw(i64, i64, tiny_skia::Pixmap),
    /// Invoke the redraw-all callback.
    RedrawAll,
    /// Invoke the selection-changed callback.
    SelectionChanged(WidgetId),
    /// Invoke the set-list callback.
    SetList(WidgetId, Vec<String>),
    /// Invoke the slider callback.
    SliderValueChange(i64),
    /// Invoke the user-defined callback.
    UserDefined(u64, Vec<String>),
    /// Create an OS window for a pop-up and register it back.
    CreateWindow(WidgetId, i64, i64, i64, i64, bool),
    /// Present the main window's layer on its surface.
    Present,
    /// Present the given pop-up's layer on its surface.
    PresentPopup(u64),
    /// Show, move, hide or retitle the context menu's OS window to match
    /// the controller's overlay state.
    SyncContextMenu,
    /// Show, move, hide or retitle the tooltip's OS window to match the
    /// controller's overlay state.
    SyncToolTip,
    /// The event had no handler and no default; note it in a log.
    LogUnhandled,
}

/// The main window of an application: it owns the layout tree, the raster
/// surface and the event bus, and it is the input-to-widget routing state
/// machine — focus, modal stacking, drag tracking, and the context-menu and
/// tooltip overlays.
#[derive(Debug)]
pub struct MainApp {
    pub id: WidgetId,
    pub title: String,
    /// The one layout tree of the window.
    pub layout: BorderLayout,
    pub menubar: Option<WidgetId>,
    pub statusbar: Option<WidgetId>,
    /// The widget holding input focus, if any (at most one).
    pub focus_window: Option<WidgetId>,
    /// The modal pop-up's OS window key; while set, all input routes to it.
    pub modal_window: Option<u64>,
    /// Registered pop-ups.
    pub popups: Vec<PopUp>,
    /// The one context menu of the application, reused across its lifetime.
    pub context_menu: ContextMenu,
    /// The one tooltip of the application, reused across its lifetime.
    pub tooltip_popup: ToolTip,
    /// Current mouse location within the main window.
    pub cursor_x: i64,
    pub cursor_y: i64,
    pub mouse_left_button_down: bool,
    /// The composed frame.
    pub pixmap: tiny_skia::Pixmap,
    /// The window's place on the screen.
    pub x: i64,
    pub y: i64,
    pub width: i64,
    pub height: i64,
    /// Drag tracking: whether a drag is in progress and where it started.
    pub dragging: bool,
    pub drag_start_win_x: i64,
    pub drag_start_win_y: i64,
    pub log_unhandled_events: bool,
    pub initial_draw_performed: bool,
    /// Lifecycle: widgets' repaint requests are ignored until the event
    /// loop runs (`Initializing` versus `Running`, held per controller).
    pub running: bool,
    /// The application event bus this window drains.
    pub events: EventQueue,
}

impl MainApp {
    pub open spec fn wf(&self) -> bool {
        &&& self.layout.wf()
        &&& self.context_menu.wf()
        &&& self.tooltip_popup.wf()
        &&& valid_coord(self.cursor_x)
        &&& valid_coord(self.cursor_y)
        &&& valid_coord(self.x)
        &&& valid_coord(self.y)
        &&& valid_dim(self.width)
        &&& valid_dim(self.height)
        &&& valid_coord(self.drag_start_win_x)
        &&& valid_coord(self.drag_start_win_y)
        &&& (forall|i: int| 0 <= i < self.popups@.len() ==> (#[trigger] self.popups@[i]).wf())
    }

    /// A fresh controller: an empty border-layout tree, hidden overlays, no
    /// focus, no modal, not yet running. Repaint requests from widgets are
    /// ignored until [`MainApp::run_started`].
    pub fn new(id: WidgetId, title: String) -> (m: MainApp)
        ensures
            m.wf(),
            m.id == id,
            m.focus_window is None,
            m.modal_window is None,
            !m.dragging,
            !m.running,
            !m.initial_draw_performed,
            m.popups@.len() == 0,
            !m.context_menu.visible,
            !m.tooltip_popup.visible,
            m.layout.rows.fill_algorithm == crate::child_window::LayoutFill::Single(
                m.layout.center_uuid,
            ),
            m.events@ == Seq::<UserEvent>::empty(),
    {
        let mut layout = BorderLayout::new(id);
        layout.layout_base.name = "MainApp's BorderLayout".to_owned();
        MainApp {
            id,
            title,
            layout,
            menubar: None,
            statusbar: None,
            focus_window: None,
            modal_window: None,
            popups: Vec::new(),
            context_menu: ContextMenu::new(WidgetId::fresh(), id, 200, 100),
            tooltip_popup: ToolTip::new(WidgetId::fresh(), id, 200, 100),
            cursor_x: 0,
            cursor_y: 0,
            mouse_left_button_down: false,
            pixmap: layer_new_or_fallback(800, 600),
            x: 0,
            y: 0,
            width: 800,
            height: 600,
            dragging: false,
            drag_start_win_x: 0,
            drag_start_win_y: 0,
            log_unhandled_events: true,
            initial_draw_performed: false,
            running: false,
            events: EventQueue::new(),
        }
    }

    /// Marks the event loop as running; widget repaint requests now take
    /// effect.
    pub fn run_started(&mut self)
        ensures
            *final(self) == (MainApp { running: true, ..*old(self) }),
    {
        self.running = true;
    }

    pub fn get_uuid(&self) -> (r: WidgetId)
        ensures
            r == self.id,
    {
        self.id
    }

    pub fn get_location(&self) -> (r: (i64, i64))
        ensures
            r == (self.x, self.y),
    {
        (self.x, self.y)
    }

    pub fn get_size(&self) -> (r: (i64, i64))
        ensures
            r == (self.width, self.height),
    {
        (self.width, self.height)
    }

    pub fn get_status_bar(&self) -> (r: Option<WidgetId>)
        ensures
            r == self.statusbar,
    {
        self.statusbar
    }

    pub fn log_unhandled_events(&mut self, flag: bool)
        ensures
            *final(self) == (MainApp { log_unhandled_events: flag, ..*old(self) }),
    {
        self.log_unhandled_events = flag;
    }

    pub fn set_modal(&mut self, child: Option<u64>)
        ensures
            *final(self) == (MainApp { modal_window: child, ..*old(self) }),
    {
        self.modal_window = child;
    }

    /// Adds a menu bar along the window's top edge: unless the outer row is
    /// at capacity, a fresh menu-bar widget takes the first top slot and is
    /// remembered as the menu bar.
    pub fn enable_menubar(&mut self) -> (r: Result<(), String>)
        requires
            old(self).wf(),
        ensures
            final(self).wf(),
            r is Ok ==> final(self).menubar is Some,
            old(self).layout.rows.children@.len() < crate::row_geometry::MAX_ROW_CHILDREN
                ==> r is Ok && final(self).layout.rows.children@.len() == old(
                self).layout.rows.children@.len() + 1 && (final(
                self).layout.rows.children@[0] matches ChildType::Window(wb) && Some(wb.uuid)
                == final(self).menubar && wb.window_type@ == "MenuBar"@) && final(
                self).layout.rows.children@ == old(self).layout.rows.children@.insert(
                0,
                final(self).layout.rows.children@[0],
            ),
            *final(self) == (MainApp {
                layout: final(self).layout,
                menubar: final(self).menubar,
                ..*old(self)
            }),
    {
        let mut bar = WindowBase::new(self.id);
        bar.window_type = "MenuBar".to_owned();
        let id = bar.uuid;
        let r = self.layout.add_child(bar, LayoutArgs::BORDER(BorderLocation::TOP));
        match r {
            Ok(_) => {
                self.menubar = Some(id);
                Ok(())
            },
            Err(e) => Err(e),
        }
    }

    /// Adds a status bar along the window's bottom edge: unless the outer
    /// row is at capacity, a fresh status-bar widget takes the bottom slot
    /// (the insertion index capped at two) and is remembered as the status
    /// bar.
    pub fn enable_statusbar(&mut self) -> (r: Result<(), String>)
        requires
            old(self).wf(),
        ensures
            final(self).wf(),
            r is Ok ==> final(self).statusbar is Some,
            old(self).layout.rows.children@.len() < crate::row_geometry::MAX_ROW_CHILDREN
                ==> r is Ok && ({
                let idx = BorderLayout::spec_insert_index(
                    BorderLocation::BOTTOM,
                    old(self).layout.rows.children@.len() as int,
                );
                &&& final(self).layout.rows.children@.len() == old(
                    self).layout.rows.children@.len() + 1
                &&& (final(self).layout.rows.children@[idx] matches ChildType::Window(wb) && Some(
                    wb.uuid,
                ) == final(self).statusbar && wb.window_type@ == "StatusBar"@)
                &&& final(self).layout.rows.children@ == old(self).layout.rows.children@.insert(
                    idx,
                    final(self).layout.rows.children@[idx],
                )
            }),
            *final(self) == (MainApp {
                layout: final(self).layout,
                statusbar: final(self).statusbar,
                ..*old(self)
            }),
    {
        let mut bar = WindowBase::new(self.id);
        bar.window_type = "StatusBar".to_owned();
        bar.background_color = Rgba { r: 191, g: 191, b: 191, a: 255 };
        let id = bar.uuid;
        let r = self.layout.add_child(bar, LayoutArgs::BORDER(BorderLocation::BOTTOM));
        match r {
            Ok(_) => {
                self.statusbar = Some(id);
                Ok(())
            },
            Err(e) => Err(e),
        }
    }

    /// Places the window's contents in the center region, which absorbs all
    /// slack space: on success the inner row holds the contents and hands it
    /// every bit of slack.
    pub fn set_contents(&mut self, contents: ChildType) -> (r: Result<(), String>)
        requires
            old(self).wf(),
            contents.wf(),
        ensures
            final(self).wf(),
            r is Ok ==> ({
                let ci = old(self).layout.spec_center_index();
                let center = crate::border_layout::center_row_of(
                    old(self).layout.rows.children@[ci],
                );
                let center2 = crate::border_layout::center_row_of(
                    final(self).layout.rows.children@[ci],
                );
                &&& center2.children@ == center.children@.insert(
                    BorderLayout::spec_insert_index(
                        BorderLocation::CENTER,
                        center.children@.len() as int,
                    ),
                    contents,
                )
                &&& center2.fill_algorithm == crate::child_window::LayoutFill::Single(
                    contents.spec_id(),
                )
            }),
            final(self).layout.rows.fill_algorithm == old(self).layout.rows.fill_algorithm,
            *final(self) == (MainApp { layout: final(self).layout, ..*old(self) }),
    {
        let r = match contents {
            ChildType::Window(w) => self.layout.add_child(
                w,
                LayoutArgs::BORDER(BorderLocation::CENTER),
            ),
            ChildType::Layout(l) => self.layout.add_layout(
                *l,
                LayoutArgs::BORDER(BorderLocation::CENTER),
            ),
        };
        r
    }

    /// Shows a message in the status bar, if one was enabled: the bar widget
    /// takes the message as its text.
    pub fn set_status_message(&mut self, message: String)
        requires
            old(self).wf(),
        ensures
            final(self).wf(),
            *final(self) == (MainApp {
                layout: final(self).layout,
                events: final(self).events,
                ..*old(self)
            }),
            old(self).statusbar matches Some(sid) ==> crate::compose::spec_target_effect(
                crate::compose::spec_window_in_children(old(self).layout.rows.children@, sid, 0),
                crate::compose::spec_window_in_children(final(self).layout.rows.children@, sid, 0),
                WidgetOp::SetText(message),
            ),
            old(self).statusbar is None ==> *final(self) == *old(self),
    {
        match self.statusbar {
            Some(id) => {
                let op = WidgetOp::SetText(message);
                border_dispatch(&mut self.layout, id, &op, &mut self.events);
            },
            None => {},
        }
    }

    /// The status bar's current message, if a status bar was enabled and
    /// holds one.
    pub fn get_status_message(&self) -> (r: Option<String>)
        requires
            self.wf(),
        ensures
            self.statusbar is None ==> r is None,
            self.statusbar matches Some(sid) ==> r == (
            match crate::compose::spec_find_in_children(self.layout.rows.children@, sid, 0) {
                Some(w) => w.text,
                None => None::<String>,
            }),
    {
        match self.statusbar {
            Some(sid) => {
                let found = border_find_window(&self.layout, sid);
                match found {
                    Some(w) => {
                        match &w.text {
                            Some(t) => Some(t.clone()),
                            None => None,
                        }
                    },
                    None => None,
                }
            },
            None => None,
        }
    }

    /// Composes the frame: the surface is cleared to white, the tree is laid
    /// out over the full window, and the result is blitted in at the origin.
    pub fn redraw(&mut self)
        requires
            old(self).wf(),
        ensures
            final(self).wf(),
            *final(self) == (MainApp {
                layout: final(self).layout,
                pixmap: final(self).pixmap,
                events: final(self).events,
                ..*old(self)
            }),
            final(self).pixmap == crate::raster::blitted_layer(
                crate::raster::filled_layer(
                    crate::raster::layer_alloc_dims(old(self).width, old(self).height).0,
                    crate::raster::layer_alloc_dims(old(self).width, old(self).height).1,
                    255,
                    255,
                    255,
                    255,
                ),
                0,
                0,
                final(self).layout.rows.layout_base.pixmap,
            ),
            spec_frame_laid_out(old(self).layout, final(self).layout, old(self).width, old(
                self).height),
    {
        let mut pixmap = layer_new_or_fallback(self.width, self.height);
        layer_fill(&mut pixmap, Rgba::white());
        let mut tmp = BorderLayout::new(self.id);
        std::mem::swap(&mut tmp, &mut self.layout);
        let (laid, layer) = border_layout_run(tmp, 0, 0, self.width, self.height, &mut self.events);
        self.layout = laid;
        layer_blit_at(&mut pixmap, 0, 0, &layer);
        self.pixmap = pixmap;
    }

    /// Applies routing steps to the tree. Steps addressed to the modal are
    /// not tree operations: the modal pop-up receives its own events through
    /// its own window. When every step addresses one widget with in-range
    /// operations — as every non-modal keyboard, wheel and movement decision
    /// does — that widget takes the operations in order.
    fn apply_steps(&mut self, steps: &Vec<RouteStep>)
        requires
            old(self).wf(),
        ensures
            final(self).wf(),
            final(self).layout.layout_base == old(self).layout.layout_base,
            *final(self) == (MainApp {
                layout: final(self).layout,
                events: final(self).events,
                ..*old(self)
            }),
            forall|tid: WidgetId|
                (forall|i: int|
                    0 <= i < steps@.len() ==> (#[trigger] steps@[i]).target
                        == RouteTarget::Widget(tid) && steps@[i].op.wf()) ==> (
                match #[trigger] crate::compose::spec_window_in_children(
                    old(self).layout.rows.children@,
                    tid,
                    0,
                ) {
                    Some(w) => crate::compose::spec_window_in_children(
                        final(self).layout.rows.children@,
                        tid,
                        0,
                    ) == Some(
                        crate::compose::spec_apply_ops(
                            w,
                            crate::compose::spec_ops_of(steps@),
                            steps@.len() as int,
                        ),
                    ),
                    None => crate::compose::spec_window_in_children(
                        final(self).layout.rows.children@,
                        tid,
                        0,
                    ) is None,
                }),
    {
        let n = steps.len();
        let mut i: usize = 0;
        while i < n
            invariant
                self.wf(),
                n == steps@.len(),
                self.layout.layout_base == old(self).layout.layout_base,
                *self == (MainApp { layout: self.layout, events: self.events, ..*old(self) }),
                i <= n,
                forall|tid: WidgetId|
                    (forall|j: int|
                        0 <= j < steps@.len() ==> (#[trigger] steps@[j]).target
                            == RouteTarget::Widget(tid) && steps@[j].op.wf()) ==> (
                    match #[trigger] crate::compose::spec_window_in_children(
                        old(self).layout.rows.children@,
                        tid,
                        0,
                    ) {
                        Some(w) => crate::compose::spec_window_in_children(
                            self.layout.rows.children@,
                            tid,
                            0,
                        ) == Some(
                            crate::compose::spec_apply_ops(
                                w,
                                crate::compose::spec_ops_of(steps@),
                                i as int,
                            ),
                        ),
                        None => crate::compose::spec_window_in_children(
                            self.layout.rows.children@,
                            tid,
                            0,
                        ) is None,
                    }),
            decreases n - i,
        {
            let step = &steps[i];
            match &step.target {
                RouteTarget::Widget(id) => {
                    if step.op.check_wf() {
                        border_dispatch(&mut self.layout, *id, &step.op, &mut self.events);
                    }
                },
                RouteTarget::Modal => {},
            }
            i = i + 1;
        }
    }

    /// Handles cursor movement: the position is latched; with a modal set
    /// the movement routes to it exclusively, else to the widget under the
    /// cursor — as a drag while the left button is down.
    pub fn on_cursor_moved(&mut self, x: i64, y: i64) -> (steps: Vec<RouteStep>)
        requires
            old(self).wf(),
            valid_coord(x),
            valid_coord(y),
        ensures
            final(self).wf(),
            final(self).cursor_x == x && final(self).cursor_y == y,
            final(self).focus_window == old(self).focus_window,
            final(self).modal_window == old(self).modal_window,
            old(self).modal_window is Some ==> steps@ == crate::routing::spec_route_mouse_move(
                true,
                old(self).mouse_left_button_down,
                None,
                x,
                y,
            ),
            old(self).modal_window is None ==> steps@ == crate::routing::spec_route_mouse_move(
                false,
                old(self).mouse_left_button_down,
                crate::compose::spec_row_hit_from(old(self).layout.rows.children@, x, y, 0).0,
                x,
                y,
            ),
    {
        self.cursor_x = x;
        self.cursor_y = y;
        if self.modal_window.is_some() {
            let steps = route_mouse_move(true, self.mouse_left_button_down, None, x, y);
            self.apply_steps(&steps);
            steps
        } else {
            let hit = row_hit(&self.layout.rows, x, y, &mut self.events);
            let steps = route_mouse_move(false, self.mouse_left_button_down, hit, x, y);
            self.apply_steps(&steps);
            steps
        }
    }

    /// Handles a mouse press or release, per the drag state machine: a press
    /// latches the drag origin; a left release away from that origin turns
    /// into a final drag plus drag end (and no separate release).
    pub fn on_mouse_input(&mut self, pressed: bool, button: MouseButton) -> (steps: Vec<RouteStep>)
        requires
            old(self).wf(),
        ensures
            final(self).wf(),
            pressed ==> final(self).mouse_left_button_down,
            !pressed ==> !final(self).mouse_left_button_down && !final(self).dragging,
            (pressed && button == MouseButton::Left) ==> final(self).dragging && final(self).drag_start_win_x == old(self).cursor_x && final(self).drag_start_win_y == old(self).cursor_y,
            (!pressed && old(self).modal_window is Some) ==> steps@
                == crate::routing::spec_route_mouse_released(
                true,
                old(self).focus_window,
                button,
                old(self).cursor_x,
                old(self).cursor_y,
                old(self).drag_start_win_x,
                old(self).drag_start_win_y,
            ),
            (!pressed && old(self).modal_window is None) ==> steps@
                == crate::routing::spec_route_mouse_released(
                false,
                old(self).focus_window,
                button,
                old(self).cursor_x,
                old(self).cursor_y,
                old(self).drag_start_win_x,
                old(self).drag_start_win_y,
            ),
            (pressed && old(self).modal_window is Some) ==> steps@
                == crate::routing::spec_route_mouse_pressed(
                true,
                old(self).focus_window,
                None,
                button,
                old(self).cursor_x,
                old(self).cursor_y,
            ) && final(self).focus_window == old(self).focus_window,
            (pressed && old(self).modal_window is None) ==> final(self).focus_window
                == crate::compose::spec_row_hit_from(
                old(self).layout.rows.children@,
                old(self).cursor_x,
                old(self).cursor_y,
                0,
            ).0 && steps@ == crate::routing::spec_route_mouse_pressed(
                false,
                old(self).focus_window,
                final(self).focus_window,
                button,
                old(self).cursor_x,
                old(self).cursor_y,
            ),
    {
        if pressed {
            self.mouse_left_button_down = true;
            if matches!(button, MouseButton::Left) {
                self.dragging = true;
                self.drag_start_win_x = self.cursor_x;
                self.drag_start_win_y = self.cursor_y;
            }
            if self.modal_window.is_some() {
                let steps = route_mouse_pressed(
                    true,
                    self.focus_window,
                    None,
                    button,
                    self.cursor_x,
                    self.cursor_y,
                );
                self.apply_steps(&steps);
                steps
            } else {
                let hit = row_hit(&self.layout.rows, self.cursor_x, self.cursor_y, &mut self.events);
                let steps = route_mouse_pressed(
                    false,
                    self.focus_window,
                    hit,
                    button,
                    self.cursor_x,
                    self.cursor_y,
                );
                self.focus_window = hit;
                self.apply_steps(&steps);
                steps
            }
        } else {
            self.mouse_left_button_down = false;
            let steps = route_mouse_released(
                self.modal_window.is_some(),
                self.focus_window,
                button,
                self.cursor_x,
                self.cursor_y,
                self.drag_start_win_x,
                self.drag_start_win_y,
            );
            self.dragging = false;
            self.apply_steps(&steps);
            steps
        }
    }

    /// Handles a wheel step: it re-hit-tests at the cursor (the latched
    /// focus is not used), moves focus to the hit widget and forwards the
    /// step — unless a modal is set, which takes it exclusively.
    pub fn on_mouse_wheel(&mut self, delta: WheelDelta) -> (steps: Vec<RouteStep>)
        requires
            old(self).wf(),
        ensures
            final(self).wf(),
            old(self).modal_window is Some ==> steps@ == crate::routing::spec_route_mouse_wheel(
                true,
                None,
                delta,
            ) && final(self).focus_window == old(self).focus_window,
            old(self).modal_window is None ==> final(self).focus_window
                == crate::compose::spec_row_hit_from(
                old(self).layout.rows.children@,
                old(self).cursor_x,
                old(self).cursor_y,
                0,
            ).0 && steps@ == crate::routing::spec_route_mouse_wheel(
                false,
                final(self).focus_window,
                delta,
            ),
            old(self).modal_window is None ==> (crate::compose::spec_row_hit_from(
                old(self).layout.rows.children@,
                old(self).cursor_x,
                old(self).cursor_y,
                0,
            ).0 matches Some(h) ==> (
            match crate::compose::spec_window_in_children(old(self).layout.rows.children@, h, 0) {
                Some(w) => crate::compose::spec_window_in_children(
                    final(self).layout.rows.children@,
                    h,
                    0,
                ) == Some(
                    crate::compose::spec_apply_window_op(
                        crate::compose::spec_apply_window_op(w, WidgetOp::SetFocused(true)),
                        WidgetOp::MouseWheel(delta),
                    ),
                ),
                None => crate::compose::spec_window_in_children(
                    final(self).layout.rows.children@,
                    h,
                    0,
                ) is None,
            })),
    {
        if self.modal_window.is_some() {
            let steps = route_mouse_wheel(true, None, delta);
            self.apply_steps(&steps);
            steps
        } else {
            let hit = row_hit(&self.layout.rows, self.cursor_x, self.cursor_y, &mut self.events);
            self.focus_window = hit;
            let steps = route_mouse_wheel(false, hit, delta);
            self.apply_steps(&steps);
            proof {
                match hit {
                    Some(h) => {
                        assert(forall|j: int|
                            0 <= j < steps@.len() ==> (#[trigger] steps@[j]).target
                                == RouteTarget::Widget(h) && steps@[j].op.wf());
                        let ops = crate::compose::spec_ops_of(steps@);
                        assert(ops.len() == 2);
                        assert(ops[0] == WidgetOp::SetFocused(true));
                        assert(ops[1] == WidgetOp::MouseWheel(delta));
                        let win0 = crate::compose::spec_window_in_children(
                            old(self).layout.rows.children@,
                            h,
                            0,
                        );
                        if win0 is Some {
                            let w = win0->0;
                            assert(crate::compose::spec_apply_ops(w, ops, 0) == w);
                            assert(crate::compose::spec_apply_ops(w, ops, 1)
                                == crate::compose::spec_apply_window_op(w, ops[0]));
                            assert(crate::compose::spec_apply_ops(w, ops, 2)
                                == crate::compose::spec_apply_window_op(
                                crate::compose::spec_apply_ops(w, ops, 1),
                                ops[1],
                            ));
                        }
                    },
                    None => {},
                }
            }
            steps
        }
    }

    /// Handles keyboard input: the modal takes it all; else the focused
    /// widget; else the controller's own fallback no-op.
    pub fn on_keyboard_input(&mut self, event: KeyEventData) -> (steps: Vec<RouteStep>)
        requires
            old(self).wf(),
        ensures
            final(self).wf(),
            steps@ == crate::routing::spec_route_keyboard(
                old(self).modal_window is Some,
                old(self).focus_window,
                event,
            ),
            old(self).modal_window is None ==> (old(self).focus_window matches Some(f) ==> ({
                let op = if event.pressed {
                    WidgetOp::KeyPressed(event)
                } else {
                    WidgetOp::KeyReleased(event)
                };
                match crate::compose::spec_window_in_children(
                    old(self).layout.rows.children@,
                    f,
                    0,
                ) {
                    Some(w) => crate::compose::spec_window_in_children(
                        final(self).layout.rows.children@,
                        f,
                        0,
                    ) == Some(
                        crate::compose::spec_apply_window_op(
                            crate::compose::spec_apply_window_op(w, WidgetOp::SetFocused(true)),
                            op,
                        ),
                    ),
                    None => crate::compose::spec_window_in_children(
                        final(self).layout.rows.children@,
                        f,
                        0,
                    ) is None,
                }
            })),
    {
        let steps = route_keyboard(self.modal_window.is_some(), self.focus_window, event);
        self.apply_steps(&steps);
        proof {
            if old(self).modal_window is None && old(self).focus_window is Some {
                let f = old(self).focus_window->0;
                assert(forall|j: int|
                    0 <= j < steps@.len() ==> (#[trigger] steps@[j]).target
                        == RouteTarget::Widget(f) && steps@[j].op.wf());
                let ops = crate::compose::spec_ops_of(steps@);
                assert(ops.len() == 2);
                assert(ops[0] == WidgetOp::SetFocused(true));
                assert(ops[1] == (if event.pressed {
                    WidgetOp::KeyPressed(event)
                } else {
                    WidgetOp::KeyReleased(event)
                }));
                let win0 = crate::compose::spec_window_in_children(
                    old(self).layout.rows.children@,
                    f,
                    0,
                );
                if win0 is Some {
                    let w = win0->0;
                    assert(crate::compose::spec_apply_ops(w, ops, 0) == w);
                    assert(crate::compose::spec_apply_ops(w, ops, 1)
                        == crate::compose::spec_apply_window_op(w, ops[0]));
                    assert(crate::compose::spec_apply_ops(w, ops, 2)
                        == crate::compose::spec_apply_window_op(
                        crate::compose::spec_apply_ops(w, ops, 1),
                        ops[1],
                    ));
                }
            }
        }
        steps
    }

    /// The window moved; its screen origin is latched for the overlays.
    pub fn on_moved(&mut self, x: i64, y: i64)
        requires
            valid_coord(x),
            valid_coord(y),
        ensures
            *final(self) == (MainApp { x, y, ..*old(self) }),
    {
        self.x = x;
        self.y = y;
    }

    /// The window was resized: a fresh surface is made at the new size, and
    /// the frame is recomposed once the initial draw has happened.
    pub fn on_resized(&mut self, width: i64, height: i64) -> (redrawn: bool)
        requires
            old(self).wf(),
            valid_dim(width),
            valid_dim(height),
        ensures
            final(self).wf(),
            final(self).width == width && final(self).height == height,
            redrawn == old(self).initial_draw_performed,
    {
        if width != self.width || height != self.height {
            self.width = width;
            self.height = height;
            self.pixmap = layer_new_or_fallback(width, height);
            if self.initial_draw_performed {
                self.redraw();
                return true;
            }
        }
        self.initial_draw_performed
    }

    /// The platform asked for a frame: the first such request runs the
    /// application's startup work, then the frame is composed.
    pub fn on_redraw_requested(&mut self) -> (run_startup: bool)
        requires
            old(self).wf(),
        ensures
            final(self).wf(),
            run_startup == !old(self).initial_draw_performed,
            final(self).initial_draw_performed,
    {
        let run_startup = !self.initial_draw_performed;
        self.initial_draw_performed = true;
        self.redraw();
        run_startup
    }

    /// The platform asked to close the window: the application's end
    /// predicate decides; refusing keeps the window (the predicate may run
    /// its own confirmation flow and close again later).
    pub fn on_close_requested(&self, handler_allows_exit: bool) -> (exit: bool)
        ensures
            exit == handler_allows_exit,
    {
        handler_allows_exit
    }

    /// Registers a freshly created pop-up window; a modal pop-up becomes the
    /// modal overlay.
    pub fn register_popup(&mut self, popup: PopUp, modal: bool)
        requires
            old(self).wf(),
            popup.wf(),
        ensures
            final(self).wf(),
            final(self).popups@ == old(self).popups@.push(popup),
            modal ==> final(self).modal_window == Some(popup.window_key),
            !modal ==> final(self).modal_window == old(self).modal_window,
    {
        if modal {
            self.modal_window = Some(popup.window_key);
        }
        self.popups.push(popup);
    }
}

} // verus!

verus! {

impl MainApp {
    /// The index of the registered pop-up presented in OS window `key`.
    pub open spec fn spec_popup_by_key(&self, key: u64) -> Option<int> {
        if exists|i: int| 0 <= i < self.popups@.len() && self.popups@[i].window_key == key {
            Some(
                choose|i: int|
                    0 <= i < self.popups@.len() && self.popups@[i].window_key == key && forall|
                        j: int,
                    | 0 <= j < i ==> self.popups@[j].window_key != key,
            )
        } else {
            None
        }
    }

    /// Whether a registered pop-up bears the top-level id.
    pub open spec fn spec_has_popup(&self, uuid: WidgetId) -> bool {
        exists|i: int| 0 <= i < self.popups@.len() && (#[trigger] self.popups@[i]).uuid == uuid
    }

    /// The index of the registered pop-up bearing the top-level id.
    fn popup_index_by_uuid(&self, uuid: WidgetId) -> (r: Option<usize>)
        ensures
            r matches Some(i) ==> 0 <= i < self.popups@.len() && self.popups@[i as int].uuid
                == uuid,
            r is Some ==> self.spec_has_popup(uuid),
            r is None ==> !self.spec_has_popup(uuid),
    {
        let n = self.popups.len();
        let mut i: usize = 0;
        while i < n
            invariant
                n == self.popups@.len(),
                i <= n,
                forall|j: int| 0 <= j < i ==> (#[trigger] self.popups@[j]).uuid != uuid,
            decreases n - i,
        {
            if self.popups[i].uuid == uuid {
                return Some(i);
            }
            i = i + 1;
        }
        None
    }

    /// Removes the pop-up presented in OS window `key` from the registry; if
    /// it was the modal overlay, the modal state is cleared with it.
    pub fn deregister_popup(&mut self, key: u64)
        requires
            old(self).wf(),
        ensures
            final(self).wf(),
            forall|i: int|
                0 <= i < final(self).popups@.len() ==> (#[trigger] final(self).popups@[i]).window_key
                    != key,
            old(self).modal_window == Some(key) ==> final(self).modal_window is None,
            old(self).modal_window != Some(key) ==> final(self).modal_window == old(
                self).modal_window,
            *final(self) == (MainApp {
                popups: final(self).popups,
                modal_window: final(self).modal_window,
                ..*old(self)
            }),
    {
        let mut drained: Vec<PopUp> = Vec::new();
        std::mem::swap(&mut drained, &mut self.popups);
        let mut kept: Vec<PopUp> = Vec::new();
        let n = drained.len();
        let mut i: usize = 0;
        while i < n
            invariant
                old(self).wf(),
                n == old(self).popups@.len(),
                drained@ == old(self).popups@.skip(i as int),
                i <= n,
                forall|j: int|
                    0 <= j < kept@.len() ==> (#[trigger] kept@[j]).window_key != key
                        && kept@[j].wf(),
                *self == (MainApp { popups: self.popups, ..*old(self) }),
                self.popups@.len() == 0,
            decreases n - i,
        {
            proof {
                assert(old(self).popups@[i as int].wf());
                assert(drained@[0] == old(self).popups@[i as int]);
            }
            let p = drained.remove(0);
            if p.window_key != key {
                kept.push(p);
            }
            i = i + 1;
        }
        self.popups = kept;
        match self.modal_window {
            Some(k) => {
                if k == key {
                    self.modal_window = None;
                }
            },
            None => {},
        }
    }

    /// Drains the queued bus events and processes each in order, handing
    /// back the callbacks to invoke and the surface work to perform. The
    /// snapshot taken is processed completely; events the processing itself
    /// publishes (repaint requests from touched widgets) stay queued for the
    /// next turn, as in a live event loop, so an empty bus stays empty and
    /// otherwise the bus holds only what processing published.
    pub fn drain_events(&mut self, handlers: &HandlerSet) -> (actions: Vec<AppAction>)
        requires
            old(self).wf(),
        ensures
            final(self).wf(),
            old(self).events@.len() == 0 ==> *final(self) == (MainApp {
                events: final(self).events,
                ..*old(self)
            }) && final(self).events@.len() == 0 && actions@.len() == 0,
            spec_create_actions(actions@, actions@.len() as int) == spec_create_actions_of_events(
                old(self).events@,
                old(self).events@.len() as int,
            ),
    {
        let ghost snapshot = self.events@;
        let mut actions: Vec<AppAction> = Vec::new();
        let mut pending = self.events.take_all();
        let n = pending.len();
        let mut i: usize = 0;
        while i < n
            invariant
                self.wf(),
                n == pending@.len(),
                n == snapshot.len(),
                i <= n,
                forall|j: int| i <= j < n ==> pending@[j] == snapshot[j],
                n == 0 ==> *self == (MainApp { events: self.events, ..*old(self) })
                    && self.events@.len() == 0 && actions@.len() == 0,
                spec_create_actions(actions@, actions@.len() as int)
                    == spec_create_actions_of_events(snapshot, i as int),
            decreases n - i,
        {
            let mut taken = UserEvent::RedrawAll(self.id);
            std::mem::swap(&mut taken, &mut pending[i]);
            let ghost actions_before = actions@;
            let mut step_actions = self.process_user_event(taken, handlers);
            let ghost step = step_actions@;
            actions.append(&mut step_actions);
            proof {
                lemma_create_actions_append(actions_before, step);
            }
            i = i + 1;
        }
        actions
    }

    /// Processes one bus event: an event the application handles is handed
    /// back as the matching action; otherwise its documented default runs —
    /// repaints are composited, overlays are moved and shown, tab and
    /// scroller bookkeeping reaches the tree, pop-up closings clear the
    /// modal state they held, and anything left is noted as unhandled.
    pub fn process_user_event(&mut self, event: UserEvent, handlers: &HandlerSet) -> (actions:
        Vec<AppAction>)
        requires
            old(self).wf(),
        ensures
            final(self).wf(),
            (event matches UserEvent::CaretMoved(src, line, ch) ==> *final(self) == *old(self)
                && (if handlers.caret_moved {
                actions@.len() == 1 && actions@[0] == AppAction::CaretMoved(src, line, ch)
            } else {
                actions@.len() == 0
            })),
            (event matches UserEvent::ClosePopUp(_mw, k) ==> actions@.len() == 0 && (forall|
                i: int,
            |
                0 <= i < final(self).popups@.len() ==> (#[trigger] final(
                    self).popups@[i]).window_key != k) && (old(self).modal_window == Some(k)
                ==> final(self).modal_window is None) && (old(self).modal_window != Some(k)
                ==> final(self).modal_window == old(self).modal_window) && *final(self)
                == (MainApp {
                popups: final(self).popups,
                modal_window: final(self).modal_window,
                ..*old(self)
            })),
            (event matches UserEvent::CloseTab(_mw, src, tab) ==> *final(self) == *old(self)
                && (if handlers.close_tab {
                actions@.len() == 1 && actions@[0] == AppAction::CloseTab(src, tab)
            } else if old(self).log_unhandled_events {
                actions@.len() == 1 && actions@[0] == AppAction::LogUnhandled
            } else {
                actions@.len() == 0
            })),
            (event matches UserEvent::CreateWindow(_mw, u, cx, cy, w, h, modal) ==> *final(self)
                == *old(self) && actions@.len() == 1 && actions@[0] == AppAction::CreateWindow(
                u,
                cx,
                cy,
                w,
                h,
                modal,
            )),
            (event matches UserEvent::DeleteItems(mw, src) ==> *final(self) == *old(self) && (
            if handlers.delete_items {
                actions@.len() == 1 && actions@[0] == AppAction::DeleteItems(mw, src)
            } else {
                actions@.len() == 0
            })),
            (event matches UserEvent::HideContextMenu(_mw) ==> *final(self) == (MainApp {
                context_menu: final(self).context_menu,
                ..*old(self)
            }) && !final(self).context_menu.visible && actions@.len() == 1 && actions@[0]
                == AppAction::SyncContextMenu),
            (event matches UserEvent::ProcessSelectedItems(_mw, src) ==> *final(self) == *old(
                self) && (if handlers.process_selected_items {
                actions@.len() == 1 && actions@[0] == AppAction::ProcessSelectedItems(src)
            } else if old(self).log_unhandled_events {
                actions@.len() == 1 && actions@[0] == AppAction::LogUnhandled
            } else {
                actions@.len() == 0
            })),
            (event matches UserEvent::Redraw(mw, rx, ry, pix) ==> (!old(self).spec_has_popup(mw)
                ==> (if handlers.redraw {
                *final(self) == *old(self) && actions@.len() == 1 && actions@[0]
                    == AppAction::Redraw(rx, ry, pix)
            } else {
                *final(self) == (MainApp { pixmap: final(self).pixmap, ..*old(self) }) && final(
                    self).pixmap == crate::raster::blitted_layer(
                    old(self).pixmap,
                    crate::raster::clamp_blit(rx as int),
                    crate::raster::clamp_blit(ry as int),
                    pix,
                ) && actions@.len() == 1 && actions@[0] == AppAction::Present
            }))),
            (event matches UserEvent::RedrawAll(_mw) ==> (if handlers.redraw_all {
                *final(self) == *old(self) && actions@.len() == 1 && actions@[0]
                    == AppAction::RedrawAll
            } else {
                actions@.len() == 1 && actions@[0] == AppAction::Present && *final(self)
                    == (MainApp {
                    layout: final(self).layout,
                    pixmap: final(self).pixmap,
                    events: final(self).events,
                    ..*old(self)
                }) && spec_frame_laid_out(
                    old(self).layout,
                    final(self).layout,
                    old(self).width,
                    old(self).height,
                ) && final(self).pixmap == crate::raster::blitted_layer(
                    crate::raster::filled_layer(
                        crate::raster::layer_alloc_dims(old(self).width, old(self).height).0,
                        crate::raster::layer_alloc_dims(old(self).width, old(self).height).1,
                        255,
                        255,
                        255,
                        255,
                    ),
                    0,
                    0,
                    final(self).layout.rows.layout_base.pixmap,
                )
            })),
            (event matches UserEvent::ScrollValueChanged(mw, bar, o, v) ==> (!old(
                self).spec_has_popup(mw) ==> actions@.len() == 0 && *final(self) == (MainApp {
                layout: final(self).layout,
                events: final(self).events,
                ..*old(self)
            }) && crate::compose::spec_owner_effect(
                crate::compose::spec_scroll_owner_in_children(old(self).layout.rows.children@, bar, 0),
                crate::compose::spec_scroll_owner_in_children(
                    final(self).layout.rows.children@,
                    bar,
                    0,
                ),
                bar,
                o,
                crate::row_geometry::clamp_coord(v as int) as i64,
            ))),
            (event matches UserEvent::SelectionChanged(_mw, src) ==> *final(self) == *old(self)
                && (if handlers.selection_changed {
                actions@.len() == 1 && actions@[0] == AppAction::SelectionChanged(src)
            } else if old(self).log_unhandled_events {
                actions@.len() == 1 && actions@[0] == AppAction::LogUnhandled
            } else {
                actions@.len() == 0
            })),
            (event matches UserEvent::ShowContextMenu(_mw, src, mx, my) ==> (
            if handlers.create_context_menu {
                *final(self) == *old(self) && actions@.len() == 1 && actions@[0]
                    == AppAction::CreateContextMenu(src, mx, my)
            } else {
                final(self).context_menu.visible && actions@.len() == 1 && actions@[0]
                    == AppAction::SyncContextMenu
            })),
            (event matches UserEvent::ShowToolTip(mw, src, text) ==> (mw == old(self).id
                && crate::compose::spec_find_in_children(old(self).layout.rows.children@, src, 0)
                is Some ==> final(self).tooltip_popup.visible && final(self).tooltip_popup.text
                == text)),
            (event matches UserEvent::TabSelected(_mw, lid, tid) ==> actions@.len() == 0
                && *final(self) == (MainApp {
                layout: final(self).layout,
                events: final(self).events,
                ..*old(self)
            }) && crate::compose::spec_tab_effect(
                crate::compose::spec_tab_layout_in_children(old(self).layout.rows.children@, lid, 0),
                crate::compose::spec_tab_layout_in_children(
                    final(self).layout.rows.children@,
                    lid,
                    0,
                ),
                tid,
            )),
            (event matches UserEvent::UpdateScroller(mw, sid) ==> (!old(self).spec_has_popup(mw)
                ==> actions@.len() == 0 && *final(self) == (MainApp {
                layout: final(self).layout,
                events: final(self).events,
                ..*old(self)
            }) && crate::compose::spec_refresh_effect(
                crate::compose::spec_scroll_by_id_in_children(
                    old(self).layout.rows.children@,
                    sid,
                    0,
                ),
                crate::compose::spec_scroll_by_id_in_children(
                    final(self).layout.rows.children@,
                    sid,
                    0,
                ),
            ))),
            (event matches UserEvent::UserDefined(_mw, msg_no, data) ==> *final(self) == *old(
                self) && (if handlers.user_defined {
                actions@.len() == 1 && actions@[0] == AppAction::UserDefined(msg_no, data)
            } else if old(self).log_unhandled_events {
                actions@.len() == 1 && actions@[0] == AppAction::LogUnhandled
            } else {
                actions@.len() == 0
            })),
            (event matches UserEvent::CreateWindow(_mw, u, cx, cy, w, h, modal)
                ==> spec_create_actions(actions@, actions@.len() as int) == seq![
                AppAction::CreateWindow(u, cx, cy, w, h, modal),
            ]),
            (!(event matches UserEvent::CreateWindow(_mw, u, cx, cy, w, h, modal))
                ==> spec_create_actions(actions@, actions@.len() as int)
                == Seq::<AppAction>::empty()),
    {
        let mut actions: Vec<AppAction> = Vec::new();
        match event {
            UserEvent::CaretMoved(source, line, ch) => {
                if handlers.caret_moved {
                    actions.push(AppAction::CaretMoved(source, line, ch));
                }
            },
            UserEvent::ClosePopUp(_main, window_key) => {
                self.deregister_popup(window_key);
            },
            UserEvent::CloseTab(_main, source, tab) => {
                if handlers.close_tab {
                    actions.push(AppAction::CloseTab(source, tab));
                } else if self.log_unhandled_events {
                    actions.push(AppAction::LogUnhandled);
                }
            },
            UserEvent::CreateWindow(_main, uuid, x, y, w, h, modal) => {
                actions.push(AppAction::CreateWindow(uuid, x, y, w, h, modal));
            },
            UserEvent::DeleteItems(main, source) => {
                if handlers.delete_items {
                    actions.push(AppAction::DeleteItems(main, source));
                }
            },
            UserEvent::HideContextMenu(_main) => {
                self.context_menu.set_visible(false);
                actions.push(AppAction::SyncContextMenu);
            },
            UserEvent::ProcessSelectedItems(_main, source) => {
                if handlers.process_selected_items {
                    actions.push(AppAction::ProcessSelectedItems(source));
                } else if self.log_unhandled_events {
                    actions.push(AppAction::LogUnhandled);
                }
            },
            UserEvent::Redraw(main, x, y, pix) => {
                let popup_idx = self.popup_index_by_uuid(main);
                match popup_idx {
                    Some(pi) => {
                        proof {
                            assert(self.popups@[pi as int].wf());
                        }
                        let ev = UserEvent::Redraw(main, x, y, pix);
                        let mut popup = self.popups.remove(pi);
                        popup.process_user_event(&ev, &mut self.events);
                        let key = popup.window_key;
                        self.popups.insert(pi, popup);
                        actions.push(AppAction::PresentPopup(key));
                    },
                    None => {
                        if handlers.redraw {
                            actions.push(AppAction::Redraw(x, y, pix));
                        } else {
                            layer_blit_at(&mut self.pixmap, x, y, &pix);
                            actions.push(AppAction::Present);
                        }
                    },
                }
            },
            UserEvent::RedrawAll(_main) => {
                if handlers.redraw_all {
                    actions.push(AppAction::RedrawAll);
                } else {
                    self.redraw();
                    actions.push(AppAction::Present);
                }
            },
            UserEvent::ScrollValueChanged(main, bar, orientation, value) => {
                let clamped = if value < -MAX_DIM {
                    -MAX_DIM
                } else if value > MAX_DIM {
                    MAX_DIM
                } else {
                    value
                };
                let popup_idx = self.popup_index_by_uuid(main);
                match popup_idx {
                    Some(pi) => {
                        proof {
                            assert(self.popups@[pi as int].wf());
                        }
                        let mut popup = self.popups.remove(pi);
                        popup.scroll_value_changed(bar, orientation, clamped, &mut self.events);
                        self.popups.insert(pi, popup);
                    },
                    None => {
                        border_scroll_maintain(
                            &mut self.layout,
                            ScrollMaintenance::ApplyValue(bar, orientation, clamped),
                            &mut self.events,
                        );
                    },
                }
            },
            UserEvent::SelectionChanged(_main, source) => {
                if handlers.selection_changed {
                    actions.push(AppAction::SelectionChanged(source));
                } else if self.log_unhandled_events {
                    actions.push(AppAction::LogUnhandled);
                }
            },
            UserEvent::SetList(_main, dest, list) => {
                if handlers.set_list {
                    actions.push(AppAction::SetList(dest, list));
                } else if self.log_unhandled_events {
                    actions.push(AppAction::LogUnhandled);
                }
            },
            UserEvent::ShowContextMenu(_main, source, x, y) => {
                if handlers.create_context_menu {
                    actions.push(AppAction::CreateContextMenu(source, x, y));
                } else {
                    self.show_context_menu(source, x, y);
                    actions.push(AppAction::SyncContextMenu);
                }
            },
            UserEvent::ShowToolTip(main, source, text) => {
                if main == self.id {
                    let found = border_find_window(&self.layout, source);
                    match found {
                        Some(w) => {
                            let wx = clamp_coord_pub(w.main_win_x as i128);
                            let wy = clamp_coord_pub(w.main_win_y as i128);
                            self.show_tooltip(text, wx, wy);
                            actions.push(AppAction::SyncToolTip);
                        },
                        None => {},
                    }
                }
            },
            UserEvent::SliderValueChange(value) => {
                if handlers.slider_value_changed {
                    actions.push(AppAction::SliderValueChange(value));
                } else if self.log_unhandled_events {
                    actions.push(AppAction::LogUnhandled);
                }
            },
            UserEvent::TabSelected(_main, tab_layout_uuid, tab_uuid) => {
                // This event cannot be overridden by the application.
                border_set_active_tab(
                    &mut self.layout,
                    tab_layout_uuid,
                    tab_uuid,
                    &mut self.events,
                );
            },
            UserEvent::UpdateScroller(main, scroll_layout_uuid) => {
                let popup_idx = self.popup_index_by_uuid(main);
                match popup_idx {
                    Some(pi) => {
                        proof {
                            assert(self.popups@[pi as int].wf());
                        }
                        let ev = UserEvent::UpdateScroller(main, scroll_layout_uuid);
                        let mut popup = self.popups.remove(pi);
                        popup.process_user_event(&ev, &mut self.events);
                        self.popups.insert(pi, popup);
                    },
                    None => {
                        border_scroll_maintain(
                            &mut self.layout,
                            ScrollMaintenance::Refresh(scroll_layout_uuid),
                            &mut self.events,
                        );
                    },
                }
            },
            UserEvent::UserDefined(_main, msg_no, data) => {
                if handlers.user_defined {
                    actions.push(AppAction::UserDefined(msg_no, data));
                } else if self.log_unhandled_events {
                    actions.push(AppAction::LogUnhandled);
                }
            },
        }
        proof {
            if actions@.len() <= 1 {
                lemma_create_actions_small(actions@);
            }
        }
        actions
    }

    /// Moves the context menu to the press position (in screen coordinates:
    /// window origin plus local position), repopulates it from the source
    /// widget's registered entries, and shows it.
    fn show_context_menu(&mut self, source: WidgetId, x: i64, y: i64)
        requires
            old(self).wf(),
        ensures
            final(self).wf(),
            final(self).context_menu.visible,
    {
        let sx = if x > MAX_DIM {
            MAX_DIM
        } else if x < -MAX_DIM {
            -MAX_DIM
        } else {
            x
        };
        let sy = if y > MAX_DIM {
            MAX_DIM
        } else if y < -MAX_DIM {
            -MAX_DIM
        } else {
            y
        };
        let mx = clamp_coord_pub(self.x as i128 + sx as i128);
        let my = clamp_coord_pub(self.y as i128 + sy as i128);
        self.context_menu.move_window(mx, my);
        let found = border_find_window(&self.layout, source);
        match found {
            Some(w) => {
                let mut menu = ContextMenu::new(self.context_menu.uuid, self.id, 200, 100);
                std::mem::swap(&mut menu, &mut self.context_menu);
                menu.populate_from(w);
                self.context_menu = menu;
            },
            None => {},
        }
        self.context_menu.set_visible(true);
    }

    /// Moves the tooltip to the given position (in screen coordinates:
    /// window origin plus local position), sets its text, and shows it.
    fn show_tooltip(&mut self, text: String, x: i64, y: i64)
        requires
            old(self).wf(),
            valid_coord(x),
            valid_coord(y),
        ensures
            final(self).wf(),
            final(self).tooltip_popup.visible,
            final(self).tooltip_popup.text == text,
    {
        let mx = clamp_coord_pub(self.x as i128 + x as i128);
        let my = clamp_coord_pub(self.y as i128 + y as i128);
        self.tooltip_popup.move_window(mx, my);
        self.tooltip_popup.set_text(text);
        self.tooltip_popup.set_visible(true);
    }
}

/// The layout tree went through a full layout pass at the origin over a
/// `width` x `height` region: the tree sits at the origin, every outer-row
/// child stands at its computed place for that region, and the rows' cached
/// layer is the composite of the laid-out children's layers at those places,
/// sized for the region.
pub open spec fn spec_frame_laid_out(
    before: BorderLayout,
    after: BorderLayout,
    width: i64,
    height: i64,
) -> bool {
    &&& after.layout_base.main_win_x == 0 && after.layout_base.main_win_y == 0
    &&& after.rows.layout_base.main_win_x == 0 && after.rows.layout_base.main_win_y == 0
    &&& after.rows.children@.len() == before.rows.children@.len()
    &&& crate::raster::layer_width(after.rows.layout_base.pixmap)
        == crate::raster::layer_alloc_dims(width, height).0
    &&& crate::raster::layer_height(after.rows.layout_base.pixmap)
        == crate::raster::layer_alloc_dims(width, height).1
    &&& after.rows.layout_base.pixmap == crate::compose::spec_row_composite(
        before.rows.children@,
        after.rows.children@,
        before.rows.orientation,
        before.rows.inner_padding,
        before.rows.fill_algorithm,
        width,
        height,
        before.rows.children@.len() as int,
    )
    &&& (forall|i: int|
        0 <= i < before.rows.children@.len() ==> (#[trigger] after.rows.children@[i]).spec_loc().0
            as int == crate::row_geometry::clamp_coord(
            crate::row_geometry::row_place(
                crate::compose::spec_metas(before.rows.children@),
                i,
                before.rows.orientation,
                before.rows.inner_padding,
                before.rows.fill_algorithm,
                width,
                height,
            ).x as int,
        ) && after.rows.children@[i].spec_loc().1 as int == crate::row_geometry::clamp_coord(
            crate::row_geometry::row_place(
                crate::compose::spec_metas(before.rows.children@),
                i,
                before.rows.orientation,
                before.rows.inner_padding,
                before.rows.fill_algorithm,
                width,
                height,
            ).y as int,
        ))
}

/// The window-creation requests among the first `k` bus events, as the
/// actions they must yield, in order.
pub open spec fn spec_create_actions_of_events(s: Seq<UserEvent>, k: int) -> Seq<AppAction>
    decreases k,
{
    if k <= 0 || k > s.len() {
        Seq::empty()
    } else {
        spec_create_actions_of_events(s, k - 1) + (match s[k - 1] {
            UserEvent::CreateWindow(_m, u, x, y, w, h, modal) => seq![
                AppAction::CreateWindow(u, x, y, w, h, modal),
            ],
            _ => Seq::empty(),
        })
    }
}

/// The window-creation actions among the first `k` actions, in order.
pub open spec fn spec_create_actions(s: Seq<AppAction>, k: int) -> Seq<AppAction>
    decreases k,
{
    if k <= 0 || k > s.len() {
        Seq::empty()
    } else {
        spec_create_actions(s, k - 1) + (match s[k - 1] {
            AppAction::CreateWindow(_u, _x, _y, _w, _h, _modal) => seq![s[k - 1]],
            _ => Seq::empty(),
        })
    }
}

/// The creation projection of at most one action, spelled out.
proof fn lemma_create_actions_small(s: Seq<AppAction>)
    requires
        s.len() <= 1,
    ensures
        s.len() == 0 ==> spec_create_actions(s, s.len() as int) == Seq::<AppAction>::empty(),
        s.len() == 1 && (s[0] matches AppAction::CreateWindow(_u, _x, _y, _w, _h, _m))
            ==> spec_create_actions(s, s.len() as int) == seq![s[0]],
        s.len() == 1 && !(s[0] matches AppAction::CreateWindow(_u, _x, _y, _w, _h, _m))
            ==> spec_create_actions(s, s.len() as int) == Seq::<AppAction>::empty(),
{
    if s.len() == 1 {
        assert(spec_create_actions(s, 1) =~= spec_create_actions(s, 0) + (match s[0] {
            AppAction::CreateWindow(_u, _x, _y, _w, _h, _m) => seq![s[0]],
            _ => Seq::<AppAction>::empty(),
        }));
        match s[0] {
            AppAction::CreateWindow(_u, _x, _y, _w, _h, _m) => {
                assert(spec_create_actions(s, 1) =~= seq![s[0]]);
            },
            _ => {
                assert(spec_create_actions(s, 1) =~= Seq::<AppAction>::empty());
            },
        }
    }
}

/// The creation projection of the first `k` actions reads only those.
proof fn lemma_create_actions_prefix(s1: Seq<AppAction>, s2: Seq<AppAction>, k: int)
    requires
        forall|j: int| 0 <= j < k ==> s1[j] == s2[j],
        k <= s1.len(),
        k <= s2.len(),
    ensures
        spec_create_actions(s1, k) == spec_create_actions(s2, k),
    decreases k,
{
    if k > 0 {
        lemma_create_actions_prefix(s1, s2, k - 1);
    }
}

/// The creation projection distributes over concatenation.
proof fn lemma_create_actions_append(a: Seq<AppAction>, b: Seq<AppAction>)
    ensures
        spec_create_actions(a + b, a.len() + b.len() as int) == spec_create_actions(
            a,
            a.len() as int,
        ) + spec_create_actions(b, b.len() as int),
    decreases b.len(),
{
    if b.len() == 0 {
        assert(a + b =~= a);
        lemma_create_actions_prefix(a + b, a, a.len() as int);
        assert(spec_create_actions(a + b, a.len() + b.len() as int) =~= spec_create_actions(
            a,
            a.len() as int,
        ) + spec_create_actions(b, b.len() as int));
    } else {
        let b0 = b.drop_last();
        lemma_create_actions_append(a, b0);
        assert(a + b0 =~= (a + b).subrange(0, a.len() + b.len() - 1));
        lemma_create_actions_prefix(a + b0, a + b, a.len() + b.len() - 1);
        assert((a + b)[a.len() + b.len() - 1] == b[b.len() - 1]);
        assert(b0 =~= b.subrange(0, b.len() - 1));
        lemma_create_actions_prefix(b0, b, b.len() - 1);
        assert(spec_create_actions(a + b, a.len() + b.len() as int) =~= spec_create_actions(
            a,
            a.len() as int,
        ) + spec_create_actions(b, b.len() as int));
    }
}

/// Clamps a wide coordinate into the coordinate range.
pub fn clamp_coord_pub(v: i128) -> (r: i64)
    ensures
        r as int == crate::row_geometry::clamp_coord(v as int),
        valid_coord(r),
{
    if v < -MAX_DIM as i128 {
        -MAX_DIM
    } else if v > MAX_DIM as i128 {
        MAX_DIM
    } else {
        v as i64
    }
}

} // verus!
