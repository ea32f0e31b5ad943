//! A pop-up window: a secondary top-level surface with its own layout tree
//! and its own focus and drag state, driven by the same routing decisions as
//! the main window (a pop-up has no modal overlay of its own).

use vstd::prelude::*;
use crate::border_layout::BorderLayout;
use crate::child_window::{ChildType, KeyEventData, LayoutArgs, BorderLocation, MouseButton, UserEvent, WheelDelta, WidgetId};
use crate::compose::{border_dispatch, border_layout_run, border_scroll_maintain, row_hit, ScrollMaintenance};
use crate::event_bus::EventQueue;
use crate::raster::{layer_blit_at, layer_fill, layer_new_or_fallback};
use crate::routing::{
    route_keyboard,
    route_mouse_move,
    route_mouse_pressed,
    route_mouse_released,
    route_mouse_wheel,
    RouteStep,
    RouteTarget,
};
use crate::child_window::Rgba;
use crate::{valid_coord, valid_dim};

verus! {

#[derive(Debug)]
pub struct PopUp {
    pub uuid: WidgetId,
    pub main_win_uuid: WidgetId,
    /// The OS window this pop-up is presented in, as an opaque key.
    pub window_key: u64,
    pub pixmap: tiny_skia::Pixmap,
    pub width: i64,
    pub height: i64,
    pub layout: BorderLayout,
    pub initial_draw_performed: bool,
    pub cursor_x: i64,
    pub cursor_y: i64,
    pub focus_window: Option<WidgetId>,
    pub dragging: bool,
    pub drag_start_win_x: i64,
    pub drag_start_win_y: i64,
    pub mouse_left_button_down: bool,
}

impl PopUp {
    pub open spec fn wf(&self) -> bool {
        &&& self.layout.wf()
        &&& valid_dim(self.width)
        &&& valid_dim(self.height)
        &&& valid_coord(self.cursor_x)
        &&& valid_coord(self.cursor_y)
        &&& valid_coord(self.drag_start_win_x)
        &&& valid_coord(self.drag_start_win_y)
    }

    pub fn new(uuid: WidgetId, main_win_uuid: WidgetId, window_key: u64, width: i64, height: i64) -> (p:
        PopUp)
        requires
            valid_dim(width),
            valid_dim(height),
        ensures
            p.wf(),
            p.uuid == uuid,
            p.main_win_uuid == main_win_uuid,
            p.window_key == window_key,
            p.width == width && p.height == height,
            p.focus_window is None,
            !p.dragging,
    {
        let mut layout = BorderLayout::new(uuid);
        layout.layout_base.name = "PopUp's BorderLayout".to_owned();
        PopUp {
            uuid,
            main_win_uuid,
            window_key,
            pixmap: layer_new_or_fallback(width, height),
            width,
            height,
            layout,
            initial_draw_performed: false,
            cursor_x: 0,
            cursor_y: 0,
            focus_window: None,
            dragging: false,
            drag_start_win_x: 0,
            drag_start_win_y: 0,
            mouse_left_button_down: false,
        }
    }

    pub fn get_uuid(&self) -> (r: WidgetId)
        ensures
            r == self.uuid,
    {
        self.uuid
    }

    pub fn get_window_id(&self) -> (r: u64)
        ensures
            r == self.window_key,
    {
        self.window_key
    }

    pub fn get_size(&self) -> (r: (i64, i64))
        ensures
            r == (self.width, self.height),
    {
        (self.width, self.height)
    }

    /// Places contents in the pop-up's center region: on success the inner
    /// row holds the contents and hands it every bit of slack.
    pub fn set_contents(&mut self, contents: ChildType, events: &mut EventQueue) -> (r: Result<
        (),
        String,
    >)
        requires
            old(self).wf(),
            contents.wf(),
        ensures
            final(self).wf(),
            r is Ok ==> ({
                let ci = old(self).layout.spec_center_index();
                let center = crate::border_layout::center_row_of(
                    old(self).layout.rows.children@[ci],
                );
                let center2 = crate::border_layout::center_row_of(
                    final(self).layout.rows.children@[ci],
                );
                &&& center2.children@ == center.children@.insert(
                    BorderLayout::spec_insert_index(
                        BorderLocation::CENTER,
                        center.children@.len() as int,
                    ),
                    contents,
                )
                &&& center2.fill_algorithm == crate::child_window::LayoutFill::Single(
                    contents.spec_id(),
                )
            }),
            *final(self) == (PopUp { layout: final(self).layout, ..*old(self) }),
    {
        let r = match contents {
            ChildType::Window(w) => self.layout.add_child(w, LayoutArgs::BORDER(BorderLocation::CENTER)),
            ChildType::Layout(l) => self.layout.add_layout(*l, LayoutArgs::BORDER(BorderLocation::CENTER)),
        };
        r
    }

    /// Applies routing steps to the pop-up's own tree (a pop-up has no modal
    /// overlay, so modal steps cannot arise and are ignored). When every
    /// step addresses one widget with in-range operations, that widget takes
    /// the operations in order.
    fn apply_steps(&mut self, steps: &Vec<RouteStep>, events: &mut EventQueue)
        requires
            old(self).wf(),
        ensures
            final(self).wf(),
            final(self).layout.layout_base == old(self).layout.layout_base,
            *final(self) == (PopUp { layout: final(self).layout, ..*old(self) }),
            forall|tid: WidgetId|
                (forall|i: int|
                    0 <= i < steps@.len() ==> (#[trigger] steps@[i]).target
                        == RouteTarget::Widget(tid) && steps@[i].op.wf()) ==> (
                match #[trigger] crate::compose::spec_window_in_children(
                    old(self).layout.rows.children@,
                    tid,
                    0,
                ) {
                    Some(w) => crate::compose::spec_window_in_children(
                        final(self).layout.rows.children@,
                        tid,
                        0,
                    ) == Some(
                        crate::compose::spec_apply_ops(
                            w,
                            crate::compose::spec_ops_of(steps@),
                            steps@.len() as int,
                        ),
                    ),
                    None => crate::compose::spec_window_in_children(
                        final(self).layout.rows.children@,
                        tid,
                        0,
                    ) is None,
                }),
    {
        let n = steps.len();
        let mut i: usize = 0;
        while i < n
            invariant
                self.wf(),
                n == steps@.len(),
                self.layout.layout_base == old(self).layout.layout_base,
                *self == (PopUp { layout: self.layout, ..*old(self) }),
                i <= n,
                forall|tid: WidgetId|
                    (forall|j: int|
                        0 <= j < steps@.len() ==> (#[trigger] steps@[j]).target
                            == RouteTarget::Widget(tid) && steps@[j].op.wf()) ==> (
                    match #[trigger] crate::compose::spec_window_in_children(
                        old(self).layout.rows.children@,
                        tid,
                        0,
                    ) {
                        Some(w) => crate::compose::spec_window_in_children(
                            self.layout.rows.children@,
                            tid,
                            0,
                        ) == Some(
                            crate::compose::spec_apply_ops(
                                w,
                                crate::compose::spec_ops_of(steps@),
                                i as int,
                            ),
                        ),
                        None => crate::compose::spec_window_in_children(
                            self.layout.rows.children@,
                            tid,
                            0,
                        ) is None,
                    }),
            decreases n - i,
        {
            let step = &steps[i];
            match &step.target {
                RouteTarget::Widget(id) => {
                    if step.op.check_wf() {
                        border_dispatch(&mut self.layout, *id, &step.op, events);
                    }
                },
                RouteTarget::Modal => {},
            }
            i = i + 1;
        }
    }

    /// Handles cursor movement over the pop-up.
    pub fn on_cursor_moved(&mut self, x: i64, y: i64, events: &mut EventQueue) -> (steps: Vec<
        RouteStep,
    >)
        requires
            old(self).wf(),
            valid_coord(x),
            valid_coord(y),
        ensures
            final(self).wf(),
            final(self).cursor_x == x && final(self).cursor_y == y,
            steps@ == crate::routing::spec_route_mouse_move(
                false,
                old(self).mouse_left_button_down,
                crate::compose::spec_row_hit_from(old(self).layout.rows.children@, x, y, 0).0,
                x,
                y,
            ),
    {
        self.cursor_x = x;
        self.cursor_y = y;
        let hit = row_hit(&self.layout.rows, x, y, events);
        let steps = route_mouse_move(false, self.mouse_left_button_down, hit, x, y);
        self.apply_steps(&steps, events);
        steps
    }

    /// Handles a mouse press or release over the pop-up.
    pub fn on_mouse_input(
        &mut self,
        pressed: bool,
        button: MouseButton,
        events: &mut EventQueue,
    ) -> (steps: Vec<RouteStep>)
        requires
            old(self).wf(),
        ensures
            final(self).wf(),
            pressed ==> final(self).mouse_left_button_down && final(self).focus_window
                == crate::compose::spec_row_hit_from(
                old(self).layout.rows.children@,
                old(self).cursor_x,
                old(self).cursor_y,
                0,
            ).0 && steps@ == crate::routing::spec_route_mouse_pressed(
                false,
                old(self).focus_window,
                final(self).focus_window,
                button,
                old(self).cursor_x,
                old(self).cursor_y,
            ),
            (pressed && button == MouseButton::Left) ==> final(self).dragging && final(
                self).drag_start_win_x == old(self).cursor_x && final(self).drag_start_win_y
                == old(self).cursor_y,
            !pressed ==> !final(self).mouse_left_button_down && !final(self).dragging && steps@
                == crate::routing::spec_route_mouse_released(
                false,
                old(self).focus_window,
                button,
                old(self).cursor_x,
                old(self).cursor_y,
                old(self).drag_start_win_x,
                old(self).drag_start_win_y,
            ),
    {
        if pressed {
            self.mouse_left_button_down = true;
            if matches!(button, MouseButton::Left) {
                self.dragging = true;
                self.drag_start_win_x = self.cursor_x;
                self.drag_start_win_y = self.cursor_y;
            }
            let hit = row_hit(&self.layout.rows, self.cursor_x, self.cursor_y, events);
            let steps = route_mouse_pressed(
                false,
                self.focus_window,
                hit,
                button,
                self.cursor_x,
                self.cursor_y,
            );
            self.focus_window = hit;
            self.apply_steps(&steps, events);
            steps
        } else {
            self.mouse_left_button_down = false;
            let steps = route_mouse_released(
                false,
                self.focus_window,
                button,
                self.cursor_x,
                self.cursor_y,
                self.drag_start_win_x,
                self.drag_start_win_y,
            );
            self.dragging = false;
            self.apply_steps(&steps, events);
            steps
        }
    }

    /// Handles a wheel step over the pop-up.
    pub fn on_mouse_wheel(&mut self, delta: WheelDelta, events: &mut EventQueue) -> (steps: Vec<
        RouteStep,
    >)
        requires
            old(self).wf(),
        ensures
            final(self).wf(),
            final(self).focus_window == crate::compose::spec_row_hit_from(
                old(self).layout.rows.children@,
                old(self).cursor_x,
                old(self).cursor_y,
                0,
            ).0,
            steps@ == crate::routing::spec_route_mouse_wheel(
                false,
                final(self).focus_window,
                delta,
            ),
    {
        let hit = row_hit(&self.layout.rows, self.cursor_x, self.cursor_y, events);
        self.focus_window = hit;
        let steps = route_mouse_wheel(false, hit, delta);
        self.apply_steps(&steps, events);
        steps
    }

    /// Handles keyboard input while the pop-up has the keyboard.
    pub fn on_keyboard_input(&mut self, event: KeyEventData, events: &mut EventQueue) -> (steps:
        Vec<RouteStep>)
        requires
            old(self).wf(),
        ensures
            final(self).wf(),
            steps@ == crate::routing::spec_route_keyboard(false, old(self).focus_window, event),
    {
        let steps = route_keyboard(false, self.focus_window, event);
        self.apply_steps(&steps, events);
        steps
    }

    /// Composes the pop-up's tree into its layer: the surface is cleared to
    /// white, the tree laid out over the full window, and the result blitted
    /// in at the origin.
    pub fn redraw(&mut self, events: &mut EventQueue)
        requires
            old(self).wf(),
        ensures
            final(self).wf(),
            final(self).uuid == old(self).uuid,
            *final(self) == (PopUp {
                layout: final(self).layout,
                pixmap: final(self).pixmap,
                ..*old(self)
            }),
            final(self).pixmap == crate::raster::blitted_layer(
                crate::raster::filled_layer(
                    crate::raster::layer_alloc_dims(old(self).width, old(self).height).0,
                    crate::raster::layer_alloc_dims(old(self).width, old(self).height).1,
                    255,
                    255,
                    255,
                    255,
                ),
                0,
                0,
                final(self).layout.rows.layout_base.pixmap,
            ),
            crate::spec_frame_laid_out(
                old(self).layout,
                final(self).layout,
                old(self).width,
                old(self).height,
            ),
    {
        let mut pixmap = layer_new_or_fallback(self.width, self.height);
        layer_fill(&mut pixmap, Rgba::white());
        let mut tmp = BorderLayout::new(self.uuid);
        std::mem::swap(&mut tmp, &mut self.layout);
        let (laid, layer) = border_layout_run(tmp, 0, 0, self.width, self.height, events);
        self.layout = laid;
        layer_blit_at(&mut pixmap, 0, 0, &layer);
        self.pixmap = pixmap;
    }

    /// Applies a bar's announced value to the scrolled child of whichever
    /// scroll layout in the pop-up owns the bar.
    pub fn scroll_value_changed(
        &mut self,
        scroll_bar_uuid: WidgetId,
        orientation: crate::child_window::Orientation,
        value: i64,
        events: &mut EventQueue,
    )
        requires
            old(self).wf(),
            valid_coord(value),
        ensures
            final(self).wf(),
            crate::compose::spec_owner_effect(
                crate::compose::spec_scroll_owner_in_children(
                    old(self).layout.rows.children@,
                    scroll_bar_uuid,
                    0,
                ),
                crate::compose::spec_scroll_owner_in_children(
                    final(self).layout.rows.children@,
                    scroll_bar_uuid,
                    0,
                ),
                scroll_bar_uuid,
                orientation,
                value,
            ),
            *final(self) == (PopUp { layout: final(self).layout, ..*old(self) }),
    {
        border_scroll_maintain(
            &mut self.layout,
            ScrollMaintenance::ApplyValue(scroll_bar_uuid, orientation, value),
            events,
        );
    }

    /// Processes a bus event addressed to this pop-up: a partial repaint is
    /// blitted into its layer, and a scroller refresh re-runs the named
    /// scroll layout.
    pub fn process_user_event(&mut self, event: &UserEvent, events: &mut EventQueue)
        requires
            old(self).wf(),
        ensures
            final(self).wf(),
            (event matches UserEvent::Redraw(_mw, rx, ry, pix) ==> final(self).pixmap
                == crate::raster::blitted_layer(
                old(self).pixmap,
                crate::raster::clamp_blit(*rx as int),
                crate::raster::clamp_blit(*ry as int),
                *pix,
            ) && *final(self) == (PopUp { pixmap: final(self).pixmap, ..*old(self) })),
            (event matches UserEvent::UpdateScroller(_mw, sid) ==> *final(self) == (PopUp {
                layout: final(self).layout,
                ..*old(self)
            }) && crate::compose::spec_refresh_effect(
                crate::compose::spec_scroll_by_id_in_children(
                    old(self).layout.rows.children@,
                    *sid,
                    0,
                ),
                crate::compose::spec_scroll_by_id_in_children(
                    final(self).layout.rows.children@,
                    *sid,
                    0,
                ),
            )),
    {
        match event {
            UserEvent::Redraw(_, x, y, pix) => {
                layer_blit_at(&mut self.pixmap, *x, *y, pix);
            },
            UserEvent::RedrawAll(_) => {
                self.redraw(events);
            },
            UserEvent::UpdateScroller(_, scroll_id) => {
                border_scroll_maintain(
                    &mut self.layout,
                    ScrollMaintenance::Refresh(*scroll_id),
                    events,
                );
            },
            _ => {},
        }
    }
}

} // verus!
