//! A scroll bar: a widget coupled to a scrollable child's scroll range.
//!
//! The bar holds a numeric range `[min, max]` and a current value. Its
//! visibility is derived solely from `max > min` — a bar whose range is empty
//! is never rendered nor hit-testable. Interacting with the bar (buttons,
//! track, slide drags, wheel) yields a new value that the owning scroll
//! layout pushes into the scrolled child.

use vstd::prelude::*;
use crate::child_window::{MouseButton, Orientation, Rgba, UserEvent, WheelDelta, WidgetId};
use crate::event_bus::EventQueue;
use crate::raster::{
    blitted_layer,
    clamp_blit,
    filled_layer,
    layer_alloc_dims,
    layer_blit_at,
    layer_fill,
    layer_new_or_fallback,
};
use crate::window_base::WindowBase;
use crate::{valid_coord, valid_dim, MAX_DIM};

verus! {

/// Width or height of a scroll bar, depending on its orientation, and the
/// side of its square buttons and slide.
pub const BAR_SIZE: i64 = 30;

/// A scroll step, by some number of items.
#[derive(Clone, Copy, Debug, PartialEq, Eq, Structural)]
pub enum ScrollEvent {
    Down(u32),
    Up(u32),
}

/// How a mouse press lands on a bar: on the decrease button, on the slide
/// (starting a drag), on the increase button, or on the open track.
#[derive(Clone, Copy, Debug, PartialEq, Eq, Structural)]
pub enum PressTarget {
    Outside,
    Decrease,
    Slide,
    Increase,
    Track,
}

#[derive(Debug)]
pub struct ScrollBar {
    pub window_base: WindowBase,
    pub orientation: Orientation,
    pub min_value: i64,
    pub max_value: i64,
    pub value: i64,
    pub color_background: Rgba,
    pub color_slide: Rgba,
    pub dragging_slide: bool,
}

impl ScrollBar {
    pub open spec fn wf(&self) -> bool {
        &&& self.window_base.wf()
        &&& valid_coord(self.min_value)
        &&& valid_coord(self.max_value)
        &&& valid_coord(self.value)
    }

    /// A bar is visible exactly when its range is non-empty.
    pub open spec fn spec_visible(&self) -> bool {
        self.max_value > self.min_value
    }

    /// The bar's extent along its own axis, at drawing size.
    pub open spec fn spec_axis_extent(&self) -> int {
        if self.orientation == Orientation::Horizontal {
            self.window_base.spec_drawing_size().0 as int
        } else {
            self.window_base.spec_drawing_size().1 as int
        }
    }

    /// Offset of the slide from the bar's origin along its axis: past the
    /// decrease button, proportional to the value's position in the range.
    pub open spec fn spec_slide_offset(&self) -> int {
        let space = self.spec_axis_extent() - 3 * BAR_SIZE;
        if self.max_value > self.min_value && space > 0 && self.value > self.min_value {
            BAR_SIZE + (self.value - self.min_value) * space / (self.max_value - self.min_value)
        } else {
            BAR_SIZE as int
        }
    }

    /// The layer the bar renders: its background, the slide square at the
    /// value's position, and the two button squares at its ends.
    pub open spec fn spec_drawn_layer(&self) -> tiny_skia::Pixmap {
        let (dw, dh) = self.window_base.spec_drawing_size();
        let dims = layer_alloc_dims(dw, dh);
        let bg = filled_layer(
            dims.0,
            dims.1,
            self.color_background.r,
            self.color_background.g,
            self.color_background.b,
            self.color_background.a,
        );
        let square = layer_alloc_dims(BAR_SIZE, BAR_SIZE);
        let slide = filled_layer(
            square.0,
            square.1,
            self.color_slide.r,
            self.color_slide.g,
            self.color_slide.b,
            self.color_slide.a,
        );
        let btn = filled_layer(square.0, square.1, 191, 191, 191, 255);
        let (sx, sy) = if self.orientation == Orientation::Horizontal {
            (self.spec_slide_offset(), 0int)
        } else {
            (0int, self.spec_slide_offset())
        };
        let with_slide = blitted_layer(bg, clamp_blit(sx), clamp_blit(sy), slide);
        let with_dec = blitted_layer(with_slide, 0, 0, btn);
        let (ix, iy) = if self.orientation == Orientation::Horizontal {
            (dw as int - BAR_SIZE, 0int)
        } else {
            (0int, dh as int - BAR_SIZE)
        };
        blitted_layer(with_dec, clamp_blit(ix), clamp_blit(iy), btn)
    }

    /// The bar's state after its contents are redrawn: visible bars with a
    /// non-empty drawing size cache the rendered layer, all others are left
    /// untouched.
    pub open spec fn spec_after_draw(&self) -> ScrollBar {
        let (dw, dh) = self.window_base.spec_drawing_size();
        if !self.spec_visible() || (dw == 0 && dh == 0) {
            *self
        } else {
            ScrollBar {
                window_base: WindowBase { pixmap: self.spec_drawn_layer(), ..self.window_base },
                ..*self
            }
        }
    }

    pub fn new(main_win_uuid: WidgetId, orientation: Orientation) -> (b: ScrollBar)
        ensures
            b.wf(),
            b.orientation == orientation,
            b.min_value == 0 && b.max_value == 0 && b.value == 0,
            !b.dragging_slide,
            !b.spec_visible(),
            b.window_base.uuid.bits != 0,
    {
        let mut window_base = WindowBase::new(main_win_uuid);
        window_base.window_type = "ScrollBar".to_owned();
        ScrollBar {
            window_base,
            orientation,
            min_value: 0,
            max_value: 0,
            value: 0,
            color_background: Rgba { r: 191, g: 191, b: 191, a: 255 },
            color_slide: Rgba { r: 64, g: 64, b: 255, a: 255 },
            dragging_slide: false,
        }
    }

    pub fn get_range(&self) -> (r: (i64, i64))
        ensures
            r == (self.min_value, self.max_value),
    {
        (self.min_value, self.max_value)
    }

    pub fn get_value(&self) -> (r: i64)
        ensures
            r == self.value,
    {
        self.value
    }

    /// Scrollbar visibility: the bar is visible iff its maximum exceeds its
    /// minimum; there is no separate flag to set.
    pub fn is_visible(&self) -> (r: bool)
        ensures
            r == self.spec_visible(),
            r == (self.max_value > self.min_value),
    {
        self.max_value > self.min_value
    }

    /// Renders the bar into its cached layer; invisible or zero-sized bars
    /// are left untouched.
    fn draw(&mut self)
        requires
            old(self).wf(),
        ensures
            final(self).wf(),
            *final(self) == old(self).spec_after_draw(),
    {
        if !self.is_visible() {
            return;
        }
        let (dw, dh) = self.window_base.get_drawing_size();
        if dw == 0 && dh == 0 {
            return;
        }
        let mut layer = layer_new_or_fallback(dw, dh);
        layer_fill(&mut layer, self.color_background);
        let mut slide = layer_new_or_fallback(BAR_SIZE, BAR_SIZE);
        layer_fill(&mut slide, self.color_slide);
        let mut btn = layer_new_or_fallback(BAR_SIZE, BAR_SIZE);
        layer_fill(&mut btn, Rgba { r: 191, g: 191, b: 191, a: 255 });
        let off = self.slide_offset();
        match self.orientation {
            Orientation::Horizontal => {
                layer_blit_at(&mut layer, off, 0, &slide);
                layer_blit_at(&mut layer, 0, 0, &btn);
                layer_blit_at(&mut layer, dw - BAR_SIZE, 0, &btn);
            },
            Orientation::Vertical => {
                layer_blit_at(&mut layer, 0, off, &slide);
                layer_blit_at(&mut layer, 0, 0, &btn);
                layer_blit_at(&mut layer, 0, dh - BAR_SIZE, &btn);
            },
        }
        self.window_base.pixmap = layer;
    }

    /// The events one `set_value(v)` call publishes: a repaint request when
    /// the bar is visible, then the value-changed notification, always.
    pub open spec fn spec_set_value_events(&self, v: i64) -> Seq<UserEvent> {
        let s1 = ScrollBar { value: v, ..*self };
        let s2 = s1.spec_after_draw();
        let changed = UserEvent::ScrollValueChanged(
            self.window_base.main_win_uuid,
            self.window_base.uuid,
            self.orientation,
            v,
        );
        if s2.spec_visible() {
            seq![
                UserEvent::Redraw(
                    s2.window_base.main_win_uuid,
                    s2.window_base.main_win_x,
                    s2.window_base.main_win_y,
                    s2.window_base.pixmap,
                ),
                changed,
            ]
        } else {
            seq![changed]
        }
    }

    /// Takes the new value, redraws the bar, asks for a repaint when
    /// visible, and always announces the change on the bus.
    pub fn set_value(&mut self, value: i64, events: &mut EventQueue)
        requires
            old(self).wf(),
            valid_coord(value),
        ensures
            final(self).wf(),
            *final(self) == (ScrollBar { value, ..*old(self) }).spec_after_draw(),
            final(self).value == value,
            final(events)@ == old(events)@ + old(self).spec_set_value_events(value),
    {
        self.value = value;
        self.draw();
        if self.is_visible() {
            events.publish(
                UserEvent::Redraw(
                    self.window_base.main_win_uuid,
                    self.window_base.main_win_x,
                    self.window_base.main_win_y,
                    self.window_base.pixmap.clone(),
                ),
            );
        }
        events.publish(
            UserEvent::ScrollValueChanged(
                self.window_base.main_win_uuid,
                self.window_base.uuid,
                self.orientation,
                value,
            ),
        );
        proof {
            assert(events@ =~= old(events)@ + old(self).spec_set_value_events(value));
        }
    }

    /// Sets the range and then the value; visibility afterwards is exactly
    /// `maximum > minimum`, and setting an empty range always hides the bar.
    pub fn set_range(&mut self, minimum: i64, maximum: i64, value: i64, events: &mut EventQueue)
        requires
            old(self).wf(),
            valid_coord(minimum),
            valid_coord(maximum),
            valid_coord(value),
        ensures
            final(self).wf(),
            final(self).min_value == minimum && final(self).max_value == maximum,
            final(self).value == value,
            final(self).spec_visible() == (maximum > minimum),
            *final(self) == (ScrollBar {
                min_value: minimum,
                max_value: maximum,
                value,
                ..*old(self)
            }).spec_after_draw(),
            final(events)@ == old(events)@ + (ScrollBar {
                min_value: minimum,
                max_value: maximum,
                ..*old(self)
            }).spec_set_value_events(value),
    {
        self.min_value = minimum;
        self.max_value = maximum;
        self.set_value(value, events);
    }

    /// Where a press at `(mx, my)` lands on a visible bar, in main-window
    /// coordinates: the decrease button, the slide, the increase button, or
    /// the open track.
    pub open spec fn spec_press_target(&self, mx: i64, my: i64) -> PressTarget {
        let x = self.window_base.main_win_x;
        let y = self.window_base.main_win_y;
        let (dw, dh) = self.window_base.spec_drawing_size();
        let slide = self.spec_slide_offset();
        if mx > x && mx < x + BAR_SIZE && my >= y && my < y + BAR_SIZE {
            PressTarget::Decrease
        } else if self.orientation == Orientation::Horizontal && mx >= x + slide && mx <= x + slide
            + BAR_SIZE {
            PressTarget::Slide
        } else if self.orientation == Orientation::Vertical && my >= y + slide && my <= y + slide
            + BAR_SIZE {
            PressTarget::Slide
        } else if self.orientation == Orientation::Horizontal && mx > x + dw - BAR_SIZE && mx < x
            + dw && my >= y && my < y + BAR_SIZE {
            PressTarget::Increase
        } else if self.orientation == Orientation::Vertical && mx >= x && mx < x + BAR_SIZE && my
            > y + dh - BAR_SIZE && my < y + dh {
            PressTarget::Increase
        } else {
            PressTarget::Track
        }
    }

    /// The value a track press at `(mx, my)` scrolls to: the range position
    /// proportional to where the press falls between the buttons, capped to
    /// the range.
    pub open spec fn spec_track_value(&self, mx: i64, my: i64) -> int {
        let x = self.window_base.main_win_x;
        let y = self.window_base.main_win_y;
        let (dw, dh) = self.window_base.spec_drawing_size();
        let (m, o, len) = if self.orientation == Orientation::Horizontal {
            (mx as int, x as int, dw as int)
        } else {
            (my as int, y as int, dh as int)
        };
        let den = len - 2 * BAR_SIZE;
        if den <= 0 {
            self.max_value as int
        } else if self.max_value <= self.min_value {
            self.min_value as int
        } else {
            let num = if m - o < 0 {
                0int
            } else if m - o > den {
                den
            } else {
                m - o
            };
            self.min_value + num * (self.max_value - self.min_value) / den
        }
    }

    /// What a mouse press does to the bar: presses outside a visible bar and
    /// right presses do nothing; the decrease and increase buttons step the
    /// value by one within the range; a press on the slide starts a slide
    /// drag; a press on the open track jumps to the proportional value.
    /// The new value, when one arises, is handed back so the owning layout
    /// can push it into the scrolled child.
    pub open spec fn spec_pressed_value(&self, button: MouseButton, mx: i64, my: i64) -> Option<
        i64,
    > {
        if button == MouseButton::Right || !self.spec_visible() {
            None
        } else {
            match self.spec_press_target(mx, my) {
                PressTarget::Decrease => if self.value > self.min_value {
                    Some((self.value - 1) as i64)
                } else {
                    None
                },
                PressTarget::Slide => None,
                PressTarget::Increase => if self.value < self.max_value {
                    Some((self.value + 1) as i64)
                } else {
                    None
                },
                PressTarget::Track => Some(self.spec_track_value(mx, my) as i64),
                PressTarget::Outside => None,
            }
        }
    }

    /// Handles a mouse press, returning the value the scrolled child should
    /// take, if the press produced one.
    pub fn handle_mouse_pressed(
        &mut self,
        button: MouseButton,
        mouse_x: i64,
        mouse_y: i64,
        events: &mut EventQueue,
    ) -> (r: Option<i64>)
        requires
            old(self).wf(),
            valid_coord(mouse_x),
            valid_coord(mouse_y),
        ensures
            final(self).wf(),
            r == old(self).spec_pressed_value(button, mouse_x, mouse_y),
            r is Some ==> *final(self) == (ScrollBar {
                value: r->0,
                ..*old(self)
            }).spec_after_draw() && final(events)@ == old(events)@ + old(
                self,
            ).spec_set_value_events(r->0),
            r is None && old(self).spec_visible() && button != MouseButton::Right && old(
                self,
            ).spec_press_target(mouse_x, mouse_y) == PressTarget::Slide ==> *final(self)
                == (ScrollBar { dragging_slide: true, ..*old(self) }) && final(events)@ == old(
                events,
            )@,
            r is None && !(old(self).spec_visible() && button != MouseButton::Right && old(
                self,
            ).spec_press_target(mouse_x, mouse_y) == PressTarget::Slide) ==> *final(self) == *old(
                self,
            ) && final(events)@ == old(events)@,
    {
        if matches!(button, MouseButton::Right) || !self.is_visible() {
            return None;
        }
        let x = self.window_base.main_win_x;
        let y = self.window_base.main_win_y;
        let (dw, dh) = self.window_base.get_drawing_size();
        let slide = self.slide_offset();

        if mouse_x > x && mouse_x < x + BAR_SIZE && mouse_y >= y && mouse_y < y + BAR_SIZE {
            // The decrease button.
            if self.value > self.min_value {
                let nv = self.value - 1;
                self.set_value(nv, events);
                return Some(nv);
            }
            return None;
        }
        let on_slide = match self.orientation {
            Orientation::Horizontal => mouse_x >= x + slide && mouse_x <= x + slide + BAR_SIZE,
            Orientation::Vertical => mouse_y >= y + slide && mouse_y <= y + slide + BAR_SIZE,
        };
        if on_slide {
            self.dragging_slide = true;
            return None;
        }
        let on_increase = match self.orientation {
            Orientation::Horizontal => mouse_x > x + dw - BAR_SIZE && mouse_x < x + dw && mouse_y
                >= y && mouse_y < y + BAR_SIZE,
            Orientation::Vertical => mouse_x >= x && mouse_x < x + BAR_SIZE && mouse_y > y + dh
                - BAR_SIZE && mouse_y < y + dh,
        };
        if on_increase {
            if self.value < self.max_value {
                let nv = self.value + 1;
                self.set_value(nv, events);
                return Some(nv);
            }
            return None;
        }
        // The open track: jump to the proportional value.
        let nv = self.track_value(mouse_x, mouse_y);
        self.set_value(nv, events);
        Some(nv)
    }

    /// The value a track press scrolls to.
    fn track_value(&self, mouse_x: i64, mouse_y: i64) -> (r: i64)
        requires
            self.wf(),
            valid_coord(mouse_x),
            valid_coord(mouse_y),
        ensures
            r as int == self.spec_track_value(mouse_x, mouse_y),
            self.spec_visible() ==> valid_coord(r),
    {
        let x = self.window_base.main_win_x;
        let y = self.window_base.main_win_y;
        let (dw, dh) = self.window_base.get_drawing_size();
        let (m, o, len) = match self.orientation {
            Orientation::Horizontal => (mouse_x, x, dw),
            Orientation::Vertical => (mouse_y, y, dh),
        };
        let den: i64 = len - 2 * BAR_SIZE;
        if den <= 0 {
            self.max_value
        } else if self.max_value <= self.min_value {
            self.min_value
        } else {
            let rel: i64 = m - o;
            let num: i64 = if rel < 0 {
                0
            } else if rel > den {
                den
            } else {
                rel
            };
            let range: i128 = self.max_value as i128 - self.min_value as i128;
            proof {
                assert(0 <= num as int * range as int <= 0x40000000 * 0x80000000)
                    by (nonlinear_arith)
                    requires
                        0 <= num as int <= 0x40000000,
                        0 < range as int <= 0x80000000,
                ;
                assert(0 <= num as int * range as int / den as int <= range as int)
                    by (nonlinear_arith)
                    requires
                        0 <= num as int <= den as int,
                        den as int > 0,
                        range as int > 0,
                ;
            }
            let q: i128 = num as i128 * range / den as i128;
            (self.min_value as i128 + q) as i64
        }
    }

    /// Releasing the mouse always ends a slide drag.
    pub fn handle_mouse_released(&mut self, _button: MouseButton, _mouse_x: i64, _mouse_y: i64)
        requires
            old(self).wf(),
        ensures
            final(self).wf(),
            *final(self) == (ScrollBar { dragging_slide: false, ..*old(self) }),
    {
        self.dragging_slide = false;
    }

    /// The value a slide drag at `(mx, my)` scrolls to: the position of the
    /// cursor along the bar, proportional to the range.
    pub open spec fn spec_drag_value(&self, mx: i64, my: i64) -> int {
        self.spec_track_value(mx, my)
    }

    /// Handles a mouse drag: while a slide drag is in progress, scrolls to
    /// the dragged-to value and hands it back for the scrolled child;
    /// otherwise does nothing.
    pub fn handle_mouse_drag(&mut self, main_win_x: i64, main_win_y: i64, events: &mut EventQueue) -> (r:
        Option<i64>)
        requires
            old(self).wf(),
            valid_coord(main_win_x),
            valid_coord(main_win_y),
        ensures
            final(self).wf(),
            !old(self).dragging_slide ==> (r is None) && *final(self) == *old(self) && final(
                events)@ == old(events)@,
            old(self).dragging_slide ==> {
                let nv = old(self).spec_drag_value(main_win_x, main_win_y) as i64;
                &&& r == Some(nv)
                &&& *final(self) == (ScrollBar { value: nv, ..*old(self) }).spec_after_draw()
                &&& final(events)@ == old(events)@ + old(self).spec_set_value_events(nv)
            },
    {
        if self.dragging_slide {
            let nv = self.track_value(main_win_x, main_win_y);
            self.set_value(nv, events);
            Some(nv)
        } else {
            None
        }
    }

    pub fn handle_mouse_drag_start(&mut self, _main_win_x: i64, _main_win_y: i64)
        ensures
            *final(self) == *old(self),
    {
    }

    pub fn handle_mouse_drag_end(&mut self, _main_win_x: i64, _main_win_y: i64)
        ensures
            *final(self) == *old(self),
    {
    }

    pub fn handle_mouse_movement(&mut self, _main_win_x: i64, _main_win_y: i64)
        ensures
            *final(self) == *old(self),
    {
    }

    /// The value a wheel step scrolls to: one value per line, a downward
    /// step increasing the value, kept within the coordinate range.
    pub open spec fn spec_wheel_value(&self, delta: WheelDelta) -> i64 {
        crate::row_geometry::clamp_coord(self.value - delta.lines_y) as i64
    }

    /// Handles a mouse wheel step, scrolling by one value per line and
    /// handing the new value back for the scrolled child.
    pub fn handle_mouse_wheel(&mut self, delta: WheelDelta, events: &mut EventQueue) -> (r: Option<
        i64,
    >)
        requires
            old(self).wf(),
        ensures
            final(self).wf(),
            ({
                let nv = old(self).spec_wheel_value(delta);
                &&& r == Some(nv)
                &&& *final(self) == (ScrollBar { value: nv, ..*old(self) }).spec_after_draw()
                &&& final(events)@ == old(events)@ + old(self).spec_set_value_events(nv)
            }),
    {
        let wide: i128 = self.value as i128 - delta.lines_y as i128;
        let nv: i64 = if wide < -MAX_DIM as i128 {
            -MAX_DIM
        } else if wide > MAX_DIM as i128 {
            MAX_DIM
        } else {
            wide as i64
        };
        self.set_value(nv, events);
        Some(nv)
    }

    /// The bar's state after `redraw(x, y, width, height, force)`: it is
    /// repositioned; when invisible nothing else changes; when forced or
    /// resized it takes the new extent along its axis (the cross extent is
    /// pinned to the bar thickness) and re-renders.
    pub open spec fn spec_redraw(&self, x: i64, y: i64, width: i64, height: i64, force: bool) -> ScrollBar {
        let moved = ScrollBar {
            window_base: WindowBase { main_win_x: x, main_win_y: y, ..self.window_base },
            ..*self
        };
        if !self.spec_visible() {
            moved
        } else if force || width != self.window_base.width || height != self.window_base.height {
            let resized = if self.orientation == Orientation::Horizontal {
                ScrollBar {
                    window_base: WindowBase { width, height: BAR_SIZE, ..moved.window_base },
                    ..moved
                }
            } else {
                ScrollBar {
                    window_base: WindowBase { width: BAR_SIZE, height, ..moved.window_base },
                    ..moved
                }
            };
            resized.spec_after_draw()
        } else {
            moved
        }
    }

    /// Updates the bar's display: repositions it, re-renders when forced or
    /// resized, and returns the bar's layer. An invisible bar hands back a
    /// minimal blank layer and is never rendered. A repeated call with
    /// identical arguments and `force` unset returns the identical layer.
    pub fn redraw(&mut self, x: i64, y: i64, width: i64, height: i64, force: bool) -> (r:
        tiny_skia::Pixmap)
        requires
            old(self).wf(),
            valid_coord(x),
            valid_coord(y),
            valid_dim(width),
            valid_dim(height),
        ensures
            final(self).wf(),
            *final(self) == old(self).spec_redraw(x, y, width, height, force),
            !old(self).spec_visible() ==> r == filled_layer(1, 1, 0, 0, 0, 0),
            old(self).spec_visible() ==> r == final(self).window_base.pixmap,
    {
        self.window_base.main_win_x = x;
        self.window_base.main_win_y = y;
        if !self.is_visible() {
            let blank = layer_new_or_fallback(1, 1);
            return blank;
        }
        if force || width != self.window_base.width || height != self.window_base.height {
            match self.orientation {
                Orientation::Horizontal => {
                    self.window_base.width = width;
                    self.window_base.height = BAR_SIZE;
                },
                Orientation::Vertical => {
                    self.window_base.width = BAR_SIZE;
                    self.window_base.height = height;
                },
            }
            self.draw();
        }
        self.window_base.pixmap.clone()
    }

    /// Offset of the slide from the bar's origin along its axis.
    fn slide_offset(&self) -> (r: i64)
        requires
            self.wf(),
        ensures
            r as int == self.spec_slide_offset(),
            BAR_SIZE <= r <= BAR_SIZE + 0x2000000000000000,
    {
        let (dw, dh) = self.window_base.get_drawing_size();
        let extent: i64 = match self.orientation {
            Orientation::Horizontal => dw,
            Orientation::Vertical => dh,
        };
        let space: i64 = extent - 3 * BAR_SIZE;
        if self.max_value > self.min_value && space > 0 && self.value > self.min_value {
            let diff: i64 = self.value - self.min_value;
            proof {
                assert(0 <= diff as i128 * space as i128 <= 0x80000000i128 * 0x40000000i128)
                    by (nonlinear_arith)
                    requires
                        0 < diff as i128 <= 0x80000000i128,
                        0 < space as i128 <= 0x40000000i128,
                ;
            }
            let num: i128 = diff as i128 * space as i128;
            let den: i128 = self.max_value as i128 - self.min_value as i128;
            proof {
                assert(0 <= num / den <= num) by (nonlinear_arith)
                    requires
                        num >= 0,
                        den > 0,
                ;
            }
            BAR_SIZE + (num / den) as i64
        } else {
            BAR_SIZE
        }
    }
}

} // verus!
