//! The input-routing decisions of a top-level window controller.
//!
//! Raw input is turned into a sequence of routing steps: which widget (or
//! the modal overlay) receives which operation. The decision functions are
//! pure, so what a controller does with an input is pinned exactly; the
//! controller then applies each step to its widget tree.

use vstd::prelude::*;
use crate::child_window::{KeyEventData, MouseButton, WheelDelta, WidgetId};
use crate::compose::WidgetOp;

verus! {

/// Who one routing step is addressed to.
#[derive(Clone, Copy, Debug, PartialEq, Eq, Structural)]
pub enum RouteTarget {
    /// The modal overlay, which bypasses the tree and the focus entirely.
    Modal,
    /// The widget bearing the id.
    Widget(WidgetId),
}

/// One routing step: an operation addressed to one recipient.
#[derive(Clone, Debug)]
pub struct RouteStep {
    pub target: RouteTarget,
    pub op: WidgetOp,
}

/// Where mouse movement goes: with a modal set, to the modal, exclusively;
/// else to the widget under the cursor — as a drag while the left button is
/// down, as hover movement otherwise.
pub open spec fn spec_route_mouse_move(
    modal: bool,
    mouse_down: bool,
    hit: Option<WidgetId>,
    x: i64,
    y: i64,
) -> Seq<RouteStep> {
    let op = if mouse_down {
        WidgetOp::MouseDrag(x, y)
    } else {
        WidgetOp::MouseMovement(x, y)
    };
    if modal {
        seq![RouteStep { target: RouteTarget::Modal, op }]
    } else {
        match hit {
            Some(id) => seq![RouteStep { target: RouteTarget::Widget(id), op }],
            None => Seq::empty(),
        }
    }
}

/// Where a mouse press goes: with a modal set, to the modal, exclusively
/// (the focus is untouched); else focus leaves the previously focused
/// widget, moves to the widget under the cursor, and that widget receives
/// the press and a drag start.
pub open spec fn spec_route_mouse_pressed(
    modal: bool,
    prev_focus: Option<WidgetId>,
    hit: Option<WidgetId>,
    button: MouseButton,
    x: i64,
    y: i64,
) -> Seq<RouteStep> {
    if modal {
        seq![RouteStep { target: RouteTarget::Modal, op: WidgetOp::MousePressed(button, x, y) }]
    } else {
        let unfocus = match prev_focus {
            Some(f) => seq![
                RouteStep { target: RouteTarget::Widget(f), op: WidgetOp::SetFocused(false) },
            ],
            None => Seq::empty(),
        };
        let to_hit = match hit {
            Some(id) => seq![
                RouteStep { target: RouteTarget::Widget(id), op: WidgetOp::SetFocused(true) },
                RouteStep {
                    target: RouteTarget::Widget(id),
                    op: WidgetOp::MousePressed(button, x, y),
                },
                RouteStep {
                    target: RouteTarget::Widget(id),
                    op: WidgetOp::MouseDragStart(x, y),
                },
            ],
            None => Seq::empty(),
        };
        unfocus + to_hit
    }
}

/// Where a mouse release goes: with a modal set, to the modal, exclusively.
/// Otherwise, if the left button comes up away from where the drag started,
/// the focused widget receives one final drag and the drag end — and no
/// separate release, the drag end subsumes it. Otherwise the focused widget
/// receives the release.
pub open spec fn spec_route_mouse_released(
    modal: bool,
    focus: Option<WidgetId>,
    button: MouseButton,
    x: i64,
    y: i64,
    drag_start_x: i64,
    drag_start_y: i64,
) -> Seq<RouteStep> {
    if modal {
        seq![RouteStep { target: RouteTarget::Modal, op: WidgetOp::MouseReleased(button, x, y) }]
    } else if button == MouseButton::Left && (x != drag_start_x || y != drag_start_y)
        && focus is Some {
        let f = focus->0;
        seq![
            RouteStep { target: RouteTarget::Widget(f), op: WidgetOp::MouseDrag(x, y) },
            RouteStep { target: RouteTarget::Widget(f), op: WidgetOp::MouseDragEnd(x, y) },
        ]
    } else {
        match focus {
            Some(f) => seq![
                RouteStep {
                    target: RouteTarget::Widget(f),
                    op: WidgetOp::MouseReleased(button, x, y),
                },
            ],
            None => Seq::empty(),
        }
    }
}

/// Where a wheel step goes: with a modal set, to the modal, exclusively;
/// else the widget under the cursor takes the focus and the step (the wheel
/// re-hit-tests rather than using the latched focus).
pub open spec fn spec_route_mouse_wheel(
    modal: bool,
    hit: Option<WidgetId>,
    delta: WheelDelta,
) -> Seq<RouteStep> {
    if modal {
        seq![RouteStep { target: RouteTarget::Modal, op: WidgetOp::MouseWheel(delta) }]
    } else {
        match hit {
            Some(id) => seq![
                RouteStep { target: RouteTarget::Widget(id), op: WidgetOp::SetFocused(true) },
                RouteStep { target: RouteTarget::Widget(id), op: WidgetOp::MouseWheel(delta) },
            ],
            None => Seq::empty(),
        }
    }
}

/// Where keyboard input goes: with a modal set, to the modal, exclusively;
/// else the focused widget keeps its focus and receives the key; with no
/// focus the controller's own fallback (a no-op) runs.
pub open spec fn spec_route_keyboard(
    modal: bool,
    focus: Option<WidgetId>,
    event: KeyEventData,
) -> Seq<RouteStep> {
    let op = if event.pressed {
        WidgetOp::KeyPressed(event)
    } else {
        WidgetOp::KeyReleased(event)
    };
    if modal {
        seq![RouteStep { target: RouteTarget::Modal, op }]
    } else {
        match focus {
            Some(f) => seq![
                RouteStep { target: RouteTarget::Widget(f), op: WidgetOp::SetFocused(true) },
                RouteStep { target: RouteTarget::Widget(f), op },
            ],
            None => Seq::empty(),
        }
    }
}

/// Computes the routing of mouse movement.
pub fn route_mouse_move(
    modal: bool,
    mouse_down: bool,
    hit: Option<WidgetId>,
    x: i64,
    y: i64,
) -> (r: Vec<RouteStep>)
    ensures
        r@ == spec_route_mouse_move(modal, mouse_down, hit, x, y),
{
    let op = if mouse_down {
        WidgetOp::MouseDrag(x, y)
    } else {
        WidgetOp::MouseMovement(x, y)
    };
    let mut steps: Vec<RouteStep> = Vec::new();
    if modal {
        steps.push(RouteStep { target: RouteTarget::Modal, op });
    } else {
        match hit {
            Some(id) => steps.push(RouteStep { target: RouteTarget::Widget(id), op }),
            None => {},
        }
    }
    proof {
        assert(steps@ =~= spec_route_mouse_move(modal, mouse_down, hit, x, y));
    }
    steps
}

/// Computes the routing of a mouse press.
pub fn route_mouse_pressed(
    modal: bool,
    prev_focus: Option<WidgetId>,
    hit: Option<WidgetId>,
    button: MouseButton,
    x: i64,
    y: i64,
) -> (r: Vec<RouteStep>)
    ensures
        r@ == spec_route_mouse_pressed(modal, prev_focus, hit, button, x, y),
{
    let mut steps: Vec<RouteStep> = Vec::new();
    if modal {
        steps.push(
            RouteStep { target: RouteTarget::Modal, op: WidgetOp::MousePressed(button, x, y) },
        );
    } else {
        match prev_focus {
            Some(f) => steps.push(
                RouteStep { target: RouteTarget::Widget(f), op: WidgetOp::SetFocused(false) },
            ),
            None => {},
        }
        match hit {
            Some(id) => {
                steps.push(
                    RouteStep { target: RouteTarget::Widget(id), op: WidgetOp::SetFocused(true) },
                );
                steps.push(
                    RouteStep {
                        target: RouteTarget::Widget(id),
                        op: WidgetOp::MousePressed(button, x, y),
                    },
                );
                steps.push(
                    RouteStep {
                        target: RouteTarget::Widget(id),
                        op: WidgetOp::MouseDragStart(x, y),
                    },
                );
            },
            None => {},
        }
    }
    proof {
        assert(steps@ =~= spec_route_mouse_pressed(modal, prev_focus, hit, button, x, y));
    }
    steps
}

/// Computes the routing of a mouse release.
pub fn route_mouse_released(
    modal: bool,
    focus: Option<WidgetId>,
    button: MouseButton,
    x: i64,
    y: i64,
    drag_start_x: i64,
    drag_start_y: i64,
) -> (r: Vec<RouteStep>)
    ensures
        r@ == spec_route_mouse_released(modal, focus, button, x, y, drag_start_x, drag_start_y),
{
    let mut steps: Vec<RouteStep> = Vec::new();
    if modal {
        steps.push(
            RouteStep { target: RouteTarget::Modal, op: WidgetOp::MouseReleased(button, x, y) },
        );
    } else {
        let dragged = matches!(button, MouseButton::Left) && (x != drag_start_x || y
            != drag_start_y) && focus.is_some();
        if dragged {
            match focus {
                Some(f) => {
                    steps.push(
                        RouteStep {
                            target: RouteTarget::Widget(f),
                            op: WidgetOp::MouseDrag(x, y),
                        },
                    );
                    steps.push(
                        RouteStep {
                            target: RouteTarget::Widget(f),
                            op: WidgetOp::MouseDragEnd(x, y),
                        },
                    );
                },
                None => {},
            }
        } else {
            match focus {
                Some(f) => steps.push(
                    RouteStep {
                        target: RouteTarget::Widget(f),
                        op: WidgetOp::MouseReleased(button, x, y),
                    },
                ),
                None => {},
            }
        }
    }
    proof {
        assert(steps@ =~= spec_route_mouse_released(
            modal,
            focus,
            button,
            x,
            y,
            drag_start_x,
            drag_start_y,
        ));
    }
    steps
}

/// Computes the routing of a wheel step.
pub fn route_mouse_wheel(modal: bool, hit: Option<WidgetId>, delta: WheelDelta) -> (r: Vec<
    RouteStep,
>)
    ensures
        r@ == spec_route_mouse_wheel(modal, hit, delta),
{
    let mut steps: Vec<RouteStep> = Vec::new();
    if modal {
        steps.push(RouteStep { target: RouteTarget::Modal, op: WidgetOp::MouseWheel(delta) });
    } else {
        match hit {
            Some(id) => {
                steps.push(
                    RouteStep { target: RouteTarget::Widget(id), op: WidgetOp::SetFocused(true) },
                );
                steps.push(
                    RouteStep { target: RouteTarget::Widget(id), op: WidgetOp::MouseWheel(delta) },
                );
            },
            None => {},
        }
    }
    proof {
        assert(steps@ =~= spec_route_mouse_wheel(modal, hit, delta));
    }
    steps
}

/// Computes the routing of keyboard input.
pub fn route_keyboard(modal: bool, focus: Option<WidgetId>, event: KeyEventData) -> (r: Vec<
    RouteStep,
>)
    ensures
        r@ == spec_route_keyboard(modal, focus, event),
{
    let op = if event.pressed {
        WidgetOp::KeyPressed(event)
    } else {
        WidgetOp::KeyReleased(event)
    };
    let mut steps: Vec<RouteStep> = Vec::new();
    if modal {
        steps.push(RouteStep { target: RouteTarget::Modal, op });
    } else {
        match focus {
            Some(f) => {
                steps.push(
                    RouteStep { target: RouteTarget::Widget(f), op: WidgetOp::SetFocused(true) },
                );
                steps.push(RouteStep { target: RouteTarget::Widget(f), op });
            },
            None => {},
        }
    }
    proof {
        assert(steps@ =~= spec_route_keyboard(modal, focus, event));
    }
    steps
}

/// Modal override: while a modal popup is set, every step of every mouse or
/// keyboard routing decision is addressed to the modal, exclusively —
/// whatever the cursor position, the hit-test result or the focus.
pub proof fn lemma_modal_override(
    mouse_down: bool,
    prev_focus: Option<WidgetId>,
    focus: Option<WidgetId>,
    hit: Option<WidgetId>,
    button: MouseButton,
    x: i64,
    y: i64,
    sx: i64,
    sy: i64,
    delta: WheelDelta,
    key: KeyEventData,
)
    ensures
        forall|i: int|
            0 <= i < spec_route_mouse_move(true, mouse_down, hit, x, y).len()
                ==> (#[trigger] spec_route_mouse_move(true, mouse_down, hit, x, y)[i]).target
                == RouteTarget::Modal,
        forall|i: int|
            0 <= i < spec_route_mouse_pressed(true, prev_focus, hit, button, x, y).len()
                ==> (#[trigger] spec_route_mouse_pressed(true, prev_focus, hit, button, x, y)[i]).target
                == RouteTarget::Modal,
        forall|i: int|
            0 <= i < spec_route_mouse_released(true, focus, button, x, y, sx, sy).len()
                ==> (#[trigger] spec_route_mouse_released(true, focus, button, x, y, sx, sy)[i]).target
                == RouteTarget::Modal,
        forall|i: int|
            0 <= i < spec_route_mouse_wheel(true, hit, delta).len()
                ==> (#[trigger] spec_route_mouse_wheel(true, hit, delta)[i]).target
                == RouteTarget::Modal,
        forall|i: int|
            0 <= i < spec_route_keyboard(true, focus, key).len()
                ==> (#[trigger] spec_route_keyboard(true, focus, key)[i]).target
                == RouteTarget::Modal,
{
}

/// The drag protocol: a left press on a hit widget ends in a drag start;
/// movement with the button held is a drag; and a left release away from
/// the drag's origin delivers one final drag and the drag end to the
/// focused widget — and never a separate mouse release.
pub proof fn lemma_drag_sequence(
    w: WidgetId,
    prev_focus: Option<WidgetId>,
    sx: i64,
    sy: i64,
    mx: i64,
    my: i64,
    ux: i64,
    uy: i64,
)
    requires
        ux != sx || uy != sy,
    ensures
        spec_route_mouse_pressed(false, prev_focus, Some(w), MouseButton::Left, sx, sy).last()
            == (RouteStep { target: RouteTarget::Widget(w), op: WidgetOp::MouseDragStart(sx, sy) }),
        spec_route_mouse_move(false, true, Some(w), mx, my) == seq![
            RouteStep { target: RouteTarget::Widget(w), op: WidgetOp::MouseDrag(mx, my) },
        ],
        spec_route_mouse_released(false, Some(w), MouseButton::Left, ux, uy, sx, sy) == seq![
            RouteStep { target: RouteTarget::Widget(w), op: WidgetOp::MouseDrag(ux, uy) },
            RouteStep { target: RouteTarget::Widget(w), op: WidgetOp::MouseDragEnd(ux, uy) },
        ],
        forall|i: int|
            0 <= i < spec_route_mouse_released(
                false,
                Some(w),
                MouseButton::Left,
                ux,
                uy,
                sx,
                sy,
            ).len() ==> !((#[trigger] spec_route_mouse_released(
                false,
                Some(w),
                MouseButton::Left,
                ux,
                uy,
                sx,
                sy,
            )[i]).op matches WidgetOp::MouseReleased(_, _, _)),
{
    let steps = spec_route_mouse_released(false, Some(w), MouseButton::Left, ux, uy, sx, sy);
    assert(steps.len() == 2);
    assert(!(steps[0].op matches WidgetOp::MouseReleased(_, _, _)));
    assert(!(steps[1].op matches WidgetOp::MouseReleased(_, _, _)));
}

} // verus!
