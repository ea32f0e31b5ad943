use guikit::child_window::{ChildType, KeyEventData, MouseButton, Rgba, UserEvent, WheelDelta, WidgetId};
use guikit::compose::WidgetOp;
use guikit::event_bus::EventQueue;
use guikit::raster::{layer_bytes, layer_fill, layer_height_of, layer_new_or_fallback, layer_width_of, layer_blit_at, layer_crop};
use guikit::routing::RouteTarget;
use guikit::border_layout::BorderLayout;
use guikit::child_window::{LayoutArgs, LayoutNode};
use guikit::tab_layout::TabLayout;
use guikit::window_base::WindowBase;
use guikit::window_utils::WindowUtils;
use guikit::{HandlerSet, MainApp};

fn id(bits: u128) -> WidgetId {
    WidgetId { bits }
}

#[test]
fn event_bus_preserves_order() {
    let mut q = EventQueue::new();
    q.publish(UserEvent::RedrawAll(id(1)));
    q.publish(UserEvent::HideContextMenu(id(2)));
    q.publish(UserEvent::SliderValueChange(7));
    assert_eq!(q.len(), 3);
    assert!(matches!(q.pop_front(), Some(UserEvent::RedrawAll(_))));
    assert!(matches!(q.pop_front(), Some(UserEvent::HideContextMenu(_))));
    let rest = q.take_all();
    assert_eq!(rest.len(), 1);
    assert!(matches!(rest[0], UserEvent::SliderValueChange(7)));
    assert_eq!(q.len(), 0);
    assert!(q.pop_front().is_none());
}

#[test]
fn redraw_is_idempotent_for_identical_arguments() {
    let mut w = WindowBase::new(id(1));
    w.background_color = Rgba { r: 10, g: 20, b: 30, a: 255 };
    let first = w.redraw(4, 6, 40, 20, false);
    let second = w.redraw(4, 6, 40, 20, false);
    assert_eq!(layer_bytes(&first), layer_bytes(&second));
    assert_eq!(first, second);
    // A forced call still renders the same content for the same state.
    let third = w.redraw(4, 6, 40, 20, true);
    assert_eq!(layer_bytes(&second), layer_bytes(&third));
}

#[test]
fn fresh_ids_are_nonzero_and_distinct() {
    let a = WidgetId::fresh();
    let b = WidgetId::fresh();
    assert_ne!(a.bits, 0);
    assert_ne!(b.bits, 0);
    assert_ne!(a, b);
}

#[test]
fn layers_are_allocated_filled_and_cropped() {
    let mut layer = layer_new_or_fallback(4, 3);
    assert_eq!(layer_width_of(&layer), 4);
    assert_eq!(layer_height_of(&layer), 3);
    // A freshly allocated layer is transparent black.
    assert!(layer_bytes(&layer).iter().all(|b| *b == 0));
    // Filling writes the color into every pixel.
    layer_fill(&mut layer, Rgba { r: 255, g: 0, b: 0, a: 255 });
    let bytes = layer_bytes(&layer);
    assert_eq!(bytes.len(), 4 * 4 * 3);
    for px in bytes.chunks(4) {
        assert_eq!(px, &[255, 0, 0, 255]);
    }
    // Blitting draws the source over the destination at the offset.
    let mut dot = layer_new_or_fallback(1, 1);
    layer_fill(&mut dot, Rgba { r: 0, g: 255, b: 0, a: 255 });
    layer_blit_at(&mut layer, 1, 1, &dot);
    let bytes = layer_bytes(&layer);
    let at = |x: usize, y: usize| &bytes[(y * 4 + x) * 4..(y * 4 + x) * 4 + 4];
    assert_eq!(at(1, 1), &[0, 255, 0, 255]);
    assert_eq!(at(0, 0), &[255, 0, 0, 255]);
    // Cropping copies out exactly the region.
    let cropped = layer_crop(&layer, 1, 1, 1, 1).unwrap();
    assert_eq!(layer_bytes(&cropped), vec![0, 255, 0, 255]);
    // An unusable size degrades to the minimal layer.
    let fallback = layer_new_or_fallback(0, 9);
    assert_eq!(layer_width_of(&fallback), 1);
    assert_eq!(layer_height_of(&fallback), 1);
}

#[test]
fn pixel_data_has_four_bytes_per_pixel() {
    let layer = layer_new_or_fallback(8, 8);
    let data = WindowUtils::get_pixel_data(&layer, 2, 2, 3, 2);
    assert_eq!(data.len(), 4 * 3 * 2);
    // A region hanging over the edge is clipped to the layer: only the
    // intersecting pixel remains.
    let data = WindowUtils::get_pixel_data(&layer, 7, 7, 3, 2);
    assert_eq!(data.len(), 4);
    // A region fully outside the layer yields nothing.
    let data = WindowUtils::get_pixel_data(&layer, 20, 20, 3, 2);
    assert_eq!(data.len(), 0);
}

#[test]
fn date_str_renders_a_timestamp() {
    let s = WindowUtils::date_str();
    assert!(s.len() >= 19);
    assert_eq!(&s[4..5], "-");
}

fn app_with_contents() -> (MainApp, WidgetId) {
    let mut app = MainApp::new(id(100), "demo".to_string());
    let mut w = WindowBase::new(id(100));
    w.width = 700;
    w.height = 500;
    let wid = w.uuid;
    app.set_contents(ChildType::Window(w)).unwrap();
    app.run_started();
    // One frame so every widget takes its place in the tree.
    app.on_redraw_requested();
    (app, wid)
}

#[test]
fn drag_sequence_suppresses_release() {
    let (mut app, wid) = app_with_contents();

    // Mouse down at (10, 10) on the laid-out widget.
    app.on_cursor_moved(10, 10);
    let press = app.on_mouse_input(true, MouseButton::Left);
    assert_eq!(app.focus_window, Some(wid));
    assert!(press.iter().any(|s| matches!(s.op, WidgetOp::MouseDragStart(10, 10))));

    // Move to (50, 10) with the button held: a drag.
    let moved = app.on_cursor_moved(50, 10);
    assert_eq!(moved.len(), 1);
    assert!(matches!(moved[0].op, WidgetOp::MouseDrag(50, 10)));

    // Mouse up at (50, 10): one final drag, then the drag end — and no
    // separate release.
    let release = app.on_mouse_input(false, MouseButton::Left);
    assert_eq!(release.len(), 2);
    assert!(matches!(release[0].op, WidgetOp::MouseDrag(50, 10)));
    assert!(matches!(release[1].op, WidgetOp::MouseDragEnd(50, 10)));
    assert!(release.iter().all(|s| !matches!(s.op, WidgetOp::MouseReleased(_, _, _))));
    assert!(!app.dragging);
}

#[test]
fn release_without_movement_is_forwarded_plainly() {
    let (mut app, _wid) = app_with_contents();
    app.on_cursor_moved(10, 10);
    app.on_mouse_input(true, MouseButton::Left);
    let release = app.on_mouse_input(false, MouseButton::Left);
    assert_eq!(release.len(), 1);
    assert!(matches!(release[0].op, WidgetOp::MouseReleased(MouseButton::Left, 10, 10)));
}

#[test]
fn modal_takes_all_input_exclusively() {
    let (mut app, _wid) = app_with_contents();
    app.set_modal(Some(42));

    let press = app.on_mouse_input(true, MouseButton::Left);
    assert!(press.iter().all(|s| s.target == RouteTarget::Modal));
    let moved = app.on_cursor_moved(77, 88);
    assert!(moved.iter().all(|s| s.target == RouteTarget::Modal));
    let wheel = app.on_mouse_wheel(WheelDelta { lines_x: 0, lines_y: 1 });
    assert!(wheel.iter().all(|s| s.target == RouteTarget::Modal));
    let keys = app.on_keyboard_input(KeyEventData { key_code: 13, pressed: true });
    assert!(keys.iter().all(|s| s.target == RouteTarget::Modal));
    let release = app.on_mouse_input(false, MouseButton::Left);
    assert!(release.iter().all(|s| s.target == RouteTarget::Modal));

    // Once the modal is cleared, routing goes back to the tree.
    app.set_modal(None);
    app.on_cursor_moved(10, 10);
    let press = app.on_mouse_input(true, MouseButton::Left);
    assert!(press.iter().all(|s| s.target != RouteTarget::Modal));
}

#[test]
fn deregistering_the_modal_popup_clears_modal_state() {
    let (mut app, _wid) = app_with_contents();
    let popup = guikit::popup::PopUp::new(id(200), id(100), 42, 300, 200);
    app.register_popup(popup, true);
    assert_eq!(app.modal_window, Some(42));

    let handlers = HandlerSet::default();
    let actions = app.process_user_event(UserEvent::ClosePopUp(id(100), 42), &handlers);
    assert!(actions.is_empty());
    assert_eq!(app.modal_window, None);
    assert!(app.popups.is_empty());
}

#[test]
fn hide_context_menu_event_hides_the_overlay() {
    let (mut app, _wid) = app_with_contents();
    app.context_menu.set_visible(true);
    let handlers = HandlerSet::default();
    app.process_user_event(UserEvent::HideContextMenu(id(100)), &handlers);
    assert!(!app.context_menu.visible);
}

#[test]
fn handled_events_become_actions_instead_of_defaults() {
    let (mut app, _wid) = app_with_contents();
    let mut handlers = HandlerSet::default();
    handlers.close_tab = true;
    let actions = app.process_user_event(
        UserEvent::CloseTab(id(100), id(5), id(6)),
        &handlers,
    );
    assert_eq!(actions.len(), 1);
    assert!(matches!(actions[0], guikit::AppAction::CloseTab(_, _)));

    // Without the handler, an unhandled event is only logged.
    let handlers = HandlerSet::default();
    let actions = app.process_user_event(
        UserEvent::CloseTab(id(100), id(5), id(6)),
        &handlers,
    );
    assert_eq!(actions.len(), 1);
    assert!(matches!(actions[0], guikit::AppAction::LogUnhandled));
}

#[test]
fn status_message_round_trips() {
    let mut app = MainApp::new(id(300), "demo".to_string());
    assert!(app.get_status_message().is_none());
    app.enable_statusbar().unwrap();
    app.set_status_message("three records".to_string());
    assert_eq!(app.get_status_message(), Some("three records".to_string()));
    app.set_status_message("done".to_string());
    assert_eq!(app.get_status_message(), Some("done".to_string()));
}

#[test]
fn close_button_press_asks_to_close_its_tab() {
    let main = id(301);
    let mut tabs = TabLayout::new(main);
    let mut q = EventQueue::new();
    tabs.add_tab("aa".to_string(), ChildType::Window(WindowBase::new(main)), &mut q);
    let tab_id = tabs.tabs[0].uuid;
    let layout_id = tabs.layout_base.uuid;
    let close_id = tabs.tabs[0].close_btn.uuid;
    let tree = ChildType::Layout(Box::new(LayoutNode::Tab(tabs)));

    let mut q = EventQueue::new();
    let op = WidgetOp::MousePressed(MouseButton::Left, 33, 5);
    let _tree = guikit::compose::node_dispatch(tree, close_id, &op, &mut q);
    let fired = q.take_all();
    assert!(fired.iter().any(|e| match e {
        UserEvent::CloseTab(_, lid, tid) => *lid == layout_id && *tid == tab_id,
        _ => false,
    }));
}

#[test]
fn border_insertion_errors_name_the_refusal() {
    let main = id(302);
    let mut b = BorderLayout::new(main);
    let err = b.add_child(WindowBase::new(main), LayoutArgs::NONE).unwrap_err();
    assert_eq!(err, "Required LayoutArgs::BORDER argument is missing");
}

#[test]
fn oversized_image_buffers_decode_to_exact_layers() {
    // An image buffer may legally be longer than its pixels need; the layer
    // still gets exactly the image's size and pixel data.
    let padded = image::RgbaImage::from_raw(1, 1, vec![9, 8, 7, 255, 0, 0, 0, 0]).unwrap();
    let img = image::DynamicImage::ImageRgba8(padded);
    let layer = WindowUtils::create_image_pixmap(&img);
    assert_eq!(layer_width_of(&layer), 1);
    assert_eq!(layer_height_of(&layer), 1);
    assert_eq!(layer_bytes(&layer).len(), 4);
}
