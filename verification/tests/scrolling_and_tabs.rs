use guikit::child_window::{ChildType, MouseButton, Orientation, WheelDelta, WidgetId};
use guikit::event_bus::EventQueue;
use guikit::scroll_bar::{ScrollBar, BAR_SIZE};
use guikit::scroll_layout::ScrollLayout;
use guikit::tab_layout::{FontMetrics, TabLayout};
use guikit::window_base::WindowBase;

fn id(bits: u128) -> WidgetId {
    WidgetId { bits }
}

#[test]
fn scrollbar_visible_iff_max_exceeds_min() {
    let mut bar = ScrollBar::new(id(1), Orientation::Vertical);
    let mut q = EventQueue::new();
    assert!(!bar.is_visible());
    bar.set_range(0, 10, 5, &mut q);
    assert!(bar.is_visible());
    bar.set_range(10, 10, 5, &mut q);
    assert!(!bar.is_visible());
    bar.set_range(10, 3, 5, &mut q);
    assert!(!bar.is_visible());
    bar.set_range(-4, -2, -3, &mut q);
    assert!(bar.is_visible());
}

#[test]
fn hidden_scrollbar_is_not_hit_testable() {
    let main = id(2);
    let mut layout = ScrollLayout::new(main);
    let mut child = WindowBase::new(main);
    // An empty vertical range, a non-empty horizontal one.
    child.x_scroll_min = 0;
    child.x_scroll_max = 50;
    child.x_scroll = 10;
    let child_id = child.uuid;
    layout.add_child(child).unwrap();
    layout.layout_base.main_win_x = 0;
    layout.layout_base.main_win_y = 0;
    layout.layout_base.width = 200;
    layout.layout_base.height = 100;
    let mut q = EventQueue::new();
    let mut sc = layout;
    // Run one pass so the bars take the child's ranges.
    let (sc2, _pix) = guikit::compose::scroll_layout_run(sc, 0, 0, 200, 100, &mut q);
    sc = sc2;
    assert!(sc.h_scroll.is_visible());
    assert!(!sc.v_scroll.is_visible());
    // A point on the right edge belongs to the child: the vertical bar is
    // hidden and removed from hit-testing.
    assert_eq!(sc.get_child_at(199, 10), Some(child_id));
    // A point on the bottom edge belongs to the visible horizontal bar.
    assert_eq!(sc.get_child_at(50, 99), Some(sc.h_scroll.window_base.uuid));
    // Outside the layout nobody is hit.
    assert_eq!(sc.get_child_at(500, 10), None);
}

#[test]
fn scroll_pass_pushes_child_ranges_into_bars() {
    let main = id(3);
    let mut layout = ScrollLayout::new(main);
    let mut child = WindowBase::new(main);
    child.x_scroll_min = 1;
    child.x_scroll_max = 9;
    child.x_scroll = 4;
    child.y_scroll_min = -3;
    child.y_scroll_max = 7;
    child.y_scroll = 0;
    layout.add_child(child).unwrap();
    let mut q = EventQueue::new();
    let (sc, _pix) = guikit::compose::scroll_layout_run(layout, 10, 10, 300, 200, &mut q);
    assert_eq!(sc.h_scroll.get_range(), (1, 9));
    assert_eq!(sc.h_scroll.get_value(), 4);
    assert_eq!(sc.v_scroll.get_range(), (-3, 7));
    assert_eq!(sc.v_scroll.get_value(), 0);
    // Both bars visible: the child loses one bar thickness on each side.
    let c = sc.child.as_ref().unwrap();
    assert_eq!(c.width, 300 - BAR_SIZE);
    assert_eq!(c.height, 200 - BAR_SIZE);
}

#[test]
fn scrollbar_buttons_step_within_range() {
    let mut bar = ScrollBar::new(id(4), Orientation::Horizontal);
    let mut q = EventQueue::new();
    bar.set_range(0, 10, 5, &mut q);
    bar.window_base.main_win_x = 0;
    bar.window_base.main_win_y = 0;
    bar.window_base.width = 300;
    bar.window_base.height = BAR_SIZE;
    // A press on the decrease button steps one down.
    let r = bar.handle_mouse_pressed(MouseButton::Left, 5, 5, &mut q);
    assert_eq!(r, Some(4));
    assert_eq!(bar.get_value(), 4);
    // A right press is ignored.
    let r = bar.handle_mouse_pressed(MouseButton::Right, 5, 5, &mut q);
    assert_eq!(r, None);
    assert_eq!(bar.get_value(), 4);
    // A press on the increase button steps one up.
    let r = bar.handle_mouse_pressed(MouseButton::Left, 295, 5, &mut q);
    assert_eq!(r, Some(5));
    assert_eq!(bar.get_value(), 5);
}

#[test]
fn scrollbar_wheel_steps_by_lines() {
    let mut bar = ScrollBar::new(id(5), Orientation::Vertical);
    let mut q = EventQueue::new();
    bar.set_range(0, 10, 5, &mut q);
    // A downward step (negative line count) increases the value.
    let r = bar.handle_mouse_wheel(WheelDelta { lines_x: 0, lines_y: -2 }, &mut q);
    assert_eq!(r, Some(7));
    assert_eq!(bar.get_value(), 7);
}

#[test]
fn tab_count_never_returns_to_zero() {
    let main = id(6);
    let mut tabs = TabLayout::new(main);
    let mut q = EventQueue::new();
    let c1 = ChildType::Window(WindowBase::new(main));
    tabs.add_tab("first".to_string(), c1, &mut q);
    let first_id = tabs.tabs[0].uuid;
    assert_eq!(tabs.active_tab, Some(first_id));

    // Closing the only tab is a no-op.
    tabs.close_tab(first_id, &mut q);
    assert_eq!(tabs.tabs.len(), 1);
    assert_eq!(tabs.active_tab, Some(first_id));

    // With two tabs, closing one works and the first remaining tab becomes
    // active.
    let c2 = ChildType::Window(WindowBase::new(main));
    tabs.add_tab("second".to_string(), c2, &mut q);
    let second_id = tabs.tabs[1].uuid;
    assert_eq!(tabs.active_tab, Some(second_id));
    tabs.close_tab(second_id, &mut q);
    assert_eq!(tabs.tabs.len(), 1);
    assert_eq!(tabs.active_tab, Some(first_id));

    // Closing an id no tab bears does nothing.
    tabs.close_tab(id(999), &mut q);
    assert_eq!(tabs.tabs.len(), 1);
}

#[test]
fn tab_header_click_asks_for_switch() {
    let main = id(7);
    let mut tabs = TabLayout::new(main);
    let mut q = EventQueue::new();
    tabs.set_font_metrics(FontMetrics { char_width: 8, char_height: 14 });
    let c1 = ChildType::Window(WindowBase::new(main));
    let c2 = ChildType::Window(WindowBase::new(main));
    tabs.add_tab("aa".to_string(), c1, &mut q);
    tabs.add_tab("bb".to_string(), c2, &mut q);
    let first_id = tabs.tabs[0].uuid;

    // One layout pass computes the header spans: each header is
    // 2 + 8*2 + 15 + 0 (close button drawing width) + 6 = 39 wide.
    let (mut tabs, _pix) = guikit::compose::tab_layout_run(tabs, 0, 0, 400, 300, &mut q);
    assert_eq!(tabs.tabs[0].top_start_x, 0);
    assert_eq!(tabs.tabs[0].top_width, 39);
    assert_eq!(tabs.tabs[1].top_start_x, 39);

    // Clicking the header of the inactive first tab returns nothing but
    // asks for a tab switch on the bus.
    let before = q.len();
    let hit = guikit::compose::tab_hit(&tabs, 10, 5, &mut q);
    assert_eq!(hit, None);
    assert_eq!(q.len(), before + 1);

    // The controller's bookkeeping then makes it active, and clicking the
    // now-active header asks for nothing further.
    tabs.set_active_tab_by_uuid(first_id, &mut q);
    let before = q.len();
    let hit = guikit::compose::tab_hit(&tabs, 10, 5, &mut q);
    assert_eq!(hit, None);
    assert_eq!(q.len(), before);
}

#[test]
fn tab_header_close_button_is_hit() {
    let main = id(8);
    let mut tabs = TabLayout::new(main);
    let mut q = EventQueue::new();
    tabs.set_font_metrics(FontMetrics { char_width: 8, char_height: 14 });
    let c1 = ChildType::Window(WindowBase::new(main));
    tabs.add_tab("aa".to_string(), c1, &mut q);
    let (tabs, _pix) = guikit::compose::tab_layout_run(tabs, 0, 0, 400, 300, &mut q);
    // The close region sits just left of the right padding: header width 39,
    // padding 6, zero-width close button: the point x = 33 lands on it.
    let close_id = tabs.tabs[0].close_btn.uuid;
    let hit = guikit::compose::tab_hit(&tabs, 33, 5, &mut q);
    assert_eq!(hit, Some(close_id));
}
