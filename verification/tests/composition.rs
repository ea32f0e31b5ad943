use guikit::border_layout::BorderLayout;
use guikit::child_window::{
    BorderLocation,
    ChildType,
    LayoutArgs,
    LayoutNode,
    Orientation,
    UserEvent,
    WidgetId,
};
use guikit::compose::{border_layout_run, node_hit, scroll_maintain, ScrollMaintenance};
use guikit::event_bus::EventQueue;
use guikit::raster::{layer_height_of, layer_width_of};
use guikit::row_layout::RowLayout;
use guikit::scroll_layout::ScrollLayout;
use guikit::window_base::WindowBase;

fn id(bits: u128) -> WidgetId {
    WidgetId { bits }
}

#[test]
fn border_pass_places_top_and_center() {
    let main = id(1);
    let mut b = BorderLayout::new(main);
    let mut top = WindowBase::new(main);
    top.width = 100;
    top.height = 24;
    let top_id = top.uuid;
    b.add_child(top, LayoutArgs::BORDER(BorderLocation::TOP)).unwrap();
    let mut center = WindowBase::new(main);
    center.width = 50;
    center.height = 50;
    let center_id = center.uuid;
    b.add_child(center, LayoutArgs::BORDER(BorderLocation::CENTER)).unwrap();

    let mut q = EventQueue::new();
    let (b, layer) = border_layout_run(b, 0, 0, 400, 300, &mut q);
    assert_eq!(layer_width_of(&layer), 400);
    assert_eq!(layer_height_of(&layer), 300);

    // The top bar sits at the top edge; the center child absorbed all of
    // the vertical slack below it.
    let mut q = EventQueue::new();
    let found_top = b.get_child_at(10, 10, &mut q);
    assert_eq!(found_top, Some(top_id));
    let found_center = b.get_child_at(10, 200, &mut q);
    assert_eq!(found_center, Some(center_id));
    // The center widget was stretched to the bottom of the region.
    let w = b.get_child_with_id(center_id).unwrap();
    assert_eq!(w.main_win_y, 24);
    assert_eq!(w.height, 276);
}

#[test]
fn nested_row_hit_testing_recurses() {
    let main = id(2);
    let mut inner = RowLayout::new(main, Orientation::Horizontal, 0);
    let mut w = WindowBase::new(main);
    w.width = 40;
    w.height = 40;
    let wid = w.uuid;
    inner.add_child(w).unwrap();
    let mut outer = RowLayout::new(main, Orientation::Vertical, 0);
    outer.add_layout(LayoutNode::Row(inner)).unwrap();
    let tree = ChildType::Layout(Box::new(LayoutNode::Row(outer)));

    let mut q = EventQueue::new();
    // Lay the tree out so the leaf takes its place, then hit it. As the
    // only child at every level, the widget fills the whole region.
    let (tree, _layer) = guikit::compose::node_layout(tree, 0, 0, 200, 200, &mut q);
    let hit = node_hit(&tree, 5, 5, &mut q);
    assert_eq!(hit, Some(wid));
    let hit = node_hit(&tree, 199, 199, &mut q);
    assert_eq!(hit, Some(wid));
    let miss = node_hit(&tree, 300, 300, &mut q);
    assert_eq!(miss, None);
}

#[test]
fn scroll_layout_refuses_nested_layouts() {
    let main = id(3);
    let mut sc = ScrollLayout::new(main);
    assert!(sc.add_layout().is_err());
    // Attaching and replacing the scrolled child always succeeds.
    assert!(sc.add_child(WindowBase::new(main)).is_ok());
    assert!(sc.add_child(WindowBase::new(main)).is_ok());
    sc.clear();
    assert!(sc.child.is_none());
}

#[test]
fn scroll_maintenance_pushes_bar_value_into_child() {
    let main = id(4);
    let mut sc = ScrollLayout::new(main);
    let mut child = WindowBase::new(main);
    child.y_scroll_min = 0;
    child.y_scroll_max = 90;
    sc.add_child(child).unwrap();
    let v_bar = sc.v_scroll.window_base.uuid;
    let mut q = EventQueue::new();
    // One pass gives the bar the child's range, making it visible; only a
    // visible bar's announcement reaches the child.
    let (sc, _pix) = guikit::compose::scroll_layout_run(sc, 0, 0, 300, 200, &mut q);
    assert!(sc.v_scroll.is_visible());
    let tree = ChildType::Layout(Box::new(LayoutNode::Scroll(sc)));

    let tree = scroll_maintain(
        tree,
        ScrollMaintenance::ApplyValue(v_bar, Orientation::Vertical, 42),
        &mut q,
    );
    match tree {
        ChildType::Layout(l) => match *l {
            LayoutNode::Scroll(sc) => {
                assert_eq!(sc.child.unwrap().y_scroll, 42);
            },
            _ => panic!("the scroll layout is still a scroll layout"),
        },
        _ => panic!("the tree is still a layout"),
    }
}

#[test]
fn hidden_bar_announcement_changes_nothing() {
    let main = id(40);
    let mut sc = ScrollLayout::new(main);
    let child = WindowBase::new(main);
    sc.add_child(child).unwrap();
    let v_bar = sc.v_scroll.window_base.uuid;
    // The bar never took a range, so it is hidden and its announcement is
    // dropped, as when the bar itself would push a value.
    assert!(!sc.v_scroll.is_visible());
    let tree = ChildType::Layout(Box::new(LayoutNode::Scroll(sc)));
    let mut q = EventQueue::new();
    let tree = scroll_maintain(
        tree,
        ScrollMaintenance::ApplyValue(v_bar, Orientation::Vertical, 42),
        &mut q,
    );
    match tree {
        ChildType::Layout(l) => match *l {
            LayoutNode::Scroll(sc) => {
                assert_eq!(sc.child.unwrap().y_scroll, 0);
            },
            _ => panic!("the scroll layout is still a scroll layout"),
        },
        _ => panic!("the tree is still a layout"),
    }
}

#[test]
fn update_scroller_refreshes_bars_in_place() {
    let main = id(5);
    let mut sc = ScrollLayout::new(main);
    let mut child = WindowBase::new(main);
    child.x_scroll_min = 0;
    child.x_scroll_max = 75;
    child.x_scroll = 5;
    sc.add_child(child).unwrap();
    let scroll_id = sc.layout_base.uuid;
    let mut q = EventQueue::new();
    // One pass records the layout's place; afterwards the child's range
    // grows, and a refresh re-reads it.
    let (mut sc, _pix) = guikit::compose::scroll_layout_run(sc, 0, 0, 300, 200, &mut q);
    assert_eq!(sc.h_scroll.get_range(), (0, 75));
    match &mut sc.child {
        Some(c) => c.x_scroll_max = 120,
        None => panic!("the scrolled child is attached"),
    }
    let tree = ChildType::Layout(Box::new(LayoutNode::Scroll(sc)));
    let tree = scroll_maintain(tree, ScrollMaintenance::Refresh(scroll_id), &mut q);
    match tree {
        ChildType::Layout(l) => match *l {
            LayoutNode::Scroll(sc) => {
                assert_eq!(sc.h_scroll.get_range(), (0, 120));
            },
            _ => panic!("the scroll layout is still a scroll layout"),
        },
        _ => panic!("the tree is still a layout"),
    }
}

#[test]
fn scroll_value_change_event_reaches_the_tree() {
    let main = id(100);
    let mut app = guikit::MainApp::new(main, "demo".to_string());
    let mut sc = ScrollLayout::new(main);
    let mut child = WindowBase::new(main);
    child.y_scroll_min = 0;
    child.y_scroll_max = 90;
    sc.add_child(child).unwrap();
    let v_bar = sc.v_scroll.window_base.uuid;
    let sc_id = sc.layout_base.uuid;
    app.set_contents(ChildType::Layout(Box::new(LayoutNode::Scroll(sc)))).unwrap();

    // One frame gives the bars their ranges, making the vertical bar
    // visible.
    app.on_redraw_requested();
    let handlers = guikit::HandlerSet::default();
    app.process_user_event(
        UserEvent::ScrollValueChanged(main, v_bar, Orientation::Vertical, 33),
        &handlers,
    );
    // The scrolled child inside the tree took the announced value.
    let _ = sc_id;
    let value = app.layout.rows.children.iter().find_map(find_scroll);
    assert_eq!(value, Some(33));
}

/// Walks a tree to the first scroll layout and reads its child's vertical
/// scroll value.
fn find_scroll(c: &ChildType) -> Option<i64> {
    match c {
        ChildType::Layout(l) => match &**l {
            LayoutNode::Scroll(sc) => sc.child.as_ref().map(|w| w.y_scroll),
            LayoutNode::Row(r) => r.children.iter().find_map(find_scroll),
            LayoutNode::Border(b) => b.rows.children.iter().find_map(find_scroll),
            LayoutNode::Tab(t) => t.tabs.iter().find_map(|t| find_scroll(&t.contents)),
        },
        _ => None,
    }
}
