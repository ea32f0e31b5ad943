use guikit::border_layout::BorderLayout;
use guikit::child_window::{BorderLocation, ChildType, LayoutArgs, LayoutFill, LayoutNode, Orientation, WidgetId};
use guikit::row_geometry::{compute_row_places, ChildMeta, Place};
use guikit::row_layout::RowLayout;
use guikit::window_base::WindowBase;

fn id(bits: u128) -> WidgetId {
    WidgetId { bits }
}

fn meta(bits: u128, w: i64, h: i64, min: Option<(i64, i64)>) -> ChildMeta {
    ChildMeta { id: id(bits), nat_w: w, nat_h: h, min }
}

#[test]
fn round_trip_vertical_row_with_single_fill() {
    // A vertical row, padding 5, two children of natural sizes 100x20 and
    // 80x30, in a 200x100 region, all slack to the second child.
    let children = vec![meta(1, 100, 20, None), meta(2, 80, 30, None)];
    let places = compute_row_places(
        &children,
        Orientation::Vertical,
        5,
        LayoutFill::Single(id(2)),
        200,
        100,
    );
    assert_eq!(places.len(), 2);
    // First child at y = 5, natural height, full row width.
    assert_eq!(places[0], Place { x: 0, y: 5, width: 200, height: 20 });
    // Second child starts at y = 30 and takes all remaining slack:
    // 100 - 5 - 20 - 5 - 30 - 5 = 35 extra, so height 65.
    assert_eq!(places[1], Place { x: 0, y: 30, width: 200, height: 65 });
}

#[test]
fn row_sizing_fits_uses_natural_sizes() {
    // Used space fits, so every child keeps its natural extent.
    let children = vec![
        meta(1, 10, 10, Some((5, 5))),
        meta(2, 20, 20, None),
        meta(3, 30, 30, Some((10, 10))),
    ];
    let places = compute_row_places(
        &children,
        Orientation::Horizontal,
        2,
        LayoutFill::Unused,
        200,
        50,
    );
    assert_eq!(places[0].width, 10);
    assert_eq!(places[1].width, 20);
    assert_eq!(places[2].width, 30);
    // Sequential placement: each child after the previous plus padding.
    assert_eq!(places[0].x, 2);
    assert_eq!(places[1].x, 14);
    assert_eq!(places[2].x, 36);
    // Cross axis forced to the full extent.
    assert_eq!(places[0].height, 50);
}

#[test]
fn row_shrink_never_goes_below_minimum() {
    // Two children overflow the region; the one with a minimum is clamped
    // to exactly that minimum, never below.
    let children = vec![meta(1, 100, 10, Some((60, 10))), meta(2, 100, 10, None)];
    let places = compute_row_places(
        &children,
        Orientation::Horizontal,
        0,
        LayoutFill::Unused,
        120,
        20,
    );
    assert_eq!(places[0].width, 60);
    assert!(places[0].width >= 60);
    // The other child absorbs the rest of the overflow: 200 - 120 = 80 over,
    // 40 reclaimed by the clamp, the remaining 40 reduces the free child.
    assert_eq!(places[1].width, 60);
}

#[test]
fn single_child_gets_region_minus_edge_padding() {
    // Regardless of the child's own bounds and the fill policy.
    let children = vec![meta(7, 10, 10, Some((500, 500)))];
    let places = compute_row_places(
        &children,
        Orientation::Vertical,
        5,
        LayoutFill::Evenly,
        200,
        100,
    );
    assert_eq!(places[0], Place { x: 5, y: 5, width: 190, height: 90 });
}

#[test]
fn fill_policy_fully_replaces_previous() {
    let mut row = RowLayout::new(id(9), Orientation::Horizontal, 0);
    row.set_fill(LayoutFill::Evenly);
    assert_eq!(row.fill_algorithm, LayoutFill::Evenly);
    row.set_fill(LayoutFill::Single(id(3)));
    assert_eq!(row.fill_algorithm, LayoutFill::Single(id(3)));
    row.set_fill(LayoutFill::Unused);
    assert_eq!(row.fill_algorithm, LayoutFill::Unused);
}

fn center_row_fill(b: &BorderLayout) -> LayoutFill {
    for c in b.rows.children.iter() {
        if let ChildType::Layout(l) = c {
            if let LayoutNode::Row(r) = &**l {
                if r.layout_base.uuid == b.center_uuid {
                    return r.fill_algorithm;
                }
            }
        }
    }
    panic!("the inner row is always present");
}

#[test]
fn border_center_keeps_single_fill() {
    let main = id(11);
    let mut b = BorderLayout::new(main);
    // The outer row always feeds the inner row.
    assert_eq!(b.rows.fill_algorithm, LayoutFill::Single(b.center_uuid));

    let w = WindowBase::new(main);
    let w_id = w.uuid;
    b.add_child(w, LayoutArgs::BORDER(BorderLocation::CENTER)).unwrap();
    assert_eq!(center_row_fill(&b), LayoutFill::Single(w_id));

    // An external set_fill never changes the discipline.
    b.set_fill(LayoutFill::Evenly);
    assert_eq!(b.rows.fill_algorithm, LayoutFill::Single(b.center_uuid));
    assert_eq!(center_row_fill(&b), LayoutFill::Single(w_id));

    // Another center insertion repoints the fill at the new child.
    let w2 = WindowBase::new(main);
    let w2_id = w2.uuid;
    b.add_child(w2, LayoutArgs::BORDER(BorderLocation::CENTER)).unwrap();
    assert_eq!(center_row_fill(&b), LayoutFill::Single(w2_id));
}

#[test]
fn border_requires_border_args() {
    let main = id(12);
    let mut b = BorderLayout::new(main);
    let w = WindowBase::new(main);
    let r = b.add_child(w, LayoutArgs::NONE);
    assert!(r.is_err());
}

#[test]
fn border_bottom_insertion_caps_at_two() {
    let main = id(13);
    let mut b = BorderLayout::new(main);
    let w1 = WindowBase::new(main);
    let w2 = WindowBase::new(main);
    let w3 = WindowBase::new(main);
    let (id1, id2, id3) = (w1.uuid, w2.uuid, w3.uuid);
    b.add_child(w1, LayoutArgs::BORDER(BorderLocation::BOTTOM)).unwrap();
    b.add_child(w2, LayoutArgs::BORDER(BorderLocation::BOTTOM)).unwrap();
    b.add_child(w3, LayoutArgs::BORDER(BorderLocation::BOTTOM)).unwrap();
    // Starting from [center]: the first lands at 1, the second at 2, and the
    // third at "count capped at 2" — position 2, not past it.
    assert_eq!(b.rows.children.len(), 4);
    let ids: Vec<_> = b.rows.children.iter().map(|c| c.id()).collect();
    assert_eq!(ids[0], b.center_uuid);
    assert_eq!(ids[1], id1);
    assert_eq!(ids[2], id3);
    assert_eq!(ids[3], id2);
}

#[test]
fn border_top_inserts_at_front() {
    let main = id(14);
    let mut b = BorderLayout::new(main);
    let w1 = WindowBase::new(main);
    let w2 = WindowBase::new(main);
    let (id1, id2) = (w1.uuid, w2.uuid);
    b.add_child(w1, LayoutArgs::BORDER(BorderLocation::TOP)).unwrap();
    b.add_child(w2, LayoutArgs::BORDER(BorderLocation::TOP)).unwrap();
    let ids: Vec<_> = b.rows.children.iter().map(|c| c.id()).collect();
    assert_eq!(ids[0], id2);
    assert_eq!(ids[1], id1);
    assert_eq!(ids[2], b.center_uuid);
}
