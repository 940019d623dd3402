use gulp::geometry::Rect;
use gulp::selection::Selection;

#[test]
fn test_rect_from_points() {
    let rect = Rect::from_points(10, 10, 50, 40);
    assert_eq!(rect.x, 10);
    assert_eq!(rect.y, 10);
    assert_eq!(rect.width, 40);
    assert_eq!(rect.height, 30);

    // Test with reversed points
    let rect = Rect::from_points(50, 40, 10, 10);
    assert_eq!(rect.x, 10);
    assert_eq!(rect.y, 10);
    assert_eq!(rect.width, 40);
    assert_eq!(rect.height, 30);
}

#[test]
fn selection_test_rect_from_points() {
    let rect = Rect::from_points(10, 10, 50, 40);
    assert_eq!(rect.x, 10);
    assert_eq!(rect.y, 10);
    assert_eq!(rect.width, 40);
    assert_eq!(rect.height, 30);

    // Test with reversed points
    let rect = Rect::from_points(50, 40, 10, 10);
    assert_eq!(rect.x, 10);
    assert_eq!(rect.y, 10);
    assert_eq!(rect.width, 40);
    assert_eq!(rect.height, 30);
}

#[test]
fn test_selection_single_point() {
    let mut sel = Selection::new();
    sel.start_selection(100, 200);
    sel.update_drag(100, 200, 101, 201);

    let rect = sel.get_selection().expect("Selection should be valid");
    assert_eq!(rect.x, 100);
    assert_eq!(rect.y, 200);
    assert_eq!(rect.width, 1);
    assert_eq!(rect.height, 1);
}

#[test]
fn test_selection_region() {
    let mut sel = Selection::new();
    sel.start_selection(10, 10);

    sel.update_drag(10, 10, 50, 40);

    let rect = sel.get_selection().expect("Selection should be valid");
    assert_eq!(rect.width, 40);
    assert_eq!(rect.height, 30);
}

#[test]
fn test_intersects_symmetric() {
    let a = Rect::new(0, 0, 10, 10);
    let b = Rect::new(5, 5, 10, 10);
    assert!(a.intersects(&b));
    assert!(b.intersects(&a));

    let c = Rect::new(100, 100, 5, 5);
    assert!(!a.intersects(&c));
    assert!(!c.intersects(&a));
}

#[test]
fn test_intersects_shared_edge_does_not_count() {
    // b starts exactly where a ends: only the edge is shared.
    let a = Rect::new(0, 0, 10, 10);
    let b = Rect::new(10, 0, 10, 10);
    assert!(!a.intersects(&b));
    assert!(!b.intersects(&a));

    // Sharing a horizontal edge.
    let c = Rect::new(0, 10, 10, 10);
    assert!(!a.intersects(&c));
    assert!(!c.intersects(&a));

    // One pixel of overlap does count.
    let d = Rect::new(9, 9, 10, 10);
    assert!(a.intersects(&d));
}

#[test]
fn test_rect_is_valid() {
    assert!(Rect::new(0, 0, 1, 1).is_valid());
    assert!(!Rect::new(0, 0, 0, 5).is_valid());
    assert!(!Rect::new(0, 0, 5, 0).is_valid());
    assert!(!Rect::new(0, 0, -3, 5).is_valid());
}

#[test]
fn test_zero_area_drag_not_surfaced() {
    let mut sel = Selection::new();
    sel.start_selection(10, 10);
    // No drag yet: the seeded rectangle has zero area.
    assert!(sel.get_selection().is_none());
    assert!(sel.get_rect().is_some());

    // Dragging only horizontally keeps the height at zero.
    sel.update_drag(10, 10, 50, 10);
    assert!(sel.get_selection().is_none());

    // Dragging only vertically keeps the width at zero.
    sel.update_drag(10, 10, 10, 40);
    assert!(sel.get_selection().is_none());

    // As soon as both deltas are non-zero there is a selection.
    sel.update_drag(10, 10, 11, 11);
    assert!(sel.get_selection().is_some());
}

#[test]
fn test_drag_end_to_end_both_orders() {
    let mut sel = Selection::new();
    sel.start_selection(10, 10);
    sel.update_drag(10, 10, 50, 40);
    let rect = sel.get_selection().expect("drag should yield a selection");
    assert_eq!((rect.x, rect.y, rect.width, rect.height), (10, 10, 40, 30));

    let mut rev = Selection::new();
    rev.start_selection(50, 40);
    rev.update_drag(50, 40, 10, 10);
    let rect2 = rev.get_selection().expect("reversed drag should yield a selection");
    assert_eq!(rect, rect2);
}

#[test]
fn test_snap_target_accessors() {
    let mut sel = Selection::new();
    assert!(sel.get_snap_target().is_none());
    assert!(sel.get_animated_snap_target().is_none());
    assert!(sel.get_current_snap_target().is_none());

    let target = Rect::new(5, 6, 7, 8);
    sel.set_snap_target(Some(target));
    assert_eq!(sel.get_snap_target(), Some(target));
    // With no animated rectangle, the raw target is current.
    assert_eq!(sel.get_current_snap_target(), Some(target));

    let animated = Rect::new(5, 6, 9, 9);
    sel.set_animated_snap_target(Some(animated));
    assert_eq!(sel.get_animated_snap_target(), Some(animated));
    // The animated rectangle takes precedence.
    assert_eq!(sel.get_current_snap_target(), Some(animated));
}

#[test]
fn test_selection_from_rect() {
    let sel = Selection::from_rect(Rect::new(3, 4, 20, 10));
    let rect = sel.get_selection().expect("valid rect should round-trip");
    assert_eq!((rect.x, rect.y, rect.width, rect.height), (3, 4, 20, 10));
}
