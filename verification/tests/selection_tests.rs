use editing_area::geom::{Point, UNIT};
use editing_area::selection::{DragHandle, MaybeSelection, NoSelection, Selection};

fn pt(x: i64, y: i64) -> Point {
    Point::new(x, y)
}

#[test]
fn accessors_ignore_corner_order() {
    let a = Selection::new(pt(10, 40), pt(30, 20));
    assert_eq!(a.left(), 10);
    assert_eq!(a.right(), 30);
    assert_eq!(a.top(), 20);
    assert_eq!(a.bottom(), 40);
    assert_eq!(a.top_left(), pt(10, 20));
    assert_eq!(a.top_right(), pt(30, 20));
    assert_eq!(a.bottom_left(), pt(10, 40));
    assert_eq!(a.bottom_right(), pt(30, 40));
    assert_eq!(a.width(), 20);
    assert_eq!(a.height(), 20);
    assert_eq!(a.size(), (20, 20));
}

#[test]
fn extents_invariant_under_swap_and_mirror() {
    let s = Selection::new(pt(5, 17), pt(-3, 4));
    let swapped = Selection::new(pt(-3, 4), pt(5, 17));
    let mirrored_x = Selection::new(pt(-3, 17), pt(5, 4));
    let mirrored_y = Selection::new(pt(5, 4), pt(-3, 17));
    for t in [swapped, mirrored_x, mirrored_y] {
        assert_eq!(t.width(), s.width());
        assert_eq!(t.height(), s.height());
        assert_eq!(t.center(), s.center());
    }
}

#[test]
fn center_is_midpoint() {
    let s = Selection::new(pt(0, 0), pt(100, 50));
    assert_eq!(s.center(), pt(50, 25));
    assert_eq!(s.centre(), pt(50, 25));
}

#[test]
fn move_relative_preserves_size_and_shifts_center() {
    let mut s = Selection::new(pt(10, 30), pt(-20, 5));
    let w = s.width();
    let h = s.height();
    let c = s.center();
    s.move_relative(7, -13);
    assert_eq!(s.width(), w);
    assert_eq!(s.height(), h);
    assert_eq!(s.center(), pt(c.x + 7, c.y - 13));
    assert_eq!(s.start(), pt(17, 17));
    assert_eq!(s.end(), pt(-13, -8));
}

#[test]
fn move_relative_shifts_center_with_odd_sums() {
    let mut s = Selection::new(pt(0, 0), pt(1, 1));
    let c = s.center();
    s.move_relative(1, 1);
    assert_eq!(s.center(), pt(c.x + 1, c.y + 1));
}

#[test]
fn contains_uses_raw_corners() {
    let s = Selection::new(pt(0, 0), pt(10, 10));
    assert!(s.contains(pt(0, 0)));
    assert!(s.contains(pt(10, 10)));
    assert!(s.contains(pt(5, 7)));
    assert!(!s.contains(pt(-1, 5)));
    assert!(!s.contains(pt(5, 11)));
    // With reversed corners the raw test answers false for every point.
    let reversed = Selection::new(pt(10, 10), pt(0, 0));
    assert!(!reversed.contains(pt(5, 5)));
}

#[test]
fn reshape_bottom_right_sets_bottom_right_corner() {
    // The same rectangle in all four corner conventions.
    let conventions = [
        Selection::new(pt(0, 0), pt(10, 10)),
        Selection::new(pt(10, 10), pt(0, 0)),
        Selection::new(pt(10, 0), pt(0, 10)),
        Selection::new(pt(0, 10), pt(10, 0)),
    ];
    for mut s in conventions {
        s.reshape(DragHandle::BottomRight, 25, 35);
        assert_eq!(s.bottom_right(), pt(25, 35));
        assert_eq!(s.top_left(), pt(0, 0));
    }
}

#[test]
fn reshape_normalizes_before_writing() {
    let mut s = Selection::new(pt(10, 10), pt(0, 0));
    s.reshape(DragHandle::BottomRight, 20, 20);
    // normalize rewrote start to the top-left corner before the write
    assert_eq!(s.start(), pt(0, 0));
    assert_eq!(s.end(), pt(20, 20));
    // a second reshape finds the corners already normalized
    s.reshape(DragHandle::BottomRight, 30, 30);
    assert_eq!(s.start(), pt(0, 0));
    assert_eq!(s.end(), pt(30, 30));
}

#[test]
fn reshape_corner_handles() {
    let mut s = Selection::new(pt(0, 0), pt(10, 10));
    s.reshape(DragHandle::TopLeft, -5, -7);
    assert_eq!(s.top_left(), pt(-5, -7));
    assert_eq!(s.bottom_right(), pt(10, 10));

    let mut s = Selection::new(pt(0, 0), pt(10, 10));
    s.reshape(DragHandle::TopRight, 20, -5);
    assert_eq!(s.top_right(), pt(20, -5));
    assert_eq!(s.bottom_left(), pt(0, 10));

    let mut s = Selection::new(pt(0, 0), pt(10, 10));
    s.reshape(DragHandle::BottomLeft, -5, 20);
    assert_eq!(s.bottom_left(), pt(-5, 20));
    assert_eq!(s.top_right(), pt(10, 0));
}

#[test]
fn reshape_past_the_opposite_corner_mirrors() {
    // Dragging the bottom-right handle past the fixed top-left corner keeps
    // the stored corners continuous: the dragged point lands in the `end`
    // field and becomes the new top-left of the mirrored rectangle.
    let mut s = Selection::new(pt(0, 0), pt(10, 10));
    s.reshape(DragHandle::BottomRight, -5, -5);
    assert_eq!(s.start(), pt(0, 0));
    assert_eq!(s.end(), pt(-5, -5));
    assert_eq!(s.top_left(), pt(-5, -5));
    assert_eq!(s.bottom_right(), pt(0, 0));
}

#[test]
fn reshape_edge_handles_write_one_coordinate() {
    let mut s = Selection::new(pt(10, 10), pt(0, 0));
    s.reshape(DragHandle::Top, 999, -4);
    assert_eq!(s.start(), pt(0, -4));
    assert_eq!(s.end(), pt(10, 10));

    let mut s = Selection::new(pt(10, 10), pt(0, 0));
    s.reshape(DragHandle::Bottom, 999, 25);
    assert_eq!(s.start(), pt(0, 0));
    assert_eq!(s.end(), pt(10, 25));

    let mut s = Selection::new(pt(10, 10), pt(0, 0));
    s.reshape(DragHandle::Left, -8, 999);
    assert_eq!(s.start(), pt(-8, 0));
    assert_eq!(s.end(), pt(10, 10));

    let mut s = Selection::new(pt(10, 10), pt(0, 0));
    s.reshape(DragHandle::Right, 42, 999);
    assert_eq!(s.start(), pt(0, 0));
    assert_eq!(s.end(), pt(42, 10));
}

#[test]
fn reshape_relative_moves_the_dragged_side() {
    let mut s = Selection::new(pt(10, 10), pt(0, 0));
    s.reshape_relative(DragHandle::BottomRight, 5, -2);
    assert_eq!(s.start(), pt(0, 0));
    assert_eq!(s.end(), pt(15, 8));

    let mut s = Selection::new(pt(0, 0), pt(10, 10));
    s.reshape_relative(DragHandle::TopRight, 3, 4);
    assert_eq!(s.start(), pt(13, 4));
    assert_eq!(s.end(), pt(0, 10));

    let mut s = Selection::new(pt(0, 0), pt(10, 10));
    s.reshape_relative(DragHandle::Top, 999, 2);
    assert_eq!(s.start(), pt(0, 2));
    assert_eq!(s.end(), pt(10, 10));
}

#[test]
fn equality_ignores_corner_convention() {
    let a = Selection::new(pt(0, 0), pt(10, 10));
    let b = Selection::new(pt(10, 10), pt(0, 0));
    let c = Selection::new(pt(10, 0), pt(0, 10));
    assert_eq!(a, b);
    assert_eq!(a, c);
    let d = Selection::new(pt(0, 0), pt(10, 11));
    assert_ne!(a, d);
}

#[test]
fn default_selection_spans_one_unit() {
    let s = Selection::default();
    assert_eq!(s.start(), pt(0, 0));
    assert_eq!(s.end(), pt(UNIT, UNIT));
    assert_eq!(s.width(), UNIT);
    assert_eq!(s.height(), UNIT);
    assert!(s.width() > 0 && s.height() > 0);
}

#[test]
fn default_selection_state_is_no_selection() {
    assert_eq!(MaybeSelection::default(), MaybeSelection::NoSelection(NoSelection::new()));
    assert_eq!(NoSelection::default(), NoSelection::new());
}

#[test]
fn new_from_size_places_end() {
    let s = Selection::new_from_size(pt(5, 6), 20, 30);
    assert_eq!(s.start(), pt(5, 6));
    assert_eq!(s.end(), pt(25, 36));
    assert_eq!(s.width(), 20);
    assert_eq!(s.height(), 30);
}

#[test]
fn set_corners() {
    let mut s = Selection::default();
    s.set_start(pt(3, 4));
    s.set_end(pt(9, 2));
    assert_eq!(s.start(), pt(3, 4));
    assert_eq!(s.end(), pt(9, 2));
}
