use moodboard::canvas::CursorCoords;
use moodboard::geometry::{Rect, Vec2, fits_on_canvas, CANVAS_LIMIT};
use moodboard::hit::{all_hits, topmost_hit};
use moodboard::item::{Item, ItemCounter, ItemKind};
use moodboard::select::{get_anchor, RectangleOrigin, Selected, SelectedRect, SelectionBox};

fn v(x: i64, y: i64) -> Vec2 {
    Vec2::new(x, y)
}

fn rect(x0: i64, y0: i64, x1: i64, y1: i64) -> Rect {
    Rect { min: v(x0, y0), max: v(x1, y1) }
}

fn item(id: u64, x: i64, y: i64, half: i64, z: u64) -> Item {
    Item { id, kind: ItemKind::PostIt, position: v(x, y), half_extents: v(half, half), z, selected: None }
}

#[test]
fn union_is_order_free() {
    let a = rect(0, 0, 10, 10);
    let b = rect(-5, 3, 4, 20);
    let c = rect(7, -8, 30, 1);
    let abc = a.union(&b).union(&c);
    let cab = c.union(&a).union(&b);
    assert_eq!(abc, cab);
    assert_eq!(abc, rect(-5, -8, 30, 20));
}

#[test]
fn rect_basics() {
    let r = Rect::from_corners(v(10, -4), v(-2, 6));
    assert_eq!(r, rect(-2, -4, 10, 6));
    assert!(r.contains(v(10, 6)));
    assert!(r.contains(v(-2, -4)));
    assert!(!r.contains(v(11, 0)));
    assert_eq!(r.center(), v(4, 1));
    assert_eq!(r.width(), 12);
    assert_eq!(r.height(), 10);
    assert_eq!(Rect::from_center_half_size(v(5, 5), v(2, 3)), rect(3, 2, 7, 8));
    assert_eq!(r.translate(v(1, -1)), rect(-1, -5, 11, 5));
    assert_eq!(rect(-3, -3, 0, 0).center(), v(-2, -2));
}

#[test]
fn intersection_needs_positive_area() {
    let a = rect(0, 0, 10, 10);
    assert!(a.intersect(&rect(10, 0, 20, 10)).is_empty());
    assert!(!a.intersect(&rect(9, 9, 20, 20)).is_empty());
    assert!(a.intersect(&rect(5, 5, 5, 8)).is_empty());
    assert!(a.intersect(&rect(20, 20, 30, 30)).is_empty());
}

#[test]
fn canvas_fit() {
    assert!(fits_on_canvas(v(0, 0), v(CANVAS_LIMIT, CANVAS_LIMIT)));
    assert!(!fits_on_canvas(v(1, 0), v(CANVAS_LIMIT, 0)));
    assert!(!fits_on_canvas(v(0, 0), v(-1, 0)));
    assert!(!fits_on_canvas(v(i64::MAX, 0), v(0, 0)));
}

#[test]
fn topmost_hit_prefers_higher_z_in_any_order() {
    let low = item(0, 0, 0, 10, 1);
    let high = item(1, 5, 5, 10, 2);
    assert_eq!(topmost_hit(&vec![low, high], v(3, 3)), Some(1));
    assert_eq!(topmost_hit(&vec![high, low], v(3, 3)), Some(0));
    assert_eq!(topmost_hit(&vec![low, high], v(-8, -8)), Some(0));
    assert_eq!(topmost_hit(&vec![low, high], v(50, 50)), None);
    assert_eq!(topmost_hit(&vec![], v(0, 0)), None);
}

#[test]
fn topmost_hit_first_wins_on_tie() {
    let a = item(0, 0, 0, 10, 3);
    let b = item(1, 1, 1, 10, 3);
    assert_eq!(topmost_hit(&vec![a, b], v(0, 0)), Some(0));
    assert_eq!(topmost_hit(&vec![b, a], v(0, 0)), Some(0));
}

#[test]
fn all_hits_lists_overlapping_items() {
    let items = vec![item(0, 0, 0, 10, 1), item(1, 30, 0, 10, 2), item(2, 60, 0, 10, 3)];
    assert_eq!(all_hits(rect(5, -5, 35, 5), &items), vec![0, 1]);
    assert_eq!(all_hits(rect(10, -5, 20, 5), &items), Vec::<usize>::new());
    assert_eq!(all_hits(rect(0, 0, 100, 0), &items), Vec::<usize>::new());
    assert_eq!(all_hits(rect(-100, -100, 100, 100), &items), vec![0, 1, 2]);
}

#[test]
fn cursor_hold_distance() {
    let mut c = CursorCoords::new();
    assert!(!c.is_holding());
    assert_eq!(c.hold_distance(), v(0, 0));
    c.hold_start = Some(v(10, 20));
    c.current = v(15, 5);
    assert!(c.is_holding());
    assert_eq!(c.hold_distance(), v(5, -15));
}

#[test]
fn selection_box_follows_pointer() {
    let mut b = SelectionBox { start_position: v(10, 10), end_position: v(10, 10) };
    assert!(b.rect().is_empty());
    b.update(v(-5, 30));
    assert_eq!(b.start_position, v(10, 10));
    assert_eq!(b.rect(), rect(-5, 10, 10, 30));
}

#[test]
fn selected_rect_moves_and_commits() {
    let mut s = SelectedRect::new(rect(0, 0, 10, 20));
    assert_eq!(s.initial_point(), v(5, 10));
    assert!(s.contains(v(10, 20)));
    s.move_to(v(105, 110));
    assert_eq!(s.rect, rect(100, 100, 110, 120));
    assert_eq!(s.initial_rect(), rect(0, 0, 10, 20));
    s.commit();
    assert_eq!(s.initial_rect(), rect(100, 100, 110, 120));
    s.update(rect(1, 2, 3, 4));
    assert_eq!(s.rect, rect(1, 2, 3, 4));
    assert_eq!(s.initial_rect, rect(100, 100, 110, 120));
    assert_eq!(Selected::new(v(3, 4)).start_position, v(3, 4));
}

#[test]
fn anchor_by_quadrant() {
    assert_eq!(get_anchor(v(3, 4)), RectangleOrigin::BottomLeft);
    assert_eq!(get_anchor(v(-3, 4)), RectangleOrigin::BottomRight);
    assert_eq!(get_anchor(v(3, -4)), RectangleOrigin::TopLeft);
    assert_eq!(get_anchor(v(-3, -4)), RectangleOrigin::TopRight);
    assert_eq!(get_anchor(v(0, 4)), RectangleOrigin::Center);
}

#[test]
fn counter_counts_up() {
    let mut c = ItemCounter::new();
    assert_eq!(c.count(), 0);
    c.increment();
    c.increment();
    assert_eq!(c.count(), 2);
}
