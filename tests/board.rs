use moodboard::board::Board;
use moodboard::events::AddItemEvent;
use moodboard::geometry::{Rect, Vec2, CANVAS_LIMIT};
use moodboard::item::{Item, ItemBundle, ItemKind};

fn v(x: i64, y: i64) -> Vec2 {
    Vec2::new(x, y)
}

fn square(half: i64) -> ItemBundle {
    ItemBundle { kind: ItemKind::PostIt, half_extents: v(half, half) }
}

fn selected_ids(board: &Board) -> Vec<u64> {
    board.items.iter().filter(|it| it.selected.is_some()).map(|it| it.id).collect()
}

fn item(board: &Board, id: u64) -> Item {
    *board.items.iter().find(|it| it.id == id).unwrap()
}

fn rect(x0: i64, y0: i64, x1: i64, y1: i64) -> Rect {
    Rect { min: v(x0, y0), max: v(x1, y1) }
}

#[test]
fn scenario_click_drag_then_sweep() {
    let mut board = Board::new();
    let a = board.add_item(square(50), v(0, 0)).unwrap();
    let b = board.add_item(square(50), v(200, 0)).unwrap();

    board.press(v(0, 0));
    assert_eq!(selected_ids(&board), vec![a]);
    assert_eq!(board.selected_rect.unwrap().rect, rect(-50, -50, 50, 50));

    board.move_pointer(v(10, 0));
    assert_eq!(item(&board, a).position, v(10, 0));
    assert_eq!(board.selected_rect.unwrap().rect.center(), v(10, 0));
    board.release();

    board.press(v(300, 300));
    assert!(board.selection_box.is_some());
    assert!(selected_ids(&board).is_empty());
    board.move_pointer(v(0, 0));
    assert_eq!(board.selection_box.unwrap().rect(), rect(0, 0, 300, 300));
    // itemB's box (150,-50)-(250,50) overlaps the band in (150,0)-(250,50);
    // itemA, now at (10,0), has box (-40,-50)-(60,50), which overlaps it in
    // (0,0)-(60,50): both are swept in.
    assert_eq!(selected_ids(&board), vec![a, b]);
    assert_eq!(board.selected_rect.unwrap().rect, rect(-40, -50, 250, 50));
    board.release();
    assert!(board.selection_box.is_none());
    assert_eq!(selected_ids(&board), vec![a, b]);
}

#[test]
fn group_rect_is_min_max_union_after_each_change() {
    let mut board = Board::new();
    board.add_item(square(10), v(0, 0)).unwrap();
    board.add_item(square(20), v(100, 50)).unwrap();
    board.add_item(square(5), v(-60, -30)).unwrap();
    board.press(v(-200, -200));
    board.move_pointer(v(0, 0));
    assert_eq!(board.selected_rect.unwrap().rect, rect(-65, -35, 10, 10));
    board.move_pointer(v(200, 200));
    assert_eq!(board.selected_rect.unwrap().rect, rect(-65, -35, 120, 70));
    board.move_pointer(v(-50, -20));
    assert_eq!(board.selected_rect.unwrap().rect, rect(-65, -35, -55, -25));
    board.move_pointer(v(-300, -300));
    assert!(board.selected_rect.is_none());
}

#[test]
fn sweep_is_live_and_reversible() {
    let mut board = Board::new();
    let a = board.add_item(square(10), v(100, 100)).unwrap();
    board.press(v(0, 0));
    board.move_pointer(v(95, 95));
    assert_eq!(selected_ids(&board), vec![a]);
    board.move_pointer(v(50, 50));
    assert!(selected_ids(&board).is_empty());
    board.move_pointer(v(120, 120));
    assert_eq!(selected_ids(&board), vec![a]);
    // merely touching the box does not select it
    board.move_pointer(v(90, 90));
    assert!(selected_ids(&board).is_empty());
}

#[test]
fn zero_area_band_selects_nothing() {
    let mut board = Board::new();
    board.add_item(square(10), v(100, 100)).unwrap();
    board.press(v(100, 200));
    board.move_pointer(v(100, 0));
    assert!(selected_ids(&board).is_empty());
    assert!(board.selected_rect.is_none());
}

#[test]
fn commit_sets_new_baseline() {
    let mut board = Board::new();
    let a = board.add_item(square(10), v(0, 0)).unwrap();
    let b = board.add_item(square(10), v(40, 0)).unwrap();
    board.press(v(-50, -50));
    board.move_pointer(v(100, 100));
    board.release();
    assert_eq!(selected_ids(&board), vec![a, b]);

    board.press(v(0, 0));
    board.move_pointer(v(30, 20));
    board.release();
    assert_eq!(item(&board, a).position, v(30, 20));
    assert_eq!(item(&board, b).position, v(70, 20));

    board.press(v(30, 20));
    board.move_pointer(v(30, 20));
    assert_eq!(item(&board, a).position, v(30, 20));
    assert_eq!(item(&board, b).position, v(70, 20));
    board.release();
    assert_eq!(item(&board, a).position, v(30, 20));
    assert_eq!(item(&board, b).position, v(70, 20));
    assert_eq!(board.selected_rect.unwrap().initial_rect, rect(20, 10, 80, 30));
}

#[test]
fn z_bump_on_single_reselect() {
    let mut board = Board::new();
    let a = board.add_item(square(10), v(0, 0)).unwrap();
    let b = board.add_item(square(10), v(100, 0)).unwrap();
    let c = board.add_item(square(10), v(200, 0)).unwrap();
    assert!(item(&board, a).z < item(&board, b).z);
    assert!(item(&board, b).z < item(&board, c).z);
    board.press(v(0, 0));
    board.release();
    assert!(item(&board, a).z > item(&board, c).z);
    assert_eq!(item(&board, a).z, 4);
    assert_eq!(board.counter.count(), 4);
}

#[test]
fn sweep_does_not_reorder() {
    let mut board = Board::new();
    let a = board.add_item(square(10), v(0, 0)).unwrap();
    let b = board.add_item(square(10), v(100, 0)).unwrap();
    board.press(v(-50, -50));
    board.move_pointer(v(150, 50));
    board.release();
    assert_eq!(item(&board, a).z, 1);
    assert_eq!(item(&board, b).z, 2);
    assert_eq!(board.counter.count(), 2);
}

#[test]
fn click_on_overlap_picks_higher_item() {
    let mut board = Board::new();
    let a = board.add_item(square(50), v(0, 0)).unwrap();
    let b = board.add_item(square(50), v(20, 0)).unwrap();
    board.press(v(10, 0));
    assert_eq!(selected_ids(&board), vec![b]);
    board.release();
    board.press(v(-40, 0));
    assert_eq!(selected_ids(&board), vec![a]);
    assert!(item(&board, a).z > item(&board, b).z);
    board.release();
    board.press(v(10, 0));
    assert_eq!(selected_ids(&board), vec![a]);
}

#[test]
fn click_inside_group_extends_selection() {
    let mut board = Board::new();
    let a = board.add_item(square(10), v(0, 0)).unwrap();
    let b = board.add_item(square(10), v(100, 0)).unwrap();
    let c = board.add_item(square(5), v(50, 0)).unwrap();
    board.press(v(-20, -20));
    board.move_pointer(v(20, 20));
    board.release();
    board.press(v(80, -20));
    board.move_pointer(v(120, 20));
    board.release();
    assert_eq!(selected_ids(&board), vec![b]);
    // select a and b together, then click c, which lies inside their rectangle
    board.press(v(-20, -20));
    board.move_pointer(v(120, -8));
    board.release();
    assert_eq!(selected_ids(&board), vec![a, b]);
    let z_before = item(&board, c).z;
    board.press(v(50, 0));
    assert_eq!(selected_ids(&board), vec![a, b, c]);
    assert_eq!(item(&board, c).z, z_before);
}

#[test]
fn click_outside_group_replaces_selection() {
    let mut board = Board::new();
    board.add_item(square(10), v(0, 0)).unwrap();
    board.add_item(square(10), v(100, 0)).unwrap();
    let c = board.add_item(square(10), v(0, 300)).unwrap();
    board.press(v(-20, -20));
    board.move_pointer(v(120, 20));
    board.release();
    assert_eq!(selected_ids(&board).len(), 2);
    board.press(v(0, 300));
    assert_eq!(selected_ids(&board), vec![c]);
}

#[test]
fn press_in_group_off_items_drags_selection() {
    let mut board = Board::new();
    let a = board.add_item(square(10), v(0, 0)).unwrap();
    let b = board.add_item(square(10), v(100, 0)).unwrap();
    board.press(v(-20, -20));
    board.move_pointer(v(120, 20));
    board.release();
    board.press(v(50, 0));
    assert!(board.selection_box.is_none());
    board.move_pointer(v(50, 40));
    assert_eq!(item(&board, a).position, v(0, 40));
    assert_eq!(item(&board, b).position, v(100, 40));
    assert_eq!(board.selected_rect.unwrap().rect, rect(-10, 30, 110, 50));
    assert_eq!(board.selected_rect.unwrap().initial_rect, rect(-10, -10, 110, 10));
}

#[test]
fn press_outside_clears_selection_and_opens_band() {
    let mut board = Board::new();
    board.add_item(square(10), v(0, 0)).unwrap();
    board.press(v(0, 0));
    board.release();
    assert!(board.selected_rect.is_some());
    board.press(v(500, 500));
    assert!(selected_ids(&board).is_empty());
    assert!(board.selected_rect.is_none());
    let band = board.selection_box.unwrap();
    assert_eq!(band.start_position, v(500, 500));
    assert_eq!(band.end_position, v(500, 500));
    board.release();
    assert!(board.selection_box.is_none());
    assert!(board.cursor.hold_start.is_none());
}

#[test]
fn moving_without_press_moves_nothing() {
    let mut board = Board::new();
    let a = board.add_item(square(10), v(0, 0)).unwrap();
    board.press(v(0, 0));
    board.release();
    board.move_pointer(v(70, 70));
    assert_eq!(item(&board, a).position, v(0, 0));
    assert_eq!(board.cursor.current, v(70, 70));
}

#[test]
fn drag_stops_at_canvas_edge() {
    let mut board = Board::new();
    let a = board.add_item(square(10), v(CANVAS_LIMIT - 100, 0)).unwrap();
    board.press(v(CANVAS_LIMIT - 100, 0));
    board.move_pointer(v(CANVAS_LIMIT, 5));
    assert_eq!(item(&board, a).position, v(CANVAS_LIMIT - 10, 5));
}

#[test]
fn adding_clears_selection() {
    let mut board = Board::new();
    board.add_item(square(10), v(0, 0)).unwrap();
    board.press(v(0, 0));
    board.release();
    assert!(board.selected_rect.is_some());
    let id = board.add_item(ItemBundle::color_swatch(), v(300, 0)).unwrap();
    assert_eq!(id, 1);
    assert!(selected_ids(&board).is_empty());
    assert!(board.selected_rect.is_none());
    assert_eq!(item(&board, id).half_extents, v(110, 125));
    assert_eq!(item(&board, id).z, 3);
}

#[test]
fn adding_off_canvas_is_refused() {
    let mut board = Board::new();
    assert_eq!(board.add_item(square(10), v(CANVAS_LIMIT, 0)), None);
    assert_eq!(board.add_item(square(-1), v(0, 0)), None);
    assert!(board.items.is_empty());
    assert_eq!(board.counter.count(), 0);
    assert_eq!(board.add_item(square(10), v(CANVAS_LIMIT - 10, 0)), Some(0));
}

#[test]
fn delete_removes_selected_items() {
    let mut board = Board::new();
    let a = board.add_item(square(10), v(0, 0)).unwrap();
    let b = board.add_item(square(10), v(100, 0)).unwrap();
    let c = board.add_item(square(10), v(200, 0)).unwrap();
    board.press(v(-20, -20));
    board.move_pointer(v(120, 20));
    board.release();
    let removed = board.delete_item();
    assert_eq!(removed, vec![a, b]);
    assert_eq!(board.items.len(), 1);
    assert_eq!(board.items[0].id, c);
    assert!(board.selected_rect.is_none());
    assert_eq!(board.delete_item(), Vec::<u64>::new());
    let d = board.add_item(square(10), v(0, 0)).unwrap();
    assert_eq!(d, 3);
}

#[test]
fn add_commands_place_items_at_origin() {
    let mut board = Board::new();
    let note = board.add_requested_item(&AddItemEvent::PostIt(String::from("Hello World!")));
    assert_eq!(note, Some(0));
    assert_eq!(board.items[0].kind, ItemKind::PostIt);
    assert_eq!(board.items[0].half_extents, v(200, 210));
    assert_eq!(board.items[0].position, v(0, 0));
    let swatch = board.add_requested_item(&AddItemEvent::Swatch(String::from("#f3f4f6")));
    assert_eq!(swatch, Some(1));
    assert_eq!(board.items[1].kind, ItemKind::ColorSwatch);
    let text = board.add_requested_item(&AddItemEvent::Text(String::from("Just another text box")));
    assert_eq!(text, Some(2));
    assert_eq!(board.items[2].half_extents, v(0, 0));
    assert_eq!(board.add_requested_item(&AddItemEvent::Image(String::from("x.jpg"))), None);
    assert_eq!(board.items.len(), 3);
}

#[test]
fn resizing_a_text_box() {
    let mut board = Board::new();
    let t = board.add_item(ItemBundle::text(), v(0, 0)).unwrap();
    assert!(board.set_half_extents(t, v(60, 30)));
    assert_eq!(item(&board, t).half_extents, v(60, 30));
    assert!(!board.set_half_extents(99, v(60, 30)));
    assert!(!board.set_half_extents(t, v(-1, 30)));
    assert_eq!(item(&board, t).half_extents, v(60, 30));
    board.press(v(0, 0));
    board.release();
    assert!(board.set_half_extents(t, v(80, 40)));
    assert_eq!(board.selected_rect.unwrap().rect, rect(-80, -40, 80, 40));
}

#[test]
fn press_while_held_releases_first() {
    let mut board = Board::new();
    let a = board.add_item(square(10), v(0, 0)).unwrap();
    board.press(v(0, 0));
    board.move_pointer(v(5, 5));
    board.press(v(5, 5));
    board.move_pointer(v(10, 10));
    assert_eq!(item(&board, a).position, v(10, 10));
}
