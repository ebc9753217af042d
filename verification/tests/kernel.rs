use battlesnake::board::{merge, Battlesnake, Board};
use battlesnake::food::get_nearest_food;
use battlesnake::geometry::{get_distance, Coord, Dir};
use battlesnake::logic::{decide_move, end, get_move, start};
use battlesnake::safety::safe_moves;
use battlesnake::selector::choose_move;

fn c(x: i32, y: i32) -> Coord {
    Coord { x, y }
}

fn snake(cells: &[(i32, i32)]) -> Battlesnake {
    let body: Vec<Coord> = cells.iter().map(|&(x, y)| c(x, y)).collect();
    Battlesnake { head: body[0], body }
}

fn open_board(food: Vec<Coord>, snakes: Vec<Battlesnake>) -> Board {
    Board { width: 11, height: 11, food, snakes }
}

#[test]
fn distance_is_manhattan() {
    assert_eq!(get_distance(&c(1, 2), &c(4, 6)), 7);
    assert_eq!(get_distance(&c(4, 6), &c(1, 2)), 7);
    assert_eq!(get_distance(&c(3, 3), &c(3, 3)), 0);
    assert_eq!(get_distance(&c(0, 0), &c(0, 1)), 1);
}

#[test]
fn opposite_pairs() {
    assert_eq!(Dir::UP.opposite(), Dir::DOWN);
    assert_eq!(Dir::DOWN.opposite(), Dir::UP);
    assert_eq!(Dir::LEFT.opposite(), Dir::RIGHT);
    assert_eq!(Dir::RIGHT.opposite(), Dir::LEFT);
}

#[test]
fn go_steps_one_cell() {
    assert_eq!(c(5, 5).go(Dir::UP), c(5, 6));
    assert_eq!(c(5, 5).go(Dir::DOWN), c(5, 4));
    assert_eq!(c(5, 5).go(Dir::LEFT), c(4, 5));
    assert_eq!(c(5, 5).go(Dir::RIGHT), c(6, 5));
}

#[test]
fn merge_concatenates_heads_and_bodies() {
    let a = snake(&[(1, 1), (1, 2)]);
    let b = snake(&[(4, 4)]);
    let all = merge(&vec![a, b]);
    assert_eq!(all, vec![c(1, 1), c(1, 1), c(1, 2), c(4, 4), c(4, 4)]);
}

#[test]
fn reversal_excluded_neck_left() {
    // Head at (3,3), neck at (2,3): the creature just moved Right, so Left
    // is excluded whatever else the board holds.
    let you = snake(&[(3, 3), (2, 3)]);
    let board = open_board(vec![], vec![snake(&[(3, 3), (2, 3)])]);
    let s = safe_moves(&board, &you);
    assert!(!s.left);
    assert!(s.up);
    assert!(s.down);
    assert!(s.right);
}

#[test]
fn walls_block_at_origin() {
    let you = snake(&[(0, 0)]);
    let board = open_board(vec![], vec![snake(&[(0, 0)])]);
    let s = safe_moves(&board, &you);
    assert!(!s.left);
    assert!(!s.down);
    assert!(s.up);
    assert!(s.right);
}

#[test]
fn own_body_blocks() {
    // Body wraps above and to the right of the head.
    let you = snake(&[(5, 5), (5, 6), (6, 6), (6, 5)]);
    let board = open_board(vec![], vec![snake(&[(5, 5), (5, 6), (6, 6), (6, 5)])]);
    let s = safe_moves(&board, &you);
    assert!(!s.up); // neck, also a body cell
    assert!(!s.right); // tail cell still counts as occupied this turn
    assert!(s.down);
    assert!(s.left);
}

#[test]
fn rival_blocks() {
    let you = snake(&[(5, 5)]);
    let rival = snake(&[(4, 5), (4, 4)]);
    let board = open_board(vec![], vec![snake(&[(5, 5)]), rival]);
    let s = safe_moves(&board, &you);
    assert!(!s.left);
    assert!(s.up);
    assert!(s.down);
    assert!(s.right);
}

#[test]
fn nearest_food_picks_minimum() {
    // Distances 5, 3, 7 in list order, none adjacent: the distance-3 item wins.
    let foods = vec![c(5, 0), c(2, 1), c(3, 4)];
    assert_eq!(get_nearest_food(&c(0, 0), &foods), Some(c(2, 1)));
}

#[test]
fn nearest_food_adjacent_wins_immediately() {
    let foods = vec![c(0, 5), c(1, 0), c(2, 2)];
    assert_eq!(get_nearest_food(&c(0, 0), &foods), Some(c(1, 0)));
}

#[test]
fn nearest_food_tie_breaks_on_list_order() {
    let foods = vec![c(2, 0), c(0, 2)];
    assert_eq!(get_nearest_food(&c(0, 0), &foods), Some(c(2, 0)));
}

#[test]
fn nearest_food_empty_list_gives_none() {
    assert_eq!(get_nearest_food(&c(4, 4), &vec![]), None);
}

#[test]
fn adjacent_food_moves_onto_it() {
    // Head at (5,5), single food at (6,5), every move safe: Right, always.
    let you = snake(&[(5, 5)]);
    let board = open_board(vec![c(6, 5)], vec![snake(&[(5, 5)])]);
    for r in 0..16 {
        assert_eq!(decide_move(&board, &you, r), Dir::RIGHT);
    }
}

#[test]
fn terminal_fallback_returns_down() {
    // A one-cell board: every move leaves the grid, and the fixed default
    // Down comes back rather than a failure.
    let you = snake(&[(0, 0)]);
    let board = Board { width: 1, height: 1, food: vec![], snakes: vec![snake(&[(0, 0)])] };
    for r in [0, 1, 7, u64::MAX] {
        assert_eq!(decide_move(&board, &you, r), Dir::DOWN);
    }
}

#[test]
fn empty_food_falls_back_in_enumeration_order() {
    // No target: the random draw indexes the safe list Up, Down, Left, Right.
    let you = snake(&[(5, 5)]);
    let board = open_board(vec![], vec![snake(&[(5, 5)])]);
    assert_eq!(decide_move(&board, &you, 0), Dir::UP);
    assert_eq!(decide_move(&board, &you, 1), Dir::DOWN);
    assert_eq!(decide_move(&board, &you, 2), Dir::LEFT);
    assert_eq!(decide_move(&board, &you, 3), Dir::RIGHT);
    assert_eq!(decide_move(&board, &you, 4), Dir::UP);
}

#[test]
fn same_state_same_draw_same_move() {
    let board = open_board(vec![c(2, 9)], vec![snake(&[(5, 5), (5, 4)])]);
    for r in [0, 3, 12345678901234567890u64] {
        let a = decide_move(&board, &snake(&[(5, 5), (5, 4)]), r);
        let b = decide_move(&board, &snake(&[(5, 5), (5, 4)]), r);
        assert_eq!(a, b);
    }
}

#[test]
fn get_move_stays_in_safe_set() {
    // The entry point draws its own randomness; whatever it drew, the move
    // is one the filter allowed.
    let you = snake(&[(5, 5), (5, 4)]);
    let board = open_board(vec![], vec![snake(&[(5, 5), (5, 4)])]);
    let s = safe_moves(&board, &you);
    for _ in 0..32 {
        let m = get_move(&7, &board, &you);
        assert!(s.contains(m));
        assert_ne!(m, Dir::DOWN); // the reversal is never drawn
    }
}

#[test]
fn lifecycle_notifications_return() {
    let you = snake(&[(5, 5)]);
    let board = open_board(vec![], vec![snake(&[(5, 5)])]);
    start(&0, &board, &you);
    end(&3, &board, &you);
}

#[test]
fn selector_prefers_shorter_horizontal_gap() {
    let you = snake(&[(5, 5)]);
    let board = open_board(vec![c(4, 2)], vec![snake(&[(5, 5)])]);
    // Gap (1, 3): the horizontal axis is shorter, Left is safe.
    assert_eq!(decide_move(&board, &you, 0), Dir::LEFT);
}

#[test]
fn selector_takes_vertical_when_it_is_shorter() {
    let you = snake(&[(5, 5)]);
    let board = open_board(vec![c(2, 4)], vec![snake(&[(5, 5)])]);
    // Gap (3, 1): the vertical axis is shorter, the food is below.
    assert_eq!(decide_move(&board, &you, 0), Dir::DOWN);
}

#[test]
fn selector_horizontal_only_gap_takes_right() {
    let s = battlesnake::safety::SafeMoves { up: true, down: true, left: false, right: true };
    // Target two cells to the right, same row.
    assert_eq!(choose_move(&s, &c(5, 5), Some(c(7, 5)), 0), Dir::RIGHT);
}

#[test]
fn selector_declines_worse_horizontal_step_and_draws() {
    // Gap (2, 2) with Left unsafe: stepping Right moves away from the food,
    // Down is unsafe and Up moves away, so the heuristic declines and the
    // draw picks from the safe list Up, Right.
    let s = battlesnake::safety::SafeMoves { up: true, down: false, left: false, right: true };
    assert_eq!(choose_move(&s, &c(5, 5), Some(c(3, 3)), 0), Dir::UP);
    assert_eq!(choose_move(&s, &c(5, 5), Some(c(3, 3)), 1), Dir::RIGHT);
}

#[test]
fn selector_vertical_detour_when_horizontal_is_worse() {
    // Same gap (2, 2) with Left unsafe but Down safe: the selector refuses
    // the widening Right step and closes the vertical gap instead.
    let s = battlesnake::safety::SafeMoves { up: true, down: true, left: false, right: true };
    assert_eq!(choose_move(&s, &c(5, 5), Some(c(3, 3)), 0), Dir::DOWN);
}

#[test]
fn selector_no_vertical_moves_takes_horizontal_by_sign() {
    let s = battlesnake::safety::SafeMoves { up: false, down: false, left: true, right: true };
    // Gap (3, 0): no vertical move exists, the target is to the left.
    assert_eq!(choose_move(&s, &c(5, 5), Some(c(2, 5)), 0), Dir::LEFT);
}

#[test]
fn selector_empty_set_returns_down() {
    let s = battlesnake::safety::SafeMoves { up: false, down: false, left: false, right: false };
    assert_eq!(choose_move(&s, &c(5, 5), Some(c(2, 5)), 9), Dir::DOWN);
    assert_eq!(choose_move(&s, &c(5, 5), None, 9), Dir::DOWN);
}

#[test]
fn selector_no_target_draws_from_safe_list() {
    let s = battlesnake::safety::SafeMoves { up: false, down: true, left: true, right: false };
    assert_eq!(choose_move(&s, &c(5, 5), None, 0), Dir::DOWN);
    assert_eq!(choose_move(&s, &c(5, 5), None, 1), Dir::LEFT);
}
