//! The per-turn decision kernel: safety filter, food locator, and move
//! selector composed, with the lifecycle notifications around it.

use vstd::prelude::*;
use crate::board::{Battlesnake, Board};
use crate::food::{get_nearest_food, nearest_food_spec};
use crate::geometry::{Dir, spec_distance};
use crate::rng::random_u64;
use crate::safety::{safe_moves, spec_safe, spec_safe_moves};
use crate::selector::{choose_move, lemma_select_in_set, lemma_select_terminal, spec_select};

verus! {

/// What the boundary layer owes the kernel each turn: a well-formed board
/// and a well-formed acting creature whose head lies on the grid.
pub open spec fn turn_input_ok(board: Board, you: Battlesnake) -> bool {
    &&& board.wf()
    &&& you.wf()
    &&& board.in_bounds(you.body@[0].x as int, you.body@[0].y as int)
}

/// The move the kernel owes for the given state and random draw.
pub open spec fn spec_decide(board: Board, you: Battlesnake, r: u64) -> Dir {
    spec_select(
        spec_safe_moves(board, you),
        you.body@[0],
        nearest_food_spec(you.body@[0], board.food@),
        r,
    )
}

/// The decision kernel with the random draw injected: filter the four moves
/// for safety, locate the nearest food, pick the move. A pure function of
/// its arguments, so two calls on one state and one draw return one move.
pub fn decide_move(board: &Board, you: &Battlesnake, r: u64) -> (m: Dir)
    requires
        turn_input_ok(*board, *you),
    ensures
        m == spec_decide(*board, *you, r),
{
    let head = you.body[0];
    let s = safe_moves(board, you);
    proof {
        assert forall|i: int| 0 <= i < board.food@.len()
            implies #[trigger] spec_distance(head, board.food@[i]) < i32::MAX by {
            assert(board.in_bounds(board.food@[i].x as int, board.food@[i].y as int));
        }
    }
    let target = get_nearest_food(&head, &board.food);
    choose_move(&s, &head, target, r)
}

/// The per-turn entry point: one cardinal move for the given state, drawing
/// the fallback randomness itself. Always in the safe set when that set is
/// non-empty, and the fixed default Down when it is empty.
pub fn get_move(_turn: &i32, board: &Board, you: &Battlesnake) -> (m: Dir)
    requires
        turn_input_ok(*board, *you),
    ensures
        exists|r: u64| m == spec_decide(*board, *you, r),
        spec_safe_moves(*board, *you).any() ==> spec_safe_moves(*board, *you).allows(m),
        !spec_safe_moves(*board, *you).any() ==> m == Dir::DOWN,
{
    let r = random_u64();
    let m = decide_move(board, you, r);
    proof {
        let s = spec_safe_moves(*board, *you);
        let h = you.body@[0];
        let t = nearest_food_spec(h, board.food@);
        if s.any() {
            lemma_select_in_set(s, h, t, r);
        } else {
            lemma_select_terminal(s, h, t, r);
        }
    }
    m
}

/// Game-start notification. The kernel keeps no state between turns, so
/// there is nothing to set up.
pub fn start(_turn: &i32, _board: &Board, _you: &Battlesnake) {
}

/// Game-over notification. The kernel keeps no state between turns, so
/// there is nothing to tear down.
pub fn end(_turn: &i32, _board: &Board, _you: &Battlesnake) {
}

/// Safety: for every state with a non-empty safe-move set, the kernel's
/// move is a member of that set, whatever the random draw.
pub proof fn lemma_move_is_safe(board: Board, you: Battlesnake, r: u64)
    requires
        exists|d: Dir| spec_safe(board, you, d),
    ensures
        spec_safe(board, you, spec_decide(board, you, r)),
{
    let s = spec_safe_moves(board, you);
    let w = choose|d: Dir| spec_safe(board, you, d);
    assert(s.allows(w));
    lemma_select_in_set(s, you.body@[0], nearest_food_spec(you.body@[0], board.food@), r);
}

/// Terminal fallback: with an empty safe-move set the kernel returns the
/// fixed default Down — it still returns, it does not fail.
pub proof fn lemma_terminal_fallback(board: Board, you: Battlesnake, r: u64)
    requires
        forall|d: Dir| !spec_safe(board, you, d),
    ensures
        spec_decide(board, you, r) == Dir::DOWN,
{
    let s = spec_safe_moves(board, you);
    assert(!spec_safe(board, you, Dir::UP));
    assert(!spec_safe(board, you, Dir::DOWN));
    assert(!spec_safe(board, you, Dir::LEFT));
    assert(!spec_safe(board, you, Dir::RIGHT));
    lemma_select_terminal(s, you.body@[0], nearest_food_spec(you.body@[0], board.food@), r);
}

/// No reversal: when the creature has a neck and some safe move other than
/// the reversal exists, the kernel never undoes the move that brought the
/// head here. `m` is that last move: the head sits one step in `m` from the
/// neck.
pub proof fn lemma_no_reversal(board: Board, you: Battlesnake, m: Dir, r: u64)
    requires
        you.body@.len() >= 2,
        you.body@[0].x == you.body@[1].x + m.dx(),
        you.body@[0].y == you.body@[1].y + m.dy(),
        exists|d: Dir| d != m.spec_opposite() && spec_safe(board, you, d),
    ensures
        spec_decide(board, you, r) != m.spec_opposite(),
{
    assert(!spec_safe(board, you, m.spec_opposite()));
    let w = choose|d: Dir| d != m.spec_opposite() && spec_safe(board, you, d);
    assert(spec_safe(board, you, w));
    lemma_move_is_safe(board, you, r);
}

/// No-target graceful path: with an empty food list the kernel still returns
/// a member of the safe set, or the fixed default Down when nothing is safe;
/// the missing target is never an error.
pub proof fn lemma_no_target_graceful(board: Board, you: Battlesnake, r: u64)
    requires
        board.food@.len() == 0,
    ensures
        (exists|d: Dir| spec_safe(board, you, d)) ==> spec_safe(
            board,
            you,
            spec_decide(board, you, r),
        ),
        (forall|d: Dir| !spec_safe(board, you, d)) ==> spec_decide(board, you, r) == Dir::DOWN,
{
    if exists|d: Dir| spec_safe(board, you, d) {
        lemma_move_is_safe(board, you, r);
    }
    if forall|d: Dir| !spec_safe(board, you, d) {
        lemma_terminal_fallback(board, you, r);
    }
}

/// Determinism under fixed randomness: two moves produced for one state and
/// one random draw are the same move — the kernel is a pure function of the
/// state and the draw.
pub proof fn lemma_deterministic(board: Board, you: Battlesnake, r: u64, m1: Dir, m2: Dir)
    requires
        m1 == spec_decide(board, you, r),
        m2 == spec_decide(board, you, r),
    ensures
        m1 == m2,
{
}

/// Adjacent-food determinism: with a single food item one step in direction
/// `d` from the head, and `d` safe, the kernel deterministically steps onto
/// the food, whatever the random draw.
pub proof fn lemma_adjacent_food(board: Board, you: Battlesnake, d: Dir, r: u64)
    requires
        board.food@.len() == 1,
        board.food@[0].x == you.body@[0].x + d.dx(),
        board.food@[0].y == you.body@[0].y + d.dy(),
        spec_safe(board, you, d),
    ensures
        spec_decide(board, you, r) == d,
{
    let h = you.body@[0];
    let f = board.food@[0];
    assert(spec_distance(h, f) == 1);
    assert(nearest_food_spec(h, board.food@) == Some(f));
    let s = spec_safe_moves(board, you);
    assert(s.allows(d));
}

} // verus!
