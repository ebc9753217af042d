//! MoveSelector: pick one move from the safe set, greedily approaching the
//! target food, with a random fallback when the heuristic is indecisive and
//! a fixed default when nothing is safe.

use vstd::prelude::*;
use vstd::math;
use vstd::arithmetic::div_mod::lemma_mod_bound;
use crate::geometry::{Coord, Dir, spec_distance, get_distance};
use crate::safety::SafeMoves;

verus! {

/// Manhattan distance to the target after one step in direction `d`, with
/// the head displaced from the target by (xdiff, ydiff).
pub open spec fn next_dist(d: Dir, xdiff: int, ydiff: int) -> int {
    (math::abs(xdiff + d.dx()) + math::abs(ydiff + d.dy())) as int
}

/// The branch taken when the horizontal gap is the tied-or-shorter nonzero
/// axis and a horizontal move is safe: step toward the target if that exact
/// move is safe; else take whichever horizontal move is safe when it
/// strictly shrinks the distance or no vertical move exists at all; else a
/// vertical step by the sign of the vertical gap; else nothing.
pub open spec fn branch_x(s: SafeMoves, xdiff: int, ydiff: int) -> Option<Dir> {
    if xdiff > 0 && s.left {
        Some(Dir::LEFT)
    } else if xdiff < 0 && s.right {
        Some(Dir::RIGHT)
    } else {
        let only = if s.left { Dir::LEFT } else { Dir::RIGHT };
        let closer = next_dist(only, xdiff, ydiff) < (math::abs(xdiff) + math::abs(ydiff)) as int;
        if closer || !(s.up || s.down) {
            Some(only)
        } else if ydiff > 0 && s.down {
            Some(Dir::DOWN)
        } else if ydiff < 0 && s.up {
            Some(Dir::UP)
        } else {
            None
        }
    }
}

/// The greedy heuristic over the head-minus-target gaps: the decision
/// priority of the kernel, first matching branch wins, nothing when every
/// branch declines.
pub open spec fn spec_heuristic(s: SafeMoves, xdiff: int, ydiff: int) -> Option<Dir> {
    let move_x = math::min(math::abs(xdiff) as int, math::abs(ydiff) as int) == math::abs(xdiff)
        && xdiff != 0;
    let can_y = s.up || s.down;
    let a = if move_x && (s.left || s.right) {
        branch_x(s, xdiff, ydiff)
    } else {
        None
    };
    if a is Some {
        a
    } else if can_y && ydiff == 0 && xdiff > 0 && s.left {
        Some(Dir::LEFT)
    } else if can_y && ydiff == 0 && xdiff < 0 && s.right {
        Some(Dir::RIGHT)
    } else if !move_x && can_y && ydiff != 0 {
        if ydiff > 0 && s.down {
            Some(Dir::DOWN)
        } else if ydiff < 0 && s.up {
            Some(Dir::UP)
        } else if s.up {
            Some(Dir::UP)
        } else {
            Some(Dir::DOWN)
        }
    } else if !move_x && !can_y {
        if xdiff == 0 && ydiff > 0 && s.down {
            Some(Dir::DOWN)
        } else if xdiff == 0 && ydiff < 0 && s.up {
            Some(Dir::UP)
        } else if xdiff > 0 && s.left {
            Some(Dir::LEFT)
        } else if xdiff < 0 && s.right {
            Some(Dir::RIGHT)
        } else {
            None
        }
    } else {
        None
    }
}

/// Once the heuristic has declined: the safe move at the random draw, taken
/// modulo the set's size, in the fixed enumeration order; Down — a certain
/// collision, accepted because no alternative exists — when nothing is safe.
pub open spec fn spec_fallback(s: SafeMoves, r: u64) -> Dir {
    let l = s.list();
    if l.len() == 0 {
        Dir::DOWN
    } else {
        l[r as int % l.len() as int]
    }
}

/// The whole selector: skip the heuristic when there is no target, otherwise
/// run it on the head-minus-target gaps; fall back when it declines.
pub open spec fn spec_select(s: SafeMoves, h: Coord, t: Option<Coord>, r: u64) -> Dir {
    match t {
        Some(t) => match spec_heuristic(s, h.x - t.x, h.y - t.y) {
            Some(d) => d,
            None => spec_fallback(s, r),
        },
        None => spec_fallback(s, r),
    }
}

/// The random fallback, executable form.
fn fallback(s: &SafeMoves, r: u64) -> (m: Dir)
    ensures
        m == spec_fallback(*s, r),
{
    let mut v: Vec<Dir> = Vec::new();
    if s.up {
        v.push(Dir::UP);
    }
    if s.down {
        v.push(Dir::DOWN);
    }
    if s.left {
        v.push(Dir::LEFT);
    }
    if s.right {
        v.push(Dir::RIGHT);
    }
    proof {
        assert(v@ =~= s.list());
    }
    if v.len() == 0 {
        Dir::DOWN
    } else {
        let n = v.len() as u64;
        let idx = (r % n) as usize;
        proof {
            lemma_mod_bound(r as int, v@.len() as int);
        }
        v[idx]
    }
}

/// MoveSelector: exactly one direction, never outside the safe set unless
/// that set is empty.
pub fn choose_move(s: &SafeMoves, head: &Coord, target: Option<Coord>, r: u64) -> (m: Dir)
    requires
        target matches Some(t) ==> spec_distance(*head, t) + 2 <= i32::MAX,
        target matches Some(t) ==> i32::MIN < head.x < i32::MAX,
        target matches Some(t) ==> i32::MIN < head.y < i32::MAX,
    ensures
        m == spec_select(*s, *head, target, r),
{
    let t = match target {
        Some(t) => t,
        None => {
            return fallback(s, r);
        },
    };
    let xdiff = head.x - t.x;
    let ydiff = head.y - t.y;
    let axdiff = if xdiff < 0 { -xdiff } else { xdiff };
    let aydiff = if ydiff < 0 { -ydiff } else { ydiff };
    let min_diff = if axdiff < aydiff { axdiff } else { aydiff };
    let move_x = min_diff == axdiff && xdiff != 0;
    let can_move_x = s.left || s.right;
    let can_move_y = s.up || s.down;
    if move_x && can_move_x {
        if xdiff > 0 && s.left {
            return Dir::LEFT;
        }
        if xdiff < 0 && s.right {
            return Dir::RIGHT;
        }
        let only_move = if s.left { Dir::LEFT } else { Dir::RIGHT };
        let cur_dist = get_distance(head, &t);
        let step = head.go(only_move);
        let new_dist = get_distance(&step, &t);
        let x_move_good = new_dist < cur_dist;
        if x_move_good || !can_move_y {
            return only_move;
        }
        if ydiff > 0 && s.down {
            return Dir::DOWN;
        }
        if ydiff < 0 && s.up {
            return Dir::UP;
        }
    }
    if can_move_y && ydiff == 0 {
        if xdiff > 0 && s.left {
            return Dir::LEFT;
        }
        if xdiff < 0 && s.right {
            return Dir::RIGHT;
        }
    }
    if !move_x && can_move_y && ydiff != 0 {
        if ydiff > 0 && s.down {
            return Dir::DOWN;
        }
        if ydiff < 0 && s.up {
            return Dir::UP;
        }
        let only_move = if s.up { Dir::UP } else { Dir::DOWN };
        return only_move;
    }
    if !move_x && !can_move_y {
        if xdiff == 0 {
            if ydiff > 0 && s.down {
                return Dir::DOWN;
            }
            if ydiff < 0 && s.up {
                return Dir::UP;
            }
        }
        if xdiff > 0 && s.left {
            return Dir::LEFT;
        }
        if xdiff < 0 && s.right {
            return Dir::RIGHT;
        }
    }
    fallback(s, r)
}

/// Safety: whenever the safe set is non-empty, the selected move is a member
/// of it, whatever the target and the random draw.
pub proof fn lemma_select_in_set(s: SafeMoves, h: Coord, t: Option<Coord>, r: u64)
    requires
        s.any(),
    ensures
        s.allows(spec_select(s, h, t, r)),
{
    crate::safety::lemma_list_allows(s);
    let l = s.list();
    lemma_mod_bound(r as int, l.len() as int);
}

/// Terminal fallback: with an empty safe set the selector returns Down,
/// whatever the target and the random draw.
pub proof fn lemma_select_terminal(s: SafeMoves, h: Coord, t: Option<Coord>, r: u64)
    requires
        !s.any(),
    ensures
        spec_select(s, h, t, r) == Dir::DOWN,
{
}

} // verus!

