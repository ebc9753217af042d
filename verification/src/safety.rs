//! SafetyFilter: which of the four cardinal moves survive this turn.

use vstd::prelude::*;
use crate::geometry::{Coord, Dir};
use crate::board::{Battlesnake, Board, hits, merged, merge, lemma_merged_hits};

verus! {

/// The reversal rule: with a neck present, one axis comparison between neck
/// and head forbids the move back onto the neck (neck left of head forbids
/// Left, and so on). The first comparison that holds decides; a neck that
/// shares the head's cell forbids nothing.
pub open spec fn neck_blocks(you: Battlesnake, d: Dir) -> bool {
    you.body@.len() >= 2 && {
        let h = you.body@[0];
        let n = you.body@[1];
        if n.x < h.x {
            d == Dir::LEFT
        } else if n.x > h.x {
            d == Dir::RIGHT
        } else if n.y < h.y {
            d == Dir::DOWN
        } else if n.y > h.y {
            d == Dir::UP
        } else {
            false
        }
    }
}

/// Direction `d` is safe this turn: it does not reverse onto the neck, the
/// cell it reaches lies on the grid, and that cell collides with no creature.
/// Collisions are judged against the pre-move cells of every creature — the
/// tail cell a creature vacates this turn still counts as occupied, a
/// deliberate conservative approximation.
pub open spec fn spec_safe(board: Board, you: Battlesnake, d: Dir) -> bool {
    let h = you.body@[0];
    let nx = h.x + d.dx();
    let ny = h.y + d.dy();
    &&& !neck_blocks(you, d)
    &&& board.in_bounds(nx, ny)
    &&& !hits(you.body@, nx, ny)
    &&& !board.occupied(nx, ny)
}

/// The subset of the four cardinal moves that passed the safety filter.
#[derive(Clone, Copy, Debug, PartialEq, Eq, Structural)]
pub struct SafeMoves {
    pub up: bool,
    pub down: bool,
    pub left: bool,
    pub right: bool,
}

impl SafeMoves {
    /// Direction `d` is in the set.
    pub open spec fn allows(self, d: Dir) -> bool {
        match d {
            Dir::UP => self.up,
            Dir::DOWN => self.down,
            Dir::LEFT => self.left,
            Dir::RIGHT => self.right,
        }
    }

    /// The set is non-empty.
    pub open spec fn any(self) -> bool {
        self.up || self.down || self.left || self.right
    }

    /// The safe moves in the fixed enumeration order Up, Down, Left, Right;
    /// the random fallback indexes into this list.
    pub open spec fn list(self) -> Seq<Dir> {
        (if self.up { seq![Dir::UP] } else { Seq::<Dir>::empty() })
        + (if self.down { seq![Dir::DOWN] } else { Seq::<Dir>::empty() })
        + (if self.left { seq![Dir::LEFT] } else { Seq::<Dir>::empty() })
        + (if self.right { seq![Dir::RIGHT] } else { Seq::<Dir>::empty() })
    }

    /// Direction `d` is in the set, executable form.
    pub fn contains(&self, d: Dir) -> (r: bool)
        ensures
            r == self.allows(d),
    {
        match d {
            Dir::UP => self.up,
            Dir::DOWN => self.down,
            Dir::LEFT => self.left,
            Dir::RIGHT => self.right,
        }
    }
}

/// Every entry of the enumeration list is in the set, and the list is
/// non-empty exactly when the set is.
pub proof fn lemma_list_allows(s: SafeMoves)
    ensures
        forall|i: int| 0 <= i < s.list().len() ==> s.allows(#[trigger] s.list()[i]),
        s.any() <==> s.list().len() > 0,
{
}

/// The four safe flags the filter computes, as a value.
pub open spec fn spec_safe_moves(board: Board, you: Battlesnake) -> SafeMoves {
    SafeMoves {
        up: spec_safe(board, you, Dir::UP),
        down: spec_safe(board, you, Dir::DOWN),
        left: spec_safe(board, you, Dir::LEFT),
        right: spec_safe(board, you, Dir::RIGHT),
    }
}

/// Some coordinate of the list equals `c`, executable form of `hits`.
fn has_coord(cells: &Vec<Coord>, c: &Coord) -> (r: bool)
    ensures
        r == hits(cells@, c.x as int, c.y as int),
{
    let mut i: usize = 0;
    while i < cells.len()
        invariant
            i <= cells@.len(),
            forall|j: int| 0 <= j < i ==> !(#[trigger] cells@[j].x == c.x && cells@[j].y == c.y),
        decreases cells@.len() - i,
    {
        if cells[i].x == c.x && cells[i].y == c.y {
            return true;
        }
        i += 1;
    }
    false
}

/// One direction's safety checks: reversal, walls, own body, every creature.
fn dir_safe(board: &Board, you: &Battlesnake, occupied: &Vec<Coord>, d: Dir) -> (r: bool)
    requires
        board.wf(),
        you.wf(),
        board.in_bounds(you.body@[0].x as int, you.body@[0].y as int),
        occupied@ == merged(board.snakes@),
    ensures
        r == spec_safe(*board, *you, d),
{
    let head = you.body[0];
    if you.body.len() >= 2 {
        let neck = you.body[1];
        let blocked = if neck.x < head.x {
            matches!(d, Dir::LEFT)
        } else if neck.x > head.x {
            matches!(d, Dir::RIGHT)
        } else if neck.y < head.y {
            matches!(d, Dir::DOWN)
        } else if neck.y > head.y {
            matches!(d, Dir::UP)
        } else {
            false
        };
        if blocked {
            return false;
        }
    }
    let next = head.go(d);
    if next.x < 0 || next.x >= board.width || next.y < 0 || next.y >= board.height {
        return false;
    }
    if has_coord(&you.body, &next) {
        return false;
    }
    if has_coord(occupied, &next) {
        proof {
            lemma_merged_hits(board.snakes@, next.x as int, next.y as int);
        }
        return false;
    }
    proof {
        lemma_merged_hits(board.snakes@, next.x as int, next.y as int);
    }
    true
}

/// SafetyFilter: the subset of the four cardinal moves whose next cell
/// avoids walls, every creature's pre-move cells, and the acting creature's
/// own neck.
pub fn safe_moves(board: &Board, you: &Battlesnake) -> (s: SafeMoves)
    requires
        board.wf(),
        you.wf(),
        board.in_bounds(you.body@[0].x as int, you.body@[0].y as int),
    ensures
        s == spec_safe_moves(*board, *you),
{
    let occupied = merge(&board.snakes);
    SafeMoves {
        up: dir_safe(board, you, &occupied, Dir::UP),
        down: dir_safe(board, you, &occupied, Dir::DOWN),
        left: dir_safe(board, you, &occupied, Dir::LEFT),
        right: dir_safe(board, you, &occupied, Dir::RIGHT),
    }
}

/// Reversal exclusion: a neck strictly left of the head excludes Left from
/// the safe set, whatever the walls, bodies, and rivals say.
pub proof fn lemma_reversal_excluded(board: Board, you: Battlesnake)
    requires
        you.body@.len() >= 2,
        you.body@[1].x < you.body@[0].x,
    ensures
        !spec_safe(board, you, Dir::LEFT),
        !spec_safe_moves(board, you).allows(Dir::LEFT),
{
}

} // verus!
