//! The per-turn game state: creatures and the board that holds them.

use vstd::prelude::*;
use crate::geometry::Coord;

verus! {

/// A creature on the grid: an ordered body, head first. `body[0]` is the
/// head, `body[1]` (when the body has two or more segments) is the neck.
/// The separate `head` field repeats `body[0]` on well-formed input.
pub struct Battlesnake {
    pub head: Coord,
    pub body: Vec<Coord>,
}

impl Battlesnake {
    /// The boundary layer hands the kernel creatures with a non-empty body
    /// whose `head` field matches the first body segment.
    pub open spec fn wf(self) -> bool {
        &&& self.body@.len() >= 1
        &&& self.head == self.body@[0]
    }

    /// This creature covers cell (x, y): with its separate head entry or
    /// with some body segment.
    pub open spec fn occupies(self, x: int, y: int) -> bool {
        ||| (self.head.x == x && self.head.y == y)
        ||| hits(self.body@, x, y)
    }
}

/// Some cell of the list sits at (x, y).
pub open spec fn hits(cells: Seq<Coord>, x: int, y: int) -> bool {
    exists|i: int| 0 <= i < cells.len() && cells[i].x == x && cells[i].y == y
}

/// The board handed in each turn: grid size, food, and every creature
/// present (the acting one included).
pub struct Board {
    pub width: i32,
    pub height: i32,
    pub food: Vec<Coord>,
    pub snakes: Vec<Battlesnake>,
}

impl Board {
    /// Cell (x, y) lies on the grid.
    pub open spec fn in_bounds(self, x: int, y: int) -> bool {
        0 <= x < self.width && 0 <= y < self.height
    }

    /// The boundary contract: positive grid sizes (bounded so that every
    /// Manhattan distance on the grid fits an `i32`) and food on the grid.
    pub open spec fn wf(self) -> bool {
        &&& 0 < self.width
        &&& 0 < self.height
        &&& self.width + self.height <= i32::MAX
        &&& forall|i: int|
            #![trigger self.food@[i]]
            0 <= i < self.food@.len() ==> self.in_bounds(self.food@[i].x as int, self.food@[i].y as int)
    }

    /// Some creature on the board covers cell (x, y).
    pub open spec fn occupied(self, x: int, y: int) -> bool {
        exists|i: int| 0 <= i < self.snakes@.len() && #[trigger] self.snakes@[i].occupies(x, y)
    }
}

/// Every cell covered by the given creatures, in order: each creature's
/// separate head entry followed by its body segments.
pub open spec fn merged(snakes: Seq<Battlesnake>) -> Seq<Coord>
    decreases snakes.len(),
{
    if snakes.len() == 0 {
        Seq::empty()
    } else {
        merged(snakes.drop_last()) + seq![snakes.last().head] + snakes.last().body@
    }
}

/// A cell of the merged list is exactly a cell that some listed creature covers.
pub proof fn lemma_merged_hits(snakes: Seq<Battlesnake>, x: int, y: int)
    ensures
        hits(merged(snakes), x, y) <==> exists|i: int|
            0 <= i < snakes.len() && #[trigger] snakes[i].occupies(x, y),
    decreases snakes.len(),
{
    if snakes.len() == 0 {
    } else {
        let pre = snakes.drop_last();
        let last = snakes.last();
        lemma_merged_hits(pre, x, y);
        let whole = merged(pre) + seq![last.head] + last.body@;
        assert(merged(snakes) == whole);
        if hits(whole, x, y) {
            let j = choose|j: int| 0 <= j < whole.len() && whole[j].x == x && whole[j].y == y;
            if j < merged(pre).len() {
                assert(hits(merged(pre), x, y));
            } else if j == merged(pre).len() {
                assert(last.occupies(x, y));
            } else {
                assert(last.body@[j - merged(pre).len() - 1].x == x);
                assert(last.occupies(x, y));
            }
        }
        if exists|i: int| 0 <= i < snakes.len() && #[trigger] snakes[i].occupies(x, y) {
            let i = choose|i: int| 0 <= i < snakes.len() && #[trigger] snakes[i].occupies(x, y);
            if i < snakes.len() - 1 {
                assert(pre[i] == snakes[i]);
                assert(hits(merged(pre), x, y));
                let j = choose|j: int|
                    0 <= j < merged(pre).len() && merged(pre)[j].x == x && merged(pre)[j].y == y;
                assert(whole[j].x == x && whole[j].y == y);
                assert(hits(whole, x, y));
            } else {
                assert(last == snakes[i]);
                if last.head.x == x && last.head.y == y {
                    assert(whole[merged(pre).len() as int].x == x);
                    assert(hits(whole, x, y));
                } else {
                    let j = choose|j: int|
                        0 <= j < last.body@.len() && last.body@[j].x == x && last.body@[j].y == y;
                    assert(whole[merged(pre).len() + 1 + j].x == x);
                    assert(hits(whole, x, y));
                }
            }
        }
    }
}

/// Flatten the creatures into the list of every cell they cover, each one's
/// head entry first, in board order.
pub fn merge(snakes: &Vec<Battlesnake>) -> (r: Vec<Coord>)
    ensures
        r@ == merged(snakes@),
{
    let mut r: Vec<Coord> = Vec::new();
    let mut i: usize = 0;
    while i < snakes.len()
        invariant
            i <= snakes@.len(),
            r@ == merged(snakes@.take(i as int)),
        decreases snakes@.len() - i,
    {
        let ghost prev = r@;
        r.push(snakes[i].head);
        let body = &snakes[i].body;
        let mut j: usize = 0;
        while j < body.len()
            invariant
                j <= body@.len(),
                body@ == snakes@[i as int].body@,
                i < snakes@.len(),
                r@ == prev + seq![snakes@[i as int].head] + body@.take(j as int),
            decreases body@.len() - j,
        {
            r.push(body[j]);
            assert(body@.take(j + 1) == body@.take(j as int).push(body@[j as int]));
            j += 1;
        }
        proof {
            assert(body@.take(j as int) == body@);
            assert(snakes@.take(i + 1).drop_last() == snakes@.take(i as int));
            assert(snakes@.take(i + 1).last() == snakes@[i as int]);
        }
        i += 1;
    }
    proof {
        assert(snakes@.take(snakes@.len() as int) == snakes@);
    }
    r
}

} // verus!
