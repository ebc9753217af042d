//! FoodLocator: pick the target food item for this turn.

use vstd::prelude::*;
use crate::geometry::{Coord, spec_distance, get_distance};

verus! {

/// The first index at or after `i` whose food lies at Manhattan distance 1
/// from the head; the list length when no such index exists.
pub open spec fn adj_index(head: Coord, foods: Seq<Coord>, i: int) -> int
    decreases foods.len() - i,
{
    if i < 0 || i >= foods.len() {
        foods.len() as int
    } else if spec_distance(head, foods[i]) == 1 {
        i
    } else {
        adj_index(head, foods, i + 1)
    }
}

/// The index the scan holds after reading the items from `i` on, having
/// `b` as the best index so far: a strictly smaller distance overwrites it,
/// so the first index of the minimum wins.
pub open spec fn best_index(head: Coord, foods: Seq<Coord>, i: int, b: int) -> int
    decreases foods.len() - i,
{
    if i < 0 || i >= foods.len() {
        b
    } else if spec_distance(head, foods[i]) < spec_distance(head, foods[b]) {
        best_index(head, foods, i + 1, i)
    } else {
        best_index(head, foods, i + 1, b)
    }
}

/// The target the locator owes: nothing on an empty list; otherwise the
/// first food at distance 1, and failing that the first food of minimal
/// distance over the whole list.
pub open spec fn nearest_food_spec(head: Coord, foods: Seq<Coord>) -> Option<Coord> {
    if foods.len() == 0 {
        None
    } else {
        let a = adj_index(head, foods, 0);
        if a < foods.len() {
            Some(foods[a])
        } else {
            Some(foods[best_index(head, foods, 0, 0)])
        }
    }
}

/// FoodLocator: scan the food list in order; return the first item at
/// distance exactly 1 as soon as it appears, else the minimum-distance item,
/// first in list order among ties; nothing when the list is empty.
pub fn get_nearest_food(head: &Coord, foods: &Vec<Coord>) -> (r: Option<Coord>)
    requires
        forall|i: int|
            0 <= i < foods@.len() ==> #[trigger] spec_distance(*head, foods@[i]) < i32::MAX,
    ensures
        r == nearest_food_spec(*head, foods@),
        r is None <==> foods@.len() == 0,
        r matches Some(f) ==> foods@.contains(f),
        !(exists|i: int| 0 <= i < foods@.len() && #[trigger] spec_distance(*head, foods@[i]) == 1)
            ==> (r matches Some(f) ==> forall|i: int|
                0 <= i < foods@.len()
                    ==> spec_distance(*head, f) <= #[trigger] spec_distance(*head, foods@[i])),
        (exists|i: int| 0 <= i < foods@.len() && #[trigger] spec_distance(*head, foods@[i]) == 1)
            ==> (r matches Some(f) && spec_distance(*head, f) == 1),
{
    let mut min: i32 = i32::MAX;
    let mut min_idx: usize = 0;
    let mut i: usize = 0;
    while i < foods.len()
        invariant
            i <= foods@.len(),
            forall|j: int|
                0 <= j < foods@.len() ==> #[trigger] spec_distance(*head, foods@[j]) < i32::MAX,
            forall|j: int| 0 <= j < i ==> #[trigger] spec_distance(*head, foods@[j]) != 1,
            best_index(*head, foods@, i as int, min_idx as int) == best_index(*head, foods@, 0, 0),
            foods@.len() > 0 ==> min_idx < foods@.len(),
            min_idx <= i,
            i > 0 ==> min == spec_distance(*head, foods@[min_idx as int]),
            i == 0 ==> min == i32::MAX && min_idx == 0,
            forall|j: int| 0 <= j < i ==> min <= #[trigger] spec_distance(*head, foods@[j]),
            forall|j: int| 0 <= j < min_idx ==> min < #[trigger] spec_distance(*head, foods@[j]),
        decreases foods@.len() - i,
    {
        let d = get_distance(head, &foods[i]);
        if d == 1 {
            proof {
                lemma_adj_index_stops(*head, foods@, 0, i as int);
            }
            return Some(foods[i]);
        }
        if d < min {
            min = d;
            min_idx = i;
        }
        i += 1;
    }
    if foods.len() == 0 {
        None
    } else {
        proof {
            lemma_adj_index_stops(*head, foods@, 0, foods@.len() as int);
        }
        Some(foods[min_idx])
    }
}

/// When no food before index `k` is adjacent, the scan for an adjacent food
/// lands at `k`: on `foods[k]` itself if that one is adjacent, past the end
/// when `k` is the length.
proof fn lemma_adj_index_stops(head: Coord, foods: Seq<Coord>, i: int, k: int)
    requires
        0 <= i <= k <= foods.len(),
        forall|j: int| i <= j < k ==> #[trigger] spec_distance(head, foods[j]) != 1,
        k < foods.len() ==> spec_distance(head, foods[k]) == 1,
    ensures
        adj_index(head, foods, i) == if k < foods.len() { k } else { foods.len() as int },
    decreases k - i,
{
    if i < k {
        lemma_adj_index_stops(head, foods, i + 1, k);
    }
}

} // verus!
