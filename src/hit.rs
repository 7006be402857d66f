//! Hit testing against the items' bounding boxes.
use crate::geometry::{Rect, Vec2};
use crate::item::Item;
use vstd::prelude::*;

verus! {

/// Item `i` is what a click at `p` lands on: its box holds `p`, no other
/// box holding `p` is higher, and every earlier such box is strictly
/// lower, so among equal depths the first one wins.
pub open spec fn is_topmost(items: Seq<Item>, p: Vec2, i: int) -> bool {
    &&& 0 <= i < items.len()
    &&& items[i].bounds().spec_contains(p)
    &&& forall|j: int|
        0 <= j < items.len() && (#[trigger] items[j]).bounds().spec_contains(p) ==> items[j].z
            <= items[i].z
    &&& forall|j: int|
        0 <= j < i && (#[trigger] items[j]).bounds().spec_contains(p) ==> items[j].z < items[i].z
}

/// The index of the item a click at `p` lands on, if any box holds `p`.
pub open spec fn topmost(items: Seq<Item>, p: Vec2) -> Option<int> {
    if exists|i: int| is_topmost(items, p, i) {
        Some(choose|i: int| is_topmost(items, p, i))
    } else {
        None
    }
}

/// At most one item is the topmost hit.
pub proof fn lemma_topmost_unique(items: Seq<Item>, p: Vec2, i: int, k: int)
    requires
        is_topmost(items, p, i),
        is_topmost(items, p, k),
    ensures
        i == k,
{
    if i < k {
        assert(items[i].z < items[k].z);
        assert(items[i].z <= items[k].z);
        assert(items[k].z <= items[i].z);
    } else if k < i {
        assert(items[k].z < items[i].z);
        assert(items[i].z <= items[k].z);
    }
}

/// Whenever some box holds `p`, the click lands on an item.
pub proof fn lemma_topmost_some(items: Seq<Item>, p: Vec2, i: int)
    requires
        is_topmost(items, p, i),
    ensures
        topmost(items, p) == Some(i),
{
    let k = choose|k: int| is_topmost(items, p, k);
    lemma_topmost_unique(items, p, i, k);
}

/// Of two boxes at different depths that both hold the pointer, a click
/// lands on the higher one, whichever of the two comes first.
pub proof fn lemma_higher_item_wins(items: Seq<Item>, p: Vec2)
    requires
        items.len() == 2,
        items[0].bounds().spec_contains(p),
        items[1].bounds().spec_contains(p),
        items[0].z != items[1].z,
    ensures
        topmost(items, p) is Some,
        items[topmost(items, p).unwrap()].z == if items[0].z > items[1].z {
            items[0].z
        } else {
            items[1].z
        },
{
    if items[0].z > items[1].z {
        assert(is_topmost(items, p, 0));
        lemma_topmost_some(items, p, 0);
    } else {
        assert(is_topmost(items, p, 1));
        lemma_topmost_some(items, p, 1);
    }
}

/// The item a click at `position` lands on: among the items whose box holds
/// the position, the highest, the first of them on a tie.
pub fn topmost_hit(items: &Vec<Item>, position: Vec2) -> (r: Option<usize>)
    requires
        forall|i: int| 0 <= i < items@.len() ==> (#[trigger] items@[i]).wf(),
    ensures
        r is Some ==> topmost(items@, position) == Some(r.unwrap() as int),
        r is None ==> topmost(items@, position) is None,
        r is None <==> forall|i: int|
            0 <= i < items@.len() ==> !(#[trigger] items@[i]).bounds().spec_contains(position),
{
    let mut best: Option<usize> = None;
    let n = items.len();
    for i in 0..n
        invariant
            n == items@.len(),
            forall|k: int| 0 <= k < items@.len() ==> (#[trigger] items@[k]).wf(),
            best is None ==> forall|j: int|
                0 <= j < i ==> !(#[trigger] items@[j]).bounds().spec_contains(position),
            best is Some ==> {
                let b = best.unwrap() as int;
                &&& b < i
                &&& items@[b].bounds().spec_contains(position)
                &&& forall|j: int|
                    0 <= j < i && (#[trigger] items@[j]).bounds().spec_contains(position)
                        ==> items@[j].z <= items@[b].z
                &&& forall|j: int|
                    0 <= j < b && (#[trigger] items@[j]).bounds().spec_contains(position)
                        ==> items@[j].z < items@[b].z
            },
    {
        let r = items[i].rect();
        if r.contains(position) {
            match best {
                None => {
                    best = Some(i);
                },
                Some(b) => {
                    if items[b].z < items[i].z {
                        best = Some(i);
                    }
                },
            }
        }
    }
    match best {
        Some(b) => {
            assert(is_topmost(items@, position, b as int));
            proof {
                lemma_topmost_some(items@, position, b as int);
            }
        },
        None => {
            proof {
                if exists|i: int| is_topmost(items@, position, i) {
                    let k = choose|i: int| is_topmost(items@, position, i);
                    assert(items@[k].bounds().spec_contains(position));
                }
            }
        },
    }
    best
}

/// The indices, in order, of the items whose box overlaps `rect` with
/// positive area; a rectangle of no area overlaps nothing.
pub fn all_hits(rect: Rect, items: &Vec<Item>) -> (r: Vec<usize>)
    requires
        forall|i: int| 0 <= i < items@.len() ==> (#[trigger] items@[i]).wf(),
    ensures
        forall|k: int| 0 <= k < r@.len() ==> (#[trigger] r@[k]) < items@.len(),
        forall|k: int, l: int| 0 <= k < l < r@.len() ==> r@[k] < r@[l],
        forall|i: int|
            0 <= i < items@.len() ==> (r@.contains(i as usize) <==> rect.overlaps(
                (#[trigger] items@[i]).bounds(),
            )),
{
    let mut hits: Vec<usize> = Vec::new();
    let n = items.len();
    for i in 0..n
        invariant
            n == items@.len(),
            forall|k: int| 0 <= k < items@.len() ==> (#[trigger] items@[k]).wf(),
            forall|k: int| 0 <= k < hits@.len() ==> (#[trigger] hits@[k]) < i,
            forall|k: int, l: int| 0 <= k < l < hits@.len() ==> hits@[k] < hits@[l],
            forall|j: int|
                0 <= j < i ==> (hits@.contains(j as usize) <==> rect.overlaps(
                    (#[trigger] items@[j]).bounds(),
                )),
    {
        let b = items[i].rect();
        let common = rect.intersect(&b);
        let ghost old_hits = hits@;
        if !common.is_empty() {
            hits.push(i);
            assert(hits@.last() == i);
            assert forall|j: int| 0 <= j < items@.len() implies (#[trigger] hits@.contains(
                j as usize,
            ) <==> (old_hits.contains(j as usize) || j == i)) by {
                if hits@.contains(j as usize) {
                    let k = choose|k: int| 0 <= k < hits@.len() && hits@[k] == j as usize;
                    if k < old_hits.len() {
                        assert(old_hits[k] == hits@[k]);
                    }
                }
                if old_hits.contains(j as usize) {
                    let k = choose|k: int| 0 <= k < old_hits.len() && old_hits[k] == j as usize;
                    assert(hits@[k] == old_hits[k]);
                }
                if j == i {
                    assert(hits@[hits@.len() - 1] == i);
                }
            }
        }
    }
    hits
}

} // verus!
