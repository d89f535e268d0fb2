use vstd::prelude::*;
use crate::model::{EngineError, Quest, User};

verus! {

/// A user's level: points divided by one hundred, rounded up.
pub open spec fn level_of(points: u32) -> int {
    (points + 99) / 100
}

/// The largest reward a user of this level may be assigned. The thresholds are
/// fixed steps with strict bounds, not a continuous scale.
pub open spec fn tier_of_level(level: int) -> u32 {
    if level < 5 {
        10
    } else if level < 10 {
        15
    } else {
        30
    }
}

pub open spec fn tier_of_points(points: u32) -> u32 {
    tier_of_level(level_of(points))
}

/// `q` may be assigned to a user of tier `tier` who has attempted `attempted`.
pub open spec fn eligible(q: Quest, tier: u32, attempted: Seq<u128>) -> bool {
    q.points_received <= tier && !attempted.contains(q.id)
}

/// `a` is preferred to `b`, or equally good: more required points, then the
/// smaller id.
pub open spec fn ranks_over(a: Quest, b: Quest) -> bool {
    a.required_points > b.required_points || (a.required_points == b.required_points && a.id
        <= b.id)
}

/// `a` is strictly preferred to `b`.
pub open spec fn outranks(a: Quest, b: Quest) -> bool {
    a.required_points > b.required_points || (a.required_points == b.required_points && a.id
        < b.id)
}

/// Assignment picks the entry at index `b` of `catalog`: it is eligible, it
/// strictly outranks every eligible entry before it and ranks over every
/// eligible entry after it. Among equally ranked entries the first one wins,
/// so at most one index qualifies.
pub open spec fn is_pick_at(catalog: Seq<Quest>, tier: u32, attempted: Seq<u128>, b: int) -> bool {
    &&& 0 <= b < catalog.len()
    &&& eligible(catalog[b], tier, attempted)
    &&& forall|j: int|
        0 <= j < b && eligible(#[trigger] catalog[j], tier, attempted) ==> outranks(
            catalog[b],
            catalog[j],
        )
    &&& forall|j: int|
        b < j < catalog.len() && eligible(#[trigger] catalog[j], tier, attempted) ==> ranks_over(
            catalog[b],
            catalog[j],
        )
}

pub open spec fn some_eligible(catalog: Seq<Quest>, tier: u32, attempted: Seq<u128>) -> bool {
    exists|j: int| 0 <= j < catalog.len() && eligible(#[trigger] catalog[j], tier, attempted)
}

/// `q` is the quest that assignment picks from `catalog`.
pub open spec fn is_best_eligible(q: Quest, catalog: Seq<Quest>, tier: u32, attempted: Seq<u128>) -> bool {
    &&& catalog.contains(q)
    &&& eligible(q, tier, attempted)
    &&& forall|j: int|
        0 <= j < catalog.len() && eligible(#[trigger] catalog[j], tier, attempted) ==> ranks_over(
            q,
            catalog[j],
        )
}

/// At most one index of a catalog is the one that assignment picks, so the
/// pick is determined by the catalog and the history.
pub proof fn lemma_pick_is_unique(
    catalog: Seq<Quest>,
    tier: u32,
    attempted: Seq<u128>,
    b1: int,
    b2: int,
)
    requires
        is_pick_at(catalog, tier, attempted, b1),
        is_pick_at(catalog, tier, attempted, b2),
    ensures
        b1 == b2,
{
    if b1 < b2 {
        assert(outranks(catalog[b2], catalog[b1]));
    } else if b2 < b1 {
        assert(outranks(catalog[b1], catalog[b2]));
    }
}

/// The level for a point balance.
pub fn level_of_points(points: u32) -> (r: u32)
    ensures
        r == level_of(points),
{
    let whole: u32 = points / 100;
    if points % 100 == 0 {
        whole
    } else {
        whole + 1
    }
}

/// The largest reward assignable at a level.
pub fn tier_for_level(level: u32) -> (r: u32)
    ensures
        r == tier_of_level(level as int),
{
    if level < 5 {
        10
    } else if level < 10 {
        15
    } else {
        30
    }
}

/// Whether `id` is among `ids`.
pub fn contains_id(ids: &Vec<u128>, id: u128) -> (r: bool)
    ensures
        r == ids@.contains(id),
{
    let mut i: usize = 0;
    while i < ids.len()
        invariant
            i <= ids.len(),
            forall|k: int| 0 <= k < i ==> ids@[k] != id,
        decreases ids.len() - i,
    {
        if ids[i] == id {
            return true;
        }
        i += 1;
    }
    false
}

/// Picks the next quest for `user` from `catalog`, given the ids of every quest
/// the user has attempted (pending, verified or denied).
/// Eligible quests reward at most the user's tier and were never attempted;
/// among them the one with the most required points wins, ties going to the
/// smaller id. With no eligible quest the result is `NoEligibleQuest`.
pub fn assign_quest(user: &User, catalog: &Vec<Quest>, attempted: &Vec<u128>) -> (r: Result<
    Quest,
    EngineError,
>)
    ensures
        r is Ok <==> some_eligible(catalog@, tier_of_points(user.points), attempted@),
        r matches Ok(q) ==> is_best_eligible(q, catalog@, tier_of_points(user.points), attempted@),
        r matches Ok(q) ==> exists|b: int|
            is_pick_at(catalog@, tier_of_points(user.points), attempted@, b) && #[trigger] catalog@[b]
                == q,
        r matches Ok(q) ==> !attempted@.contains(q.id),
        r matches Err(e) ==> e == EngineError::NoEligibleQuest,
{
    let tier: u32 = tier_for_level(level_of_points(user.points));
    let mut best: Option<usize> = None;
    let mut i: usize = 0;
    while i < catalog.len()
        invariant
            i <= catalog.len(),
            tier == tier_of_points(user.points),
            best matches Some(b) ==> b < i && eligible(catalog@[b as int], tier, attempted@),
            best matches Some(b) ==> forall|j: int|
                0 <= j < b && eligible(#[trigger] catalog@[j], tier, attempted@) ==> outranks(
                    catalog@[b as int],
                    catalog@[j],
                ),
            best matches Some(b) ==> forall|j: int|
                b < j < i && eligible(#[trigger] catalog@[j], tier, attempted@) ==> ranks_over(
                    catalog@[b as int],
                    catalog@[j],
                ),
            best is None ==> forall|j: int|
                0 <= j < i ==> !eligible(#[trigger] catalog@[j], tier, attempted@),
        decreases catalog.len() - i,
    {
        let q = &catalog[i];
        if q.points_received <= tier && !contains_id(attempted, q.id) {
            match best {
                None => {
                    best = Some(i);
                },
                Some(b) => {
                    let cur = &catalog[b];
                    if q.required_points > cur.required_points || (q.required_points
                        == cur.required_points && q.id < cur.id) {
                        best = Some(i);
                    }
                },
            }
        }
        i += 1;
    }
    match best {
        Some(b) => {
            let q = catalog[b].clone();
            assert(catalog@[b as int] == q);
            assert(is_pick_at(catalog@, tier, attempted@, b as int));
            assert forall|j: int|
                0 <= j < catalog.len() && eligible(
                    #[trigger] catalog@[j],
                    tier,
                    attempted@,
                ) implies ranks_over(q, catalog@[j]) by {
                if j < b {
                    assert(outranks(q, catalog@[j]));
                } else if j > b {
                    assert(ranks_over(q, catalog@[j]));
                }
            }
            Ok(q)
        },
        None => {
            assert(!some_eligible(catalog@, tier, attempted@));
            Err(EngineError::NoEligibleQuest)
        },
    }
}

} // verus!
