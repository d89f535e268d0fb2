use vstd::prelude::*;
use rand::Rng;
use crate::calendar::{week_of, Date};
use crate::model::{EngineError, Quest, User, WEEKLY_REWARD};

verus! {

/// Relies on `rand::rng` and `Rng::random_range`: a value drawn from `0..n`;
/// `random_range` panics only on an empty range.
#[verifier::external_body]
fn random_below(n: usize) -> (r: usize)
    requires
        n > 0,
    ensures
        r < n,
{
    rand::rng().random_range(0..n)
}

/// `q` carries the reward `target` asks for; no target matches every quest.
pub open spec fn has_reward(q: Quest, target: Option<u32>) -> bool {
    match target {
        Some(t) => q.points_received == t,
        None => true,
    }
}

/// The quests of `catalog` that carry the reward `target`, in catalog order.
pub open spec fn with_reward(catalog: Seq<Quest>, target: Option<u32>) -> Seq<Quest> {
    catalog.filter(|q: Quest| has_reward(q, target))
}

/// The quests of the weekly-only tier.
pub open spec fn weekly_pool(catalog: Seq<Quest>) -> Seq<Quest> {
    with_reward(catalog, Some(WEEKLY_REWARD))
}

/// The quest that the draw `pick` selects from `pool`.
pub open spec fn pick_outcome(pool: Seq<Quest>, pick: int) -> Result<Quest, EngineError> {
    if pool.len() == 0 {
        Err(EngineError::NoEligibleQuest)
    } else {
        Ok(pool[pick % (pool.len() as int)])
    }
}

/// The quests of `catalog` that carry the reward `target`, in catalog order.
pub fn matching_quests(target: Option<u32>, catalog: &Vec<Quest>) -> (r: Vec<Quest>)
    ensures
        r@ == with_reward(catalog@, target),
{
    let mut r: Vec<Quest> = Vec::new();
    let mut i: usize = 0;
    while i < catalog.len()
        invariant
            i <= catalog.len(),
            r@ == with_reward(catalog@.take(i as int), target),
        decreases catalog.len() - i,
    {
        proof {
            assert(catalog@.take(i + 1).drop_last() == catalog@.take(i as int));
            reveal(Seq::filter);
        }
        let matches: bool = match target {
            Some(t) => catalog[i].points_received == t,
            None => true,
        };
        if matches {
            r.push(catalog[i].clone());
        }
        i += 1;
    }
    assert(catalog@.take(catalog.len() as int) == catalog@);
    r
}

/// The quest that the draw `pick` selects among the quests of `catalog` with
/// reward `target`: the draw is taken modulo their number.
pub fn pick_matching(target: Option<u32>, catalog: &Vec<Quest>, pick: usize) -> (r: Result<
    Quest,
    EngineError,
>)
    ensures
        r == pick_outcome(with_reward(catalog@, target), pick as int),
{
    let pool = matching_quests(target, catalog);
    if pool.len() == 0 {
        Err(EngineError::NoEligibleQuest)
    } else {
        Ok(pool[pick % pool.len()].clone())
    }
}

/// A quest drawn uniformly at random among those of `catalog` with reward
/// `target` (any quest when there is no target); `NoEligibleQuest` when there
/// is none.
pub fn get_random_quest(target: Option<u32>, catalog: &Vec<Quest>) -> (r: Result<
    Quest,
    EngineError,
>)
    ensures
        exists|pick: int|
            0 <= pick && r == #[trigger] pick_outcome(with_reward(catalog@, target), pick),
        r matches Ok(q) ==> catalog@.contains(q) && has_reward(q, target),
{
    let n: usize = matching_quests(target, catalog).len();
    let pick: usize = if n == 0 {
        0
    } else {
        random_below(n)
    };
    let r = pick_matching(target, catalog, pick);
    proof {
        broadcast use vstd::seq_lib::group_filter_ensures, Seq::lemma_filter_contains_rev;

        let pool = with_reward(catalog@, target);
        if pool.len() > 0 {
            let k = pick as int % (pool.len() as int);
            assert(pool.contains(pool[k]));
            assert(catalog@.filter(|q: Quest| has_reward(q, target)).contains(pool[k]));
        }
    }
    r
}

/// A position drawn at random on a wheel of `count` challenges; `None` when
/// the wheel is empty.
pub fn wheel_spin(count: usize) -> (r: Option<usize>)
    ensures
        r is None <==> count == 0,
        r matches Some(i) ==> i < count,
{
    if count == 0 {
        None
    } else {
        Some(random_below(count))
    }
}

/// What a request for the weekly quest yields in week `week`, and the cache
/// entry it leaves, given the entry it finds, the weekly pool and a draw.
/// An entry of the same week is kept and returned; otherwise the draw selects
/// a quest of the pool, which becomes the entry. With an empty pool there is
/// no weekly quest to find: `NotFound`, and the entry stays as it was.
pub open spec fn weekly_outcome(entry: Option<(int, Quest)>, week: int, pool: Seq<Quest>, pick: int) -> (
    Result<Quest, EngineError>,
    Option<(int, Quest)>,
) {
    match entry {
        Some((w, q)) if w == week => (Ok(q), entry),
        _ => if pool.len() == 0 {
            (Err(EngineError::NotFound), entry)
        } else {
            let q = pool[pick % (pool.len() as int)];
            (Ok(q), Some((week, q)))
        },
    }
}

/// `user` has completed the weekly quest in the week that holds `today`.
pub open spec fn completed_this_week(user: User, today: Date) -> bool {
    user.completed_weekly matches Some(d) && week_of(d) == week_of(today)
}

/// The quest that `entry` holds for the week of `today`, if any.
pub open spec fn cached_quest(entry: Option<(int, Quest)>, today: Date) -> Option<Quest> {
    match entry {
        Some((w, q)) if w == week_of(today) => Some(q),
        _ => None,
    }
}

/// The process-wide quest of the week and the week it was drawn for.
/// Empty at first, filled on the first request, and drawn anew on the first
/// request of each later week. Callers that share one cache serialise access
/// to it, so that a week's first requests cannot draw two quests.
pub struct WeeklyCache {
    entry: Option<(i64, Quest)>,
}

impl View for WeeklyCache {
    type V = Option<(int, Quest)>;

    closed spec fn view(&self) -> Option<(int, Quest)> {
        match self.entry {
            Some((w, q)) => Some((w as int, q)),
            None => None,
        }
    }
}

impl WeeklyCache {
    /// The cached quest belongs to the weekly-only tier.
    #[verifier::type_invariant]
    spec fn inv(&self) -> bool {
        self.entry matches Some((_, q)) ==> q.points_received == WEEKLY_REWARD
    }

    pub fn new() -> (r: WeeklyCache)
        ensures
            r@ is None,
    {
        WeeklyCache { entry: None }
    }

    /// The cached quest, if one was drawn for the week that holds `today`.
    pub fn current(&self, today: Date) -> (r: Option<Quest>)
        ensures
            r == cached_quest(self@, today),
            r matches Some(q) ==> q.points_received == WEEKLY_REWARD,
    {
        proof {
            use_type_invariant(self);
        }
        let week: i64 = today.week();
        match &self.entry {
            Some((w, q)) => if *w == week {
                Some(q.clone())
            } else {
                None
            },
            None => None,
        }
    }

    /// The quest of the week that holds `today`, where a new quest is needed
    /// taking the draw `pick` among the weekly-tier quests of `catalog`.
    pub fn get_weekly_quest_with(&mut self, today: Date, catalog: &Vec<Quest>, pick: usize) -> (r:
        Result<Quest, EngineError>)
        ensures
            (r, final(self)@) == weekly_outcome(
                old(self)@,
                week_of(today),
                weekly_pool(catalog@),
                pick as int,
            ),
    {
        let week: i64 = today.week();
        match self.current(today) {
            Some(q) => Ok(q),
            None => {
                let r = pick_matching(Some(WEEKLY_REWARD), catalog, pick);
                proof {
                    let pool = weekly_pool(catalog@);
                    if pool.len() > 0 {
                        let k = pick as int % (pool.len() as int);
                        broadcast use vstd::seq_lib::group_filter_ensures;
                        assert(has_reward(pool[k], Some(WEEKLY_REWARD)));
                    }
                }
                match r {
                    Ok(q) => {
                        self.entry = Some((week, q.clone()));
                        Ok(q)
                    },
                    Err(_) => Err(EngineError::NotFound),
                }
            },
        }
    }

    /// The quest of the week that holds `today`: the cached one if it was
    /// drawn for this week, else one drawn at random among the weekly-tier
    /// quests of `catalog`, which then stays cached for the rest of the week.
    pub fn get_weekly_quest(&mut self, today: Date, catalog: &Vec<Quest>) -> (r: Result<
        Quest,
        EngineError,
    >)
        ensures
            exists|pick: int|
                0 <= pick && (r, final(self)@) == #[trigger] weekly_outcome(
                    old(self)@,
                    week_of(today),
                    weekly_pool(catalog@),
                    pick,
                ),
    {
        let pick: usize = match self.current(today) {
            Some(_) => 0,
            None => {
                let n: usize = matching_quests(Some(WEEKLY_REWARD), catalog).len();
                if n == 0 {
                    0
                } else {
                    random_below(n)
                }
            },
        };
        let r = self.get_weekly_quest_with(today, catalog, pick);
        assert((r, self@) == weekly_outcome(
            old(self)@,
            week_of(today),
            weekly_pool(catalog@),
            pick as int,
        ));
        r
    }

    /// The quest of the week that holds `today`, as fetched by `user`: refused
    /// with `AlreadyCompletedThisWeek`, leaving the cache as it is, once the
    /// user has completed this week's quest; otherwise as `get_weekly_quest`.
    pub fn get_weekly_quest_for(&mut self, user: &User, today: Date, catalog: &Vec<Quest>) -> (r:
        Result<Quest, EngineError>)
        ensures
            completed_this_week(*user, today) ==> r == Err::<Quest, EngineError>(
                EngineError::AlreadyCompletedThisWeek,
            ) && final(self)@ == old(self)@,
            !completed_this_week(*user, today) ==> exists|pick: int|
                0 <= pick && (r, final(self)@) == #[trigger] weekly_outcome(
                    old(self)@,
                    week_of(today),
                    weekly_pool(catalog@),
                    pick,
                ),
    {
        match weekly_guard(user, today) {
            Err(e) => Err(e),
            Ok(()) => self.get_weekly_quest(today, catalog),
        }
    }
}

/// Once a request in week `week` has yielded a quest, every later request in
/// that week yields the same quest and keeps the cache as it is, whatever the
/// catalog and the draw.
pub proof fn lemma_weekly_quest_stable(
    entry: Option<(int, Quest)>,
    week: int,
    pool: Seq<Quest>,
    pick: int,
    later_pool: Seq<Quest>,
    later_pick: int,
)
    requires
        weekly_outcome(entry, week, pool, pick).0 is Ok,
    ensures
        weekly_outcome(weekly_outcome(entry, week, pool, pick).1, week, later_pool, later_pick)
            == weekly_outcome(entry, week, pool, pick),
{
}

/// Whether `user` may still fetch or complete the weekly quest in the week that
/// holds `today`: not once they completed it in that week.
pub fn weekly_guard(user: &User, today: Date) -> (r: Result<(), EngineError>)
    ensures
        r is Err <==> completed_this_week(*user, today),
        r matches Err(e) ==> e == EngineError::AlreadyCompletedThisWeek,
{
    match user.completed_weekly {
        Some(d) => if d.week() == today.week() {
            Err(EngineError::AlreadyCompletedThisWeek)
        } else {
            Ok(())
        },
        None => Ok(()),
    }
}

} // verus!
