use vstd::prelude::*;
use crate::calendar::Date;
use crate::model::{Attempt, EngineError, Progress, Quest, User, WEEKLY_REWARD};
use crate::streak::{streak_can_grow, streak_update, update_streak};
use crate::weekly::{cached_quest, completed_this_week, weekly_guard, WeeklyCache};

verus! {

/// `user` after completing `quest` on `today`: the quest's own reward is
/// added, and a weekly-tier quest stamps the day of its completion.
pub open spec fn award(user: User, quest: Quest, today: Date) -> User {
    User {
        points: (user.points + quest.points_received) as u32,
        completed_weekly: if quest.points_received == WEEKLY_REWARD {
            Some(today)
        } else {
            user.completed_weekly
        },
        ..user
    }
}

/// Deciding on `attempt` with these inputs approves it and awards the reward:
/// the actor is an administrator, the records belong together, the attempt is
/// pending and the decision is to approve.
pub open spec fn approves(
    attempt: Attempt,
    owner: User,
    quest: Quest,
    approve: bool,
    actor_is_admin: bool,
) -> bool {
    &&& actor_is_admin
    &&& attempt.user_id == owner.id
    &&& attempt.quest_id == quest.id
    &&& attempt.progress == Progress::Pending
    &&& approve
}

/// The result of deciding on `attempt`, with the attempt and the owner's
/// record that follow. Only an administrator may decide; the records must
/// belong together; only a pending attempt can be decided. Approval verifies
/// the attempt at `now` and awards the quest's reward; denial awards nothing.
pub open spec fn verify_outcome(
    attempt: Attempt,
    owner: User,
    quest: Quest,
    approve: bool,
    actor_is_admin: bool,
    today: Date,
    now: i64,
) -> (Result<(), EngineError>, Attempt, User) {
    if !actor_is_admin {
        (Err(EngineError::Unauthorized), attempt, owner)
    } else if attempt.user_id != owner.id || attempt.quest_id != quest.id {
        (Err(EngineError::NotFound), attempt, owner)
    } else if attempt.progress != Progress::Pending {
        (Err(EngineError::NotPending), attempt, owner)
    } else if approve {
        (
            Ok(()),
            Attempt { progress: Progress::Verified, completed_at: Some(now), ..attempt },
            award(owner, quest, today),
        )
    } else {
        (Ok(()), Attempt { progress: Progress::Denied, ..attempt }, owner)
    }
}

/// Adds the reward of `quest` to `user` and stamps a weekly-tier completion.
fn apply_award(user: &mut User, quest: &Quest, today: Date)
    requires
        old(user).points + quest.points_received <= u32::MAX,
    ensures
        *final(user) == award(*old(user), *quest, today),
{
    user.points = user.points + quest.points_received;
    if quest.points_received == WEEKLY_REWARD {
        user.completed_weekly = Some(today);
    }
}

/// Decides on a submitted attempt on behalf of an actor. `owner` is the record
/// of the user who submitted it and `quest` the quest it is for. The award is
/// applied exactly once: an attempt that is no longer pending is refused with
/// `NotPending` and nothing changes.
pub fn verify(
    attempt: &mut Attempt,
    owner: &mut User,
    quest: &Quest,
    approve: bool,
    actor_is_admin: bool,
    today: Date,
    now: i64,
) -> (r: Result<(), EngineError>)
    requires
        approves(*old(attempt), *old(owner), *quest, approve, actor_is_admin) ==> old(owner).points
            + quest.points_received <= u32::MAX,
    ensures
        (r, *final(attempt), *final(owner)) == verify_outcome(
            *old(attempt),
            *old(owner),
            *quest,
            approve,
            actor_is_admin,
            today,
            now,
        ),
{
    if !actor_is_admin {
        return Err(EngineError::Unauthorized);
    }
    if attempt.user_id != owner.id || attempt.quest_id != quest.id {
        return Err(EngineError::NotFound);
    }
    if attempt.progress != Progress::Pending {
        return Err(EngineError::NotPending);
    }
    if approve {
        attempt.progress = Progress::Verified;
        attempt.completed_at = Some(now);
        apply_award(owner, quest, today);
    } else {
        attempt.progress = Progress::Denied;
    }
    Ok(())
}

/// A verify that succeeds moves the owner's points by exactly the quest's
/// reward when approving and not at all when denying; a second verify of the
/// same attempt is then refused with `NotPending` and changes nothing.
pub proof fn lemma_verify_awards_once(
    attempt: Attempt,
    owner: User,
    quest: Quest,
    approve: bool,
    today: Date,
    now: i64,
    approve_again: bool,
    actor_again_is_admin: bool,
    today_again: Date,
    now_again: i64,
)
    requires
        attempt.progress == Progress::Pending,
        attempt.user_id == owner.id,
        attempt.quest_id == quest.id,
        owner.points + quest.points_received <= u32::MAX,
    ensures
        ({
            let (r1, a1, u1) = verify_outcome(attempt, owner, quest, approve, true, today, now);
            &&& r1 is Ok
            &&& !approves(a1, u1, quest, approve_again, actor_again_is_admin)
            &&& u1.points == owner.points + (if approve {
                quest.points_received as int
            } else {
                0
            })
            &&& actor_again_is_admin ==> verify_outcome(
                a1,
                u1,
                quest,
                approve_again,
                actor_again_is_admin,
                today_again,
                now_again,
            ) == (Err::<(), EngineError>(EngineError::NotPending), a1, u1)
            &&& !actor_again_is_admin ==> verify_outcome(
                a1,
                u1,
                quest,
                approve_again,
                actor_again_is_admin,
                today_again,
                now_again,
            ).2 == u1
        }),
{
}

/// Records that `user` submitted `quest` on `today`, as a pending attempt with
/// id `attempt_id` and proof reference `proof_path`, and counts the day
/// towards the user's streak. A weekly-tier quest already completed in this
/// week is refused with `AlreadyCompletedThisWeek`, and nothing changes.
pub fn submit_attempt(
    user: &mut User,
    quest: &Quest,
    attempt_id: u128,
    proof_path: String,
    today: Date,
) -> (r: Result<Attempt, EngineError>)
    requires
        streak_can_grow(*old(user), today),
    ensures
        r is Err <==> quest.points_received == WEEKLY_REWARD && completed_this_week(
            *old(user),
            today,
        ),
        r matches Err(e) ==> e == EngineError::AlreadyCompletedThisWeek && *final(user) == *old(
            user,
        ),
        r matches Ok(a) ==> a == (Attempt {
            id: attempt_id,
            user_id: old(user).id,
            quest_id: quest.id,
            progress: Progress::Pending,
            proof_path,
            completed_at: None,
        }) && *final(user) == streak_update(*old(user), today),
{
    if quest.points_received == WEEKLY_REWARD {
        if let Err(e) = weekly_guard(user, today) {
            return Err(e);
        }
    }
    let _ = update_streak(user, today);
    Ok(
        Attempt {
            id: attempt_id,
            user_id: user.id,
            quest_id: quest.id,
            progress: Progress::Pending,
            proof_path,
            completed_at: None,
        },
    )
}

/// What self-service completion of `quest` at `now` on `today` promises,
/// relating the user's record before (`u0`) and after (`u1`) to the result.
pub open spec fn auto_verify_post(
    u0: User,
    u1: User,
    quest: Quest,
    attempt_id: u128,
    today: Date,
    now: i64,
    r: Result<Attempt, EngineError>,
) -> bool {
    &&& r is Err <==> quest.points_received == WEEKLY_REWARD && completed_this_week(u0, today)
    &&& r matches Err(e) ==> e == EngineError::AlreadyCompletedThisWeek && u1 == u0
    &&& r matches Ok(a) ==> {
        &&& a.id == attempt_id
        &&& a.user_id == u0.id
        &&& a.quest_id == quest.id
        &&& a.progress == Progress::Verified
        &&& a.proof_path@ == Seq::<char>::empty()
        &&& a.completed_at == Some(now)
        &&& u1 == streak_update(award(u0, quest, today), today)
    }
}

/// Self-service completion without an administrator: records `quest` as an
/// attempt already verified at `now`, awards its reward at once and counts the
/// day towards the streak. This entry point is deliberately gated more weakly
/// than `verify`. A weekly-tier quest already completed in this week is
/// refused with `AlreadyCompletedThisWeek`, and nothing changes.
pub fn complete_and_auto_verify(
    user: &mut User,
    quest: &Quest,
    attempt_id: u128,
    today: Date,
    now: i64,
) -> (r: Result<Attempt, EngineError>)
    requires
        !(quest.points_received == WEEKLY_REWARD && completed_this_week(*old(user), today))
            ==> old(user).points + quest.points_received <= u32::MAX,
        streak_can_grow(*old(user), today),
    ensures
        auto_verify_post(*old(user), *final(user), *quest, attempt_id, today, now, r),
{
    if quest.points_received == WEEKLY_REWARD {
        if let Err(e) = weekly_guard(user, today) {
            return Err(e);
        }
    }
    apply_award(user, quest, today);
    let _ = update_streak(user, today);
    Ok(
        Attempt {
            id: attempt_id,
            user_id: user.id,
            quest_id: quest.id,
            progress: Progress::Verified,
            proof_path: String::new(),
            completed_at: Some(now),
        },
    )
}

/// Completes the quest of the week that holds `today`, as drawn in `cache`, on
/// behalf of `user`, as self-service completion does. `NotFound` when no
/// quest was drawn for this week yet.
pub fn complete_weekly(
    cache: &WeeklyCache,
    user: &mut User,
    attempt_id: u128,
    today: Date,
    now: i64,
) -> (r: Result<Attempt, EngineError>)
    requires
        !completed_this_week(*old(user), today) ==> old(user).points + WEEKLY_REWARD <= u32::MAX,
        streak_can_grow(*old(user), today),
    ensures
        cached_quest(cache@, today) is None ==> r == Err::<Attempt, EngineError>(
            EngineError::NotFound,
        ) && *final(user) == *old(user),
        cached_quest(cache@, today) matches Some(q) ==> auto_verify_post(
            *old(user),
            *final(user),
            q,
            attempt_id,
            today,
            now,
            r,
        ),
{
    match cache.current(today) {
        Some(q) => complete_and_auto_verify(user, &q, attempt_id, today, now),
        None => Err(EngineError::NotFound),
    }
}

} // verus!
