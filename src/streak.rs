use vstd::prelude::*;
use crate::calendar::{is_day_before, Date};
use crate::model::User;

verus! {

/// How a day's activity moves a streak, given the last active day.
pub enum StreakStep {
    /// Already active today: nothing changes.
    Same,
    /// Active yesterday: the streak grows by one.
    Extend,
    /// A gap of two days or more, or no activity yet: the streak starts over.
    Reset,
}

pub open spec fn streak_step(last_active: Option<Date>, today: Date) -> StreakStep {
    match last_active {
        Some(d) => if d == today {
            StreakStep::Same
        } else if is_day_before(d, today) {
            StreakStep::Extend
        } else {
            StreakStep::Reset
        },
        None => StreakStep::Reset,
    }
}

/// The streak of `u` can grow by one on `today` if the day calls for it: the
/// counter is not at the end of its range when the last activity was yesterday.
pub open spec fn streak_can_grow(u: User, today: Date) -> bool {
    streak_step(u.last_active, today) is Extend ==> u.current_streak < u32::MAX
}

pub open spec fn max_u32(a: u32, b: u32) -> u32 {
    if a >= b { a } else { b }
}

/// The user record after an activity on `today`.
pub open spec fn streak_update(u: User, today: Date) -> User {
    match streak_step(u.last_active, today) {
        StreakStep::Same => u,
        StreakStep::Extend => User {
            current_streak: (u.current_streak + 1) as u32,
            longest_streak: max_u32(u.longest_streak, (u.current_streak + 1) as u32),
            last_active: Some(today),
            ..u
        },
        StreakStep::Reset => User { current_streak: 0, ..u },
    }
}

/// The streak shown for a user on `today`: a streak whose last activity was
/// before yesterday has lapsed and shows as zero, whatever is stored.
pub open spec fn displayed_streak(u: User, today: Date) -> u32 {
    match u.last_active {
        Some(d) => if d == today || is_day_before(d, today) {
            u.current_streak
        } else {
            0
        },
        None => 0,
    }
}

/// A user's streaks as shown to them.
#[derive(Clone, Copy, Debug, PartialEq, Eq, Structural)]
pub struct StreakView {
    pub current: u32,
    pub longest: u32,
}

/// Records an activity of `user` on `today` and returns the resulting streak.
/// Same day: nothing changes. Day after the last activity: the streak grows by
/// one and the longest streak follows it. Otherwise the streak drops to zero
/// and the last active day is kept as it was.
pub fn update_streak(user: &mut User, today: Date) -> (r: u32)
    requires
        streak_can_grow(*old(user), today),
    ensures
        *final(user) == streak_update(*old(user), today),
        r == final(user).current_streak,
        old(user).wf() ==> final(user).wf(),
{
    let step_same: bool;
    let step_extend: bool;
    match user.last_active {
        Some(d) => {
            step_same = d == today;
            step_extend = !step_same && d.is_day_before(&today);
        },
        None => {
            step_same = false;
            step_extend = false;
        },
    }
    if step_same {
        user.current_streak
    } else if step_extend {
        let next: u32 = user.current_streak + 1;
        user.current_streak = next;
        if user.longest_streak < next {
            user.longest_streak = next;
        }
        user.last_active = Some(today);
        next
    } else {
        user.current_streak = 0;
        0
    }
}

/// The streaks of `user` as shown on `today`, without changing the record.
pub fn get_streak(user: &User, today: Date) -> (r: StreakView)
    ensures
        r.current == displayed_streak(*user, today),
        r.longest == user.longest_streak,
{
    let current: u32 = match user.last_active {
        Some(d) => if d == today || d.is_day_before(&today) {
            user.current_streak
        } else {
            0
        },
        None => 0,
    };
    StreakView { current, longest: user.longest_streak }
}

/// Updating a streak keeps the longest streak at or above the current one.
pub proof fn lemma_streak_update_keeps_order(u: User, today: Date)
    requires
        u.wf(),
        streak_can_grow(u, today),
    ensures
        streak_update(u, today).wf(),
{
}

/// A second activity on the same day returns the same streak and leaves the
/// record as the first one left it.
pub proof fn lemma_streak_update_same_day(u: User, today: Date)
    requires
        streak_can_grow(u, today),
    ensures
        streak_can_grow(streak_update(u, today), today),
        streak_update(streak_update(u, today), today) == streak_update(u, today),
{
}

} // verus!
