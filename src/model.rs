use vstd::prelude::*;
use crate::calendar::Date;

verus! {

/// Reward of the weekly-only quest tier.
pub const WEEKLY_REWARD: u32 = 50;

/// Where a submitted quest attempt stands. `Verified` and `Denied` are final.
#[derive(Clone, Copy, Debug, PartialEq, Eq, Structural)]
pub enum Progress {
    Verified,
    Pending,
    Denied,
}

/// A user's record as the engine reads and writes it.
#[derive(Debug)]
pub struct User {
    pub id: u128,
    pub name: String,
    pub mail: String,
    pub password_hash: String,
    pub is_admin: bool,
    pub points: u32,
    pub longest_streak: u32,
    pub current_streak: u32,
    /// The last day with a recorded activity, if any.
    pub last_active: Option<Date>,
    /// The last day on which the weekly quest was completed, if any.
    pub completed_weekly: Option<Date>,
}

impl User {
    /// The streak invariant: the longest streak is never below the current one.
    pub open spec fn wf(&self) -> bool {
        self.longest_streak >= self.current_streak
    }
}

/// A quest of the catalog. `required_points` gates who sees it and
/// `points_received` is the award for completing it.
#[derive(Debug)]
pub struct Quest {
    pub id: u128,
    pub name: String,
    pub description: String,
    pub required_points: u32,
    pub points_received: u32,
}

impl Clone for Quest {
    fn clone(&self) -> (r: Quest)
        ensures
            r == *self,
    {
        Quest {
            id: self.id,
            name: self.name.clone(),
            description: self.description.clone(),
            required_points: self.required_points,
            points_received: self.points_received,
        }
    }
}

/// One user's submission of one quest.
#[derive(Debug)]
pub struct Attempt {
    pub id: u128,
    pub user_id: u128,
    pub quest_id: u128,
    pub progress: Progress,
    pub proof_path: String,
    /// Unix time, in seconds, at which the attempt was verified.
    pub completed_at: Option<i64>,
}

/// What a request to register or log in carries.
#[derive(Debug)]
pub struct RegisterUser {
    pub name: String,
    pub email: String,
    pub password: String,
}

/// An administrator's decision on a pending attempt.
#[derive(Clone, Copy, Debug, PartialEq, Eq, Structural)]
pub struct VerifyRequest {
    pub completed: bool,
}

/// The expected outcomes that an operation of the engine reports.
#[derive(Clone, Copy, Debug, PartialEq, Eq, Structural)]
pub enum EngineError {
    /// A user, quest or attempt is missing, or the records do not belong together.
    NotFound,
    /// No quest is eligible for assignment.
    NoEligibleQuest,
    /// The actor is not an administrator.
    Unauthorized,
    /// The weekly quest was already completed in the current week.
    AlreadyCompletedThisWeek,
    /// The attempt was already verified or denied.
    NotPending,
}

} // verus!
