//! Progression engine of a habit-tracking service: daily streaks, level-gated
//! quest assignment, a shared quest of the week and the verification of
//! submitted quest attempts.
//!
//! Every operation works on plain records handed in by the caller (which owns
//! storage, the clock and identity) and hands back the records to persist.

pub mod assignment;
pub mod calendar;
pub mod model;
pub mod streak;
pub mod verification;
pub mod weekly;

pub use assignment::{assign_quest, contains_id, level_of_points, tier_for_level};
pub use calendar::Date;
pub use model::{Attempt, EngineError, Progress, Quest, RegisterUser, User, VerifyRequest, WEEKLY_REWARD};
pub use streak::{get_streak, update_streak, StreakView};
pub use verification::{complete_and_auto_verify, complete_weekly, submit_attempt, verify};
pub use weekly::{get_random_quest, matching_quests, pick_matching, weekly_guard, wheel_spin, WeeklyCache};
