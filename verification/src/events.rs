//! Records of what happened, for whoever runs the requests to publish.

use vstd::prelude::*;
use crate::pubkey::Pubkey;

verus! {

/// A learner's profile was made.
#[derive(Clone, Copy, Debug, PartialEq, Eq)]
pub struct LearnerInitialized {
    pub learner: Pubkey,
    pub timestamp: i64,
}

/// A course was created.
#[derive(Clone, Debug, PartialEq, Eq)]
pub struct CourseCreated {
    pub course: Pubkey,
    pub course_id: String,
    pub creator: Pubkey,
    pub track_id: u16,
    pub track_level: u8,
    pub timestamp: i64,
}

/// A course was updated.
#[derive(Clone, Copy, Debug, PartialEq, Eq)]
pub struct CourseUpdated {
    pub course: Pubkey,
    pub version: u16,
    pub timestamp: i64,
}

/// A learner enrolled in a course.
#[derive(Clone, Copy, Debug, PartialEq, Eq)]
pub struct Enrolled {
    pub learner: Pubkey,
    pub course: Pubkey,
    pub course_version: u16,
    pub timestamp: i64,
}

/// A learner completed a lesson.
#[derive(Clone, Copy, Debug, PartialEq, Eq)]
pub struct LessonCompleted {
    pub learner: Pubkey,
    pub course: Pubkey,
    pub lesson_index: u8,
    pub xp_earned: u32,
    pub current_streak: u16,
    pub timestamp: i64,
}

/// A learner's course was finalized.
#[derive(Clone, Copy, Debug, PartialEq, Eq)]
pub struct CourseFinalized {
    pub learner: Pubkey,
    pub course: Pubkey,
    pub total_xp: u32,
    pub creator: Pubkey,
    pub creator_xp: u32,
    pub timestamp: i64,
}

/// A learner claimed the completion bonus of a course.
#[derive(Clone, Copy, Debug, PartialEq, Eq)]
pub struct CompletionBonusClaimed {
    pub learner: Pubkey,
    pub course: Pubkey,
    pub bonus_xp: u32,
    pub timestamp: i64,
}

/// A credential was made for a learner, or the one they hold was upgraded.
#[derive(Clone, Copy, Debug, PartialEq, Eq)]
pub struct CredentialIssued {
    pub learner: Pubkey,
    pub track_id: u16,
    pub credential_asset: Pubkey,
    pub credential_created: bool,
    pub credential_upgraded: bool,
    pub current_level: u8,
    pub timestamp: i64,
}

/// A learner claimed an achievement.
#[derive(Clone, Copy, Debug, PartialEq, Eq)]
pub struct AchievementClaimed {
    pub learner: Pubkey,
    pub achievement_index: u8,
    pub xp_reward: u32,
    pub timestamp: i64,
}

/// A learner's streak broke.
#[derive(Clone, Copy, Debug, PartialEq, Eq)]
pub struct StreakBroken {
    pub learner: Pubkey,
    pub final_streak: u16,
    pub days_missed: u16,
    pub timestamp: i64,
}

/// Freezes saved a learner's streak.
#[derive(Clone, Copy, Debug, PartialEq, Eq)]
pub struct StreakFreezesUsed {
    pub learner: Pubkey,
    pub freezes_used: u8,
    pub freezes_remaining: u8,
    pub timestamp: i64,
}

/// A learner's streak reached a marked length.
#[derive(Clone, Copy, Debug, PartialEq, Eq)]
pub struct StreakMilestone {
    pub learner: Pubkey,
    pub milestone: u16,
    pub timestamp: i64,
}

/// A learner was given a streak freeze.
#[derive(Clone, Copy, Debug, PartialEq, Eq)]
pub struct StreakFreezeAwarded {
    pub learner: Pubkey,
    pub freezes_remaining: u8,
    pub timestamp: i64,
}

/// An enrollment was closed.
#[derive(Clone, Copy, Debug, PartialEq, Eq)]
pub struct EnrollmentClosed {
    pub learner: Pubkey,
    pub course: Pubkey,
    pub completed: bool,
    pub rent_reclaimed: u64,
    pub timestamp: i64,
}

/// A learner named a referrer.
#[derive(Clone, Copy, Debug, PartialEq, Eq)]
pub struct ReferralRegistered {
    pub referrer: Pubkey,
    pub referee: Pubkey,
    pub timestamp: i64,
}

/// A season was opened.
#[derive(Clone, Copy, Debug, PartialEq, Eq)]
pub struct SeasonCreated {
    pub season: u16,
    pub mint: Pubkey,
    pub timestamp: i64,
}

/// A season was closed.
#[derive(Clone, Copy, Debug, PartialEq, Eq)]
pub struct SeasonClosed {
    pub season: u16,
    pub timestamp: i64,
}

/// A setting of the platform was changed.
#[derive(Clone, Debug, PartialEq, Eq)]
pub struct ConfigUpdated {
    pub field: String,
    pub timestamp: i64,
}

} // verus!
