//! The requests. Each one lives in a file of its own, with the records it
//! works on, the conditions under which it is refused, and what it changes.

pub mod award_streak_freeze;
pub mod claim_achievement;
pub mod claim_completion_bonus;
pub mod close_enrollment;
pub mod close_season;
pub mod complete_lesson;
pub mod create_course;
pub mod create_season;
pub mod enroll;
pub mod finalize_course;
pub mod init_learner;
pub mod initialize;
pub mod issue_credential;
pub mod register_referral;
pub mod update_config;
pub mod update_course;

pub use award_streak_freeze::{award_streak_freeze, AwardStreakFreeze};
pub use claim_achievement::{claim_achievement, ClaimAchievement};
pub use claim_completion_bonus::{claim_completion_bonus, ClaimCompletionBonus};
pub use close_enrollment::{close_enrollment, CloseEnrollment};
pub use close_season::{close_season, CloseSeason};
pub use complete_lesson::{complete_lesson, CompleteLesson, LessonReceipt};
pub use create_course::{create_course, CreateCourse, CreateCourseParams};
pub use create_season::{create_season, CreateSeason};
pub use enroll::{enroll, Enroll};
pub use finalize_course::{finalize_course, FinalizeCourse};
pub use init_learner::{init_learner, InitLearner};
pub use initialize::{initialize, Initialize, InitializeParams};
pub use issue_credential::{
    issue_credential, Attribute, CredentialOrder, CredentialReceipt, IssueCredential,
};
pub use register_referral::{register_referral, RegisterReferral};
pub use update_config::{update_config, UpdateConfig, UpdateConfigParams};
pub use update_course::{update_course, UpdateCourse, UpdateCourseParams};
