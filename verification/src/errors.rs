use vstd::prelude::*;

verus! {

/// Every way a request can be rejected.
#[derive(Clone, Copy, Debug, PartialEq, Eq, Structural)]
pub enum AcademyError {
    Unauthorized,
    CourseNotActive,
    AlreadyEnrolled,
    NotEnrolled,
    LessonOutOfBounds,
    LessonAlreadyCompleted,
    CourseNotCompleted,
    CourseAlreadyFinalized,
    AchievementAlreadyClaimed,
    CourseNotFinalized,
    BonusAlreadyClaimed,
    SeasonClosed,
    SelfReferral,
    AlreadyReferred,
    ReferrerNotFound,
    PrerequisiteNotMet,
    DailyXPLimitExceeded,
    UnenrollCooldown,
    EnrollmentCourseMismatch,
    SeasonNotActive,
    Overflow,
    InvalidCourseId,
    CourseIdTooLong,
    SeasonNotClosed,
    AlreadyInitialized,
    LearnerNotInitialized,
    NotEnoughFreezes,
    AchievementOutOfBounds,
    InvalidDifficulty,
    InvalidTrackLevel,
    InvalidSeasonNumber,
    CourseAlreadyExists,
}

} // verus!
