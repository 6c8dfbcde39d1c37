use vstd::prelude::*;
use crate::bitset::lemma_zero_words_no_members;
use crate::errors::AcademyError;
use crate::pubkey::Pubkey;
use crate::state::course::Course;
use crate::state::enrollment::Enrollment;

verus! {

/// What `enroll` works on.
#[derive(Clone, Debug, PartialEq, Eq)]
pub struct Enroll {
    /// The course.
    pub course: Course,
    /// The address of the course's record.
    pub course_key: Pubkey,
    /// The place of the learner's enrollment in the course: empty unless the
    /// learner is enrolled.
    pub enrollment: Option<Enrollment>,
    /// The learner's enrollment in the prerequisite, where the learner shows
    /// one.
    pub prerequisite_enrollment: Option<Enrollment>,
    /// Bump of the enrollment record's address.
    pub bump: u8,
}

/// Whether the course's prerequisite is met: there is none, or the learner
/// shows an enrollment in that very course that is finalized.
pub open spec fn prerequisite_met(ctx: Enroll) -> bool {
    match ctx.course.prerequisite {
        None => true,
        Some(required) => match ctx.prerequisite_enrollment {
            None => false,
            Some(shown) => shown.course == required && shown.completed_at is Some,
        },
    }
}

/// Why the learner cannot enroll, if so. In this order: the learner is
/// enrolled already (`AlreadyEnrolled`); the course takes no enrollments
/// (`CourseNotActive`); the prerequisite is not met (`PrerequisiteNotMet`).
pub open spec fn enroll_refusal(ctx: Enroll) -> Option<AcademyError> {
    if ctx.enrollment is Some {
        Some(AcademyError::AlreadyEnrolled)
    } else if !ctx.course.is_active {
        Some(AcademyError::CourseNotActive)
    } else if !prerequisite_met(ctx) {
        Some(AcademyError::PrerequisiteNotMet)
    } else {
        None
    }
}

/// The enrollment as it is made at `now`: it remembers the course's version,
/// and has no lesson, no completion, no bonus and no credential.
pub open spec fn new_enrollment(ctx: Enroll, now: i64) -> Enrollment {
    Enrollment {
        course: ctx.course_key,
        enrolled_version: ctx.course.version,
        enrolled_at: now,
        completed_at: None,
        lesson_flags: [0u64, 0u64, 0u64, 0u64],
        credential_asset: None,
        bonus_claimed: false,
        _reserved: vstd::array::spec_array_fill_for_copy_type::<u8, 7>(0u8),
        bump: ctx.bump,
    }
}

/// Enrolls the learner in the course at `now`. The prerequisite is looked at
/// one step deep: the course's own prerequisite, not what that one requires.
/// A refusal changes nothing.
pub fn enroll(ctx: &mut Enroll, now: i64) -> (result: Result<(), AcademyError>)
    ensures
        match enroll_refusal(*old(ctx)) {
            Some(e) => result == Err::<(), AcademyError>(e) && *final(ctx) == *old(ctx),
            None => result == Ok::<(), AcademyError>(()) && *final(ctx) == (Enroll {
                enrollment: Some(new_enrollment(*old(ctx), now)),
                ..*old(ctx)
            }),
        },
        result is Ok ==> final(ctx).enrollment->0.wf() && final(ctx).enrollment->0.lessons()
            == Set::<int>::empty(),
{
    if ctx.enrollment.is_some() {
        return Err(AcademyError::AlreadyEnrolled);
    }
    if !ctx.course.is_active {
        return Err(AcademyError::CourseNotActive);
    }
    if let Some(required) = ctx.course.prerequisite {
        match ctx.prerequisite_enrollment {
            None => { return Err(AcademyError::PrerequisiteNotMet); },
            Some(shown) => {
                if shown.course != required || shown.completed_at.is_none() {
                    return Err(AcademyError::PrerequisiteNotMet);
                }
            },
        }
    }
    let enrollment = Enrollment {
        course: ctx.course_key,
        enrolled_version: ctx.course.version,
        enrolled_at: now,
        completed_at: None,
        lesson_flags: [0u64, 0u64, 0u64, 0u64],
        credential_asset: None,
        bonus_claimed: false,
        _reserved: [0u8; 7],
        bump: ctx.bump,
    };
    proof {
        lemma_zero_words_no_members(enrollment.lesson_bits());
    }
    ctx.enrollment = Some(enrollment);
    Ok(())
}

} // verus!
