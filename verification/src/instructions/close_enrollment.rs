use vstd::prelude::*;
use crate::errors::AcademyError;
use crate::state::enrollment::Enrollment;

verus! {

/// Seconds that an enrollment which was not finalized has to be old before
/// it can be closed.
pub const CLOSE_COOLDOWN: i64 = 86400;

/// What `close_enrollment` works on.
#[derive(Clone, Copy, Debug, PartialEq, Eq)]
pub struct CloseEnrollment {
    /// The place of the learner's enrollment in the course.
    pub enrollment: Option<Enrollment>,
}

/// Why the enrollment cannot be closed at `now`, if it cannot: there is none
/// (`NotEnrolled`), or it is not finalized and younger than a day
/// (`UnenrollCooldown`).
pub open spec fn close_enrollment_refusal(ctx: CloseEnrollment, now: i64) -> Option<AcademyError> {
    match ctx.enrollment {
        None => Some(AcademyError::NotEnrolled),
        Some(enrollment) => if enrollment.completed_at is None && now - enrollment.enrolled_at
            < 86400 {
            Some(AcademyError::UnenrollCooldown)
        } else {
            None
        },
    }
}

/// Closes the learner's enrollment at `now`: its place is empty afterwards.
/// The answer says whether the enrollment was finalized. A finalized one
/// closes at any time, another one a day after enrolling. A refusal changes
/// nothing.
pub fn close_enrollment(ctx: &mut CloseEnrollment, now: i64) -> (result: Result<bool, AcademyError>)
    ensures
        match close_enrollment_refusal(*old(ctx), now) {
            Some(e) => result == Err::<bool, AcademyError>(e) && *final(ctx) == *old(ctx),
            None => result == Ok::<bool, AcademyError>(old(ctx).enrollment->0.completed_at is Some)
                && final(ctx).enrollment is None,
        },
{
    let enrollment = match ctx.enrollment {
        Some(enrollment) => enrollment,
        None => { return Err(AcademyError::NotEnrolled); },
    };
    let is_completed = enrollment.completed_at.is_some();
    if !is_completed {
        let age: i128 = (now as i128) - (enrollment.enrolled_at as i128);
        if age < CLOSE_COOLDOWN as i128 {
            return Err(AcademyError::UnenrollCooldown);
        }
    }
    ctx.enrollment = None;
    Ok(is_completed)
}

} // verus!
