use vstd::prelude::*;
use crate::errors::AcademyError;
use crate::pubkey::Pubkey;
use crate::rewards::RewardMint;
use crate::state::config::Config;
use crate::state::course::Course;
use crate::state::enrollment::Enrollment;

verus! {

/// What `finalize_course` works on.
#[derive(Clone, Debug, PartialEq, Eq)]
pub struct FinalizeCourse {
    /// Who attests the completion.
    pub backend_signer: Pubkey,
    /// The configuration record.
    pub config: Config,
    /// The course.
    pub course: Course,
    /// The learner's enrollment in the course.
    pub enrollment: Enrollment,
    /// The currency the reward is asked in.
    pub xp_mint: Pubkey,
}

/// Whether every lesson of the course is marked in the enrollment.
pub open spec fn all_lessons_done(ctx: FinalizeCourse) -> bool {
    forall|i: int| 0 <= i < ctx.course.lesson_count ==> ctx.enrollment.lessons().contains(i)
}

/// Why the course cannot be finalized, if it cannot. In this order: the
/// attester is not the backend signer (`Unauthorized`); the currency is not
/// the current season's (`SeasonNotActive`); the season is closed, in which
/// nothing is issued (`SeasonClosed`); the enrollment is finalized already
/// (`CourseAlreadyFinalized`); a lesson is missing (`CourseNotCompleted`); the
/// count of completions is at its limit (`Overflow`).
pub open spec fn finalize_course_refusal(ctx: FinalizeCourse) -> Option<AcademyError> {
    if ctx.backend_signer != ctx.config.backend_signer {
        Some(AcademyError::Unauthorized)
    } else if ctx.xp_mint != ctx.config.current_mint {
        Some(AcademyError::SeasonNotActive)
    } else if ctx.config.season_closed {
        Some(AcademyError::SeasonClosed)
    } else if ctx.enrollment.completed_at is Some {
        Some(AcademyError::CourseAlreadyFinalized)
    } else if !all_lessons_done(ctx) {
        Some(AcademyError::CourseNotCompleted)
    } else if ctx.course.total_completions == u32::MAX {
        Some(AcademyError::Overflow)
    } else {
        None
    }
}

/// The state after the course was finalized at `now`: the enrollment carries
/// the time, the course one completion more.
pub open spec fn finalize_course_applied(ctx: FinalizeCourse, now: i64) -> FinalizeCourse {
    FinalizeCourse {
        enrollment: Enrollment { completed_at: Some(now), ..ctx.enrollment },
        course: Course {
            total_completions: (ctx.course.total_completions + 1) as u32,
            ..ctx.course
        },
        ..ctx
    }
}

/// The creator's reward for this completion: due once the course has, this
/// one included, as many completions as it asks for, and only if the reward
/// is not zero.
pub open spec fn creator_reward(ctx: FinalizeCourse) -> Option<RewardMint> {
    if ctx.course.total_completions + 1 >= ctx.course.min_completions_for_reward
        && ctx.course.creator_reward_xp > 0 {
        Some(
            RewardMint {
                mint: ctx.config.current_mint,
                recipient: ctx.course.creator,
                amount: ctx.course.creator_reward_xp as u64,
            },
        )
    } else {
        None
    }
}

/// Finalizes the learner's course at `now`, after looking at every lesson's
/// mark anew, and hands back the creator's reward where one is due. A refusal
/// changes nothing.
pub fn finalize_course(ctx: &mut FinalizeCourse, now: i64) -> (result: Result<
    Option<RewardMint>,
    AcademyError,
>)
    ensures
        match finalize_course_refusal(*old(ctx)) {
            Some(e) => result == Err::<Option<RewardMint>, AcademyError>(e) && *final(ctx) == *old(
                ctx,
            ),
            None => result == Ok::<Option<RewardMint>, AcademyError>(creator_reward(*old(ctx)))
                && *final(ctx) == finalize_course_applied(*old(ctx), now),
        },
        old(ctx).enrollment.wf() ==> final(ctx).enrollment.wf(),
        old(ctx).course.wf() ==> final(ctx).course.wf(),
{
    if ctx.backend_signer != ctx.config.backend_signer {
        return Err(AcademyError::Unauthorized);
    }
    if ctx.xp_mint != ctx.config.current_mint {
        return Err(AcademyError::SeasonNotActive);
    }
    if ctx.config.season_closed {
        return Err(AcademyError::SeasonClosed);
    }
    if ctx.enrollment.completed_at.is_some() {
        return Err(AcademyError::CourseAlreadyFinalized);
    }
    if !ctx.enrollment.is_course_completed(ctx.course.lesson_count) {
        return Err(AcademyError::CourseNotCompleted);
    }
    let total_completions: u32 = match ctx.course.total_completions.checked_add(1) {
        Some(total) => total,
        None => { return Err(AcademyError::Overflow); },
    };
    ctx.enrollment.completed_at = Some(now);
    ctx.course.total_completions = total_completions;
    let reward = if total_completions >= ctx.course.min_completions_for_reward as u32
        && ctx.course.creator_reward_xp > 0 {
        Some(
            RewardMint {
                mint: ctx.config.current_mint,
                recipient: ctx.course.creator,
                amount: ctx.course.creator_reward_xp as u64,
            },
        )
    } else {
        None
    };
    Ok(reward)
}

/// A closed season finalizes no course, and so rewards no creator.
pub proof fn lemma_closed_season_finalizes_nothing(ctx: FinalizeCourse)
    requires
        ctx.config.season_closed,
    ensures
        finalize_course_refusal(ctx) is Some,
{
}

/// A course is finalized once: after a finalization that was accepted,
/// another one of the same enrollment is refused.
pub proof fn lemma_finalized_once(ctx: FinalizeCourse, now: i64)
    requires
        finalize_course_refusal(ctx) is None,
    ensures
        finalize_course_refusal(finalize_course_applied(ctx, now)) == Some(
            AcademyError::CourseAlreadyFinalized,
        ),
        finalize_course_applied(ctx, now).course.total_completions
            == ctx.course.total_completions + 1,
{
}

} // verus!
