use vstd::prelude::*;
use crate::errors::AcademyError;
use crate::pubkey::Pubkey;
use crate::rewards::RewardMint;
use crate::state::config::Config;
use crate::state::course::Course;
use crate::state::enrollment::{lemma_lessons_finite, lemma_with_lesson, Enrollment};
use crate::state::learner::LearnerProfile;
use crate::utils::{
    check_and_update_daily_xp, consume_applied, consume_refusal, streak_applied, streak_outcome,
    update_streak, xp_day_of, StreakUpdate,
};

verus! {

/// What `complete_lesson` works on.
#[derive(Clone, Debug, PartialEq, Eq)]
pub struct CompleteLesson {
    /// Who attests the completion.
    pub backend_signer: Pubkey,
    /// The configuration record.
    pub config: Config,
    /// The course.
    pub course: Course,
    /// The learner.
    pub learner: Pubkey,
    /// The learner's profile.
    pub learner_profile: LearnerProfile,
    /// The learner's enrollment in the course.
    pub enrollment: Enrollment,
    /// The currency the reward is asked in.
    pub xp_mint: Pubkey,
}

/// What a completed lesson brings: the reward to issue, and what the activity
/// did to the streak (nothing on a day that had activity already).
#[derive(Clone, Copy, Debug, PartialEq, Eq)]
pub struct LessonReceipt {
    pub reward: RewardMint,
    pub streak_update: Option<StreakUpdate>,
}

/// Why lesson `lesson_index` cannot be completed at `now`, if it cannot. In
/// this order: the attester is not the backend signer, or the profile is not
/// the learner's (`Unauthorized`); the currency is not the current season's
/// (`SeasonNotActive`); the season is closed (`SeasonClosed`); the course has
/// no such lesson (`LessonOutOfBounds`); the lesson is completed already, or
/// lies beyond what an enrollment tracks (`LessonAlreadyCompleted`); the
/// lesson's points do not fit the learner's day (`Overflow`,
/// `DailyXPLimitExceeded`); the streak cannot grow (`Overflow`).
pub open spec fn complete_lesson_refusal(ctx: CompleteLesson, lesson_index: u8, now: i64) -> Option<
    AcademyError,
> {
    let budget = consume_refusal(
        ctx.learner_profile,
        ctx.config.max_daily_xp,
        ctx.course.xp_per_lesson,
        xp_day_of(now),
    );
    if ctx.backend_signer != ctx.config.backend_signer {
        Some(AcademyError::Unauthorized)
    } else if ctx.learner_profile.authority != ctx.learner {
        Some(AcademyError::Unauthorized)
    } else if ctx.xp_mint != ctx.config.current_mint {
        Some(AcademyError::SeasonNotActive)
    } else if ctx.config.season_closed {
        Some(AcademyError::SeasonClosed)
    } else if lesson_index >= ctx.course.lesson_count {
        Some(AcademyError::LessonOutOfBounds)
    } else if lesson_index >= 128 || ctx.enrollment.lessons().contains(lesson_index as int) {
        Some(AcademyError::LessonAlreadyCompleted)
    } else if budget is Some {
        budget
    } else if streak_outcome(ctx.learner_profile, now) is Err {
        Some(AcademyError::Overflow)
    } else {
        None
    }
}

/// The state after lesson `lesson_index` was completed at `now`: the lesson
/// is marked, its points are booked on the day of `now`, and the streak has
/// taken the activity in.
pub open spec fn complete_lesson_applied(ctx: CompleteLesson, lesson_index: u8, now: i64) -> CompleteLesson {
    CompleteLesson {
        enrollment: ctx.enrollment.with_lesson(lesson_index),
        learner_profile: streak_applied(
            consume_applied(ctx.learner_profile, ctx.course.xp_per_lesson, xp_day_of(now)),
            now,
        ),
        ..ctx
    }
}

/// What completing a lesson at `now` brings: the lesson's points for the
/// learner, in the current season's currency.
pub open spec fn complete_lesson_brings(ctx: CompleteLesson, now: i64) -> LessonReceipt {
    LessonReceipt {
        reward: RewardMint {
            mint: ctx.config.current_mint,
            recipient: ctx.learner,
            amount: ctx.course.xp_per_lesson as u64,
        },
        streak_update: streak_outcome(ctx.learner_profile, now)->Ok_0,
    }
}

/// Completes lesson `lesson_index` for the learner at `now`. A refusal leaves
/// everything as it was, the lesson's mark included.
pub fn complete_lesson(ctx: &mut CompleteLesson, lesson_index: u8, now: i64) -> (result: Result<
    LessonReceipt,
    AcademyError,
>)
    ensures
        match complete_lesson_refusal(*old(ctx), lesson_index, now) {
            Some(e) => result == Err::<LessonReceipt, AcademyError>(e) && *final(ctx) == *old(
                ctx,
            ),
            None => result == Ok::<LessonReceipt, AcademyError>(
                complete_lesson_brings(*old(ctx), now),
            ) && *final(ctx) == complete_lesson_applied(*old(ctx), lesson_index, now),
        },
        result is Ok ==> final(ctx).enrollment.lessons() == old(ctx).enrollment.lessons().insert(
            lesson_index as int,
        ) && !old(ctx).enrollment.lessons().contains(lesson_index as int),
        result is Err ==> final(ctx).enrollment.lessons() == old(ctx).enrollment.lessons(),
        old(ctx).enrollment.wf() ==> final(ctx).enrollment.wf(),
        old(ctx).learner_profile.wf() ==> final(ctx).learner_profile.wf(),
        result is Ok ==> final(ctx).learner_profile.xp_earned_today <= old(
            ctx,
        ).config.max_daily_xp,
{
    if ctx.backend_signer != ctx.config.backend_signer {
        return Err(AcademyError::Unauthorized);
    }
    if ctx.learner_profile.authority != ctx.learner {
        return Err(AcademyError::Unauthorized);
    }
    if ctx.xp_mint != ctx.config.current_mint {
        return Err(AcademyError::SeasonNotActive);
    }
    if ctx.config.season_closed {
        return Err(AcademyError::SeasonClosed);
    }
    if lesson_index >= ctx.course.lesson_count {
        return Err(AcademyError::LessonOutOfBounds);
    }
    let mut enrollment = ctx.enrollment;
    let is_new = enrollment.complete_lesson(lesson_index);
    if !is_new {
        return Err(AcademyError::LessonAlreadyCompleted);
    }
    let mut profile = ctx.learner_profile;
    match check_and_update_daily_xp(&mut profile, &ctx.config, ctx.course.xp_per_lesson, now) {
        Ok(()) => {},
        Err(e) => { return Err(e); },
    }
    let streak_update = match update_streak(&mut profile, now) {
        Ok(update) => update,
        Err(e) => { return Err(e); },
    };
    ctx.enrollment = enrollment;
    ctx.learner_profile = profile;
    Ok(
        LessonReceipt {
            reward: RewardMint {
                mint: ctx.config.current_mint,
                recipient: ctx.learner,
                amount: ctx.course.xp_per_lesson as u64,
            },
            streak_update,
        },
    )
}

/// A lesson is paid once: where completing it was accepted, completing it
/// again, at whatever time, is refused with `LessonAlreadyCompleted`, and the
/// one acceptance added exactly one lesson to the completed ones.
pub proof fn lemma_complete_lesson_once(ctx: CompleteLesson, lesson_index: u8, now: i64, later: i64)
    requires
        complete_lesson_refusal(ctx, lesson_index, now) is None,
    ensures
        complete_lesson_refusal(complete_lesson_applied(ctx, lesson_index, now), lesson_index, later)
            == Some(AcademyError::LessonAlreadyCompleted),
        complete_lesson_applied(ctx, lesson_index, now).enrollment.lessons().finite(),
        complete_lesson_applied(ctx, lesson_index, now).enrollment.lessons().len()
            == ctx.enrollment.lessons().len() + 1,
{
    lemma_with_lesson(ctx.enrollment, lesson_index);
    lemma_lessons_finite(ctx.enrollment);
    lemma_lessons_finite(ctx.enrollment.with_lesson(lesson_index));
}

/// A closed season pays no lesson, whatever else holds.
pub proof fn lemma_closed_season_pays_no_lesson(ctx: CompleteLesson, lesson_index: u8, now: i64)
    requires
        ctx.config.season_closed,
    ensures
        complete_lesson_refusal(ctx, lesson_index, now) is Some,
{
}

} // verus!
