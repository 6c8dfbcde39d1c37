use vstd::prelude::*;
use crate::errors::AcademyError;
use crate::pubkey::Pubkey;
use crate::rewards::RewardMint;
use crate::state::config::Config;
use crate::state::course::Course;
use crate::state::enrollment::Enrollment;
use crate::state::learner::LearnerProfile;
use crate::utils::{check_and_update_daily_xp, consume_applied, consume_refusal, xp_day_of};

verus! {

/// What `claim_completion_bonus` works on.
#[derive(Clone, Debug, PartialEq, Eq)]
pub struct ClaimCompletionBonus {
    /// The learner, who asks.
    pub learner: Pubkey,
    /// The configuration record.
    pub config: Config,
    /// The course.
    pub course: Course,
    /// The learner's profile.
    pub learner_profile: LearnerProfile,
    /// The learner's enrollment in the course.
    pub enrollment: Enrollment,
    /// The currency the bonus is asked in.
    pub xp_mint: Pubkey,
}

/// Why the bonus cannot be claimed at `now`, if it cannot. In this order: the
/// currency is not the current season's (`SeasonNotActive`); the season is
/// closed, in which nothing is issued (`SeasonClosed`); the course is not
/// finalized (`CourseNotFinalized`); the bonus was claimed before
/// (`BonusAlreadyClaimed`); the bonus does not fit the learner's day
/// (`Overflow`, `DailyXPLimitExceeded`).
pub open spec fn claim_completion_bonus_refusal(ctx: ClaimCompletionBonus, now: i64) -> Option<
    AcademyError,
> {
    if ctx.xp_mint != ctx.config.current_mint {
        Some(AcademyError::SeasonNotActive)
    } else if ctx.config.season_closed {
        Some(AcademyError::SeasonClosed)
    } else if ctx.enrollment.completed_at is None {
        Some(AcademyError::CourseNotFinalized)
    } else if ctx.enrollment.bonus_claimed {
        Some(AcademyError::BonusAlreadyClaimed)
    } else {
        consume_refusal(
            ctx.learner_profile,
            ctx.config.max_daily_xp,
            ctx.course.completion_bonus_xp,
            xp_day_of(now),
        )
    }
}

/// The state after the bonus was claimed at `now`: it is booked on the day of
/// `now` and marked as claimed.
pub open spec fn claim_completion_bonus_applied(
    ctx: ClaimCompletionBonus,
    now: i64,
) -> ClaimCompletionBonus {
    ClaimCompletionBonus {
        learner_profile: consume_applied(
            ctx.learner_profile,
            ctx.course.completion_bonus_xp,
            xp_day_of(now),
        ),
        enrollment: Enrollment { bonus_claimed: true, ..ctx.enrollment },
        ..ctx
    }
}

/// The bonus to issue: the course's completion bonus, for the learner, in
/// the current season's currency.
pub open spec fn completion_bonus(ctx: ClaimCompletionBonus) -> RewardMint {
    RewardMint {
        mint: ctx.config.current_mint,
        recipient: ctx.learner,
        amount: ctx.course.completion_bonus_xp as u64,
    }
}

/// Claims the completion bonus of a finalized course, once. A refusal changes
/// nothing.
pub fn claim_completion_bonus(ctx: &mut ClaimCompletionBonus, now: i64) -> (result: Result<
    RewardMint,
    AcademyError,
>)
    ensures
        match claim_completion_bonus_refusal(*old(ctx), now) {
            Some(e) => result == Err::<RewardMint, AcademyError>(e) && *final(ctx) == *old(ctx),
            None => result == Ok::<RewardMint, AcademyError>(completion_bonus(*old(ctx)))
                && *final(ctx) == claim_completion_bonus_applied(*old(ctx), now),
        },
        old(ctx).enrollment.wf() ==> final(ctx).enrollment.wf(),
        old(ctx).learner_profile.wf() ==> final(ctx).learner_profile.wf(),
        result is Ok ==> final(ctx).learner_profile.xp_earned_today <= old(
            ctx,
        ).config.max_daily_xp,
{
    if ctx.xp_mint != ctx.config.current_mint {
        return Err(AcademyError::SeasonNotActive);
    }
    if ctx.config.season_closed {
        return Err(AcademyError::SeasonClosed);
    }
    if ctx.enrollment.completed_at.is_none() {
        return Err(AcademyError::CourseNotFinalized);
    }
    if ctx.enrollment.bonus_claimed {
        return Err(AcademyError::BonusAlreadyClaimed);
    }
    let mut profile = ctx.learner_profile;
    match check_and_update_daily_xp(&mut profile, &ctx.config, ctx.course.completion_bonus_xp, now) {
        Ok(()) => {},
        Err(e) => { return Err(e); },
    }
    ctx.learner_profile = profile;
    ctx.enrollment.bonus_claimed = true;
    Ok(
        RewardMint {
            mint: ctx.config.current_mint,
            recipient: ctx.learner,
            amount: ctx.course.completion_bonus_xp as u64,
        },
    )
}

/// The bonus is paid once: after a claim that was accepted, another one, at
/// whatever time, is refused with `BonusAlreadyClaimed`.
pub proof fn lemma_bonus_once(ctx: ClaimCompletionBonus, now: i64, later: i64)
    requires
        claim_completion_bonus_refusal(ctx, now) is None,
    ensures
        claim_completion_bonus_refusal(claim_completion_bonus_applied(ctx, now), later) == Some(
            AcademyError::BonusAlreadyClaimed,
        ),
{
}

/// A closed season pays no bonus.
pub proof fn lemma_closed_season_pays_no_bonus(ctx: ClaimCompletionBonus, now: i64)
    requires
        ctx.config.season_closed,
    ensures
        claim_completion_bonus_refusal(ctx, now) is Some,
{
}

} // verus!
