use vstd::prelude::*;
use crate::errors::AcademyError;
use crate::pubkey::Pubkey;
use crate::rewards::RewardMint;
use crate::state::config::Config;
use crate::state::learner::{lemma_with_achievement, LearnerProfile};
use crate::utils::{check_and_update_daily_xp, consume_applied, consume_refusal, xp_day_of};

verus! {

/// What `claim_achievement` works on.
#[derive(Clone, Copy, Debug, PartialEq, Eq)]
pub struct ClaimAchievement {
    /// Who attests the achievement.
    pub backend_signer: Pubkey,
    /// The configuration record.
    pub config: Config,
    /// The learner.
    pub learner: Pubkey,
    /// The learner's profile.
    pub learner_profile: LearnerProfile,
    /// The currency the reward is asked in.
    pub xp_mint: Pubkey,
}

/// The reward that is granted where `xp_reward` is asked for: never more than
/// the platform's ceiling for one achievement.
pub open spec fn capped_reward(config: Config, xp_reward: u32) -> u32 {
    if xp_reward <= config.max_achievement_xp {
        xp_reward
    } else {
        config.max_achievement_xp
    }
}

/// Why achievement `achievement_index` cannot be claimed at `now`, if it
/// cannot. In this order: the attester is not the backend signer, or the
/// profile is not the learner's (`Unauthorized`); the currency is not the
/// current season's (`SeasonNotActive`); the season is closed, in which
/// nothing is issued (`SeasonClosed`); the achievement is claimed already
/// (`AchievementAlreadyClaimed`); the capped reward does not fit the learner's
/// day (`Overflow`, `DailyXPLimitExceeded`).
pub open spec fn claim_achievement_refusal(
    ctx: ClaimAchievement,
    achievement_index: u8,
    xp_reward: u32,
    now: i64,
) -> Option<AcademyError> {
    if ctx.backend_signer != ctx.config.backend_signer {
        Some(AcademyError::Unauthorized)
    } else if ctx.learner_profile.authority != ctx.learner {
        Some(AcademyError::Unauthorized)
    } else if ctx.xp_mint != ctx.config.current_mint {
        Some(AcademyError::SeasonNotActive)
    } else if ctx.config.season_closed {
        Some(AcademyError::SeasonClosed)
    } else if ctx.learner_profile.achievements().contains(achievement_index as int) {
        Some(AcademyError::AchievementAlreadyClaimed)
    } else {
        consume_refusal(
            ctx.learner_profile,
            ctx.config.max_daily_xp,
            capped_reward(ctx.config, xp_reward),
            xp_day_of(now),
        )
    }
}

/// The state after the achievement was claimed at `now`: the capped reward is
/// booked on the day of `now`, and the achievement is marked.
pub open spec fn claim_achievement_applied(
    ctx: ClaimAchievement,
    achievement_index: u8,
    xp_reward: u32,
    now: i64,
) -> ClaimAchievement {
    ClaimAchievement {
        learner_profile: consume_applied(
            ctx.learner_profile,
            capped_reward(ctx.config, xp_reward),
            xp_day_of(now),
        ).with_achievement(achievement_index),
        ..ctx
    }
}

/// The reward to issue: the capped amount, for the learner, in the current
/// season's currency.
pub open spec fn achievement_reward(ctx: ClaimAchievement, xp_reward: u32) -> RewardMint {
    RewardMint {
        mint: ctx.config.current_mint,
        recipient: ctx.learner,
        amount: capped_reward(ctx.config, xp_reward) as u64,
    }
}

/// Claims achievement `achievement_index` for the learner, once, for
/// `xp_reward` points or the platform's ceiling, whichever is less. A refusal
/// changes nothing.
pub fn claim_achievement(
    ctx: &mut ClaimAchievement,
    achievement_index: u8,
    xp_reward: u32,
    now: i64,
) -> (result: Result<RewardMint, AcademyError>)
    ensures
        match claim_achievement_refusal(*old(ctx), achievement_index, xp_reward, now) {
            Some(e) => result == Err::<RewardMint, AcademyError>(e) && *final(ctx) == *old(ctx),
            None => result == Ok::<RewardMint, AcademyError>(
                achievement_reward(*old(ctx), xp_reward),
            ) && *final(ctx) == claim_achievement_applied(
                *old(ctx),
                achievement_index,
                xp_reward,
                now,
            ),
        },
        result matches Ok(reward) ==> reward.amount <= xp_reward && reward.amount <= old(
            ctx,
        ).config.max_achievement_xp,
        result is Ok ==> final(ctx).learner_profile.achievements() == old(
            ctx,
        ).learner_profile.achievements().insert(achievement_index as int) && !old(
            ctx,
        ).learner_profile.achievements().contains(achievement_index as int),
        result is Err ==> final(ctx).learner_profile.achievements() == old(
            ctx,
        ).learner_profile.achievements(),
        old(ctx).learner_profile.wf() ==> final(ctx).learner_profile.wf(),
        result is Ok ==> final(ctx).learner_profile.xp_earned_today <= old(
            ctx,
        ).config.max_daily_xp,
{
    if ctx.backend_signer != ctx.config.backend_signer {
        return Err(AcademyError::Unauthorized);
    }
    if ctx.learner_profile.authority != ctx.learner {
        return Err(AcademyError::Unauthorized);
    }
    if ctx.xp_mint != ctx.config.current_mint {
        return Err(AcademyError::SeasonNotActive);
    }
    if ctx.config.season_closed {
        return Err(AcademyError::SeasonClosed);
    }
    if ctx.learner_profile.is_achievement_claimed(achievement_index) {
        return Err(AcademyError::AchievementAlreadyClaimed);
    }
    let capped: u32 = if xp_reward <= ctx.config.max_achievement_xp {
        xp_reward
    } else {
        ctx.config.max_achievement_xp
    };
    let mut profile = ctx.learner_profile;
    match check_and_update_daily_xp(&mut profile, &ctx.config, capped, now) {
        Ok(()) => {},
        Err(e) => { return Err(e); },
    }
    profile.claim_achievement(achievement_index);
    ctx.learner_profile = profile;
    Ok(RewardMint { mint: ctx.config.current_mint, recipient: ctx.learner, amount: capped as u64 })
}

/// An achievement is paid once: after a claim that was accepted, another
/// claim of the same achievement, for whatever amount and at whatever time,
/// is refused with `AchievementAlreadyClaimed`.
pub proof fn lemma_achievement_once(
    ctx: ClaimAchievement,
    achievement_index: u8,
    xp_reward: u32,
    now: i64,
    again_reward: u32,
    later: i64,
)
    requires
        claim_achievement_refusal(ctx, achievement_index, xp_reward, now) is None,
    ensures
        claim_achievement_refusal(
            claim_achievement_applied(ctx, achievement_index, xp_reward, now),
            achievement_index,
            again_reward,
            later,
        ) == Some(AcademyError::AchievementAlreadyClaimed),
{
    lemma_with_achievement(
        consume_applied(ctx.learner_profile, capped_reward(ctx.config, xp_reward), xp_day_of(now)),
        achievement_index,
    );
}

/// A closed season pays no achievement.
pub proof fn lemma_closed_season_pays_no_achievement(
    ctx: ClaimAchievement,
    achievement_index: u8,
    xp_reward: u32,
    now: i64,
)
    requires
        ctx.config.season_closed,
    ensures
        claim_achievement_refusal(ctx, achievement_index, xp_reward, now) is Some,
{
}

} // verus!
