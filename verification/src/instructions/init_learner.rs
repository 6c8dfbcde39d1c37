use vstd::prelude::*;
use crate::errors::AcademyError;
use crate::pubkey::Pubkey;
use crate::state::learner::LearnerProfile;

verus! {

/// What `init_learner` works on.
#[derive(Clone, Copy, Debug, PartialEq, Eq)]
pub struct InitLearner {
    /// The learner, who asks.
    pub learner: Pubkey,
    /// The place of the learner's profile: empty until it is made.
    pub profile: Option<LearnerProfile>,
    /// Bump of the profile record's address.
    pub bump: u8,
}

/// The profile of a learner who starts at `now`: no streak, no freeze, no
/// achievement, nothing earned, no referrals.
pub open spec fn new_profile(ctx: InitLearner, now: i64) -> LearnerProfile {
    LearnerProfile {
        authority: ctx.learner,
        current_streak: 0,
        longest_streak: 0,
        last_activity_date: now,
        streak_freezes: 0,
        achievement_flags: [0u64, 0u64, 0u64, 0u64],
        xp_earned_today: 0,
        last_xp_day: 0,
        referral_count: 0,
        has_referrer: false,
        _reserved: vstd::array::spec_array_fill_for_copy_type::<u8, 16>(0u8),
        bump: ctx.bump,
    }
}

/// Makes the learner's profile, once. Where one exists already the answer is
/// `AlreadyInitialized` and nothing changes.
pub fn init_learner(ctx: &mut InitLearner, now: i64) -> (result: Result<(), AcademyError>)
    ensures
        old(ctx).profile is Some ==> result == Err::<(), AcademyError>(
            AcademyError::AlreadyInitialized,
        ) && *final(ctx) == *old(ctx),
        old(ctx).profile is None ==> result == Ok::<(), AcademyError>(())
            && *final(ctx) == (InitLearner {
            profile: Some(new_profile(*old(ctx), now)),
            ..*old(ctx)
        }),
        result is Ok ==> final(ctx).profile->0.wf(),
{
    if ctx.profile.is_some() {
        return Err(AcademyError::AlreadyInitialized);
    }
    ctx.profile = Some(
        LearnerProfile {
            authority: ctx.learner,
            current_streak: 0,
            longest_streak: 0,
            last_activity_date: now,
            streak_freezes: 0,
            achievement_flags: [0u64, 0u64, 0u64, 0u64],
            xp_earned_today: 0,
            last_xp_day: 0,
            referral_count: 0,
            has_referrer: false,
            _reserved: [0u8; 16],
            bump: ctx.bump,
        },
    );
    Ok(())
}

} // verus!
