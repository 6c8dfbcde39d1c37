use vstd::prelude::*;
use crate::errors::AcademyError;
use crate::pubkey::Pubkey;
use crate::state::config::Config;
use crate::state::learner::LearnerProfile;

verus! {

/// What `award_streak_freeze` works on.
#[derive(Clone, Copy, Debug, PartialEq, Eq)]
pub struct AwardStreakFreeze {
    /// Who attests the award.
    pub backend_signer: Pubkey,
    /// The configuration record.
    pub config: Config,
    /// The learner's profile.
    pub learner_profile: LearnerProfile,
}

/// Why a freeze cannot be awarded, if it cannot: the attester is not the
/// backend signer (`Unauthorized`), or the learner holds 255 freezes
/// (`Overflow`).
pub open spec fn award_streak_freeze_refusal(ctx: AwardStreakFreeze) -> Option<AcademyError> {
    if ctx.backend_signer != ctx.config.backend_signer {
        Some(AcademyError::Unauthorized)
    } else if ctx.learner_profile.streak_freezes == u8::MAX {
        Some(AcademyError::Overflow)
    } else {
        None
    }
}

/// Gives the learner one streak freeze more. A refusal changes nothing.
pub fn award_streak_freeze(ctx: &mut AwardStreakFreeze) -> (result: Result<(), AcademyError>)
    ensures
        match award_streak_freeze_refusal(*old(ctx)) {
            Some(e) => result == Err::<(), AcademyError>(e) && *final(ctx) == *old(ctx),
            None => result == Ok::<(), AcademyError>(()) && *final(ctx) == (AwardStreakFreeze {
                learner_profile: LearnerProfile {
                    streak_freezes: (old(ctx).learner_profile.streak_freezes + 1) as u8,
                    ..old(ctx).learner_profile
                },
                ..*old(ctx)
            }),
        },
        old(ctx).learner_profile.wf() ==> final(ctx).learner_profile.wf(),
{
    if ctx.backend_signer != ctx.config.backend_signer {
        return Err(AcademyError::Unauthorized);
    }
    let freezes: u8 = match ctx.learner_profile.streak_freezes.checked_add(1) {
        Some(freezes) => freezes,
        None => { return Err(AcademyError::Overflow); },
    };
    ctx.learner_profile.streak_freezes = freezes;
    Ok(())
}

} // verus!
