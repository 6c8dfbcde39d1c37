use vstd::prelude::*;
use crate::errors::AcademyError;
use crate::pubkey::Pubkey;
use crate::state::learner::LearnerProfile;

verus! {

/// What `register_referral` works on.
#[derive(Clone, Copy, Debug, PartialEq, Eq)]
pub struct RegisterReferral {
    /// The learner who names a referrer.
    pub learner: Pubkey,
    /// The referrer's profile.
    pub referrer_profile: LearnerProfile,
    /// The referrer.
    pub referrer: Pubkey,
    /// The learner's profile.
    pub learner_profile: LearnerProfile,
}

/// Why the referral cannot be registered, if it cannot. In this order: the
/// learner names themself (`SelfReferral`); the learner has a referrer
/// already (`AlreadyReferred`); the referrer's count is at its limit
/// (`Overflow`).
pub open spec fn register_referral_refusal(ctx: RegisterReferral) -> Option<AcademyError> {
    if ctx.learner == ctx.referrer {
        Some(AcademyError::SelfReferral)
    } else if ctx.learner_profile.has_referrer {
        Some(AcademyError::AlreadyReferred)
    } else if ctx.referrer_profile.referral_count == u16::MAX {
        Some(AcademyError::Overflow)
    } else {
        None
    }
}

/// The state after the referral was registered: the learner has a referrer,
/// the referrer one referral more.
pub open spec fn register_referral_applied(ctx: RegisterReferral) -> RegisterReferral {
    RegisterReferral {
        learner_profile: LearnerProfile { has_referrer: true, ..ctx.learner_profile },
        referrer_profile: LearnerProfile {
            referral_count: (ctx.referrer_profile.referral_count + 1) as u16,
            ..ctx.referrer_profile
        },
        ..ctx
    }
}

/// Registers `ctx.referrer` as the learner's referrer, once and for good. No
/// reward comes with it. A refusal changes nothing.
pub fn register_referral(ctx: &mut RegisterReferral) -> (result: Result<(), AcademyError>)
    ensures
        match register_referral_refusal(*old(ctx)) {
            Some(e) => result == Err::<(), AcademyError>(e) && *final(ctx) == *old(ctx),
            None => result == Ok::<(), AcademyError>(()) && *final(ctx)
                == register_referral_applied(*old(ctx)),
        },
        old(ctx).learner_profile.has_referrer ==> final(ctx).learner_profile.has_referrer,
{
    if ctx.learner == ctx.referrer {
        return Err(AcademyError::SelfReferral);
    }
    if ctx.learner_profile.has_referrer {
        return Err(AcademyError::AlreadyReferred);
    }
    let referral_count: u16 = match ctx.referrer_profile.referral_count.checked_add(1) {
        Some(count) => count,
        None => { return Err(AcademyError::Overflow); },
    };
    ctx.learner_profile.has_referrer = true;
    ctx.referrer_profile.referral_count = referral_count;
    Ok(())
}

/// A referrer is named once: after a referral that was registered, another
/// one for the same learner is refused, whoever is named.
pub proof fn lemma_referral_once(ctx: RegisterReferral, other: Pubkey, other_profile: LearnerProfile)
    requires
        register_referral_refusal(ctx) is None,
    ensures
        register_referral_refusal(
            RegisterReferral {
                referrer: other,
                referrer_profile: other_profile,
                ..register_referral_applied(ctx)
            },
        ) is Some,
{
}

} // verus!
