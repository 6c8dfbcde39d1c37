use vstd::prelude::*;
use crate::errors::AcademyError;
use crate::pubkey::Pubkey;
use crate::state::config::Config;

verus! {

/// What `update_config` works on.
#[derive(Clone, Copy, Debug, PartialEq, Eq)]
pub struct UpdateConfig {
    /// The configuration record.
    pub config: Config,
    /// Who asks.
    pub authority: Pubkey,
}

/// The settings to change; an absent one stays as it is.
#[derive(Clone, Copy, Debug, PartialEq, Eq)]
pub struct UpdateConfigParams {
    pub backend_signer: Option<Pubkey>,
    pub max_daily_xp: Option<u32>,
    pub max_achievement_xp: Option<u32>,
}

/// The configuration with the settings of `params` that are present.
pub open spec fn config_updated(config: Config, params: UpdateConfigParams) -> Config {
    Config {
        backend_signer: match params.backend_signer {
            Some(signer) => signer,
            None => config.backend_signer,
        },
        max_daily_xp: match params.max_daily_xp {
            Some(ceiling) => ceiling,
            None => config.max_daily_xp,
        },
        max_achievement_xp: match params.max_achievement_xp {
            Some(ceiling) => ceiling,
            None => config.max_achievement_xp,
        },
        ..config
    }
}

/// Rotates the backend signer and adjusts the ceilings, each only where
/// `params` names it; only the platform authority may.
pub fn update_config(ctx: &mut UpdateConfig, params: UpdateConfigParams) -> (result: Result<
    (),
    AcademyError,
>)
    ensures
        old(ctx).authority != old(ctx).config.authority ==> result == Err::<(), AcademyError>(
            AcademyError::Unauthorized,
        ) && *final(ctx) == *old(ctx),
        old(ctx).authority == old(ctx).config.authority ==> result == Ok::<(), AcademyError>(())
            && *final(ctx) == (UpdateConfig {
            config: config_updated(old(ctx).config, params),
            ..*old(ctx)
        }),
        old(ctx).config.wf() ==> final(ctx).config.wf(),
{
    if ctx.authority != ctx.config.authority {
        return Err(AcademyError::Unauthorized);
    }
    if let Some(backend_signer) = params.backend_signer {
        ctx.config.backend_signer = backend_signer;
    }
    if let Some(max_daily_xp) = params.max_daily_xp {
        ctx.config.max_daily_xp = max_daily_xp;
    }
    if let Some(max_achievement_xp) = params.max_achievement_xp {
        ctx.config.max_achievement_xp = max_achievement_xp;
    }
    Ok(())
}

} // verus!
