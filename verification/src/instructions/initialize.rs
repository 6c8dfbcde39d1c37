use vstd::prelude::*;
use crate::errors::AcademyError;
use crate::pubkey::Pubkey;
use crate::state::config::Config;

verus! {

/// What `initialize` works on.
#[derive(Clone, Copy, Debug, PartialEq, Eq)]
pub struct Initialize {
    /// The platform authority to be.
    pub authority: Pubkey,
    /// The backend signer to be.
    pub backend_signer: Pubkey,
    /// The configuration record's place: empty until the platform is set up.
    pub config: Option<Config>,
    /// Bump of the record's address.
    pub bump: u8,
}

/// The ceilings the platform starts with.
#[derive(Clone, Copy, Debug, PartialEq, Eq)]
pub struct InitializeParams {
    pub max_daily_xp: u32,
    pub max_achievement_xp: u32,
}

/// The configuration of a platform that was just set up: no season yet, so
/// the season counts as closed and the currency is the zero key.
pub open spec fn initial_config(ctx: Initialize, params: InitializeParams) -> Config {
    Config {
        authority: ctx.authority,
        backend_signer: ctx.backend_signer,
        current_season: 0,
        current_mint: Pubkey { bytes: vstd::array::spec_array_fill_for_copy_type::<u8, 32>(0u8) },
        season_closed: true,
        season_started_at: 0,
        max_daily_xp: params.max_daily_xp,
        max_achievement_xp: params.max_achievement_xp,
        _reserved: vstd::array::spec_array_fill_for_copy_type::<u8, 32>(0u8),
        bump: ctx.bump,
    }
}

/// Sets the platform up, once. Where a configuration exists already the
/// answer is `AlreadyInitialized` and nothing changes.
pub fn initialize(ctx: &mut Initialize, params: InitializeParams) -> (result: Result<
    (),
    AcademyError,
>)
    ensures
        old(ctx).config is Some ==> result == Err::<(), AcademyError>(
            AcademyError::AlreadyInitialized,
        ) && *final(ctx) == *old(ctx),
        old(ctx).config is None ==> result == Ok::<(), AcademyError>(())
            && *final(ctx) == (Initialize {
            config: Some(initial_config(*old(ctx), params)),
            ..*old(ctx)
        }),
        result is Ok ==> final(ctx).config->0.wf(),
{
    if ctx.config.is_some() {
        return Err(AcademyError::AlreadyInitialized);
    }
    ctx.config = Some(
        Config {
            authority: ctx.authority,
            backend_signer: ctx.backend_signer,
            current_season: 0,
            current_mint: Pubkey { bytes: [0u8; 32] },
            season_closed: true,
            season_started_at: 0,
            max_daily_xp: params.max_daily_xp,
            max_achievement_xp: params.max_achievement_xp,
            _reserved: [0u8; 32],
            bump: ctx.bump,
        },
    );
    Ok(())
}

} // verus!
