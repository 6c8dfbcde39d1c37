use vstd::prelude::*;
use crate::errors::AcademyError;
use crate::pubkey::Pubkey;
use crate::state::config::{Config, SeasonState};

verus! {

/// What `create_season` works on.
#[derive(Clone, Copy, Debug, PartialEq, Eq)]
pub struct CreateSeason {
    /// The configuration record.
    pub config: Config,
    /// Who asks.
    pub authority: Pubkey,
    /// The new season's reward currency.
    pub xp_mint: Pubkey,
}

/// Why season `season` cannot be opened, if it cannot: the asker is not the
/// platform authority; the number is not the next one; or a season exists and
/// is still open.
pub open spec fn create_season_refusal(ctx: CreateSeason, season: u16) -> Option<AcademyError> {
    if ctx.authority != ctx.config.authority {
        Some(AcademyError::Unauthorized)
    } else if season != ctx.config.current_season + 1 {
        Some(AcademyError::InvalidSeasonNumber)
    } else if ctx.config.current_season > 0 && !ctx.config.season_closed {
        Some(AcademyError::SeasonNotClosed)
    } else {
        None
    }
}

/// The state after season `season` was opened at `now`.
pub open spec fn create_season_applied(ctx: CreateSeason, season: u16, now: i64) -> CreateSeason {
    CreateSeason {
        config: Config {
            current_season: season,
            current_mint: ctx.xp_mint,
            season_closed: false,
            season_started_at: now,
            ..ctx.config
        },
        ..ctx
    }
}

/// Opens season `season` with the currency `ctx.xp_mint`. Seasons are opened
/// in order, one at a time. A refusal changes nothing.
pub fn create_season(ctx: &mut CreateSeason, season: u16, now: i64) -> (result: Result<
    (),
    AcademyError,
>)
    ensures
        match create_season_refusal(*old(ctx), season) {
            Some(e) => result == Err::<(), AcademyError>(e) && *final(ctx) == *old(ctx),
            None => result == Ok::<(), AcademyError>(()) && *final(ctx) == create_season_applied(
                *old(ctx),
                season,
                now,
            ),
        },
        result is Ok ==> final(ctx).config.wf() && final(ctx).config.season_state()
            == SeasonState::Open,
{
    if ctx.authority != ctx.config.authority {
        return Err(AcademyError::Unauthorized);
    }
    if ctx.config.current_season == u16::MAX || season != ctx.config.current_season + 1 {
        return Err(AcademyError::InvalidSeasonNumber);
    }
    if ctx.config.current_season > 0 && !ctx.config.season_closed {
        return Err(AcademyError::SeasonNotClosed);
    }
    ctx.config.current_season = season;
    ctx.config.current_mint = ctx.xp_mint;
    ctx.config.season_closed = false;
    ctx.config.season_started_at = now;
    Ok(())
}

/// Seasons do not overlap and come in order: a season is opened only while
/// none is open, its number is the next one, it is open afterwards, and while
/// it is open no other season can be opened, whatever its number.
pub proof fn lemma_seasons_in_sequence(ctx: CreateSeason, season: u16, now: i64, next: u16)
    requires
        create_season_refusal(ctx, season) is None,
    ensures
        ctx.config.season_state() != SeasonState::Open,
        season == ctx.config.current_season + 1,
        create_season_applied(ctx, season, now).config.season_state() == SeasonState::Open,
        create_season_refusal(create_season_applied(ctx, season, now), next) is Some,
{
}

} // verus!
