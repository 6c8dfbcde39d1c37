use vstd::prelude::*;
use crate::errors::AcademyError;
use crate::pubkey::Pubkey;
use crate::state::config::{Config, SeasonState};

verus! {

/// What `close_season` works on.
#[derive(Clone, Copy, Debug, PartialEq, Eq)]
pub struct CloseSeason {
    /// The configuration record.
    pub config: Config,
    /// Who asks.
    pub authority: Pubkey,
}

/// Closes the current season, whatever its state; only the platform
/// authority may.
pub fn close_season(ctx: &mut CloseSeason) -> (result: Result<(), AcademyError>)
    ensures
        old(ctx).authority != old(ctx).config.authority ==> result == Err::<(), AcademyError>(
            AcademyError::Unauthorized,
        ) && *final(ctx) == *old(ctx),
        old(ctx).authority == old(ctx).config.authority ==> result == Ok::<(), AcademyError>(())
            && *final(ctx) == (CloseSeason {
            config: Config { season_closed: true, ..old(ctx).config },
            ..*old(ctx)
        }),
        result is Ok ==> final(ctx).config.wf() && final(ctx).config.season_state()
            != SeasonState::Open,
{
    if ctx.authority != ctx.config.authority {
        return Err(AcademyError::Unauthorized);
    }
    ctx.config.season_closed = true;
    Ok(())
}

} // verus!
