use vstd::prelude::*;
use crate::pubkey::Pubkey;

verus! {

/// Where the platform stands with its seasons.
#[derive(Clone, Copy, Debug, PartialEq, Eq, Structural)]
pub enum SeasonState {
    /// No season was opened yet.
    NoSeason,
    /// The latest season is open.
    Open,
    /// The latest season is closed.
    Closed,
}

/// The platform's single configuration record.
#[derive(Clone, Copy, Debug, PartialEq, Eq)]
pub struct Config {
    /// Platform authority.
    pub authority: Pubkey,
    /// Signer that attests completions verified elsewhere; it can be rotated.
    pub backend_signer: Pubkey,
    /// Number of the latest season; 0 until the first one is created.
    pub current_season: u16,
    /// Reward currency of the latest season; the zero key until one exists.
    pub current_mint: Pubkey,
    /// Whether the latest season is closed; `true` until the first one opens.
    /// While it is closed, every request that would order reward currency is
    /// refused.
    pub season_closed: bool,
    /// When the latest season opened.
    pub season_started_at: i64,
    /// Most experience points a learner may earn in one day.
    pub max_daily_xp: u32,
    /// Most experience points one achievement may grant.
    pub max_achievement_xp: u32,
    /// Kept free for later use.
    pub _reserved: [u8; 32],
    /// Bump of the record's address.
    pub bump: u8,
}

impl Config {
    /// Stored size in bytes: an 8-byte tag, then the fields in order.
    pub const SIZE: usize = 8 + 32 + 32 + 2 + 32 + 1 + 8 + 4 + 4 + 32 + 1;

    /// Salt of the record's address: the bytes of `config`.
    pub const SEED: [u8; 6] = [99, 111, 110, 102, 105, 103];

    /// Before the first season the season counts as closed.
    pub open spec fn wf(&self) -> bool {
        self.current_season == 0 ==> self.season_closed
    }

    /// Where the platform stands with its seasons.
    pub open spec fn season_state_spec(&self) -> SeasonState {
        if self.current_season == 0 {
            SeasonState::NoSeason
        } else if self.season_closed {
            SeasonState::Closed
        } else {
            SeasonState::Open
        }
    }

    /// Where the platform stands with its seasons.
    #[verifier::when_used_as_spec(season_state_spec)]
    pub fn season_state(&self) -> (state: SeasonState)
        ensures
            state == self.season_state_spec(),
    {
        if self.current_season == 0 {
            SeasonState::NoSeason
        } else if self.season_closed {
            SeasonState::Closed
        } else {
            SeasonState::Open
        }
    }
}

} // verus!
