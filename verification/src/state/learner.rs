use vstd::prelude::*;
use crate::bitset::{lemma_with_slot, BitSet256};
use crate::pubkey::Pubkey;

verus! {

/// A learner's progress across courses. There is one per learner.
#[derive(Clone, Copy, Debug, PartialEq, Eq)]
pub struct LearnerProfile {
    /// The learner.
    pub authority: Pubkey,
    /// Days in a row with activity, up to the last activity.
    pub current_streak: u16,
    /// Longest streak so far.
    pub longest_streak: u16,
    /// Time of the last activity.
    pub last_activity_date: i64,
    /// Streak freezes in hand.
    pub streak_freezes: u8,
    /// Claimed achievements, one bit each.
    pub achievement_flags: [u64; 4],
    /// Experience points earned on the day `last_xp_day`.
    pub xp_earned_today: u32,
    /// Day of the last earning.
    pub last_xp_day: u16,
    /// Learners who named this one as their referrer.
    pub referral_count: u16,
    /// Whether this learner has named a referrer.
    pub has_referrer: bool,
    /// Kept free for later use.
    pub _reserved: [u8; 16],
    /// Bump of the record's address.
    pub bump: u8,
}

impl LearnerProfile {
    /// Stored size in bytes: an 8-byte tag, then the fields in order.
    pub const SIZE: usize = 8 + 32 + 2 + 2 + 8 + 1 + 32 + 4 + 2 + 2 + 1 + 16 + 1;

    /// First salt of a profile's address: the bytes of `learner`.
    pub const SEED: [u8; 7] = [108, 101, 97, 114, 110, 101, 114];

    /// The achievement bitmap as a set.
    pub open spec fn achievement_bits(&self) -> BitSet256 {
        BitSet256 { words: self.achievement_flags }
    }

    /// The achievements claimed so far.
    pub open spec fn achievements(&self) -> Set<int> {
        self.achievement_bits()@
    }

    /// The longest streak is never shorter than the current one.
    pub open spec fn wf(&self) -> bool {
        self.current_streak <= self.longest_streak
    }

    /// Whether achievement `index` is claimed.
    pub fn is_achievement_claimed(&self, index: u8) -> (claimed: bool)
        ensures
            claimed == self.achievements().contains(index as int),
    {
        let bits = BitSet256 { words: self.achievement_flags };
        bits.test(index as u16)
    }

    /// The profile with achievement `index` marked as claimed.
    pub open spec fn with_achievement(&self, index: u8) -> LearnerProfile {
        LearnerProfile {
            achievement_flags: self.achievement_bits().with_slot(index as int).words,
            ..*self
        }
    }

    /// Marks achievement `index` as claimed. Nothing else changes.
    pub fn claim_achievement(&mut self, index: u8)
        ensures
            *final(self) == old(self).with_achievement(index),
            final(self).achievements() == old(self).achievements().insert(index as int),
    {
        let mut bits = BitSet256 { words: self.achievement_flags };
        let _ = bits.set(index as u16);
        self.achievement_flags = bits.words;
    }
}

/// Marking an achievement adds it to the claimed ones and changes no other.
pub proof fn lemma_with_achievement(learner: LearnerProfile, index: u8)
    ensures
        learner.with_achievement(index).achievements() == learner.achievements().insert(
            index as int,
        ),
        learner.with_achievement(index).wf() == learner.wf(),
{
    lemma_with_slot(learner.achievement_bits(), index as int);
}

} // verus!
