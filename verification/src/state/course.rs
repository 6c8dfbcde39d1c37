use vstd::prelude::*;
use vstd::string::StringSliceAdditionalSpecFns;
use vstd::utf8::encode_utf8;
use crate::pubkey::Pubkey;

verus! {

/// A catalog entry. Its `course_id` is its identity and never changes.
#[derive(Clone, Debug, PartialEq, Eq)]
pub struct Course {
    /// Identifier of the course, at most 32 bytes.
    pub course_id: String,
    /// Who earns the creator reward on completions.
    pub creator: Pubkey,
    /// Who may update the entry.
    pub authority: Pubkey,
    /// Reference to the content, opaque here.
    pub content_tx_id: [u8; 32],
    /// Content version: 1 at creation, one more with each new content reference.
    pub version: u16,
    /// Number of lessons.
    pub lesson_count: u8,
    /// 1 beginner, 2 intermediate, 3 advanced.
    pub difficulty: u8,
    /// Experience points for each lesson.
    pub xp_per_lesson: u32,
    /// Track the course belongs to.
    pub track_id: u16,
    /// Level within the track: 1, 2 or 3.
    pub track_level: u8,
    /// Course that has to be completed first, if any.
    pub prerequisite: Option<Pubkey>,
    /// Bonus for completing the course.
    pub completion_bonus_xp: u32,
    /// Reward to the creator for each completion.
    pub creator_reward_xp: u32,
    /// Completions needed before the creator is rewarded.
    pub min_completions_for_reward: u16,
    /// Completions so far.
    pub total_completions: u32,
    /// Enrollments so far.
    pub total_enrollments: u32,
    /// Whether new enrollments are accepted.
    pub is_active: bool,
    /// When the entry was created.
    pub created_at: i64,
    /// When the entry was last updated.
    pub updated_at: i64,
    /// Kept free for later use.
    pub _reserved: [u8; 16],
    /// Bump of the record's address.
    pub bump: u8,
}

impl Course {
    /// Longest identifier, in bytes.
    pub const MAX_COURSE_ID_LEN: usize = 32;

    /// Stored size in bytes: an 8-byte tag, then the fields in order, the
    /// identifier with a 4-byte length in front and an optional key with one
    /// byte in front.
    pub const SIZE: usize = 8 + 4 + Self::MAX_COURSE_ID_LEN + 32 + 32 + 32 + 2 + 1 + 1 + 4 + 2 + 1
        + 33 + 4 + 4 + 2 + 4 + 4 + 1 + 8 + 8 + 16 + 1;

    /// First salt of a course's address: the bytes of `course`.
    pub const SEED: [u8; 6] = [99, 111, 117, 114, 115, 101];

    /// Length of an identifier in bytes.
    pub open spec fn id_len(course_id: Seq<char>) -> nat {
        encode_utf8(course_id).len()
    }

    /// What holds of every entry that `create_course` made, and still holds
    /// after any update.
    pub open spec fn wf(&self) -> bool {
        &&& Self::id_len(self.course_id@) <= 32
        &&& 1 <= self.difficulty <= 3
        &&& 1 <= self.track_level <= 3
        &&& self.version >= 1
    }

    /// The salts of the address of the course `course_id`: the fixed salt, then
    /// the identifier's bytes.
    pub fn seeds(course_id: &str) -> (seeds: Vec<&[u8]>)
        ensures
            seeds@.len() == 2,
            seeds@[0]@ == Self::SEED@,
            seeds@[1]@ == course_id.spec_bytes(),
    {
        let salt: &'static [u8; 6] = &Self::SEED;
        let mut seeds: Vec<&[u8]> = Vec::new();
        seeds.push(salt.as_slice());
        seeds.push(course_id.as_bytes());
        seeds
    }
}

} // verus!
