use vstd::prelude::*;
use vstd::slice::slice_to_vec;
use vstd::string::StringSliceAdditionalSpecFns;
use crate::bitset::{lemma_below_finite, lemma_with_slot, lemma_with_slot_twice, BitSet256};
use crate::pubkey::Pubkey;
use crate::state::course::Course;

verus! {

/// One learner's enrollment in one course.
#[derive(Clone, Copy, Debug, PartialEq, Eq)]
pub struct Enrollment {
    /// The course.
    pub course: Pubkey,
    /// Version of the course when the learner enrolled.
    pub enrolled_version: u16,
    /// When the learner enrolled.
    pub enrolled_at: i64,
    /// When the course was finalized; absent until then.
    pub completed_at: Option<i64>,
    /// Completed lessons, one bit each; only the first 128 bits are used.
    pub lesson_flags: [u64; 4],
    /// Credential issued for the course's track, if any.
    pub credential_asset: Option<Pubkey>,
    /// Whether the completion bonus was claimed.
    pub bonus_claimed: bool,
    /// Kept free for later use.
    pub _reserved: [u8; 7],
    /// Bump of the record's address.
    pub bump: u8,
}

impl Enrollment {
    /// Stored size in bytes: an 8-byte tag, then the fields in order, an
    /// optional value with one byte in front.
    pub const SIZE: usize = 8 + 32 + 2 + 8 + 9 + 32 + 33 + 1 + 7 + 1;

    /// First salt of an enrollment's address: the bytes of `enrollment`.
    pub const SEED: [u8; 10] = [101, 110, 114, 111, 108, 108, 109, 101, 110, 116];

    /// Lessons that an enrollment can track.
    pub const LESSON_CAPACITY: u8 = 128;

    /// The lesson bitmap as a set.
    pub open spec fn lesson_bits(&self) -> BitSet256 {
        BitSet256 { words: self.lesson_flags }
    }

    /// The completed lessons: the bits below 128.
    pub open spec fn lessons(&self) -> Set<int> {
        self.lesson_bits().below(128)
    }

    /// No bit from 128 on is set, a bonus is claimed only after completion, and
    /// a credential is held only after completion.
    pub open spec fn wf(&self) -> bool {
        &&& self.lesson_bits()@ == self.lessons()
        &&& self.bonus_claimed ==> self.completed_at is Some
        &&& self.credential_asset is Some ==> self.completed_at is Some
    }

    /// The salts of the address of the course `course_id`.
    pub fn course_seeds(course_id: &str) -> (seeds: Vec<&[u8]>)
        ensures
            seeds@.len() == 2,
            seeds@[0]@ == Course::SEED@,
            seeds@[1]@ == course_id.spec_bytes(),
    {
        Course::seeds(course_id)
    }

    /// The salts of the address of `learner`'s enrollment in the course
    /// `course_id`: the fixed salt, the identifier's bytes, the learner's bytes.
    pub fn learner_seeds(course_id: &str, learner: &Pubkey) -> (seeds: Vec<Vec<u8>>)
        ensures
            seeds@.len() == 3,
            seeds@[0]@ == Self::SEED@,
            seeds@[1]@ == course_id.spec_bytes(),
            seeds@[2]@ == learner.bytes@,
    {
        let salt: [u8; 10] = Self::SEED;
        let key: [u8; 32] = learner.to_bytes();
        let mut seeds: Vec<Vec<u8>> = Vec::new();
        seeds.push(slice_to_vec(salt.as_slice()));
        seeds.push(slice_to_vec(course_id.as_bytes()));
        seeds.push(slice_to_vec(key.as_slice()));
        seeds
    }

    /// Whether lesson `lesson_index` is completed; `false` from 128 on.
    pub fn is_lesson_completed(&self, lesson_index: u8) -> (done: bool)
        ensures
            done == self.lessons().contains(lesson_index as int),
    {
        if lesson_index >= Self::LESSON_CAPACITY {
            return false;
        }
        let bits = BitSet256 { words: self.lesson_flags };
        bits.test(lesson_index as u16)
    }

    /// The enrollment with lesson `lesson_index` marked as completed; the
    /// enrollment itself for an index from 128 on.
    pub open spec fn with_lesson(&self, lesson_index: u8) -> Enrollment {
        if lesson_index < 128 {
            Enrollment {
                lesson_flags: self.lesson_bits().with_slot(lesson_index as int).words,
                ..*self
            }
        } else {
            *self
        }
    }

    /// Marks lesson `lesson_index` as completed and reports whether it was new.
    /// For an index from 128 on, or a lesson completed before, nothing changes
    /// and the answer is `false`.
    pub fn complete_lesson(&mut self, lesson_index: u8) -> (newly: bool)
        ensures
            newly == (lesson_index < 128 && !old(self).lessons().contains(lesson_index as int)),
            *final(self) == old(self).with_lesson(lesson_index),
            final(self).lessons() == (if lesson_index < 128 {
                old(self).lessons().insert(lesson_index as int)
            } else {
                old(self).lessons()
            }),
            !newly ==> *final(self) == *old(self),
            old(self).wf() ==> final(self).wf(),
    {
        proof {
            lemma_with_lesson(*self, lesson_index);
        }
        if lesson_index >= Self::LESSON_CAPACITY {
            return false;
        }
        let mut bits = BitSet256 { words: self.lesson_flags };
        let newly = bits.set(lesson_index as u16);
        self.lesson_flags = bits.words;
        newly
    }

    /// Whether all of the lessons `0..lesson_count` are completed. This holds
    /// of every enrollment when `lesson_count` is 0, and of none when it is
    /// above 128.
    pub fn is_course_completed(&self, lesson_count: u8) -> (done: bool)
        ensures
            done == (forall|i: int| 0 <= i < lesson_count ==> self.lessons().contains(i)),
    {
        let mut i: u8 = 0;
        while i < lesson_count
            invariant
                i <= lesson_count,
                forall|j: int| 0 <= j < i ==> self.lessons().contains(j),
            decreases lesson_count - i,
        {
            if !self.is_lesson_completed(i) {
                return false;
            }
            i = i + 1;
        }
        true
    }

    /// Number of completed lessons.
    pub fn completed_lessons(&self) -> (count: u8)
        ensures
            self.lessons().finite(),
            count == self.lessons().len(),
            count <= 128,
    {
        let bits = BitSet256 { words: self.lesson_flags };
        let count = bits.count_below(128);
        count as u8
    }
}

/// Marking a lesson adds it to the completed lessons and changes no other;
/// an enrollment that was well formed stays so.
pub proof fn lemma_with_lesson(enrollment: Enrollment, lesson_index: u8)
    ensures
        enrollment.with_lesson(lesson_index).lessons() == (if lesson_index < 128 {
            enrollment.lessons().insert(lesson_index as int)
        } else {
            enrollment.lessons()
        }),
        enrollment.wf() ==> enrollment.with_lesson(lesson_index).wf(),
{
    let after = enrollment.with_lesson(lesson_index);
    lemma_with_slot(enrollment.lesson_bits(), lesson_index as int);
    if lesson_index < 128 {
        let added = enrollment.lesson_bits().with_slot(lesson_index as int);
        assert forall|i: int|
            after.lessons().contains(i) == enrollment.lessons().insert(
                lesson_index as int,
            ).contains(i) by {
            assert(added.has(i) == (enrollment.lesson_bits().has(i) || i == lesson_index));
        }
    }
}

/// A lesson is marked once: after `complete_lesson(lesson_index)`, whatever it
/// answered, a second one answers `false` and changes nothing; and from 128 on
/// the first one changes nothing either.
pub proof fn lemma_lesson_marked_once(enrollment: Enrollment, lesson_index: u8)
    ensures
        lesson_index < 128 ==> enrollment.with_lesson(lesson_index).lessons().contains(
            lesson_index as int,
        ),
        enrollment.with_lesson(lesson_index).with_lesson(lesson_index) == enrollment.with_lesson(
            lesson_index,
        ),
        lesson_index >= 128 ==> enrollment.with_lesson(lesson_index) == enrollment,
{
    lemma_with_lesson(enrollment, lesson_index);
    if lesson_index < 128 {
        lemma_with_slot_twice(enrollment.lesson_bits(), lesson_index as int);
    }
}

/// The completed lessons are finitely many, at most 128.
pub proof fn lemma_lessons_finite(enrollment: Enrollment)
    ensures
        enrollment.lessons().finite(),
        enrollment.lessons().len() <= 128,
{
    lemma_below_finite(enrollment.lesson_bits(), 128);
}

} // verus!
