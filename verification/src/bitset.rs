use vstd::prelude::*;

verus! {

/// Number of slots in a [`BitSet256`].
pub const CAPACITY: u16 = 256;

/// Whether bit `bit` of `word` is one.
pub open spec fn bit_of(word: u64, bit: u64) -> bool {
    word & (1u64 << bit) != 0
}

/// A set of slot numbers below 256, kept as four 64-bit words: slot `i` is bit
/// `i % 64` of word `i / 64`.
#[derive(Clone, Copy, Debug)]
pub struct BitSet256 {
    pub words: [u64; 4],
}

impl View for BitSet256 {
    type V = Set<int>;

    /// The slots that are members.
    open spec fn view(&self) -> Set<int> {
        Set::new(|i: int| self.has(i))
    }
}

impl BitSet256 {
    /// Whether slot `i` is a member. No slot outside `0..256` ever is.
    pub open spec fn has(&self, i: int) -> bool {
        0 <= i < 256 && bit_of(self.words[i / 64], (i % 64) as u64)
    }

    /// The members below `limit`.
    pub open spec fn below(&self, limit: int) -> Set<int> {
        Set::new(|i: int| i < limit && self.has(i))
    }

    /// The set with slot `index` added, word by word; the set itself for an
    /// index outside `0..256`.
    pub open spec fn with_slot(&self, index: int) -> BitSet256 {
        if 0 <= index < 256 {
            BitSet256 {
                words: [
                    Self::word_with_slot(self.words[0], 0, index),
                    Self::word_with_slot(self.words[1], 1, index),
                    Self::word_with_slot(self.words[2], 2, index),
                    Self::word_with_slot(self.words[3], 3, index),
                ],
            }
        } else {
            *self
        }
    }

    /// Word number `position` after slot `index` was added.
    pub open spec fn word_with_slot(word: u64, position: int, index: int) -> u64 {
        if index / 64 == position {
            word | (1u64 << ((index % 64) as u64))
        } else {
            word
        }
    }

    /// Whether `set(index)` on a set with members `members` reports a new member.
    pub open spec fn set_reports(members: Set<int>, index: int) -> bool {
        0 <= index < 256 && !members.contains(index)
    }

    /// The members after `set(index)` on a set with members `members`.
    pub open spec fn set_leaves(members: Set<int>, index: int) -> Set<int> {
        if 0 <= index < 256 {
            members.insert(index)
        } else {
            members
        }
    }

    /// The empty set.
    pub fn new() -> (r: Self)
        ensures
            r@ == Set::<int>::empty(),
            r.words@ == seq![0u64, 0u64, 0u64, 0u64],
    {
        let r = BitSet256 { words: [0u64, 0u64, 0u64, 0u64] };
        proof {
            lemma_zero_words_no_members(r);
        }
        r
    }

    /// Membership of slot `index`; `false` for an index outside the capacity.
    pub fn test(&self, index: u16) -> (r: bool)
        ensures
            r == self@.contains(index as int),
    {
        if index >= CAPACITY {
            return false;
        }
        let word = (index / 64) as usize;
        let bit = (index % 64) as u64;
        self.words[word] & (1u64 << bit) != 0
    }

    /// Adds slot `index` and reports whether it was new. An index outside the
    /// capacity, or one that is a member already, leaves the set as it was and
    /// reports `false`.
    pub fn set(&mut self, index: u16) -> (newly: bool)
        ensures
            newly == Self::set_reports(old(self)@, index as int),
            final(self)@ == Self::set_leaves(old(self)@, index as int),
            *final(self) == old(self).with_slot(index as int),
            !newly ==> *final(self) == *old(self),
    {
        if index >= CAPACITY {
            return false;
        }
        let word = (index / 64) as usize;
        let bit = (index % 64) as u64;
        let mask = 1u64 << bit;
        let before = self.words[word];
        proof {
            lemma_with_slot(*self, index as int);
        }
        if before & mask != 0 {
            proof {
                lemma_or_keeps_set_bit(before, bit);
                assert(self.with_slot(index as int).words =~= self.words);
            }
            return false;
        }
        self.words[word] = before | mask;
        assert(self.words =~= old(self).with_slot(index as int).words);
        true
    }

    /// How many members lie below `limit`.
    pub fn count_below(&self, limit: u16) -> (r: u16)
        ensures
            self.below(limit as int).finite(),
            r == self.below(limit as int).len(),
            r <= limit,
            r <= 256,
    {
        let mut count: u16 = 0;
        let mut i: u16 = 0;
        let stop = if limit < CAPACITY { limit } else { CAPACITY };
        proof {
            assert(self.below(0) =~= Set::<int>::empty());
        }
        while i < stop
            invariant
                i <= stop,
                stop <= 256,
                stop <= limit,
                self.below(i as int).finite(),
                count == self.below(i as int).len(),
                count <= i,
            decreases stop - i,
        {
            if self.test(i) {
                proof {
                    assert(self.below(i + 1) =~= self.below(i as int).insert(i as int));
                }
                count = count + 1;
            } else {
                proof {
                    assert(self.below(i + 1) =~= self.below(i as int));
                }
            }
            i = i + 1;
        }
        proof {
            assert(self.below(limit as int) =~= self.below(stop as int));
        }
        count
    }

    /// How many members the set has.
    pub fn count(&self) -> (r: u16)
        ensures
            self@.finite(),
            r == self@.len(),
            r <= 256,
    {
        let r = self.count_below(CAPACITY);
        proof {
            assert(self@ =~= self.below(256));
        }
        r
    }

    /// Whether every slot of `0..n` is a member. With `n == 0` this holds of
    /// every set; with `n > 256` of none.
    pub fn is_subset_of_range(&self, n: u16) -> (r: bool)
        ensures
            r == (forall|i: int| 0 <= i < n ==> self@.contains(i)),
    {
        let mut i: u16 = 0;
        while i < n
            invariant
                i <= n,
                forall|j: int| 0 <= j < i ==> self@.contains(j),
            decreases n - i,
        {
            if !self.test(i) {
                return false;
            }
            i = i + 1;
        }
        true
    }
}

proof fn lemma_zero_has_no_bit(bit: u64)
    by (bit_vector)
    requires
        bit < 64,
    ensures
        0u64 & (1u64 << bit) == 0,
{
}

/// A set whose four words are zero has no member.
pub proof fn lemma_zero_words_no_members(bits: BitSet256)
    requires
        bits.words@ == seq![0u64, 0u64, 0u64, 0u64],
    ensures
        bits@ == Set::<int>::empty(),
        forall|limit: int| #[trigger] bits.below(limit) == Set::<int>::empty(),
{
    assert forall|i: int| !bits.has(i) by {
        if 0 <= i < 256 {
            lemma_zero_has_no_bit((i % 64) as u64);
        }
    }
}

proof fn lemma_or_sets_one_bit(word: u64, set: u64, probe: u64)
    by (bit_vector)
    requires
        set < 64,
        probe < 64,
    ensures
        ((word | (1u64 << set)) & (1u64 << probe) != 0) == ((word & (1u64 << probe) != 0) || probe
            == set),
{
}

proof fn lemma_or_keeps_set_bit(word: u64, set: u64)
    by (bit_vector)
    requires
        set < 64,
        word & (1u64 << set) != 0,
    ensures
        word | (1u64 << set) == word,
{
}

/// `with_slot` adds the slot and no other: its members are those of
/// `set_leaves`.
pub proof fn lemma_with_slot(bits: BitSet256, index: int)
    ensures
        bits.with_slot(index)@ == BitSet256::set_leaves(bits@, index),
        forall|j: int|
            bits.with_slot(index).has(j) == (bits.has(j) || (j == index && 0 <= index < 256)),
{
    let after = bits.with_slot(index);
    assert forall|j: int| after.has(j) == (bits.has(j) || (j == index && 0 <= index < 256)) by {
        if 0 <= j < 256 && 0 <= index < 256 {
            if j / 64 == index / 64 {
                lemma_or_sets_one_bit(bits.words[j / 64], (index % 64) as u64, (j % 64) as u64);
            }
        }
    }
}

proof fn lemma_or_twice(word: u64, set: u64)
    by (bit_vector)
    requires
        set < 64,
    ensures
        (word | (1u64 << set)) | (1u64 << set) == word | (1u64 << set),
{
}

/// Adding a slot a second time changes no word.
pub proof fn lemma_with_slot_twice(bits: BitSet256, index: int)
    ensures
        bits.with_slot(index).with_slot(index) == bits.with_slot(index),
{
    if 0 <= index < 256 {
        lemma_or_twice(bits.words[index / 64], (index % 64) as u64);
    }
}

/// The members below a limit are finitely many, no more than the limit.
pub proof fn lemma_below_finite(bits: BitSet256, limit: nat)
    ensures
        bits.below(limit as int).finite(),
        bits.below(limit as int).len() <= limit,
    decreases limit,
{
    if limit == 0 {
        assert(bits.below(0) =~= Set::<int>::empty());
    } else {
        lemma_below_finite(bits, (limit - 1) as nat);
        if bits.has(limit - 1) {
            assert(bits.below(limit as int) =~= bits.below(limit - 1).insert(limit - 1));
        } else {
            assert(bits.below(limit as int) =~= bits.below(limit - 1));
        }
    }
}

/// A slot is reported as new exactly once: `set(index)` reports `true` if the
/// index is inside the capacity and no member yet; whatever it did, a second
/// `set(index)` reports `false` and changes nothing; and an index inside the
/// capacity is a member from the first call on, one outside never.
pub proof fn lemma_set_is_idempotent(members: Set<int>, index: int)
    ensures
        BitSet256::set_reports(members, index) <==> 0 <= index < 256 && !members.contains(index),
        !BitSet256::set_reports(BitSet256::set_leaves(members, index), index),
        BitSet256::set_leaves(BitSet256::set_leaves(members, index), index)
            == BitSet256::set_leaves(members, index),
        0 <= index < 256 ==> BitSet256::set_leaves(members, index).contains(index),
        !(0 <= index < 256) ==> BitSet256::set_leaves(members, index) == members,
{
}

/// `set` touches one slot only: any other slot is a member afterwards exactly
/// if it was one before.
pub proof fn lemma_set_keeps_other_slots(members: Set<int>, index: int, other: int)
    requires
        other != index,
    ensures
        BitSet256::set_leaves(members, index).contains(other) == members.contains(other),
{
}

} // verus!
