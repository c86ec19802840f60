//! The readings of one character.
//!
//! A character has up to three readings. They are kept as three packed
//! syllables in the order in which they were given; a slot that holds zero
//! is unused. The first slot is the default reading.
use crate::syllable::{Finals, Pinyin};
use vstd::prelude::*;

verus! {

/// Up to three readings of one character, the default reading first.
#[derive(Debug, Clone, Copy, PartialEq, Eq, Structural)]
pub struct Polyphone(pub u16, pub u16, pub u16);

/// The reading held by a slot: none if the slot is zero.
pub open spec fn slot_readings(word: u16) -> Seq<Pinyin> {
    if word == 0 {
        Seq::empty()
    } else {
        seq![Pinyin::of_word(word)]
    }
}

/// The word of the syllable at `i`, or zero past the end of `syllables`.
pub open spec fn word_at(syllables: Seq<Pinyin>, i: int) -> u16 {
    if i < syllables.len() {
        syllables[i].bits
    } else {
        0
    }
}

impl Polyphone {
    /// The entry that holds nothing: all three slots are zero. The lookup
    /// table reads it as "no entry".
    pub open spec fn empty() -> Polyphone {
        Polyphone(0, 0, 0)
    }

    /// The default reading: whatever the first slot holds.
    pub open spec fn first(self) -> Pinyin {
        Pinyin::of_word(self.0)
    }

    /// Whether the default reading is a syllable with a final. Every entry
    /// read from a table is proper.
    pub open spec fn is_proper(self) -> bool {
        self.first().is_valid() && self.first().finals() != Finals::Zero
    }

    /// The readings in their order, unused slots left out.
    pub open spec fn readings(self) -> Seq<Pinyin> {
        slot_readings(self.0) + slot_readings(self.1) + slot_readings(self.2)
    }

    /// The entry for a list of readings: the first three, in order, the
    /// remaining slots zero.
    pub open spec fn of_syllables(syllables: Seq<Pinyin>) -> Polyphone {
        Polyphone(word_at(syllables, 0), word_at(syllables, 1), word_at(syllables, 2))
    }

    /// The entry with the three slots as given.
    pub fn new(a: u16, b: u16, c: u16) -> (r: Polyphone)
        ensures
            r == Polyphone(a, b, c),
    {
        Polyphone(a, b, c)
    }

    /// The readings in their order, unused slots left out.
    pub fn iter(&self) -> (r: Vec<Pinyin>)
        ensures
            r@ == self.readings(),
    {
        let mut out: Vec<Pinyin> = Vec::new();
        if self.0 != 0 {
            out.push(Pinyin::from_u16(self.0));
        }
        assert(out@ =~= slot_readings(self.0));
        if self.1 != 0 {
            out.push(Pinyin::from_u16(self.1));
        }
        assert(out@ =~= slot_readings(self.0) + slot_readings(self.1));
        if self.2 != 0 {
            out.push(Pinyin::from_u16(self.2));
        }
        assert(out@ =~= self.readings());
        out
    }

    /// The entry for a list of readings, the default reading first. Of more
    /// than three readings the first three are kept.
    pub fn from(value: Vec<Pinyin>) -> (r: Polyphone)
        requires
            value@.len() >= 1,
        ensures
            r == Polyphone::of_syllables(value@),
            r.first() == value@[0],
    {
        let first: u16 = value[0].to_u16();
        let second: u16 = if value.len() > 1 {
            value[1].to_u16()
        } else {
            0
        };
        let third: u16 = if value.len() > 2 {
            value[2].to_u16()
        } else {
            0
        };
        Polyphone(first, second, third)
    }
}

/// Up to three readings, none of them the all-zero syllable, come back out
/// of their entry as they went in.
pub proof fn lemma_readings_of_syllables(syllables: Seq<Pinyin>)
    requires
        syllables.len() <= 3,
        forall|i: int| 0 <= i < syllables.len() ==> (#[trigger] syllables[i]).bits != 0,
    ensures
        Polyphone::of_syllables(syllables).readings() == syllables,
{
    let p = Polyphone::of_syllables(syllables);
    if syllables.len() >= 1 {
        assert(slot_readings(p.0) =~= seq![syllables[0]]);
    }
    if syllables.len() >= 2 {
        assert(slot_readings(p.1) =~= seq![syllables[1]]);
    }
    if syllables.len() >= 3 {
        assert(slot_readings(p.2) =~= seq![syllables[2]]);
    }
    assert(p.readings() =~= syllables);
}

impl Default for Polyphone {
    /// The entry that holds nothing.
    fn default() -> (r: Polyphone)
        ensures
            r == Polyphone::empty(),
    {
        Polyphone(0, 0, 0)
    }
}

impl From<Polyphone> for Pinyin {
    /// The default reading.
    fn from(value: Polyphone) -> (r: Pinyin) {
        Pinyin::from_u16(value.0)
    }
}

impl vstd::std_specs::convert::FromSpecImpl<Polyphone> for Pinyin {
    open spec fn obeys_from_spec() -> bool {
        true
    }

    open spec fn from_spec(value: Polyphone) -> Pinyin {
        value.first()
    }
}

} // verus!
