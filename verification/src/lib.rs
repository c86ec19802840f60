//! Mandarin romanization of Chinese characters.
//!
//! A [`DB`] maps a character to its readings. [`pinyin`] writes the default
//! reading of every character of a text, in one of three ways of showing
//! the tone; [`first_letters`] writes the first letter of each. Characters
//! that the table does not know stay as they are.
pub mod db;
pub mod display;
pub mod grammar;
pub mod polyphone;
pub mod spelling;
pub mod syllable;
pub mod text;
pub mod url;

pub use crate::db::DB;
pub use crate::display::PinyinDisplay;
pub use crate::grammar::{parse_db, ParseError};
pub use crate::polyphone::Polyphone;
pub use crate::spelling::FinalWithTones;
pub use crate::syllable::{py, Finals, Initials, Pinyin, Tones};
pub use crate::url::UrlEncodedString;
use vstd::prelude::*;
use vstd::std_specs::iter::IteratorSpec;

verus! {

/// How to show the tone of a syllable.
#[derive(Debug, Clone, Copy, PartialEq, Eq, Structural)]
pub enum ToneRepresentation {
    /// Not at all: `zhong`.
    NoTones,
    /// As a digit after the syllable: `zhong1`.
    Numbered,
    /// As a mark on a vowel: `zhōng`.
    Unicode,
}

impl Default for ToneRepresentation {
    /// Tones are shown as marks unless something else is asked for.
    fn default() -> (r: ToneRepresentation)
        ensures
            r == ToneRepresentation::Unicode,
    {
        ToneRepresentation::Unicode
    }
}

/// What a request for the readings of a text can say besides the text.
#[derive(Debug, Clone, Copy, PartialEq, Eq, Structural)]
pub struct PinYinQuery {
    /// How to show the tones.
    pub tone_repr: ToneRepresentation,
}

impl ToneRepresentation {
    /// The syllable `p`, to be written with its tone shown this way.
    pub open spec fn display(self, p: Pinyin) -> PinyinDisplay {
        match self {
            ToneRepresentation::NoTones => PinyinDisplay::NoTones(p),
            ToneRepresentation::Numbered => PinyinDisplay::NumberedTone(p),
            ToneRepresentation::Unicode => PinyinDisplay::UnicodeTone(p),
        }
    }

    /// The syllable `p`, to be written with its tone shown this way.
    pub fn of(self, p: Pinyin) -> (r: PinyinDisplay)
        ensures
            r == self.display(p),
    {
        match self {
            ToneRepresentation::NoTones => PinyinDisplay::NoTones(p),
            ToneRepresentation::Numbered => PinyinDisplay::NumberedTone(p),
            ToneRepresentation::Unicode => PinyinDisplay::UnicodeTone(p),
        }
    }
}

/// What [`pinyin`] writes for one character: the default reading of the
/// character, or the character itself if the table does not know it, and
/// then a blank.
pub open spec fn pinyin_of_char(
    table: Map<char, Polyphone>,
    c: char,
    tone_repr: ToneRepresentation,
) -> Seq<char> {
    if table.contains_key(c) {
        tone_repr.display(table[c].first()).text().push(' ')
    } else {
        seq![c, ' ']
    }
}

/// What [`pinyin`] writes for a text: what it writes for each character, one
/// after the other.
pub open spec fn pinyin_of(
    table: Map<char, Polyphone>,
    s: Seq<char>,
    tone_repr: ToneRepresentation,
) -> Seq<char>
    decreases s.len(),
{
    if s.len() == 0 {
        Seq::empty()
    } else {
        pinyin_of(table, s.drop_last(), tone_repr) + pinyin_of_char(table, s.last(), tone_repr)
    }
}

/// What [`first_letters`] writes for one character: the first letter of its
/// default reading, or the character itself if the table does not know it.
pub open spec fn first_letter_of_char(table: Map<char, Polyphone>, c: char) -> Seq<char> {
    if table.contains_key(c) {
        PinyinDisplay::FirstLetter(table[c].first()).text()
    } else {
        seq![c]
    }
}

/// What [`first_letters`] writes for a text: what it writes for each
/// character, one after the other.
pub open spec fn first_letters_of(table: Map<char, Polyphone>, s: Seq<char>) -> Seq<char>
    decreases s.len(),
{
    if s.len() == 0 {
        Seq::empty()
    } else {
        first_letters_of(table, s.drop_last()) + first_letter_of_char(table, s.last())
    }
}

/// Whether the default reading of every character of `s` that the table
/// knows can be written in the given style.
pub open spec fn is_writable(
    table: Map<char, Polyphone>,
    s: Seq<char>,
    style: spec_fn(Pinyin) -> PinyinDisplay,
) -> bool {
    forall|i: int|
        0 <= i < s.len() && table.contains_key(#[trigger] s[i]) ==> style(
            table[s[i]].first(),
        ).is_writable()
}

/// The default readings of the characters of `s`, each followed by a blank.
/// A character that the table does not know is written as it is, and
/// followed by a blank as well.
pub fn pinyin(db: &DB, s: &str, tone_repr: ToneRepresentation) -> (r: String)
    requires
        is_writable(db@, s@, |p: Pinyin| tone_repr.display(p)),
    ensures
        r@ == pinyin_of(db@, s@, tone_repr),
{
    let mut result = String::new();
    let mut it = s.chars();
    let ghost mut done: int = 0;
    assert(s@.subrange(0, 0) =~= Seq::<char>::empty());
    loop
        invariant
            0 <= done <= s@.len(),
            is_writable(db@, s@, |p: Pinyin| tone_repr.display(p)),
            result@ == pinyin_of(db@, s@.subrange(0, done), tone_repr),
            it.remaining() == s@.subrange(done, s@.len() as int),
        decreases s@.len() - done,
    {
        match it.next() {
            Some(c) => {
                let ghost before = result@;
                assert(c == s@[done]);
                match db.get(c) {
                    Some(entry) => {
                        let first = Pinyin::from_u16(entry.0);
                        tone_repr.of(first).write_to(&mut result);
                        result.push(' ');
                    },
                    None => {
                        result.push(c);
                        result.push(' ');
                    },
                }
                proof {
                    assert(result@ =~= before + pinyin_of_char(db@, c, tone_repr));
                    assert(s@.subrange(0, done + 1).drop_last() =~= s@.subrange(0, done));
                    done = done + 1;
                }
            },
            None => {
                assert(s@.subrange(0, done) =~= s@);
                return result;
            },
        }
    }
}

/// The first letters of the default readings of the characters of `s`. A
/// character that the table does not know is written as it is.
pub fn first_letters(db: &DB, s: &str) -> (r: String)
    requires
        is_writable(db@, s@, |p: Pinyin| PinyinDisplay::FirstLetter(p)),
    ensures
        r@ == first_letters_of(db@, s@),
{
    let mut result = String::new();
    let mut it = s.chars();
    let ghost mut done: int = 0;
    assert(s@.subrange(0, 0) =~= Seq::<char>::empty());
    loop
        invariant
            0 <= done <= s@.len(),
            is_writable(db@, s@, |p: Pinyin| PinyinDisplay::FirstLetter(p)),
            result@ == first_letters_of(db@, s@.subrange(0, done)),
            it.remaining() == s@.subrange(done, s@.len() as int),
        decreases s@.len() - done,
    {
        match it.next() {
            Some(c) => {
                let ghost before = result@;
                assert(c == s@[done]);
                match db.get(c) {
                    Some(entry) => {
                        let first = Pinyin::from_u16(entry.0);
                        PinyinDisplay::FirstLetter(first).write_to(&mut result);
                    },
                    None => {
                        result.push(c);
                    },
                }
                proof {
                    assert(result@ =~= before + first_letter_of_char(db@, c));
                    assert(s@.subrange(0, done + 1).drop_last() =~= s@.subrange(0, done));
                    done = done + 1;
                }
            },
            None => {
                assert(s@.subrange(0, done) =~= s@);
                return result;
            },
        }
    }
}

/// The text `s` with a blank after each of its characters.
pub open spec fn spaced(s: Seq<char>) -> Seq<char> {
    Seq::new(
        2 * s.len(),
        |i: int|
            if i % 2 == 0 {
                s[i / 2]
            } else {
                ' '
            },
    )
}

/// A table whose entries are all proper, as every table read from text is,
/// can be written in every style, whatever the text.
pub proof fn lemma_proper_is_writable(
    table: Map<char, Polyphone>,
    s: Seq<char>,
    tone_repr: ToneRepresentation,
)
    requires
        forall|c: char| table.contains_key(c) ==> (#[trigger] table[c]).is_proper(),
    ensures
        is_writable(table, s, |p: Pinyin| tone_repr.display(p)),
        is_writable(table, s, |p: Pinyin| PinyinDisplay::FirstLetter(p)),
{
    assert forall|i: int| 0 <= i < s.len() && table.contains_key(#[trigger] s[i]) implies (
    tone_repr.display(table[s[i]].first()).is_writable() && PinyinDisplay::FirstLetter(
        table[s[i]].first(),
    ).is_writable()) by {
        assert(table[s[i]].is_proper());
    }
}

/// Characters are read one by one: the readings of two texts written one
/// after the other are the readings of the first followed by the readings
/// of the second, and so are the first letters.
pub proof fn lemma_texts_in_a_row(
    table: Map<char, Polyphone>,
    s: Seq<char>,
    t: Seq<char>,
    tone_repr: ToneRepresentation,
)
    ensures
        pinyin_of(table, s + t, tone_repr) == pinyin_of(table, s, tone_repr) + pinyin_of(
            table,
            t,
            tone_repr,
        ),
        first_letters_of(table, s + t) == first_letters_of(table, s) + first_letters_of(table, t),
    decreases t.len(),
{
    if t.len() == 0 {
        assert(s + t =~= s);
        assert(pinyin_of(table, s, tone_repr) + Seq::<char>::empty() =~= pinyin_of(
            table,
            s,
            tone_repr,
        ));
        assert(first_letters_of(table, s) + Seq::<char>::empty() =~= first_letters_of(table, s));
    } else {
        lemma_texts_in_a_row(table, s, t.drop_last(), tone_repr);
        assert((s + t).drop_last() =~= s + t.drop_last());
        assert((s + t).last() == t.last());
        assert(pinyin_of(table, s + t, tone_repr) =~= pinyin_of(table, s, tone_repr) + pinyin_of(
            table,
            t,
            tone_repr,
        ));
        assert(first_letters_of(table, s + t) =~= first_letters_of(table, s) + first_letters_of(
            table,
            t,
        ));
    }
}

/// A text of which the table knows no character comes out as it went in:
/// unchanged as its first letters, and with a blank after each character
/// as its readings.
pub proof fn lemma_unknown_characters_stay(
    table: Map<char, Polyphone>,
    s: Seq<char>,
    tone_repr: ToneRepresentation,
)
    requires
        forall|i: int| 0 <= i < s.len() ==> !table.contains_key(#[trigger] s[i]),
    ensures
        first_letters_of(table, s) == s,
        pinyin_of(table, s, tone_repr) == spaced(s),
    decreases s.len(),
{
    if s.len() == 0 {
        assert(spaced(s) =~= Seq::<char>::empty());
    } else {
        let before = s.drop_last();
        assert forall|i: int| 0 <= i < before.len() implies !table.contains_key(
            #[trigger] before[i],
        ) by {
            assert(before[i] == s[i]);
        }
        lemma_unknown_characters_stay(table, before, tone_repr);
        assert(!table.contains_key(s[s.len() - 1]));
        assert(first_letters_of(table, s) =~= s);
        assert(pinyin_of(table, s, tone_repr) =~= spaced(s)) by {
            assert(pinyin_of(table, s, tone_repr) == spaced(before) + seq![s.last(), ' ']);
            assert forall|i: int| 0 <= i < 2 * s.len() implies (spaced(before) + seq![
                s.last(),
                ' ',
            ])[i] == spaced(s)[i] by {
                if i < 2 * before.len() {
                    assert(s[i / 2] == before[i / 2]);
                }
            }
        }
    }
}

} // verus!
