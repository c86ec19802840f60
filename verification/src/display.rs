//! Writing a syllable out in one of four styles.
use crate::spelling::FinalWithTones;
use crate::syllable::{Finals, Initials, Pinyin};
use vstd::prelude::*;
use vstd::string::StringExecFns;

verus! {

/// A syllable together with the style it is to be written in.
#[derive(Debug, Clone, Copy, PartialEq, Eq, Structural)]
pub enum PinyinDisplay {
    /// Initial, then the final with its tone mark: `zhōng`.
    UnicodeTone(Pinyin),
    /// Initial, bare final, then the digit of the tone: `zhong1`.
    NumberedTone(Pinyin),
    /// Initial and bare final: `zhong`.
    NoTones(Pinyin),
    /// The first letter of the syllable: `z`.
    FirstLetter(Pinyin),
}

/// The first character of `s`, as a text of its own; nothing if `s` is empty.
pub open spec fn first_letter(s: Seq<char>) -> Seq<char> {
    s.take(1)
}

impl PinyinDisplay {
    /// The syllable to be written.
    pub open spec fn syllable(self) -> Pinyin {
        match self {
            PinyinDisplay::UnicodeTone(p) => p,
            PinyinDisplay::NumberedTone(p) => p,
            PinyinDisplay::NoTones(p) => p,
            PinyinDisplay::FirstLetter(p) => p,
        }
    }

    /// Whether the syllable can be written in the style: its word names a
    /// syllable and, where the style marks the tone on the final, a final
    /// is there to carry the mark.
    pub open spec fn is_writable(self) -> bool {
        match self {
            PinyinDisplay::UnicodeTone(p) => p.is_valid() && FinalWithTones(
                p.finals(),
                p.tones(),
            ).is_writable(),
            _ => self.syllable().is_valid(),
        }
    }

    /// The text that the style gives for the syllable.
    pub open spec fn text(self) -> Seq<char> {
        match self {
            PinyinDisplay::UnicodeTone(p) => p.initials().spelling() + FinalWithTones(
                p.finals(),
                p.tones(),
            ).spelling(),
            PinyinDisplay::NumberedTone(p) => p.initials().spelling() + p.finals().spelling()
                + p.tones().digit(),
            PinyinDisplay::NoTones(p) => p.initials().spelling() + p.finals().spelling(),
            PinyinDisplay::FirstLetter(p) => if p.initials() == Initials::Zero {
                first_letter(p.finals().spelling())
            } else {
                first_letter(p.initials().spelling())
            },
        }
    }

    /// Appends the text of the syllable in its style to `out`.
    pub fn write_to(&self, out: &mut String)
        requires
            self.is_writable(),
        ensures
            final(out)@ == old(out)@ + self.text(),
    {
        match self {
            PinyinDisplay::UnicodeTone(p) => {
                out.append(p.initials().as_str());
                out.append(FinalWithTones(p.finals(), p.tones()).as_str());
                assert(out@ =~= old(out)@ + self.text());
            },
            PinyinDisplay::NumberedTone(p) => {
                out.append(p.initials().as_str());
                out.append(p.finals().as_str());
                out.append(p.tones().as_str());
                assert(out@ =~= old(out)@ + self.text());
            },
            PinyinDisplay::NoTones(p) => {
                out.append(p.initials().as_str());
                out.append(p.finals().as_str());
                assert(out@ =~= old(out)@ + self.text());
            },
            PinyinDisplay::FirstLetter(p) => {
                let initials = p.initials();
                let word: &'static str = match initials {
                    Initials::Zero => p.finals().as_str(),
                    _ => initials.as_str(),
                };
                proof {
                    lemma_spellings_not_empty(initials, p.finals());
                }
                out.push(word.get_char(0));
                assert(out@ =~= old(out)@ + self.text());
            },
        }
    }

    /// The text of the syllable in its style.
    pub fn to_string(&self) -> (r: String)
        requires
            self.is_writable(),
        ensures
            r@ == self.text(),
    {
        let mut out = String::new();
        self.write_to(&mut out);
        assert(out@ =~= self.text());
        out
    }
}

impl Pinyin {
    /// The syllable with its tone as a mark: `zhōng`.
    pub fn to_string(&self) -> (r: String)
        requires
            PinyinDisplay::UnicodeTone(*self).is_writable(),
        ensures
            r@ == PinyinDisplay::UnicodeTone(*self).text(),
    {
        PinyinDisplay::UnicodeTone(*self).to_string()
    }
}

/// Every final has at least one letter, and so has every initial but the
/// zero initial.
pub proof fn lemma_spellings_not_empty(initials: Initials, finals: Finals)
    ensures
        finals.spelling().len() >= 1,
        initials != Initials::Zero ==> initials.spelling().len() >= 1,
        initials == Initials::Zero ==> initials.spelling().len() == 0,
{
    reveal_strlit("");
    reveal_strlit("b");
    reveal_strlit("p");
    reveal_strlit("m");
    reveal_strlit("f");
    reveal_strlit("d");
    reveal_strlit("t");
    reveal_strlit("n");
    reveal_strlit("l");
    reveal_strlit("g");
    reveal_strlit("k");
    reveal_strlit("h");
    reveal_strlit("j");
    reveal_strlit("q");
    reveal_strlit("x");
    reveal_strlit("zh");
    reveal_strlit("ch");
    reveal_strlit("sh");
    reveal_strlit("r");
    reveal_strlit("z");
    reveal_strlit("c");
    reveal_strlit("s");
    reveal_strlit("y");
    reveal_strlit("w");
    reveal_strlit("none");
    reveal_strlit("a");
    reveal_strlit("o");
    reveal_strlit("e");
    reveal_strlit("u");
    reveal_strlit("i");
    reveal_strlit("ai");
    reveal_strlit("ao");
    reveal_strlit("ei");
    reveal_strlit("ou");
    reveal_strlit("ong");
    reveal_strlit("an");
    reveal_strlit("en");
    reveal_strlit("ang");
    reveal_strlit("eng");
    reveal_strlit("er");
    reveal_strlit("ia");
    reveal_strlit("ie");
    reveal_strlit("iao");
    reveal_strlit("ian");
    reveal_strlit("ing");
    reveal_strlit("iang");
    reveal_strlit("in");
    reveal_strlit("iou");
    reveal_strlit("iong");
    reveal_strlit("iu");
    reveal_strlit("ui");
    reveal_strlit("ua");
    reveal_strlit("un");
    reveal_strlit("uan");
    reveal_strlit("uang");
    reveal_strlit("uo");
    reveal_strlit("ue");
    reveal_strlit("ü");
    reveal_strlit("üe");
    reveal_strlit("üan");
}

} // verus!
