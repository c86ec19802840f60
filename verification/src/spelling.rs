//! How the components of a syllable are written.
//!
//! An initial and a tone each have one spelling. A final has a bare spelling
//! and, for each of the four tones, a spelling that carries the tone mark on
//! one of its vowels. The marked spellings form a closed table; reading a
//! spelling back is the inverse of that table and accepts nothing else.
use crate::syllable::{Finals, Initials, Tones};
use crate::text::span_is;
use vstd::prelude::*;

verus! {

impl Initials {
    /// The letters of the initial; none for the zero initial.
    pub open spec fn spelling(self) -> Seq<char> {
        match self {
            Initials::Zero => ""@,
            Initials::B => "b"@,
            Initials::P => "p"@,
            Initials::M => "m"@,
            Initials::F => "f"@,
            Initials::D => "d"@,
            Initials::T => "t"@,
            Initials::N => "n"@,
            Initials::L => "l"@,
            Initials::G => "g"@,
            Initials::K => "k"@,
            Initials::H => "h"@,
            Initials::J => "j"@,
            Initials::Q => "q"@,
            Initials::X => "x"@,
            Initials::ZH => "zh"@,
            Initials::CH => "ch"@,
            Initials::SH => "sh"@,
            Initials::R => "r"@,
            Initials::Z => "z"@,
            Initials::C => "c"@,
            Initials::S => "s"@,
            Initials::Y => "y"@,
            Initials::W => "w"@,
        }
    }

    /// The letters of the initial; the empty string for the zero initial.
    pub fn as_str(self) -> (r: &'static str)
        ensures
            r@ == self.spelling(),
    {
        match self {
            Initials::Zero => "",
            Initials::B => "b",
            Initials::P => "p",
            Initials::M => "m",
            Initials::F => "f",
            Initials::D => "d",
            Initials::T => "t",
            Initials::N => "n",
            Initials::L => "l",
            Initials::G => "g",
            Initials::K => "k",
            Initials::H => "h",
            Initials::J => "j",
            Initials::Q => "q",
            Initials::X => "x",
            Initials::ZH => "zh",
            Initials::CH => "ch",
            Initials::SH => "sh",
            Initials::R => "r",
            Initials::Z => "z",
            Initials::C => "c",
            Initials::S => "s",
            Initials::Y => "y",
            Initials::W => "w",
        }
    }
}

impl Finals {
    /// The letters of the final without a tone mark.
    pub open spec fn spelling(self) -> Seq<char> {
        match self {
            Finals::Zero => "none"@,
            Finals::A => "a"@,
            Finals::O => "o"@,
            Finals::E => "e"@,
            Finals::U => "u"@,
            Finals::I => "i"@,
            Finals::AI => "ai"@,
            Finals::AO => "ao"@,
            Finals::EI => "ei"@,
            Finals::OU => "ou"@,
            Finals::Ong => "ong"@,
            Finals::AN => "an"@,
            Finals::EN => "en"@,
            Finals::Ang => "ang"@,
            Finals::Eng => "eng"@,
            Finals::ER => "er"@,
            Finals::IA => "ia"@,
            Finals::IE => "ie"@,
            Finals::Iao => "iao"@,
            Finals::Ian => "ian"@,
            Finals::Ing => "ing"@,
            Finals::Iang => "iang"@,
            Finals::IN => "in"@,
            Finals::Iou => "iou"@,
            Finals::Iong => "iong"@,
            Finals::IU => "iu"@,
            Finals::UI => "ui"@,
            Finals::UA => "ua"@,
            Finals::UN => "un"@,
            Finals::Uan => "uan"@,
            Finals::Uang => "uang"@,
            Finals::UO => "uo"@,
            Finals::UE => "ue"@,
            Finals::V => "ü"@,
            Finals::VE => "üe"@,
            Finals::Van => "üan"@,
        }
    }

    /// The letters of the final without a tone mark.
    pub fn as_str(self) -> (r: &'static str)
        ensures
            r@ == self.spelling(),
    {
        match self {
            Finals::Zero => "none",
            Finals::A => "a",
            Finals::O => "o",
            Finals::E => "e",
            Finals::U => "u",
            Finals::I => "i",
            Finals::AI => "ai",
            Finals::AO => "ao",
            Finals::EI => "ei",
            Finals::OU => "ou",
            Finals::Ong => "ong",
            Finals::AN => "an",
            Finals::EN => "en",
            Finals::Ang => "ang",
            Finals::Eng => "eng",
            Finals::ER => "er",
            Finals::IA => "ia",
            Finals::IE => "ie",
            Finals::Iao => "iao",
            Finals::Ian => "ian",
            Finals::Ing => "ing",
            Finals::Iang => "iang",
            Finals::IN => "in",
            Finals::Iou => "iou",
            Finals::Iong => "iong",
            Finals::IU => "iu",
            Finals::UI => "ui",
            Finals::UA => "ua",
            Finals::UN => "un",
            Finals::Uan => "uan",
            Finals::Uang => "uang",
            Finals::UO => "uo",
            Finals::UE => "ue",
            Finals::V => "ü",
            Finals::VE => "üe",
            Finals::Van => "üan",
        }
    }
}

impl Tones {
    /// The digit that stands for the tone; nothing for the neutral tone.
    pub open spec fn digit(self) -> Seq<char> {
        match self {
            Tones::Neutral => ""@,
            Tones::One => "1"@,
            Tones::Two => "2"@,
            Tones::Three => "3"@,
            Tones::Four => "4"@,
        }
    }

    /// The digit that stands for the tone; the empty string for the neutral
    /// tone.
    pub fn as_str(self) -> (r: &'static str)
        ensures
            r@ == self.digit(),
    {
        match self {
            Tones::Neutral => "",
            Tones::One => "1",
            Tones::Two => "2",
            Tones::Three => "3",
            Tones::Four => "4",
        }
    }
}

/// A final together with the tone it is spoken in.
#[derive(Debug, Clone, Copy, PartialEq, Eq, Structural)]
pub struct FinalWithTones(pub Finals, pub Tones);

impl FinalWithTones {
    /// The final written with its tone mark. With the neutral tone this is
    /// the bare spelling. The empty final has no marked spelling, so the
    /// value for it with a tone carries no meaning.
    pub open spec fn spelling(self) -> Seq<char> {
        match (self.0, self.1) {
            (_, Tones::Neutral) => self.0.spelling(),
            (Finals::A, Tones::One) => "ā"@,
            (Finals::A, Tones::Two) => "á"@,
            (Finals::A, Tones::Three) => "ǎ"@,
            (Finals::A, Tones::Four) => "à"@,
            (Finals::O, Tones::One) => "ō"@,
            (Finals::O, Tones::Two) => "ó"@,
            (Finals::O, Tones::Three) => "ǒ"@,
            (Finals::O, Tones::Four) => "ò"@,
            (Finals::E, Tones::One) => "ē"@,
            (Finals::E, Tones::Two) => "é"@,
            (Finals::E, Tones::Three) => "ě"@,
            (Finals::E, Tones::Four) => "è"@,
            (Finals::U, Tones::One) => "ū"@,
            (Finals::U, Tones::Two) => "ú"@,
            (Finals::U, Tones::Three) => "ǔ"@,
            (Finals::U, Tones::Four) => "ù"@,
            (Finals::I, Tones::One) => "ī"@,
            (Finals::I, Tones::Two) => "í"@,
            (Finals::I, Tones::Three) => "ǐ"@,
            (Finals::I, Tones::Four) => "ì"@,
            (Finals::AI, Tones::One) => "āi"@,
            (Finals::AI, Tones::Two) => "ái"@,
            (Finals::AI, Tones::Three) => "ǎi"@,
            (Finals::AI, Tones::Four) => "ài"@,
            (Finals::AO, Tones::One) => "āo"@,
            (Finals::AO, Tones::Two) => "áo"@,
            (Finals::AO, Tones::Three) => "ǎo"@,
            (Finals::AO, Tones::Four) => "ào"@,
            (Finals::EI, Tones::One) => "ēi"@,
            (Finals::EI, Tones::Two) => "éi"@,
            (Finals::EI, Tones::Three) => "ěi"@,
            (Finals::EI, Tones::Four) => "èi"@,
            (Finals::OU, Tones::One) => "ōu"@,
            (Finals::OU, Tones::Two) => "óu"@,
            (Finals::OU, Tones::Three) => "ǒu"@,
            (Finals::OU, Tones::Four) => "òu"@,
            (Finals::Ong, Tones::One) => "ōng"@,
            (Finals::Ong, Tones::Two) => "óng"@,
            (Finals::Ong, Tones::Three) => "ǒng"@,
            (Finals::Ong, Tones::Four) => "òng"@,
            (Finals::AN, Tones::One) => "ān"@,
            (Finals::AN, Tones::Two) => "án"@,
            (Finals::AN, Tones::Three) => "ǎn"@,
            (Finals::AN, Tones::Four) => "àn"@,
            (Finals::EN, Tones::One) => "ēn"@,
            (Finals::EN, Tones::Two) => "én"@,
            (Finals::EN, Tones::Three) => "ěn"@,
            (Finals::EN, Tones::Four) => "èn"@,
            (Finals::Ang, Tones::One) => "āng"@,
            (Finals::Ang, Tones::Two) => "áng"@,
            (Finals::Ang, Tones::Three) => "ǎng"@,
            (Finals::Ang, Tones::Four) => "àng"@,
            (Finals::Eng, Tones::One) => "ēng"@,
            (Finals::Eng, Tones::Two) => "éng"@,
            (Finals::Eng, Tones::Three) => "ěng"@,
            (Finals::Eng, Tones::Four) => "èng"@,
            (Finals::ER, Tones::One) => "ēr"@,
            (Finals::ER, Tones::Two) => "ér"@,
            (Finals::ER, Tones::Three) => "ěr"@,
            (Finals::ER, Tones::Four) => "èr"@,
            (Finals::IA, Tones::One) => "iā"@,
            (Finals::IA, Tones::Two) => "iá"@,
            (Finals::IA, Tones::Three) => "iǎ"@,
            (Finals::IA, Tones::Four) => "ià"@,
            (Finals::IE, Tones::One) => "iē"@,
            (Finals::IE, Tones::Two) => "ié"@,
            (Finals::IE, Tones::Three) => "iě"@,
            (Finals::IE, Tones::Four) => "iè"@,
            (Finals::Iao, Tones::One) => "iāo"@,
            (Finals::Iao, Tones::Two) => "iáo"@,
            (Finals::Iao, Tones::Three) => "iǎo"@,
            (Finals::Iao, Tones::Four) => "iào"@,
            (Finals::Ian, Tones::One) => "iān"@,
            (Finals::Ian, Tones::Two) => "ián"@,
            (Finals::Ian, Tones::Three) => "iǎn"@,
            (Finals::Ian, Tones::Four) => "iàn"@,
            (Finals::Ing, Tones::One) => "īng"@,
            (Finals::Ing, Tones::Two) => "íng"@,
            (Finals::Ing, Tones::Three) => "ǐng"@,
            (Finals::Ing, Tones::Four) => "ìng"@,
            (Finals::Iang, Tones::One) => "iāng"@,
            (Finals::Iang, Tones::Two) => "iáng"@,
            (Finals::Iang, Tones::Three) => "iǎng"@,
            (Finals::Iang, Tones::Four) => "iàng"@,
            (Finals::IN, Tones::One) => "īn"@,
            (Finals::IN, Tones::Two) => "ín"@,
            (Finals::IN, Tones::Three) => "ǐn"@,
            (Finals::IN, Tones::Four) => "ìn"@,
            (Finals::Iou, Tones::One) => "iōu"@,
            (Finals::Iou, Tones::Two) => "ióu"@,
            (Finals::Iou, Tones::Three) => "iǒu"@,
            (Finals::Iou, Tones::Four) => "iòu"@,
            (Finals::Iong, Tones::One) => "iōng"@,
            (Finals::Iong, Tones::Two) => "ióng"@,
            (Finals::Iong, Tones::Three) => "iǒng"@,
            (Finals::Iong, Tones::Four) => "iòng"@,
            (Finals::IU, Tones::One) => "iū"@,
            (Finals::IU, Tones::Two) => "iú"@,
            (Finals::IU, Tones::Three) => "iǔ"@,
            (Finals::IU, Tones::Four) => "iù"@,
            (Finals::UI, Tones::One) => "uī"@,
            (Finals::UI, Tones::Two) => "uí"@,
            (Finals::UI, Tones::Three) => "uǐ"@,
            (Finals::UI, Tones::Four) => "uì"@,
            (Finals::UA, Tones::One) => "uā"@,
            (Finals::UA, Tones::Two) => "uá"@,
            (Finals::UA, Tones::Three) => "uǎ"@,
            (Finals::UA, Tones::Four) => "uà"@,
            (Finals::UN, Tones::One) => "ūn"@,
            (Finals::UN, Tones::Two) => "ún"@,
            (Finals::UN, Tones::Three) => "ǔn"@,
            (Finals::UN, Tones::Four) => "ùn"@,
            (Finals::Uan, Tones::One) => "uān"@,
            (Finals::Uan, Tones::Two) => "uán"@,
            (Finals::Uan, Tones::Three) => "uǎn"@,
            (Finals::Uan, Tones::Four) => "uàn"@,
            (Finals::Uang, Tones::One) => "uāng"@,
            (Finals::Uang, Tones::Two) => "uáng"@,
            (Finals::Uang, Tones::Three) => "uǎng"@,
            (Finals::Uang, Tones::Four) => "uàng"@,
            (Finals::UO, Tones::One) => "uō"@,
            (Finals::UO, Tones::Two) => "uó"@,
            (Finals::UO, Tones::Three) => "uǒ"@,
            (Finals::UO, Tones::Four) => "uò"@,
            (Finals::UE, Tones::One) => "uē"@,
            (Finals::UE, Tones::Two) => "ué"@,
            (Finals::UE, Tones::Three) => "uě"@,
            (Finals::UE, Tones::Four) => "uè"@,
            (Finals::V, Tones::One) => "ǖ"@,
            (Finals::V, Tones::Two) => "ǘ"@,
            (Finals::V, Tones::Three) => "ǚ"@,
            (Finals::V, Tones::Four) => "ǜ"@,
            (Finals::VE, Tones::One) => "üē"@,
            (Finals::VE, Tones::Two) => "üé"@,
            (Finals::VE, Tones::Three) => "üě"@,
            (Finals::VE, Tones::Four) => "üè"@,
            (Finals::Van, Tones::One) => "ǖan"@,
            (Finals::Van, Tones::Two) => "ǘan"@,
            (Finals::Van, Tones::Three) => "ǚan"@,
            (Finals::Van, Tones::Four) => "ǜan"@,
            (Finals::Zero, _) => self.0.spelling(),
        }
    }

    /// Whether the pair can be written with a tone mark: every pair but the
    /// empty final with a tone.
    pub open spec fn is_writable(self) -> bool {
        self.0 != Finals::Zero || self.1 == Tones::Neutral
    }

    /// The final written with its tone mark.
    pub fn as_str(self) -> (r: &'static str)
        requires
            self.is_writable(),
        ensures
            r@ == self.spelling(),
    {
        match (self.0, self.1) {
            (_, Tones::Neutral) => self.0.as_str(),
            (Finals::A, Tones::One) => "ā",
            (Finals::A, Tones::Two) => "á",
            (Finals::A, Tones::Three) => "ǎ",
            (Finals::A, Tones::Four) => "à",
            (Finals::O, Tones::One) => "ō",
            (Finals::O, Tones::Two) => "ó",
            (Finals::O, Tones::Three) => "ǒ",
            (Finals::O, Tones::Four) => "ò",
            (Finals::E, Tones::One) => "ē",
            (Finals::E, Tones::Two) => "é",
            (Finals::E, Tones::Three) => "ě",
            (Finals::E, Tones::Four) => "è",
            (Finals::U, Tones::One) => "ū",
            (Finals::U, Tones::Two) => "ú",
            (Finals::U, Tones::Three) => "ǔ",
            (Finals::U, Tones::Four) => "ù",
            (Finals::I, Tones::One) => "ī",
            (Finals::I, Tones::Two) => "í",
            (Finals::I, Tones::Three) => "ǐ",
            (Finals::I, Tones::Four) => "ì",
            (Finals::AI, Tones::One) => "āi",
            (Finals::AI, Tones::Two) => "ái",
            (Finals::AI, Tones::Three) => "ǎi",
            (Finals::AI, Tones::Four) => "ài",
            (Finals::AO, Tones::One) => "āo",
            (Finals::AO, Tones::Two) => "áo",
            (Finals::AO, Tones::Three) => "ǎo",
            (Finals::AO, Tones::Four) => "ào",
            (Finals::EI, Tones::One) => "ēi",
            (Finals::EI, Tones::Two) => "éi",
            (Finals::EI, Tones::Three) => "ěi",
            (Finals::EI, Tones::Four) => "èi",
            (Finals::OU, Tones::One) => "ōu",
            (Finals::OU, Tones::Two) => "óu",
            (Finals::OU, Tones::Three) => "ǒu",
            (Finals::OU, Tones::Four) => "òu",
            (Finals::Ong, Tones::One) => "ōng",
            (Finals::Ong, Tones::Two) => "óng",
            (Finals::Ong, Tones::Three) => "ǒng",
            (Finals::Ong, Tones::Four) => "òng",
            (Finals::AN, Tones::One) => "ān",
            (Finals::AN, Tones::Two) => "án",
            (Finals::AN, Tones::Three) => "ǎn",
            (Finals::AN, Tones::Four) => "àn",
            (Finals::EN, Tones::One) => "ēn",
            (Finals::EN, Tones::Two) => "én",
            (Finals::EN, Tones::Three) => "ěn",
            (Finals::EN, Tones::Four) => "èn",
            (Finals::Ang, Tones::One) => "āng",
            (Finals::Ang, Tones::Two) => "áng",
            (Finals::Ang, Tones::Three) => "ǎng",
            (Finals::Ang, Tones::Four) => "àng",
            (Finals::Eng, Tones::One) => "ēng",
            (Finals::Eng, Tones::Two) => "éng",
            (Finals::Eng, Tones::Three) => "ěng",
            (Finals::Eng, Tones::Four) => "èng",
            (Finals::ER, Tones::One) => "ēr",
            (Finals::ER, Tones::Two) => "ér",
            (Finals::ER, Tones::Three) => "ěr",
            (Finals::ER, Tones::Four) => "èr",
            (Finals::IA, Tones::One) => "iā",
            (Finals::IA, Tones::Two) => "iá",
            (Finals::IA, Tones::Three) => "iǎ",
            (Finals::IA, Tones::Four) => "ià",
            (Finals::IE, Tones::One) => "iē",
            (Finals::IE, Tones::Two) => "ié",
            (Finals::IE, Tones::Three) => "iě",
            (Finals::IE, Tones::Four) => "iè",
            (Finals::Iao, Tones::One) => "iāo",
            (Finals::Iao, Tones::Two) => "iáo",
            (Finals::Iao, Tones::Three) => "iǎo",
            (Finals::Iao, Tones::Four) => "iào",
            (Finals::Ian, Tones::One) => "iān",
            (Finals::Ian, Tones::Two) => "ián",
            (Finals::Ian, Tones::Three) => "iǎn",
            (Finals::Ian, Tones::Four) => "iàn",
            (Finals::Ing, Tones::One) => "īng",
            (Finals::Ing, Tones::Two) => "íng",
            (Finals::Ing, Tones::Three) => "ǐng",
            (Finals::Ing, Tones::Four) => "ìng",
            (Finals::Iang, Tones::One) => "iāng",
            (Finals::Iang, Tones::Two) => "iáng",
            (Finals::Iang, Tones::Three) => "iǎng",
            (Finals::Iang, Tones::Four) => "iàng",
            (Finals::IN, Tones::One) => "īn",
            (Finals::IN, Tones::Two) => "ín",
            (Finals::IN, Tones::Three) => "ǐn",
            (Finals::IN, Tones::Four) => "ìn",
            (Finals::Iou, Tones::One) => "iōu",
            (Finals::Iou, Tones::Two) => "ióu",
            (Finals::Iou, Tones::Three) => "iǒu",
            (Finals::Iou, Tones::Four) => "iòu",
            (Finals::Iong, Tones::One) => "iōng",
            (Finals::Iong, Tones::Two) => "ióng",
            (Finals::Iong, Tones::Three) => "iǒng",
            (Finals::Iong, Tones::Four) => "iòng",
            (Finals::IU, Tones::One) => "iū",
            (Finals::IU, Tones::Two) => "iú",
            (Finals::IU, Tones::Three) => "iǔ",
            (Finals::IU, Tones::Four) => "iù",
            (Finals::UI, Tones::One) => "uī",
            (Finals::UI, Tones::Two) => "uí",
            (Finals::UI, Tones::Three) => "uǐ",
            (Finals::UI, Tones::Four) => "uì",
            (Finals::UA, Tones::One) => "uā",
            (Finals::UA, Tones::Two) => "uá",
            (Finals::UA, Tones::Three) => "uǎ",
            (Finals::UA, Tones::Four) => "uà",
            (Finals::UN, Tones::One) => "ūn",
            (Finals::UN, Tones::Two) => "ún",
            (Finals::UN, Tones::Three) => "ǔn",
            (Finals::UN, Tones::Four) => "ùn",
            (Finals::Uan, Tones::One) => "uān",
            (Finals::Uan, Tones::Two) => "uán",
            (Finals::Uan, Tones::Three) => "uǎn",
            (Finals::Uan, Tones::Four) => "uàn",
            (Finals::Uang, Tones::One) => "uāng",
            (Finals::Uang, Tones::Two) => "uáng",
            (Finals::Uang, Tones::Three) => "uǎng",
            (Finals::Uang, Tones::Four) => "uàng",
            (Finals::UO, Tones::One) => "uō",
            (Finals::UO, Tones::Two) => "uó",
            (Finals::UO, Tones::Three) => "uǒ",
            (Finals::UO, Tones::Four) => "uò",
            (Finals::UE, Tones::One) => "uē",
            (Finals::UE, Tones::Two) => "ué",
            (Finals::UE, Tones::Three) => "uě",
            (Finals::UE, Tones::Four) => "uè",
            (Finals::V, Tones::One) => "ǖ",
            (Finals::V, Tones::Two) => "ǘ",
            (Finals::V, Tones::Three) => "ǚ",
            (Finals::V, Tones::Four) => "ǜ",
            (Finals::VE, Tones::One) => "üē",
            (Finals::VE, Tones::Two) => "üé",
            (Finals::VE, Tones::Three) => "üě",
            (Finals::VE, Tones::Four) => "üè",
            (Finals::Van, Tones::One) => "ǖan",
            (Finals::Van, Tones::Two) => "ǘan",
            (Finals::Van, Tones::Three) => "ǚan",
            (Finals::Van, Tones::Four) => "ǜan",
            (Finals::Zero, _) => self.0.as_str(),
        }
    }

    /// Whether `s` is the spelling of this pair, and the pair has a final.
    pub open spec fn spells(self, s: Seq<char>) -> bool {
        self.0 != Finals::Zero && self.spelling() == s
    }

    /// The pair whose spelling is `s`: the inverse of [`Self::spelling`] on
    /// the pairs that have a final. Any other text has no reading.
    pub open spec fn parse(s: Seq<char>) -> Option<FinalWithTones> {
        if exists|x: FinalWithTones| x.spells(s) {
            Some(choose|x: FinalWithTones| x.spells(s))
        } else {
            None
        }
    }

    /// Reads the characters of `text` from `start` up to `end` as a final
    /// with its tone.
    pub fn lookup(text: &[char], start: usize, end: usize) -> (r: Option<FinalWithTones>)
        requires
            start <= end <= text@.len(),
        ensures
            r == FinalWithTones::parse(text@.subrange(start as int, end as int)),
    {
        let ghost s = text@.subrange(start as int, end as int);
        let found = Self::search(text, start, end);
        proof {
            match found {
                Some(x) => {
                    let y = choose|y: FinalWithTones| y.spells(s);
                    lemma_spelling_injective(x, y);
                },
                None => {},
            }
        }
        found
    }

    /// The table behind [`Self::lookup`], one entry for each spelling.
    fn search(text: &[char], start: usize, end: usize) -> (r: Option<FinalWithTones>)
        requires
            start <= end <= text@.len(),
        ensures
            match r {
                Some(x) => x.spells(text@.subrange(start as int, end as int)),
                None => forall|x: FinalWithTones|
                    !(#[trigger] x.spells(text@.subrange(start as int, end as int))),
            },
    {
        if span_is(text, start, end, "a") {
            Some(FinalWithTones(Finals::A, Tones::Neutral))
        } else if span_is(text, start, end, "ā") {
            Some(FinalWithTones(Finals::A, Tones::One))
        } else if span_is(text, start, end, "á") {
            Some(FinalWithTones(Finals::A, Tones::Two))
        } else if span_is(text, start, end, "ǎ") {
            Some(FinalWithTones(Finals::A, Tones::Three))
        } else if span_is(text, start, end, "à") {
            Some(FinalWithTones(Finals::A, Tones::Four))
        } else if span_is(text, start, end, "o") {
            Some(FinalWithTones(Finals::O, Tones::Neutral))
        } else if span_is(text, start, end, "ō") {
            Some(FinalWithTones(Finals::O, Tones::One))
        } else if span_is(text, start, end, "ó") {
            Some(FinalWithTones(Finals::O, Tones::Two))
        } else if span_is(text, start, end, "ǒ") {
            Some(FinalWithTones(Finals::O, Tones::Three))
        } else if span_is(text, start, end, "ò") {
            Some(FinalWithTones(Finals::O, Tones::Four))
        } else if span_is(text, start, end, "e") {
            Some(FinalWithTones(Finals::E, Tones::Neutral))
        } else if span_is(text, start, end, "ē") {
            Some(FinalWithTones(Finals::E, Tones::One))
        } else if span_is(text, start, end, "é") {
            Some(FinalWithTones(Finals::E, Tones::Two))
        } else if span_is(text, start, end, "ě") {
            Some(FinalWithTones(Finals::E, Tones::Three))
        } else if span_is(text, start, end, "è") {
            Some(FinalWithTones(Finals::E, Tones::Four))
        } else if span_is(text, start, end, "u") {
            Some(FinalWithTones(Finals::U, Tones::Neutral))
        } else if span_is(text, start, end, "ū") {
            Some(FinalWithTones(Finals::U, Tones::One))
        } else if span_is(text, start, end, "ú") {
            Some(FinalWithTones(Finals::U, Tones::Two))
        } else if span_is(text, start, end, "ǔ") {
            Some(FinalWithTones(Finals::U, Tones::Three))
        } else if span_is(text, start, end, "ù") {
            Some(FinalWithTones(Finals::U, Tones::Four))
        } else if span_is(text, start, end, "i") {
            Some(FinalWithTones(Finals::I, Tones::Neutral))
        } else if span_is(text, start, end, "ī") {
            Some(FinalWithTones(Finals::I, Tones::One))
        } else if span_is(text, start, end, "í") {
            Some(FinalWithTones(Finals::I, Tones::Two))
        } else if span_is(text, start, end, "ǐ") {
            Some(FinalWithTones(Finals::I, Tones::Three))
        } else if span_is(text, start, end, "ì") {
            Some(FinalWithTones(Finals::I, Tones::Four))
        } else if span_is(text, start, end, "ai") {
            Some(FinalWithTones(Finals::AI, Tones::Neutral))
        } else if span_is(text, start, end, "āi") {
            Some(FinalWithTones(Finals::AI, Tones::One))
        } else if span_is(text, start, end, "ái") {
            Some(FinalWithTones(Finals::AI, Tones::Two))
        } else if span_is(text, start, end, "ǎi") {
            Some(FinalWithTones(Finals::AI, Tones::Three))
        } else if span_is(text, start, end, "ài") {
            Some(FinalWithTones(Finals::AI, Tones::Four))
        } else if span_is(text, start, end, "ao") {
            Some(FinalWithTones(Finals::AO, Tones::Neutral))
        } else if span_is(text, start, end, "āo") {
            Some(FinalWithTones(Finals::AO, Tones::One))
        } else if span_is(text, start, end, "áo") {
            Some(FinalWithTones(Finals::AO, Tones::Two))
        } else if span_is(text, start, end, "ǎo") {
            Some(FinalWithTones(Finals::AO, Tones::Three))
        } else if span_is(text, start, end, "ào") {
            Some(FinalWithTones(Finals::AO, Tones::Four))
        } else if span_is(text, start, end, "ei") {
            Some(FinalWithTones(Finals::EI, Tones::Neutral))
        } else if span_is(text, start, end, "ēi") {
            Some(FinalWithTones(Finals::EI, Tones::One))
        } else if span_is(text, start, end, "éi") {
            Some(FinalWithTones(Finals::EI, Tones::Two))
        } else if span_is(text, start, end, "ěi") {
            Some(FinalWithTones(Finals::EI, Tones::Three))
        } else if span_is(text, start, end, "èi") {
            Some(FinalWithTones(Finals::EI, Tones::Four))
        } else if span_is(text, start, end, "ou") {
            Some(FinalWithTones(Finals::OU, Tones::Neutral))
        } else if span_is(text, start, end, "ōu") {
            Some(FinalWithTones(Finals::OU, Tones::One))
        } else if span_is(text, start, end, "óu") {
            Some(FinalWithTones(Finals::OU, Tones::Two))
        } else if span_is(text, start, end, "ǒu") {
            Some(FinalWithTones(Finals::OU, Tones::Three))
        } else if span_is(text, start, end, "òu") {
            Some(FinalWithTones(Finals::OU, Tones::Four))
        } else if span_is(text, start, end, "ong") {
            Some(FinalWithTones(Finals::Ong, Tones::Neutral))
        } else if span_is(text, start, end, "ōng") {
            Some(FinalWithTones(Finals::Ong, Tones::One))
        } else if span_is(text, start, end, "óng") {
            Some(FinalWithTones(Finals::Ong, Tones::Two))
        } else if span_is(text, start, end, "ǒng") {
            Some(FinalWithTones(Finals::Ong, Tones::Three))
        } else if span_is(text, start, end, "òng") {
            Some(FinalWithTones(Finals::Ong, Tones::Four))
        } else if span_is(text, start, end, "an") {
            Some(FinalWithTones(Finals::AN, Tones::Neutral))
        } else if span_is(text, start, end, "ān") {
            Some(FinalWithTones(Finals::AN, Tones::One))
        } else if span_is(text, start, end, "án") {
            Some(FinalWithTones(Finals::AN, Tones::Two))
        } else if span_is(text, start, end, "ǎn") {
            Some(FinalWithTones(Finals::AN, Tones::Three))
        } else if span_is(text, start, end, "àn") {
            Some(FinalWithTones(Finals::AN, Tones::Four))
        } else if span_is(text, start, end, "en") {
            Some(FinalWithTones(Finals::EN, Tones::Neutral))
        } else if span_is(text, start, end, "ēn") {
            Some(FinalWithTones(Finals::EN, Tones::One))
        } else if span_is(text, start, end, "én") {
            Some(FinalWithTones(Finals::EN, Tones::Two))
        } else if span_is(text, start, end, "ěn") {
            Some(FinalWithTones(Finals::EN, Tones::Three))
        } else if span_is(text, start, end, "èn") {
            Some(FinalWithTones(Finals::EN, Tones::Four))
        } else if span_is(text, start, end, "ang") {
            Some(FinalWithTones(Finals::Ang, Tones::Neutral))
        } else if span_is(text, start, end, "āng") {
            Some(FinalWithTones(Finals::Ang, Tones::One))
        } else if span_is(text, start, end, "áng") {
            Some(FinalWithTones(Finals::Ang, Tones::Two))
        } else if span_is(text, start, end, "ǎng") {
            Some(FinalWithTones(Finals::Ang, Tones::Three))
        } else if span_is(text, start, end, "àng") {
            Some(FinalWithTones(Finals::Ang, Tones::Four))
        } else if span_is(text, start, end, "eng") {
            Some(FinalWithTones(Finals::Eng, Tones::Neutral))
        } else if span_is(text, start, end, "ēng") {
            Some(FinalWithTones(Finals::Eng, Tones::One))
        } else if span_is(text, start, end, "éng") {
            Some(FinalWithTones(Finals::Eng, Tones::Two))
        } else if span_is(text, start, end, "ěng") {
            Some(FinalWithTones(Finals::Eng, Tones::Three))
        } else if span_is(text, start, end, "èng") {
            Some(FinalWithTones(Finals::Eng, Tones::Four))
        } else if span_is(text, start, end, "er") {
            Some(FinalWithTones(Finals::ER, Tones::Neutral))
        } else if span_is(text, start, end, "ēr") {
            Some(FinalWithTones(Finals::ER, Tones::One))
        } else if span_is(text, start, end, "ér") {
            Some(FinalWithTones(Finals::ER, Tones::Two))
        } else if span_is(text, start, end, "ěr") {
            Some(FinalWithTones(Finals::ER, Tones::Three))
        } else if span_is(text, start, end, "èr") {
            Some(FinalWithTones(Finals::ER, Tones::Four))
        } else if span_is(text, start, end, "ia") {
            Some(FinalWithTones(Finals::IA, Tones::Neutral))
        } else if span_is(text, start, end, "iā") {
            Some(FinalWithTones(Finals::IA, Tones::One))
        } else if span_is(text, start, end, "iá") {
            Some(FinalWithTones(Finals::IA, Tones::Two))
        } else if span_is(text, start, end, "iǎ") {
            Some(FinalWithTones(Finals::IA, Tones::Three))
        } else if span_is(text, start, end, "ià") {
            Some(FinalWithTones(Finals::IA, Tones::Four))
        } else if span_is(text, start, end, "ie") {
            Some(FinalWithTones(Finals::IE, Tones::Neutral))
        } else if span_is(text, start, end, "iē") {
            Some(FinalWithTones(Finals::IE, Tones::One))
        } else if span_is(text, start, end, "ié") {
            Some(FinalWithTones(Finals::IE, Tones::Two))
        } else if span_is(text, start, end, "iě") {
            Some(FinalWithTones(Finals::IE, Tones::Three))
        } else if span_is(text, start, end, "iè") {
            Some(FinalWithTones(Finals::IE, Tones::Four))
        } else if span_is(text, start, end, "iao") {
            Some(FinalWithTones(Finals::Iao, Tones::Neutral))
        } else if span_is(text, start, end, "iāo") {
            Some(FinalWithTones(Finals::Iao, Tones::One))
        } else if span_is(text, start, end, "iáo") {
            Some(FinalWithTones(Finals::Iao, Tones::Two))
        } else if span_is(text, start, end, "iǎo") {
            Some(FinalWithTones(Finals::Iao, Tones::Three))
        } else if span_is(text, start, end, "iào") {
            Some(FinalWithTones(Finals::Iao, Tones::Four))
        } else if span_is(text, start, end, "ian") {
            Some(FinalWithTones(Finals::Ian, Tones::Neutral))
        } else if span_is(text, start, end, "iān") {
            Some(FinalWithTones(Finals::Ian, Tones::One))
        } else if span_is(text, start, end, "ián") {
            Some(FinalWithTones(Finals::Ian, Tones::Two))
        } else if span_is(text, start, end, "iǎn") {
            Some(FinalWithTones(Finals::Ian, Tones::Three))
        } else if span_is(text, start, end, "iàn") {
            Some(FinalWithTones(Finals::Ian, Tones::Four))
        } else if span_is(text, start, end, "ing") {
            Some(FinalWithTones(Finals::Ing, Tones::Neutral))
        } else if span_is(text, start, end, "īng") {
            Some(FinalWithTones(Finals::Ing, Tones::One))
        } else if span_is(text, start, end, "íng") {
            Some(FinalWithTones(Finals::Ing, Tones::Two))
        } else if span_is(text, start, end, "ǐng") {
            Some(FinalWithTones(Finals::Ing, Tones::Three))
        } else if span_is(text, start, end, "ìng") {
            Some(FinalWithTones(Finals::Ing, Tones::Four))
        } else if span_is(text, start, end, "iang") {
            Some(FinalWithTones(Finals::Iang, Tones::Neutral))
        } else if span_is(text, start, end, "iāng") {
            Some(FinalWithTones(Finals::Iang, Tones::One))
        } else if span_is(text, start, end, "iáng") {
            Some(FinalWithTones(Finals::Iang, Tones::Two))
        } else if span_is(text, start, end, "iǎng") {
            Some(FinalWithTones(Finals::Iang, Tones::Three))
        } else if span_is(text, start, end, "iàng") {
            Some(FinalWithTones(Finals::Iang, Tones::Four))
        } else if span_is(text, start, end, "in") {
            Some(FinalWithTones(Finals::IN, Tones::Neutral))
        } else if span_is(text, start, end, "īn") {
            Some(FinalWithTones(Finals::IN, Tones::One))
        } else if span_is(text, start, end, "ín") {
            Some(FinalWithTones(Finals::IN, Tones::Two))
        } else if span_is(text, start, end, "ǐn") {
            Some(FinalWithTones(Finals::IN, Tones::Three))
        } else if span_is(text, start, end, "ìn") {
            Some(FinalWithTones(Finals::IN, Tones::Four))
        } else if span_is(text, start, end, "iou") {
            Some(FinalWithTones(Finals::Iou, Tones::Neutral))
        } else if span_is(text, start, end, "iōu") {
            Some(FinalWithTones(Finals::Iou, Tones::One))
        } else if span_is(text, start, end, "ióu") {
            Some(FinalWithTones(Finals::Iou, Tones::Two))
        } else if span_is(text, start, end, "iǒu") {
            Some(FinalWithTones(Finals::Iou, Tones::Three))
        } else if span_is(text, start, end, "iòu") {
            Some(FinalWithTones(Finals::Iou, Tones::Four))
        } else if span_is(text, start, end, "iong") {
            Some(FinalWithTones(Finals::Iong, Tones::Neutral))
        } else if span_is(text, start, end, "iōng") {
            Some(FinalWithTones(Finals::Iong, Tones::One))
        } else if span_is(text, start, end, "ióng") {
            Some(FinalWithTones(Finals::Iong, Tones::Two))
        } else if span_is(text, start, end, "iǒng") {
            Some(FinalWithTones(Finals::Iong, Tones::Three))
        } else if span_is(text, start, end, "iòng") {
            Some(FinalWithTones(Finals::Iong, Tones::Four))
        } else if span_is(text, start, end, "iu") {
            Some(FinalWithTones(Finals::IU, Tones::Neutral))
        } else if span_is(text, start, end, "iū") {
            Some(FinalWithTones(Finals::IU, Tones::One))
        } else if span_is(text, start, end, "iú") {
            Some(FinalWithTones(Finals::IU, Tones::Two))
        } else if span_is(text, start, end, "iǔ") {
            Some(FinalWithTones(Finals::IU, Tones::Three))
        } else if span_is(text, start, end, "iù") {
            Some(FinalWithTones(Finals::IU, Tones::Four))
        } else if span_is(text, start, end, "ui") {
            Some(FinalWithTones(Finals::UI, Tones::Neutral))
        } else if span_is(text, start, end, "uī") {
            Some(FinalWithTones(Finals::UI, Tones::One))
        } else if span_is(text, start, end, "uí") {
            Some(FinalWithTones(Finals::UI, Tones::Two))
        } else if span_is(text, start, end, "uǐ") {
            Some(FinalWithTones(Finals::UI, Tones::Three))
        } else if span_is(text, start, end, "uì") {
            Some(FinalWithTones(Finals::UI, Tones::Four))
        } else if span_is(text, start, end, "ua") {
            Some(FinalWithTones(Finals::UA, Tones::Neutral))
        } else if span_is(text, start, end, "uā") {
            Some(FinalWithTones(Finals::UA, Tones::One))
        } else if span_is(text, start, end, "uá") {
            Some(FinalWithTones(Finals::UA, Tones::Two))
        } else if span_is(text, start, end, "uǎ") {
            Some(FinalWithTones(Finals::UA, Tones::Three))
        } else if span_is(text, start, end, "uà") {
            Some(FinalWithTones(Finals::UA, Tones::Four))
        } else if span_is(text, start, end, "un") {
            Some(FinalWithTones(Finals::UN, Tones::Neutral))
        } else if span_is(text, start, end, "ūn") {
            Some(FinalWithTones(Finals::UN, Tones::One))
        } else if span_is(text, start, end, "ún") {
            Some(FinalWithTones(Finals::UN, Tones::Two))
        } else if span_is(text, start, end, "ǔn") {
            Some(FinalWithTones(Finals::UN, Tones::Three))
        } else if span_is(text, start, end, "ùn") {
            Some(FinalWithTones(Finals::UN, Tones::Four))
        } else if span_is(text, start, end, "uan") {
            Some(FinalWithTones(Finals::Uan, Tones::Neutral))
        } else if span_is(text, start, end, "uān") {
            Some(FinalWithTones(Finals::Uan, Tones::One))
        } else if span_is(text, start, end, "uán") {
            Some(FinalWithTones(Finals::Uan, Tones::Two))
        } else if span_is(text, start, end, "uǎn") {
            Some(FinalWithTones(Finals::Uan, Tones::Three))
        } else if span_is(text, start, end, "uàn") {
            Some(FinalWithTones(Finals::Uan, Tones::Four))
        } else if span_is(text, start, end, "uang") {
            Some(FinalWithTones(Finals::Uang, Tones::Neutral))
        } else if span_is(text, start, end, "uāng") {
            Some(FinalWithTones(Finals::Uang, Tones::One))
        } else if span_is(text, start, end, "uáng") {
            Some(FinalWithTones(Finals::Uang, Tones::Two))
        } else if span_is(text, start, end, "uǎng") {
            Some(FinalWithTones(Finals::Uang, Tones::Three))
        } else if span_is(text, start, end, "uàng") {
            Some(FinalWithTones(Finals::Uang, Tones::Four))
        } else if span_is(text, start, end, "uo") {
            Some(FinalWithTones(Finals::UO, Tones::Neutral))
        } else if span_is(text, start, end, "uō") {
            Some(FinalWithTones(Finals::UO, Tones::One))
        } else if span_is(text, start, end, "uó") {
            Some(FinalWithTones(Finals::UO, Tones::Two))
        } else if span_is(text, start, end, "uǒ") {
            Some(FinalWithTones(Finals::UO, Tones::Three))
        } else if span_is(text, start, end, "uò") {
            Some(FinalWithTones(Finals::UO, Tones::Four))
        } else if span_is(text, start, end, "ue") {
            Some(FinalWithTones(Finals::UE, Tones::Neutral))
        } else if span_is(text, start, end, "uē") {
            Some(FinalWithTones(Finals::UE, Tones::One))
        } else if span_is(text, start, end, "ué") {
            Some(FinalWithTones(Finals::UE, Tones::Two))
        } else if span_is(text, start, end, "uě") {
            Some(FinalWithTones(Finals::UE, Tones::Three))
        } else if span_is(text, start, end, "uè") {
            Some(FinalWithTones(Finals::UE, Tones::Four))
        } else if span_is(text, start, end, "ü") {
            Some(FinalWithTones(Finals::V, Tones::Neutral))
        } else if span_is(text, start, end, "ǖ") {
            Some(FinalWithTones(Finals::V, Tones::One))
        } else if span_is(text, start, end, "ǘ") {
            Some(FinalWithTones(Finals::V, Tones::Two))
        } else if span_is(text, start, end, "ǚ") {
            Some(FinalWithTones(Finals::V, Tones::Three))
        } else if span_is(text, start, end, "ǜ") {
            Some(FinalWithTones(Finals::V, Tones::Four))
        } else if span_is(text, start, end, "üe") {
            Some(FinalWithTones(Finals::VE, Tones::Neutral))
        } else if span_is(text, start, end, "üē") {
            Some(FinalWithTones(Finals::VE, Tones::One))
        } else if span_is(text, start, end, "üé") {
            Some(FinalWithTones(Finals::VE, Tones::Two))
        } else if span_is(text, start, end, "üě") {
            Some(FinalWithTones(Finals::VE, Tones::Three))
        } else if span_is(text, start, end, "üè") {
            Some(FinalWithTones(Finals::VE, Tones::Four))
        } else if span_is(text, start, end, "üan") {
            Some(FinalWithTones(Finals::Van, Tones::Neutral))
        } else if span_is(text, start, end, "ǖan") {
            Some(FinalWithTones(Finals::Van, Tones::One))
        } else if span_is(text, start, end, "ǘan") {
            Some(FinalWithTones(Finals::Van, Tones::Two))
        } else if span_is(text, start, end, "ǚan") {
            Some(FinalWithTones(Finals::Van, Tones::Three))
        } else if span_is(text, start, end, "ǜan") {
            Some(FinalWithTones(Finals::Van, Tones::Four))
        } else {
            None
        }
    }
}

/// The character of `s` at `i`, or the null character past its end.
spec fn char_or_nul(s: Seq<char>, i: int) -> char {
    if i < s.len() {
        s[i]
    } else {
        '\0'
    }
}

/// The length of `s` with its first four characters: enough to tell any two
/// spellings of the table apart.
spec fn fingerprint(s: Seq<char>) -> (nat, char, char, char, char) {
    (s.len(), char_or_nul(s, 0), char_or_nul(s, 1), char_or_nul(s, 2), char_or_nul(s, 3))
}

/// Two pairs with a final are never written alike.
pub proof fn lemma_spelling_injective(a: FinalWithTones, b: FinalWithTones)
    requires
        a.0 != Finals::Zero,
        b.0 != Finals::Zero,
        a.spelling() == b.spelling(),
    ensures
        a == b,
{
    reveal_strlit("a");
    reveal_strlit("ā");
    reveal_strlit("á");
    reveal_strlit("ǎ");
    reveal_strlit("à");
    reveal_strlit("o");
    reveal_strlit("ō");
    reveal_strlit("ó");
    reveal_strlit("ǒ");
    reveal_strlit("ò");
    reveal_strlit("e");
    reveal_strlit("ē");
    reveal_strlit("é");
    reveal_strlit("ě");
    reveal_strlit("è");
    reveal_strlit("u");
    reveal_strlit("ū");
    reveal_strlit("ú");
    reveal_strlit("ǔ");
    reveal_strlit("ù");
    reveal_strlit("i");
    reveal_strlit("ī");
    reveal_strlit("í");
    reveal_strlit("ǐ");
    reveal_strlit("ì");
    reveal_strlit("ai");
    reveal_strlit("āi");
    reveal_strlit("ái");
    reveal_strlit("ǎi");
    reveal_strlit("ài");
    reveal_strlit("ao");
    reveal_strlit("āo");
    reveal_strlit("áo");
    reveal_strlit("ǎo");
    reveal_strlit("ào");
    reveal_strlit("ei");
    reveal_strlit("ēi");
    reveal_strlit("éi");
    reveal_strlit("ěi");
    reveal_strlit("èi");
    reveal_strlit("ou");
    reveal_strlit("ōu");
    reveal_strlit("óu");
    reveal_strlit("ǒu");
    reveal_strlit("òu");
    reveal_strlit("ong");
    reveal_strlit("ōng");
    reveal_strlit("óng");
    reveal_strlit("ǒng");
    reveal_strlit("òng");
    reveal_strlit("an");
    reveal_strlit("ān");
    reveal_strlit("án");
    reveal_strlit("ǎn");
    reveal_strlit("àn");
    reveal_strlit("en");
    reveal_strlit("ēn");
    reveal_strlit("én");
    reveal_strlit("ěn");
    reveal_strlit("èn");
    reveal_strlit("ang");
    reveal_strlit("āng");
    reveal_strlit("áng");
    reveal_strlit("ǎng");
    reveal_strlit("àng");
    reveal_strlit("eng");
    reveal_strlit("ēng");
    reveal_strlit("éng");
    reveal_strlit("ěng");
    reveal_strlit("èng");
    reveal_strlit("er");
    reveal_strlit("ēr");
    reveal_strlit("ér");
    reveal_strlit("ěr");
    reveal_strlit("èr");
    reveal_strlit("ia");
    reveal_strlit("iā");
    reveal_strlit("iá");
    reveal_strlit("iǎ");
    reveal_strlit("ià");
    reveal_strlit("ie");
    reveal_strlit("iē");
    reveal_strlit("ié");
    reveal_strlit("iě");
    reveal_strlit("iè");
    reveal_strlit("iao");
    reveal_strlit("iāo");
    reveal_strlit("iáo");
    reveal_strlit("iǎo");
    reveal_strlit("iào");
    reveal_strlit("ian");
    reveal_strlit("iān");
    reveal_strlit("ián");
    reveal_strlit("iǎn");
    reveal_strlit("iàn");
    reveal_strlit("ing");
    reveal_strlit("īng");
    reveal_strlit("íng");
    reveal_strlit("ǐng");
    reveal_strlit("ìng");
    reveal_strlit("iang");
    reveal_strlit("iāng");
    reveal_strlit("iáng");
    reveal_strlit("iǎng");
    reveal_strlit("iàng");
    reveal_strlit("in");
    reveal_strlit("īn");
    reveal_strlit("ín");
    reveal_strlit("ǐn");
    reveal_strlit("ìn");
    reveal_strlit("iou");
    reveal_strlit("iōu");
    reveal_strlit("ióu");
    reveal_strlit("iǒu");
    reveal_strlit("iòu");
    reveal_strlit("iong");
    reveal_strlit("iōng");
    reveal_strlit("ióng");
    reveal_strlit("iǒng");
    reveal_strlit("iòng");
    reveal_strlit("iu");
    reveal_strlit("iū");
    reveal_strlit("iú");
    reveal_strlit("iǔ");
    reveal_strlit("iù");
    reveal_strlit("ui");
    reveal_strlit("uī");
    reveal_strlit("uí");
    reveal_strlit("uǐ");
    reveal_strlit("uì");
    reveal_strlit("ua");
    reveal_strlit("uā");
    reveal_strlit("uá");
    reveal_strlit("uǎ");
    reveal_strlit("uà");
    reveal_strlit("un");
    reveal_strlit("ūn");
    reveal_strlit("ún");
    reveal_strlit("ǔn");
    reveal_strlit("ùn");
    reveal_strlit("uan");
    reveal_strlit("uān");
    reveal_strlit("uán");
    reveal_strlit("uǎn");
    reveal_strlit("uàn");
    reveal_strlit("uang");
    reveal_strlit("uāng");
    reveal_strlit("uáng");
    reveal_strlit("uǎng");
    reveal_strlit("uàng");
    reveal_strlit("uo");
    reveal_strlit("uō");
    reveal_strlit("uó");
    reveal_strlit("uǒ");
    reveal_strlit("uò");
    reveal_strlit("ue");
    reveal_strlit("uē");
    reveal_strlit("ué");
    reveal_strlit("uě");
    reveal_strlit("uè");
    reveal_strlit("ü");
    reveal_strlit("ǖ");
    reveal_strlit("ǘ");
    reveal_strlit("ǚ");
    reveal_strlit("ǜ");
    reveal_strlit("üe");
    reveal_strlit("üē");
    reveal_strlit("üé");
    reveal_strlit("üě");
    reveal_strlit("üè");
    reveal_strlit("üan");
    reveal_strlit("ǖan");
    reveal_strlit("ǘan");
    reveal_strlit("ǚan");
    reveal_strlit("ǜan");
    assert(fingerprint(a.spelling()) == fingerprint(b.spelling()));
}

/// Writing a final with its tone and reading the spelling back gives the
/// same final and the same tone.
pub proof fn lemma_parse_spelling(x: FinalWithTones)
    requires
        x.0 != Finals::Zero,
    ensures
        FinalWithTones::parse(x.spelling()) == Some(x),
{
    let s = x.spelling();
    assert(x.spells(s));
    let y = choose|y: FinalWithTones| y.spells(s);
    lemma_spelling_injective(x, y);
}

/// What reads as a pair is the spelling of that pair.
pub proof fn lemma_spelling_parse(s: Seq<char>)
    ensures
        match FinalWithTones::parse(s) {
            Some(x) => x.0 != Finals::Zero && x.spelling() == s,
            None => forall|x: FinalWithTones| x.0 != Finals::Zero ==> x.spelling() != s,
        },
{
    if !exists|x: FinalWithTones| x.spells(s) {
        assert forall|x: FinalWithTones| x.0 != Finals::Zero implies x.spelling() != s by {
            assert(!x.spells(s));
        }
    }
}

} // verus!
