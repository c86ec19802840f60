//! The three components of a Mandarin syllable and their packing into 16 bits.
//!
//! A syllable is an initial consonant (or none), a final vowel cluster and a
//! tone. Each component is a small closed enumeration; [`Pinyin`] packs one of
//! each into a `u16`:
//!
//! ```text
//!  15      11 10   8 7             0
//! +----------+------+---------------+
//! | initial  | tone |     final     |
//! +----------+------+---------------+
//! ```
//!
//! The all-zero word is the syllable with no initial, the empty final and
//! the neutral tone. It doubles as the "nothing here" marker of the lookup
//! tables.
use vstd::prelude::*;

verus! {

/// The consonant that opens a syllable. `Zero` is the zero initial: the
/// syllable starts directly with its final.
#[derive(Debug, Clone, Copy, PartialEq, Eq, Structural)]
pub enum Initials {
    Zero,
    B,
    P,
    M,
    F,
    D,
    T,
    N,
    L,
    G,
    K,
    H,
    J,
    Q,
    X,
    ZH,
    CH,
    SH,
    R,
    Z,
    C,
    S,
    Y,
    W,
}

/// The vowel cluster that closes a syllable. `Zero` is the empty final; only
/// the all-zero marker syllable carries it.
#[derive(Debug, Clone, Copy, PartialEq, Eq, Structural)]
pub enum Finals {
    Zero,
    A,
    O,
    E,
    U,
    I,
    AI,
    AO,
    EI,
    OU,
    Ong,
    AN,
    EN,
    Ang,
    Eng,
    ER,
    IA,
    IE,
    Iao,
    Ian,
    Ing,
    Iang,
    IN,
    Iou,
    Iong,
    IU,
    UI,
    UA,
    UN,
    Uan,
    Uang,
    UO,
    UE,
    V,
    VE,
    Van,
}

/// The tone of a syllable. `Neutral` is the toneless reading.
#[derive(Debug, Clone, Copy, PartialEq, Eq, Structural)]
pub enum Tones {
    Neutral,
    One,
    Two,
    Three,
    Four,
}

/// Number of initials, the zero initial included.
pub const INITIALS_COUNT: u8 = 24;

/// Number of finals, the empty final included.
pub const FINALS_COUNT: u8 = 36;

/// Number of tones, the neutral tone included.
pub const TONES_COUNT: u8 = 5;

impl Initials {
    /// Position of the initial in the enumeration; this is what the packed
    /// word stores.
    pub open spec fn index(self) -> int {
        match self {
            Initials::Zero => 0,
            Initials::B => 1,
            Initials::P => 2,
            Initials::M => 3,
            Initials::F => 4,
            Initials::D => 5,
            Initials::T => 6,
            Initials::N => 7,
            Initials::L => 8,
            Initials::G => 9,
            Initials::K => 10,
            Initials::H => 11,
            Initials::J => 12,
            Initials::Q => 13,
            Initials::X => 14,
            Initials::ZH => 15,
            Initials::CH => 16,
            Initials::SH => 17,
            Initials::R => 18,
            Initials::Z => 19,
            Initials::C => 20,
            Initials::S => 21,
            Initials::Y => 22,
            Initials::W => 23,
        }
    }

    /// The initial at a position; meaningful for `0 <= i < 24`.
    pub open spec fn at(i: int) -> Initials {
        if i == 1 {
            Initials::B
        } else if i == 2 {
            Initials::P
        } else if i == 3 {
            Initials::M
        } else if i == 4 {
            Initials::F
        } else if i == 5 {
            Initials::D
        } else if i == 6 {
            Initials::T
        } else if i == 7 {
            Initials::N
        } else if i == 8 {
            Initials::L
        } else if i == 9 {
            Initials::G
        } else if i == 10 {
            Initials::K
        } else if i == 11 {
            Initials::H
        } else if i == 12 {
            Initials::J
        } else if i == 13 {
            Initials::Q
        } else if i == 14 {
            Initials::X
        } else if i == 15 {
            Initials::ZH
        } else if i == 16 {
            Initials::CH
        } else if i == 17 {
            Initials::SH
        } else if i == 18 {
            Initials::R
        } else if i == 19 {
            Initials::Z
        } else if i == 20 {
            Initials::C
        } else if i == 21 {
            Initials::S
        } else if i == 22 {
            Initials::Y
        } else if i == 23 {
            Initials::W
        } else {
            Initials::Zero
        }
    }

    /// The position of the initial as a machine integer.
    pub fn bits(self) -> (r: u8)
        ensures
            r == self.index(),
            r < INITIALS_COUNT,
    {
        match self {
            Initials::Zero => 0,
            Initials::B => 1,
            Initials::P => 2,
            Initials::M => 3,
            Initials::F => 4,
            Initials::D => 5,
            Initials::T => 6,
            Initials::N => 7,
            Initials::L => 8,
            Initials::G => 9,
            Initials::K => 10,
            Initials::H => 11,
            Initials::J => 12,
            Initials::Q => 13,
            Initials::X => 14,
            Initials::ZH => 15,
            Initials::CH => 16,
            Initials::SH => 17,
            Initials::R => 18,
            Initials::Z => 19,
            Initials::C => 20,
            Initials::S => 21,
            Initials::Y => 22,
            Initials::W => 23,
        }
    }

    /// The initial stored as `b`, if `b` names one.
    pub fn from_bits(b: u8) -> (r: Option<Initials>)
        ensures
            r == (if b < INITIALS_COUNT {
                Some(Initials::at(b as int))
            } else {
                None
            }),
    {
        match b {
            0 => Some(Initials::Zero),
            1 => Some(Initials::B),
            2 => Some(Initials::P),
            3 => Some(Initials::M),
            4 => Some(Initials::F),
            5 => Some(Initials::D),
            6 => Some(Initials::T),
            7 => Some(Initials::N),
            8 => Some(Initials::L),
            9 => Some(Initials::G),
            10 => Some(Initials::K),
            11 => Some(Initials::H),
            12 => Some(Initials::J),
            13 => Some(Initials::Q),
            14 => Some(Initials::X),
            15 => Some(Initials::ZH),
            16 => Some(Initials::CH),
            17 => Some(Initials::SH),
            18 => Some(Initials::R),
            19 => Some(Initials::Z),
            20 => Some(Initials::C),
            21 => Some(Initials::S),
            22 => Some(Initials::Y),
            23 => Some(Initials::W),
            _ => None,
        }
    }

    /// `at` undoes `index`, and `index` stays below the count.
    pub broadcast proof fn lemma_index_at(self)
        ensures
            0 <= #[trigger] self.index() < 24,
            Initials::at(self.index()) == self,
    {
    }

    /// `index` undoes `at` on every position that names an initial.
    pub broadcast proof fn lemma_at_index(i: int)
        requires
            0 <= i < 24,
        ensures
            (#[trigger] Initials::at(i)).index() == i,
    {
    }
}

impl Finals {
    /// Position of the final in the enumeration; this is what the packed
    /// word stores.
    pub open spec fn index(self) -> int {
        match self {
            Finals::Zero => 0,
            Finals::A => 1,
            Finals::O => 2,
            Finals::E => 3,
            Finals::U => 4,
            Finals::I => 5,
            Finals::AI => 6,
            Finals::AO => 7,
            Finals::EI => 8,
            Finals::OU => 9,
            Finals::Ong => 10,
            Finals::AN => 11,
            Finals::EN => 12,
            Finals::Ang => 13,
            Finals::Eng => 14,
            Finals::ER => 15,
            Finals::IA => 16,
            Finals::IE => 17,
            Finals::Iao => 18,
            Finals::Ian => 19,
            Finals::Ing => 20,
            Finals::Iang => 21,
            Finals::IN => 22,
            Finals::Iou => 23,
            Finals::Iong => 24,
            Finals::IU => 25,
            Finals::UI => 26,
            Finals::UA => 27,
            Finals::UN => 28,
            Finals::Uan => 29,
            Finals::Uang => 30,
            Finals::UO => 31,
            Finals::UE => 32,
            Finals::V => 33,
            Finals::VE => 34,
            Finals::Van => 35,
        }
    }

    /// The final at a position; meaningful for `0 <= i < 36`.
    pub open spec fn at(i: int) -> Finals {
        if i == 1 {
            Finals::A
        } else if i == 2 {
            Finals::O
        } else if i == 3 {
            Finals::E
        } else if i == 4 {
            Finals::U
        } else if i == 5 {
            Finals::I
        } else if i == 6 {
            Finals::AI
        } else if i == 7 {
            Finals::AO
        } else if i == 8 {
            Finals::EI
        } else if i == 9 {
            Finals::OU
        } else if i == 10 {
            Finals::Ong
        } else if i == 11 {
            Finals::AN
        } else if i == 12 {
            Finals::EN
        } else if i == 13 {
            Finals::Ang
        } else if i == 14 {
            Finals::Eng
        } else if i == 15 {
            Finals::ER
        } else if i == 16 {
            Finals::IA
        } else if i == 17 {
            Finals::IE
        } else if i == 18 {
            Finals::Iao
        } else if i == 19 {
            Finals::Ian
        } else if i == 20 {
            Finals::Ing
        } else if i == 21 {
            Finals::Iang
        } else if i == 22 {
            Finals::IN
        } else if i == 23 {
            Finals::Iou
        } else if i == 24 {
            Finals::Iong
        } else if i == 25 {
            Finals::IU
        } else if i == 26 {
            Finals::UI
        } else if i == 27 {
            Finals::UA
        } else if i == 28 {
            Finals::UN
        } else if i == 29 {
            Finals::Uan
        } else if i == 30 {
            Finals::Uang
        } else if i == 31 {
            Finals::UO
        } else if i == 32 {
            Finals::UE
        } else if i == 33 {
            Finals::V
        } else if i == 34 {
            Finals::VE
        } else if i == 35 {
            Finals::Van
        } else {
            Finals::Zero
        }
    }

    /// The position of the final as a machine integer.
    pub fn bits(self) -> (r: u8)
        ensures
            r == self.index(),
            r < FINALS_COUNT,
    {
        match self {
            Finals::Zero => 0,
            Finals::A => 1,
            Finals::O => 2,
            Finals::E => 3,
            Finals::U => 4,
            Finals::I => 5,
            Finals::AI => 6,
            Finals::AO => 7,
            Finals::EI => 8,
            Finals::OU => 9,
            Finals::Ong => 10,
            Finals::AN => 11,
            Finals::EN => 12,
            Finals::Ang => 13,
            Finals::Eng => 14,
            Finals::ER => 15,
            Finals::IA => 16,
            Finals::IE => 17,
            Finals::Iao => 18,
            Finals::Ian => 19,
            Finals::Ing => 20,
            Finals::Iang => 21,
            Finals::IN => 22,
            Finals::Iou => 23,
            Finals::Iong => 24,
            Finals::IU => 25,
            Finals::UI => 26,
            Finals::UA => 27,
            Finals::UN => 28,
            Finals::Uan => 29,
            Finals::Uang => 30,
            Finals::UO => 31,
            Finals::UE => 32,
            Finals::V => 33,
            Finals::VE => 34,
            Finals::Van => 35,
        }
    }

    /// The final stored as `b`, if `b` names one.
    pub fn from_bits(b: u8) -> (r: Option<Finals>)
        ensures
            r == (if b < FINALS_COUNT {
                Some(Finals::at(b as int))
            } else {
                None
            }),
    {
        match b {
            0 => Some(Finals::Zero),
            1 => Some(Finals::A),
            2 => Some(Finals::O),
            3 => Some(Finals::E),
            4 => Some(Finals::U),
            5 => Some(Finals::I),
            6 => Some(Finals::AI),
            7 => Some(Finals::AO),
            8 => Some(Finals::EI),
            9 => Some(Finals::OU),
            10 => Some(Finals::Ong),
            11 => Some(Finals::AN),
            12 => Some(Finals::EN),
            13 => Some(Finals::Ang),
            14 => Some(Finals::Eng),
            15 => Some(Finals::ER),
            16 => Some(Finals::IA),
            17 => Some(Finals::IE),
            18 => Some(Finals::Iao),
            19 => Some(Finals::Ian),
            20 => Some(Finals::Ing),
            21 => Some(Finals::Iang),
            22 => Some(Finals::IN),
            23 => Some(Finals::Iou),
            24 => Some(Finals::Iong),
            25 => Some(Finals::IU),
            26 => Some(Finals::UI),
            27 => Some(Finals::UA),
            28 => Some(Finals::UN),
            29 => Some(Finals::Uan),
            30 => Some(Finals::Uang),
            31 => Some(Finals::UO),
            32 => Some(Finals::UE),
            33 => Some(Finals::V),
            34 => Some(Finals::VE),
            35 => Some(Finals::Van),
            _ => None,
        }
    }

    /// `at` undoes `index`, and `index` stays below the count.
    pub broadcast proof fn lemma_index_at(self)
        ensures
            0 <= #[trigger] self.index() < 36,
            Finals::at(self.index()) == self,
    {
    }

    /// `index` undoes `at` on every position that names a final.
    pub broadcast proof fn lemma_at_index(i: int)
        requires
            0 <= i < 36,
        ensures
            (#[trigger] Finals::at(i)).index() == i,
    {
    }
}

impl Tones {
    /// Position of the tone in the enumeration; this is what the packed word
    /// stores.
    pub open spec fn index(self) -> int {
        match self {
            Tones::Neutral => 0,
            Tones::One => 1,
            Tones::Two => 2,
            Tones::Three => 3,
            Tones::Four => 4,
        }
    }

    /// The tone at a position; meaningful for `0 <= i < 5`.
    pub open spec fn at(i: int) -> Tones {
        if i == 1 {
            Tones::One
        } else if i == 2 {
            Tones::Two
        } else if i == 3 {
            Tones::Three
        } else if i == 4 {
            Tones::Four
        } else {
            Tones::Neutral
        }
    }

    /// The position of the tone as a machine integer.
    pub fn bits(self) -> (r: u8)
        ensures
            r == self.index(),
            r < TONES_COUNT,
    {
        match self {
            Tones::Neutral => 0,
            Tones::One => 1,
            Tones::Two => 2,
            Tones::Three => 3,
            Tones::Four => 4,
        }
    }

    /// The tone stored as `b`, if `b` names one.
    pub fn from_bits(b: u8) -> (r: Option<Tones>)
        ensures
            r == (if b < TONES_COUNT {
                Some(Tones::at(b as int))
            } else {
                None
            }),
    {
        match b {
            0 => Some(Tones::Neutral),
            1 => Some(Tones::One),
            2 => Some(Tones::Two),
            3 => Some(Tones::Three),
            4 => Some(Tones::Four),
            _ => None,
        }
    }

    /// `at` undoes `index`, and `index` stays below the count.
    pub broadcast proof fn lemma_index_at(self)
        ensures
            0 <= #[trigger] self.index() < 5,
            Tones::at(self.index()) == self,
    {
    }

    /// `index` undoes `at` on every position that names a tone.
    pub broadcast proof fn lemma_at_index(i: int)
        requires
            0 <= i < 5,
        ensures
            (#[trigger] Tones::at(i)).index() == i,
    {
    }
}

/// One syllable: an initial, a final and a tone in a 16-bit word.
///
/// Every `u16` is a `Pinyin`, but only some name a syllable: the accessors
/// ask for [`Pinyin::is_valid`].
#[derive(Debug, Clone, Copy, PartialEq, Eq, Structural)]
pub struct Pinyin {
    pub bits: u16,
}

/// The word that stores the three components: the initial in the five high
/// bits, the tone in the next three, the final in the low byte.
pub open spec fn pack(initials: Initials, finals: Finals, tones: Tones) -> u16 {
    (initials.index() * 2048 + tones.index() * 256 + finals.index()) as u16
}

impl Pinyin {
    /// The stored position of the initial.
    pub open spec fn initials_index(self) -> int {
        self.bits as int / 2048
    }

    /// The stored position of the tone.
    pub open spec fn tones_index(self) -> int {
        (self.bits as int / 256) % 8
    }

    /// The stored position of the final.
    pub open spec fn finals_index(self) -> int {
        self.bits as int % 256
    }

    /// Each of the three stored positions names a component.
    pub open spec fn is_valid(self) -> bool {
        &&& self.initials_index() < INITIALS_COUNT
        &&& self.tones_index() < TONES_COUNT
        &&& self.finals_index() < FINALS_COUNT
    }

    /// The initial of a valid syllable.
    pub open spec fn spec_initials(&self) -> Initials {
        Initials::at(self.initials_index())
    }

    /// The final of a valid syllable.
    pub open spec fn spec_finals(&self) -> Finals {
        Finals::at(self.finals_index())
    }

    /// The tone of a valid syllable.
    pub open spec fn spec_tones(&self) -> Tones {
        Tones::at(self.tones_index())
    }

    /// The syllable stored as `value`.
    pub open spec fn of_word(value: u16) -> Pinyin {
        Pinyin { bits: value }
    }

    /// The all-zero syllable.
    pub fn new() -> (r: Pinyin)
        ensures
            r.bits == 0,
            r == py_spec(Initials::Zero, Finals::Zero, Tones::Neutral),
    {
        Pinyin { bits: 0 }
    }

    /// The syllable stored as `value`. Nothing is checked: see
    /// [`Pinyin::valid`].
    pub fn from_u16(value: u16) -> (r: Pinyin)
        ensures
            r == Pinyin::of_word(value),
    {
        Pinyin { bits: value }
    }

    /// The word that stores the syllable.
    pub fn to_u16(self) -> (r: u16)
        ensures
            r == self.bits,
    {
        self.bits
    }

    /// Whether the word names a syllable.
    pub fn valid(&self) -> (r: bool)
        ensures
            r == self.is_valid(),
    {
        let bits: u16 = self.bits;
        proof {
            lemma_fields_of_word(bits);
        }
        (bits >> 11) < 24 && ((bits >> 8) & 7) < 5 && (bits & 0xff) < 36
    }

    /// The initial.
    #[verifier::when_used_as_spec(spec_initials)]
    pub fn initials(&self) -> (r: Initials)
        requires
            self.is_valid(),
        ensures
            r == self.spec_initials(),
    {
        let bits: u16 = self.bits;
        proof {
            lemma_fields_of_word(bits);
        }
        match Initials::from_bits((bits >> 11) as u8) {
            Some(i) => i,
            None => Initials::Zero,
        }
    }

    /// The final.
    #[verifier::when_used_as_spec(spec_finals)]
    pub fn finals(&self) -> (r: Finals)
        requires
            self.is_valid(),
        ensures
            r == self.spec_finals(),
    {
        let bits: u16 = self.bits;
        proof {
            lemma_fields_of_word(bits);
        }
        match Finals::from_bits((bits & 0xff) as u8) {
            Some(f) => f,
            None => Finals::Zero,
        }
    }

    /// The tone.
    #[verifier::when_used_as_spec(spec_tones)]
    pub fn tones(&self) -> (r: Tones)
        requires
            self.is_valid(),
        ensures
            r == self.spec_tones(),
    {
        let bits: u16 = self.bits;
        proof {
            lemma_fields_of_word(bits);
        }
        match Tones::from_bits(((bits >> 8) & 7) as u8) {
            Some(t) => t,
            None => Tones::Neutral,
        }
    }
}

/// Shifts and masks read the same three fields as division and remainder.
proof fn lemma_fields_of_word(bits: u16)
    ensures
        (bits >> 11) as int == bits as int / 2048,
        ((bits >> 8) & 7) as int == (bits as int / 256) % 8,
        (bits & 0xff) as int == bits as int % 256,
        (bits >> 11) < 32,
        ((bits >> 8) & 7) < 8,
        (bits & 0xff) < 256,
{
    assert(bits >> 11 == bits / 2048) by (bit_vector);
    assert((bits >> 8) & 7 == (bits / 256) % 8) by (bit_vector);
    assert(bits & 0xff == bits % 256) by (bit_vector);
    assert((bits >> 11) < 32) by (bit_vector);
    assert(((bits >> 8) & 7) < 8) by (bit_vector);
    assert((bits & 0xff) < 256) by (bit_vector);
}

/// The syllable made of the three components.
pub open spec fn py_spec(initials: Initials, finals: Finals, tones: Tones) -> Pinyin {
    Pinyin { bits: pack(initials, finals, tones) }
}

/// Makes the syllable with the given initial, final and tone.
pub fn py(initials: Initials, finals: Finals, tones: Tones) -> (r: Pinyin)
    ensures
        r == py_spec(initials, finals, tones),
        r.is_valid(),
        r.initials() == initials,
        r.finals() == finals,
        r.tones() == tones,
{
    let i: u16 = initials.bits() as u16;
    let f: u16 = finals.bits() as u16;
    let t: u16 = tones.bits() as u16;
    assert((i << 11) | (t << 8) | f == i * 2048 + t * 256 + f) by (bit_vector)
        requires
            i < 24,
            t < 5,
            f < 36,
    ;
    proof {
        lemma_unpack_pack(initials, finals, tones);
    }
    Pinyin { bits: (i << 11) | (t << 8) | f }
}

/// The three fields of the word `a * 2048 + b * 256 + c`.
proof fn lemma_fields_of_sum(a: int, b: int, c: int)
    requires
        0 <= a < 32,
        0 <= b < 8,
        0 <= c < 256,
    ensures
        0 <= a * 2048 + b * 256 + c < 65536,
        (a * 2048 + b * 256 + c) / 2048 == a,
        ((a * 2048 + b * 256 + c) / 256) % 8 == b,
        (a * 2048 + b * 256 + c) % 256 == c,
        (a * 2048 + b * 256 + c == 0) <==> (a == 0 && b == 0 && c == 0),
{
}

/// Unpacking undoes packing: the word made of three components is valid and
/// holds exactly those components. It is zero only for the all-zero
/// syllable.
pub proof fn lemma_unpack_pack(initials: Initials, finals: Finals, tones: Tones)
    ensures
        py_spec(initials, finals, tones).is_valid(),
        py_spec(initials, finals, tones).initials() == initials,
        py_spec(initials, finals, tones).finals() == finals,
        py_spec(initials, finals, tones).tones() == tones,
        (py_spec(initials, finals, tones).bits == 0) <==> (initials == Initials::Zero && finals
            == Finals::Zero && tones == Tones::Neutral),
{
    let a = initials.index();
    let b = tones.index();
    let c = finals.index();
    initials.lemma_index_at();
    finals.lemma_index_at();
    tones.lemma_index_at();
    lemma_fields_of_sum(a, b, c);
    let p = py_spec(initials, finals, tones);
    assert(p.bits as int == a * 2048 + b * 256 + c);
    assert(p.initials_index() == a);
    assert(p.tones_index() == b);
    assert(p.finals_index() == c);
    assert(a == 0 <==> initials == Initials::Zero) by {
        Initials::Zero.lemma_index_at();
    }
    assert(b == 0 <==> tones == Tones::Neutral) by {
        Tones::Neutral.lemma_index_at();
    }
    assert(c == 0 <==> finals == Finals::Zero) by {
        Finals::Zero.lemma_index_at();
    }
}

/// Packing undoes unpacking: a valid word is the word made of its components.
pub proof fn lemma_pack_unpack(p: Pinyin)
    requires
        p.is_valid(),
    ensures
        py_spec(p.initials(), p.finals(), p.tones()) == p,
{
    Initials::lemma_at_index(p.initials_index());
    Finals::lemma_at_index(p.finals_index());
    Tones::lemma_at_index(p.tones_index());
}

/// A syllable survives the trip through its 16-bit word: reading the word
/// of a syllable back gives the same syllable, with the same components.
pub proof fn lemma_word_round_trip(initials: Initials, finals: Finals, tones: Tones)
    ensures
        Pinyin::of_word(py_spec(initials, finals, tones).bits) == py_spec(initials, finals, tones),
        Pinyin::of_word(py_spec(initials, finals, tones).bits).initials() == initials,
        Pinyin::of_word(py_spec(initials, finals, tones).bits).finals() == finals,
        Pinyin::of_word(py_spec(initials, finals, tones).bits).tones() == tones,
{
    lemma_unpack_pack(initials, finals, tones);
}

impl Default for Pinyin {
    /// The all-zero syllable.
    fn default() -> (r: Pinyin)
        ensures
            r.bits == 0,
    {
        Pinyin { bits: 0 }
    }
}

impl From<u16> for Pinyin {
    fn from(value: u16) -> (r: Pinyin) {
        Pinyin { bits: value }
    }
}

impl vstd::std_specs::convert::FromSpecImpl<u16> for Pinyin {
    open spec fn obeys_from_spec() -> bool {
        true
    }

    open spec fn from_spec(value: u16) -> Pinyin {
        Pinyin::of_word(value)
    }
}

impl From<Pinyin> for u16 {
    fn from(p: Pinyin) -> (r: u16) {
        p.bits
    }
}

impl vstd::std_specs::convert::FromSpecImpl<Pinyin> for u16 {
    open spec fn obeys_from_spec() -> bool {
        true
    }

    open spec fn from_spec(p: Pinyin) -> u16 {
        p.bits
    }
}

} // verus!
