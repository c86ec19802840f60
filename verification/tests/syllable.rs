use pinyin::display::PinyinDisplay;
use pinyin::polyphone::Polyphone;
use pinyin::spelling::FinalWithTones;
use pinyin::syllable::{py, Finals, Initials, Pinyin, Tones};
use pinyin::text::to_chars;

fn all_initials() -> Vec<Initials> {
    (0u8..=255).filter_map(Initials::from_bits).collect()
}

fn all_finals() -> Vec<Finals> {
    (0u8..=255).filter_map(Finals::from_bits).collect()
}

fn all_tones() -> Vec<Tones> {
    (0u8..=255).filter_map(Tones::from_bits).collect()
}

#[test]
fn to_pinyin() {
    let polyphone = Polyphone::new(0, 0, 0);
    let pinyin = Pinyin::from(polyphone);
    assert_eq!(pinyin, py(Initials::Zero, Finals::Zero, Tones::Neutral));
}

#[test]
fn polyphone_iter() {
    let polyphone = Polyphone::new(0, 0, 0);
    assert!(polyphone.iter().into_iter().next().is_none());
}

#[test]
fn vec_to_polyphone() {
    let py1 = py(Initials::Zero, Finals::A, Tones::Neutral);
    let v = vec![py1];
    let p = Polyphone::from(v);
    assert_eq!((p.0, p.1, p.2), (py1.into(), 0, 0));
}

#[test]
fn final_and_tones_to_from_str() {
    for f in all_finals() {
        for t in all_tones() {
            if f != Finals::Zero {
                let s: &str = FinalWithTones(f, t).as_str();
                let chars = to_chars(s);
                let fwt = FinalWithTones::lookup(&chars, 0, chars.len()).unwrap();
                assert_eq!(fwt, FinalWithTones(f, t));
            }
        }
    }
}

#[test]
fn pinyin_into_u16() {
    for i in all_initials() {
        for f in all_finals() {
            for t in all_tones() {
                let p = py(i, f, t);
                let n: u16 = p.into();
                assert_eq!(p, n.into());
            }
        }
    }
}

#[test]
fn enumerations_have_their_sizes() {
    assert_eq!(all_initials().len(), 24);
    assert_eq!(all_finals().len(), 36);
    assert_eq!(all_tones().len(), 5);
    assert_eq!(Initials::from_bits(24), None);
    assert_eq!(Finals::from_bits(36), None);
    assert_eq!(Tones::from_bits(5), None);
}

#[test]
fn components_come_back_out() {
    for i in all_initials() {
        for f in all_finals() {
            for t in all_tones() {
                let p = py(i, f, t);
                assert!(p.valid());
                assert_eq!(p.initials(), i);
                assert_eq!(p.finals(), f);
                assert_eq!(p.tones(), t);
                assert_eq!(Pinyin::from_u16(p.to_u16()), p);
            }
        }
    }
}

#[test]
fn packed_word_layout() {
    assert_eq!(py(Initials::Zero, Finals::Zero, Tones::Neutral).to_u16(), 0);
    assert_eq!(py(Initials::Zero, Finals::A, Tones::Neutral).to_u16(), 1);
    assert_eq!(py(Initials::Zero, Finals::Van, Tones::Neutral).to_u16(), 35);
    assert_eq!(py(Initials::Zero, Finals::Zero, Tones::One).to_u16(), 0x0100);
    assert_eq!(py(Initials::Zero, Finals::Zero, Tones::Four).to_u16(), 0x0400);
    assert_eq!(py(Initials::B, Finals::Zero, Tones::Neutral).to_u16(), 0x0800);
    assert_eq!(py(Initials::W, Finals::Van, Tones::Four).to_u16(), 0xbc23);
    assert_eq!(py(Initials::ZH, Finals::Ong, Tones::One).to_u16(), 0x790a);
}

#[test]
fn only_zero_packs_to_zero() {
    for i in all_initials() {
        for f in all_finals() {
            for t in all_tones() {
                let zero = i == Initials::Zero && f == Finals::Zero && t == Tones::Neutral;
                assert_eq!(py(i, f, t).to_u16() == 0, zero);
            }
        }
    }
}

#[test]
fn words_that_name_no_syllable() {
    assert!(!Pinyin::from_u16(36).valid());
    assert!(!Pinyin::from_u16(0x0500).valid());
    assert!(!Pinyin::from_u16(0x0700).valid());
    assert!(!Pinyin::from_u16(24 << 11).valid());
    assert!(!Pinyin::from_u16(0xffff).valid());
    assert!(Pinyin::from_u16(0xbc23).valid());
    assert_eq!(Pinyin::new(), Pinyin::default());
    assert_eq!(Pinyin::new().to_u16(), 0);
}

#[test]
fn initials_display() {
    assert_eq!("", Initials::Zero.as_str());
    assert_eq!("b", Initials::B.as_str());
    assert_eq!("zh", Initials::ZH.as_str());
}

#[test]
fn finals_display() {
    assert_eq!("a", Finals::A.as_str());
    assert_eq!("eng", Finals::Eng.as_str());
    assert_eq!("ü", Finals::V.as_str());
    assert_eq!("üan", Finals::Van.as_str());
    assert_eq!("none", Finals::Zero.as_str());
}

#[test]
fn tones_display() {
    assert_eq!("", Tones::Neutral.as_str());
    assert_eq!("1", Tones::One.as_str());
    assert_eq!("4", Tones::Four.as_str());
}

#[test]
fn pinyin_unicode_format() {
    let show = |p: Pinyin| PinyinDisplay::UnicodeTone(p).to_string();
    assert_eq!("a", show(py(Initials::Zero, Finals::A, Tones::Neutral)));
    assert_eq!("beng", show(py(Initials::B, Finals::Eng, Tones::Neutral)));
    assert_eq!("zhǖ", show(py(Initials::ZH, Finals::V, Tones::One)));
    assert_eq!("ēr", show(py(Initials::Zero, Finals::ER, Tones::One)));
    assert_eq!("none", show(py(Initials::Zero, Finals::Zero, Tones::Neutral)));
    assert_eq!("ǜan", show(py(Initials::Zero, Finals::Van, Tones::Four)));
}

#[test]
fn pinyin_numbered_format() {
    let show = |p: Pinyin| PinyinDisplay::NumberedTone(p).to_string();
    assert_eq!("a", show(py(Initials::Zero, Finals::A, Tones::Neutral)));
    assert_eq!("beng", show(py(Initials::B, Finals::Eng, Tones::Neutral)));
    assert_eq!("zhü1", show(py(Initials::ZH, Finals::V, Tones::One)));
    assert_eq!("a1", show(py(Initials::Zero, Finals::A, Tones::One)));
    assert_eq!("a2", show(py(Initials::Zero, Finals::A, Tones::Two)));
    assert_eq!("a3", show(py(Initials::Zero, Finals::A, Tones::Three)));
    assert_eq!("a4", show(py(Initials::Zero, Finals::A, Tones::Four)));
    assert_eq!("bnone1", show(py(Initials::B, Finals::Zero, Tones::One)));
}

#[test]
fn no_tones_format() {
    let show = |p: Pinyin| PinyinDisplay::NoTones(p).to_string();
    assert_eq!("a", show(py(Initials::Zero, Finals::A, Tones::Neutral)));
    assert_eq!("beng", show(py(Initials::B, Finals::Eng, Tones::Neutral)));
    assert_eq!("zhü", show(py(Initials::ZH, Finals::V, Tones::One)));
    assert_eq!("a", show(py(Initials::Zero, Finals::A, Tones::One)));
}

#[test]
fn first_letter_format() {
    let show = |p: Pinyin| PinyinDisplay::FirstLetter(p).to_string();
    assert_eq!("a", show(py(Initials::Zero, Finals::A, Tones::Two)));
    assert_eq!("b", show(py(Initials::B, Finals::Eng, Tones::Neutral)));
    assert_eq!("z", show(py(Initials::ZH, Finals::V, Tones::One)));
    assert_eq!("a", show(py(Initials::Zero, Finals::A, Tones::One)));
    assert_eq!("e", show(py(Initials::Zero, Finals::ER, Tones::One)));
    assert_eq!("s", show(py(Initials::SH, Finals::I, Tones::One)));
    assert_eq!("ü", show(py(Initials::Zero, Finals::Van, Tones::One)));
    assert_eq!("n", show(py(Initials::Zero, Finals::Zero, Tones::Neutral)));
}

#[test]
fn write_to_appends() {
    let mut out = String::from("x");
    PinyinDisplay::UnicodeTone(py(Initials::N, Finals::I, Tones::Three)).write_to(&mut out);
    PinyinDisplay::NumberedTone(py(Initials::H, Finals::AO, Tones::Three)).write_to(&mut out);
    assert_eq!(out, "xnǐhao3");
}

#[test]
fn every_spelling_is_read_back_and_nothing_else() {
    let mut seen = std::collections::HashSet::new();
    for f in all_finals() {
        for t in all_tones() {
            if f != Finals::Zero {
                assert!(seen.insert(FinalWithTones(f, t).as_str()));
            }
        }
    }
    assert_eq!(seen.len(), 175);
    for word in ["", "none", "x", "A", "ng", "zh", "aa", "iāngg", "ān ", "üā", "iǖ"] {
        let chars = to_chars(word);
        assert_eq!(FinalWithTones::lookup(&chars, 0, chars.len()), None, "{:?}", word);
    }
}

#[test]
fn lookup_reads_a_span() {
    let chars = to_chars("zhōng,");
    assert_eq!(
        FinalWithTones::lookup(&chars, 2, 5),
        Some(FinalWithTones(Finals::Ong, Tones::One))
    );
    assert_eq!(FinalWithTones::lookup(&chars, 2, 6), None);
    assert_eq!(FinalWithTones::lookup(&chars, 0, 5), None);
    assert_eq!(FinalWithTones::lookup(&chars, 3, 3), None);
}

#[test]
fn polyphone_keeps_order_and_skips_unused_slots() {
    let a = py(Initials::L, Finals::Ing, Tones::Two);
    let b = py(Initials::Y, Finals::Uan, Tones::Two);
    let c = py(Initials::X, Finals::Ing, Tones::One);
    let d = py(Initials::B, Finals::A, Tones::One);
    assert_eq!(Polyphone::from(vec![a, b, c]).iter(), vec![a, b, c]);
    assert_eq!(Polyphone::from(vec![a, b]).iter(), vec![a, b]);
    assert_eq!(Polyphone::from(vec![a]).iter(), vec![a]);
    assert_eq!(Polyphone::from(vec![a, b, c, d]).iter(), vec![a, b, c]);
    assert_eq!(Polyphone::new(0, b.to_u16(), 0).iter(), vec![b]);
    assert_eq!(Polyphone::new(a.to_u16(), 0, c.to_u16()).iter(), vec![a, c]);
    assert_eq!(Pinyin::from(Polyphone::from(vec![a, b, c])), a);
    assert_eq!(Polyphone::default(), Polyphone::new(0, 0, 0));
}

#[test]
fn span_is_compares_the_span() {
    let chars = to_chars("nǐ hǎo");
    assert!(pinyin::text::span_is(&chars, 0, 2, "nǐ"));
    assert!(pinyin::text::span_is(&chars, 3, 6, "hǎo"));
    assert!(!pinyin::text::span_is(&chars, 0, 2, "ni"));
    assert!(!pinyin::text::span_is(&chars, 0, 3, "nǐ"));
    assert!(pinyin::text::span_is(&chars, 4, 4, ""));
    assert_eq!(chars, vec!['n', 'ǐ', ' ', 'h', 'ǎ', 'o']);
}
