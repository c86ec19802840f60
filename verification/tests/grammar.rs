use pinyin::db::DB;
use pinyin::grammar::{
    code_point, comment, empty_line, final_and_tones, initials, is_pinyin_char, parse_db,
    parse_line, parse_lines, syllable, syllables, ParseError,
};
use pinyin::polyphone::Polyphone;
use pinyin::spelling::FinalWithTones;
use pinyin::syllable::{py, Finals, Initials, Pinyin, Tones};
use pinyin::text::to_chars;

/// What is left of `s` after its first `end` characters.
fn rest(s: &str, end: usize) -> String {
    s.chars().skip(end).collect()
}

/// A rule that only reports its end, applied at the start of `s`: what is left.
fn left_by(rule: fn(&[char], usize) -> Option<usize>, s: &str) -> Option<String> {
    rule(&to_chars(s), 0).map(|end| rest(s, end))
}

fn code_point_of(s: &str) -> Option<(String, char)> {
    code_point(&to_chars(s), 0).map(|(c, end)| (rest(s, end), c))
}

fn initials_of(s: &str) -> Option<(String, Initials)> {
    initials(&to_chars(s), 0).map(|(i, end)| (rest(s, end), i))
}

fn final_of(s: &str) -> Option<(String, FinalWithTones)> {
    final_and_tones(&to_chars(s), 0).map(|(f, end)| (rest(s, end), f))
}

fn syllable_of(s: &str) -> Option<(String, Pinyin)> {
    syllable(&to_chars(s), 0).map(|(p, end)| (rest(s, end), p))
}

fn line_of(s: &str) -> Option<(String, Option<(char, Polyphone)>)> {
    parse_line(&to_chars(s), 0).map(|(entry, end)| (rest(s, end), Some(entry)))
}

fn lines_of(s: &str) -> Vec<(char, Polyphone)> {
    parse_lines(&to_chars(s)).unwrap()
}

#[test]
fn parse_comment() {
    assert_eq!(left_by(comment, "#\n"), Some(String::from("")));
    assert_eq!(left_by(comment, "# Hello world\n"), Some(String::from("")));
    assert_eq!(left_by(comment, "  # Hello world\n"), Some(String::from("")));
    assert_eq!(left_by(comment, "# Hello world\r\n"), Some(String::from("")));
}

#[test]
fn parse_code_point() {
    assert_eq!(code_point_of("U+4E2D"), Some((String::from(""), '中')));
    assert_eq!(code_point_of("U+2104C"), Some((String::from(""), '\u{2104C}')));
}

#[test]
fn parse_initials() {
    assert_eq!(initials_of("b"), Some((String::from(""), Initials::B)));
    assert_eq!(initials_of("ch"), Some((String::from(""), Initials::CH)));
    assert_eq!(initials_of("c"), Some((String::from(""), Initials::C)));
    assert_eq!(initials_of("y"), Some((String::from(""), Initials::Y)));
    assert_eq!(initials_of("zh"), Some((String::from(""), Initials::ZH)));
}

#[test]
fn test_is_py_chr() {
    assert!(is_pinyin_char('a'));
    assert!(is_pinyin_char('ā'));
    assert!(is_pinyin_char('é'));
    assert!(is_pinyin_char('ǐ'));
    assert!(is_pinyin_char('ò'));
    assert!(is_pinyin_char('ǖ'));
}

#[test]
fn parse_final_and_tones() {
    let ok = |f, t| Some((String::from(""), FinalWithTones(f, t)));
    assert_eq!(final_of("a"), ok(Finals::A, Tones::Neutral));
    assert_eq!(final_of("á"), ok(Finals::A, Tones::Two));
    assert_eq!(final_of("ang"), ok(Finals::Ang, Tones::Neutral));
    assert_eq!(final_of("ǎn"), ok(Finals::AN, Tones::Three));
    assert_eq!(final_of("ún"), ok(Finals::UN, Tones::Two));
}

#[test]
fn parse_pinyin() {
    let ok = |i, f, t| Some((String::from(""), py(i, f, t)));
    assert_eq!(syllable_of("a"), ok(Initials::Zero, Finals::A, Tones::Neutral));
    assert_eq!(syllable_of("bá"), ok(Initials::B, Finals::A, Tones::Two));
    assert_eq!(syllable_of("hún"), ok(Initials::H, Finals::UN, Tones::Two));
}

#[test]
fn test_parse_line() {
    assert_eq!(
        line_of("U+4E2D: zhōng\n"),
        Some((
            String::from(""),
            Some(('中', Polyphone::from(vec![py(Initials::ZH, Finals::Ong, Tones::One)])))
        ))
    );
    assert_eq!(
        line_of("U+4E2D: zhōng,zhòng\n"),
        Some((
            String::from(""),
            Some((
                '中',
                Polyphone::from(vec![
                    py(Initials::ZH, Finals::Ong, Tones::One),
                    py(Initials::ZH, Finals::Ong, Tones::Four)
                ])
            ))
        ))
    );
    assert_eq!(
        line_of("U+4E2D: zhōng,zhòng # comment\n"),
        Some((
            String::from(""),
            Some((
                '中',
                Polyphone::from(vec![
                    py(Initials::ZH, Finals::Ong, Tones::One),
                    py(Initials::ZH, Finals::Ong, Tones::Four),
                ])
            ))
        ))
    );
}

#[test]
fn parse_empty_line() {
    assert_eq!(left_by(empty_line, "\n"), Some(String::from("")));
    assert_eq!(left_by(empty_line, " \t\n"), Some(String::from("")));
    assert!(matches!(left_by(empty_line, "foo"), None));
}

#[test]
fn test_parse_lines() {
    // parse empty
    assert_eq!(lines_of(""), vec![]);
    assert_eq!(lines_of("\n"), vec![]);

    assert_eq!(
        lines_of(" # comment\nU+4E2D: zhōng\n\nU+3007: líng,yuán,xīng  # 〇\n"),
        vec![
            ('中', Polyphone::new(py(Initials::ZH, Finals::Ong, Tones::One).into(), 0, 0)),
            (
                '〇',
                Polyphone::new(
                    py(Initials::L, Finals::Ing, Tones::Two).into(),
                    py(Initials::Y, Finals::Uan, Tones::Two).into(),
                    py(Initials::X, Finals::Ing, Tones::One).into()
                )
            ),
        ]
    );
}

/// A table with one record for each of the 20902 unified ideographs of the
/// basic block, and some more.
fn large_table() -> String {
    let mut text = String::from("# generated\n\n");
    for code in 0x4E00u32..=0x9FA5 {
        text.push_str(&format!("U+{:04X}: yī,èr\n", code));
    }
    text.push_str("U+30EDE: biáng  # 𰻞\n");
    text.push_str("U+30EDD: biáng\n");
    text
}

#[test]
fn test_parse_db() {
    let text = large_table();
    let count = parse_lines(&to_chars(&text)).unwrap().len();
    assert!(count > 20902, "count = {}", count);
    let db = parse_db(&text).unwrap();
    let po: Pinyin = db.get('\u{30EDD}').unwrap().into();
    assert_eq!(po, py(Initials::B, Finals::Iang, Tones::Two));
}

#[test]
fn one_record() {
    let entries = lines_of("U+4E2D: zhōng\n");
    assert_eq!(entries.len(), 1);
    assert_eq!(entries[0].0, '中');
    let readings = entries[0].1.iter();
    assert_eq!(readings.len(), 1);
    assert_eq!(readings[0].initials(), Initials::ZH);
    assert_eq!(readings[0].finals(), Finals::Ong);
    assert_eq!(readings[0].tones(), Tones::One);
}

#[test]
fn three_readings_in_order() {
    let entries = lines_of("U+3007: líng,yuán,xīng # comment\n");
    assert_eq!(entries.len(), 1);
    assert_eq!(entries[0].0, '〇');
    assert_eq!(
        entries[0].1.iter(),
        vec![
            py(Initials::L, Finals::Ing, Tones::Two),
            py(Initials::Y, Finals::Uan, Tones::Two),
            py(Initials::X, Finals::Ing, Tones::One),
        ]
    );
}

#[test]
fn a_fourth_reading_is_read_and_left_out() {
    let entries = lines_of("U+4E2D: ā,á,ǎ,à\n");
    assert_eq!(
        entries,
        vec![(
            '中',
            Polyphone::from(vec![
                py(Initials::Zero, Finals::A, Tones::One),
                py(Initials::Zero, Finals::A, Tones::Two),
                py(Initials::Zero, Finals::A, Tones::Three),
            ])
        )]
    );
}

#[test]
fn where_reading_stops() {
    let stop = |s: &str| parse_lines(&to_chars(s)).unwrap_err().offset;
    assert_eq!(stop("foo"), 0);
    assert_eq!(stop("\n\nfoo"), 2);
    assert_eq!(stop("U+4E2D: zhōng"), 0);
    assert_eq!(stop("# a\nU+4E2D: zhōng\nU+4E2D: zhōngg\n"), 18);
    assert_eq!(stop("#"), 0);
    assert_eq!(stop("# no end"), 0);
    assert_eq!(stop("\n# no end"), 1);
    assert_eq!(stop("U+4E2D: zhōng # no end"), 0);
    assert_eq!(stop("U+4E2D: zhōng\r\n"), 0);
    assert_eq!(stop(" U+4E2D: zhōng\n"), 0);
    assert_eq!(stop("U+4E2D:zhōng\n"), 0);
    assert_eq!(stop("U+4E2D: zhōng,\n"), 0);
    assert_eq!(stop("U+4E2D: zhōng, zhòng\n"), 0);
    assert_eq!(stop("U+4E2D: n\n"), 0);
    assert_eq!(stop("U+4E2D: Zhōng\n"), 0);
    assert_eq!(stop("U+: a\n"), 0);
    assert_eq!(stop("u+4E2D: a\n"), 0);
    assert_eq!(stop("U+D800: a\n"), 0);
    assert_eq!(stop("U+DFFF: a\n"), 0);
    assert_eq!(stop("U+110000: a\n"), 0);
    assert_eq!(stop("U+FFFFFFFFFFFFFFFFFFFF: a\n"), 0);
    assert_eq!(stop("U+100000000: a\n"), 0);
    assert_eq!(
        parse_db("\nU+4E2D: zhōng\nfoo").map(|_| ()),
        Err(ParseError { offset: 15 })
    );
    assert_eq!(DB::load("foo").map(|_| ()), Err(ParseError { offset: 0 }));
}

#[test]
fn code_points() {
    assert_eq!(code_point_of("U+0"), Some((String::from(""), '\0')));
    assert_eq!(code_point_of("U+00000000000000000041"), Some((String::from(""), 'A')));
    assert_eq!(code_point_of("U+4e2d"), Some((String::from(""), '中')));
    assert_eq!(code_point_of("U+4E2D: zhōng"), Some((String::from(": zhōng"), '中')));
    assert_eq!(code_point_of("U+D7FF"), Some((String::from(""), '\u{D7FF}')));
    assert_eq!(code_point_of("U+E000"), Some((String::from(""), '\u{E000}')));
    assert_eq!(code_point_of("U+10FFFF"), Some((String::from(""), '\u{10FFFF}')));
    assert_eq!(code_point_of("U+10FFFFg"), Some((String::from("g"), '\u{10FFFF}')));
    assert_eq!(code_point_of("U+110000"), None);
    assert_eq!(code_point_of("U+D800"), None);
    assert_eq!(code_point_of("U+"), None);
    assert_eq!(code_point_of("U"), None);
    assert_eq!(code_point_of(""), None);
    assert_eq!(code_point_of("U+g"), None);
    assert_eq!(code_point_of("U+ 41"), None);
    assert_eq!(code_point_of("4E2D"), None);
    assert_eq!(code_point(&to_chars("xU+41"), 1), Some(('A', 5)));
    assert_eq!(code_point(&to_chars("U+41"), 4), None);
    assert_eq!(code_point(&to_chars("U+41"), 9), None);
}

#[test]
fn longest_initial_wins() {
    assert_eq!(initials_of("zhi"), Some((String::from("i"), Initials::ZH)));
    assert_eq!(initials_of("zi"), Some((String::from("i"), Initials::Z)));
    assert_eq!(initials_of("chi"), Some((String::from("i"), Initials::CH)));
    assert_eq!(initials_of("shi"), Some((String::from("i"), Initials::SH)));
    assert_eq!(initials_of("si"), Some((String::from("i"), Initials::S)));
    assert_eq!(initials_of("z"), Some((String::from(""), Initials::Z)));
    assert_eq!(initials_of("hh"), Some((String::from("h"), Initials::H)));
    assert_eq!(initials_of("bh"), Some((String::from("h"), Initials::B)));
    assert_eq!(initials_of("a"), None);
    assert_eq!(initials_of("v"), None);
    assert_eq!(initials_of("B"), None);
    assert_eq!(initials_of(""), None);
    assert_eq!(initials(&to_chars("b"), 1), None);
    for (k, word) in [
        "b", "p", "m", "f", "d", "t", "n", "l", "g", "k", "h", "j", "q", "x", "zh", "ch", "sh",
        "r", "z", "c", "s", "y", "w",
    ]
    .into_iter()
    .enumerate()
    {
        let expected = Initials::from_bits(k as u8 + 1).unwrap();
        assert_eq!(initials_of(word), Some((String::from(""), expected)));
        assert_eq!(expected.as_str(), word);
    }
}

#[test]
fn letters_of_finals() {
    for c in "abcxyzABCXYZāáǎàēéěèīíǐìōóǒòūúǔùǖǘǚǜü".chars() {
        assert!(is_pinyin_char(c), "{:?}", c);
    }
    for c in " ,#\n\t0:+-_'\u{e4}\u{f6}\u{144}中".chars() {
        assert!(!is_pinyin_char(c), "{:?}", c);
    }
}

#[test]
fn finals_take_the_whole_run() {
    assert_eq!(
        final_of("ang,"),
        Some((String::from(","), FinalWithTones(Finals::Ang, Tones::Neutral)))
    );
    assert_eq!(final_of("angx"), None);
    assert_eq!(final_of("x"), None);
    assert_eq!(final_of(""), None);
    assert_eq!(final_of(",a"), None);
    assert_eq!(final_and_tones(&to_chars("a"), 1), None);
    assert_eq!(final_and_tones(&to_chars("a"), 7), None);
}

#[test]
fn syllables_with_and_without_initial() {
    let ok = |left: &str, i, f, t| Some((String::from(left), py(i, f, t)));
    assert_eq!(syllable_of("ér"), ok("", Initials::Zero, Finals::ER, Tones::Two));
    assert_eq!(syllable_of("yuán"), ok("", Initials::Y, Finals::Uan, Tones::Two));
    assert_eq!(syllable_of("wǔ"), ok("", Initials::W, Finals::U, Tones::Three));
    assert_eq!(syllable_of("nǚ"), ok("", Initials::N, Finals::V, Tones::Three));
    assert_eq!(syllable_of("lüè"), ok("", Initials::L, Finals::VE, Tones::Four));
    assert_eq!(syllable_of("shuāng "), ok(" ", Initials::SH, Finals::Uang, Tones::One));
    assert_eq!(syllable_of("n"), None);
    assert_eq!(syllable_of("ng"), None);
    assert_eq!(syllable_of("zh"), None);
    assert_eq!(syllable_of("hm"), None);
    assert_eq!(syllable_of(""), None);
}

#[test]
fn lists_of_syllables() {
    let a = py(Initials::Zero, Finals::A, Tones::Neutral);
    let bo = py(Initials::B, Finals::O, Tones::One);
    let list = |s: &str| syllables(&to_chars(s), 0);
    assert_eq!(list("a"), Some((vec![a], 1)));
    assert_eq!(list("a,bō"), Some((vec![a, bo], 4)));
    assert_eq!(list("a,bō,a,a,a"), Some((vec![a, bo, a, a, a], 10)));
    assert_eq!(list("a,"), Some((vec![a], 1)));
    assert_eq!(list("a,,a"), Some((vec![a], 1)));
    assert_eq!(list("a, a"), Some((vec![a], 1)));
    assert_eq!(list("a,n"), Some((vec![a], 1)));
    assert_eq!(list("a bō"), Some((vec![a], 1)));
    assert_eq!(list(",a"), None);
    assert_eq!(list(""), None);
}

#[test]
fn ends_of_lines() {
    assert_eq!(left_by(empty_line, "\nrest"), Some(String::from("rest")));
    assert_eq!(left_by(empty_line, "  \n\n"), Some(String::from("\n")));
    assert_eq!(left_by(empty_line, ""), None);
    assert_eq!(left_by(empty_line, "  "), None);
    assert_eq!(left_by(empty_line, "\r\n"), None);
    assert_eq!(left_by(empty_line, " #\n"), None);
    assert_eq!(left_by(comment, "#\nrest"), Some(String::from("rest")));
    assert_eq!(left_by(comment, "\t# # #\n#\n"), Some(String::from("#\n")));
    assert_eq!(left_by(comment, "#"), None);
    assert_eq!(left_by(comment, "# no end"), None);
    assert_eq!(left_by(comment, "\n"), None);
    assert_eq!(left_by(comment, "a#\n"), None);
    assert_eq!(left_by(comment, ""), None);
    assert_eq!(empty_line(&to_chars("a\n"), 1), Some(2));
    assert_eq!(empty_line(&to_chars("a\n"), 2), None);
    assert_eq!(empty_line(&to_chars("a\n"), 3), None);
    assert_eq!(comment(&to_chars("a#\n"), 1), Some(3));
    assert_eq!(comment(&to_chars("a#\n"), 4), None);
}

#[test]
fn later_records_replace_earlier_ones() {
    let db = parse_db("U+4E2D: zhōng\nU+597D: hǎo\nU+4E2D: zhòng,zhōng\n").unwrap();
    assert_eq!(
        db.get('中'),
        Some(Polyphone::from(vec![
            py(Initials::ZH, Finals::Ong, Tones::Four),
            py(Initials::ZH, Finals::Ong, Tones::One)
        ]))
    );
    assert_eq!(
        db.get('好'),
        Some(Polyphone::from(vec![py(Initials::H, Finals::AO, Tones::Three)]))
    );
    assert_eq!(db.get('你'), None);
}

#[test]
fn empty_text_is_an_empty_table() {
    let db = DB::load("").unwrap();
    assert_eq!(db.get('中'), None);
    let db = DB::load("\n \t\n# nothing\n").unwrap();
    assert_eq!(db.get('中'), None);
}
