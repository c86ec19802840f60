//! The grammar of the table text written a second time, with parser
//! combinators, and held against the library on many small texts.
use nom::{
    branch::alt,
    bytes::complete::{is_not, tag},
    character::complete::{char, hex_digit1, newline, space0},
    combinator::{map_res, opt, value},
    multi::{many0, separated_list1},
    sequence::{pair, preceded, separated_pair, terminated, tuple},
    IResult, InputTakeAtPosition,
};
use pinyin::grammar::{is_pinyin_char, parse_lines};
use pinyin::polyphone::Polyphone;
use pinyin::spelling::FinalWithTones;
use pinyin::syllable::{py, Initials, Pinyin};
use pinyin::text::to_chars;

type Entry = Option<(char, Polyphone)>;

fn comment(i: &str) -> IResult<&str, Entry> {
    value(None, tuple((space0, char('#'), opt(is_not("\n")), newline)))(i)
}

fn empty_line(i: &str) -> IResult<&str, Entry> {
    value(None, pair(space0, newline))(i)
}

fn code_point(i: &str) -> IResult<&str, char> {
    preceded(
        tag("U+"),
        map_res(hex_digit1, |s: &str| -> Result<char, ()> {
            let code_point = u32::from_str_radix(s, 16).map_err(|_| ())?;
            char::from_u32(code_point).ok_or(())
        }),
    )(i)
}

fn initials(i: &str) -> IResult<&str, Initials> {
    alt((
        value(Initials::B, char('b')),
        value(Initials::CH, tag("ch")),
        value(Initials::C, char('c')),
        value(Initials::D, char('d')),
        value(Initials::F, char('f')),
        value(Initials::G, char('g')),
        value(Initials::H, char('h')),
        value(Initials::J, char('j')),
        value(Initials::K, char('k')),
        value(Initials::L, char('l')),
        value(Initials::M, char('m')),
        value(Initials::N, char('n')),
        value(Initials::P, char('p')),
        value(Initials::Q, char('q')),
        value(Initials::R, char('r')),
        value(Initials::SH, tag("sh")),
        value(Initials::S, char('s')),
        value(Initials::T, char('t')),
        value(Initials::W, char('w')),
        value(Initials::X, char('x')),
        alt((
            value(Initials::Y, char('y')),
            value(Initials::ZH, tag("zh")),
            value(Initials::Z, char('z')),
        )),
    ))(i)
}

fn final_and_tones(i: &str) -> IResult<&str, FinalWithTones> {
    let (i, s) =
        i.split_at_position1_complete(|x| !is_pinyin_char(x), nom::error::ErrorKind::Alpha)?;
    let chars = to_chars(s);
    match FinalWithTones::lookup(&chars, 0, chars.len()) {
        Some(r) => Ok((i, r)),
        None => Err(nom::Err::Error(nom::error::Error::new(i, nom::error::ErrorKind::Tag))),
    }
}

fn syllable(i: &str) -> IResult<&str, Pinyin> {
    let (i, (initials, final_with_tones)) = pair(opt(initials), final_and_tones)(i)?;
    Ok((i, py(initials.unwrap_or(Initials::Zero), final_with_tones.0, final_with_tones.1)))
}

fn record(i: &str) -> IResult<&str, Entry> {
    let list = separated_list1(char(','), syllable);
    let char_and_list = separated_pair(code_point, tag(": "), list);
    let mut line = terminated(char_and_list, alt((comment, empty_line)));
    let (remains, (ch, list)) = line(i)?;
    Ok((remains, Some((ch, Polyphone::from(list)))))
}

/// The entries of the lines at the start of `i`, and the number of characters
/// of those lines.
fn lines(i: &str) -> (Vec<(char, Polyphone)>, usize) {
    let (remains, lines) = many0(alt((empty_line, comment, record)))(i).unwrap();
    let read = i.chars().count() - remains.chars().count();
    (lines.into_iter().flatten().collect(), read)
}

/// The same from the library.
fn library_lines(i: &str) -> (Vec<(char, Polyphone)>, usize) {
    let chars = to_chars(i);
    match parse_lines(&chars) {
        Ok(entries) => (entries, chars.len()),
        Err(e) => {
            let (entries, read) = match parse_lines(&chars[..e.offset]) {
                Ok(entries) => (entries, e.offset),
                Err(_) => panic!("the lines before the stop are no table: {:?}", i),
            };
            (entries, read)
        }
    }
}

fn agree(text: &str) {
    assert_eq!(library_lines(text), lines(text), "{:?}", text);
}

const PIECES: [&str; 40] = [
    "U+4E2D", "U+3007", "U+D800", "U+41", "U+110000", "U+", "U", "+", ": ", ":", " ", "\t", "\n",
    "\r", "#", ",", "zh", "z", "h", "ch", "sh", "n", "g", "y", "w", "ōng", "òng", "a", "ǎ",
    "íng", "uán", "ü", "üè", "ǚ", "er", "i", "none", "x", "B", "中",
];

/// A small generator of numbers; the same numbers on every run.
fn next(state: &mut u64) -> usize {
    *state = state.wrapping_mul(6364136223846793005).wrapping_add(1442695040888963407);
    (*state >> 33) as usize
}

#[test]
fn chosen_texts_agree() {
    for text in [
        "",
        "\n",
        " # comment\nU+4E2D: zhōng\n\nU+3007: líng,yuán,xīng  # 〇\n",
        "U+4E2D: zhōng",
        "U+4E2D: zhōng # no end",
        "U+4E2D: zhōng\r\n",
        "U+4E2D: zhōng,\n",
        "U+4E2D: zhōng,zhòng,a,a,a\n",
        "U+4E2D: n\n",
        "U+D800: a\n",
        "U+FFFFFFFFF: a\n",
        "U+0041: a\nU+0041: ā\n#\n#",
        "#\n \n\t#x\nfoo\nU+41: a\n",
        "# 中\r\n",
        "U+41: yi,wu,yu,er,ye\n",
    ] {
        agree(text);
    }
}

#[test]
fn texts_made_of_pieces_agree() {
    let mut state: u64 = 2024;
    for _ in 0..20000 {
        let mut text = String::new();
        for _ in 0..next(&mut state) % 12 {
            text.push_str(PIECES[next(&mut state) % PIECES.len()]);
        }
        agree(&text);
    }
}

#[test]
fn tables_made_of_lines_agree() {
    let mut state: u64 = 7;
    for _ in 0..3000 {
        let mut text = String::new();
        for _ in 0..next(&mut state) % 6 {
            match next(&mut state) % 4 {
                0 => text.push_str(" \t\n"),
                1 => text.push_str("  # a comment, U+41: a\n"),
                _ => {
                    text.push_str(["U+4F60", "U+597D", "U+2104C", "U+0"][next(&mut state) % 4]);
                    text.push_str(": ");
                    for k in 0..1 + next(&mut state) % 4 {
                        if k > 0 {
                            text.push(',');
                        }
                        text.push_str(["nǐ", "hǎo", "biáng", "lüè", "a", "shuāng", "ér"]
                            [next(&mut state) % 7]);
                    }
                    text.push_str(["\n", " \n", "#\n", "  # x\n", "x\n", ""][next(&mut state) % 6]);
                }
            }
        }
        agree(&text);
    }
}
