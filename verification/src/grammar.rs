//! The text format of a table of readings.
//!
//! A table is written one character to a line:
//!
//! ```text
//! U+4E2D: zhōng,zhòng  # comment
//! ```
//!
//! that is, `U+`, the code point in hexadecimal, a colon and a space, one
//! or more syllables separated by commas, and then either a comment or the
//! end of the line. Lines that hold only blanks, or blanks and a comment, say
//! nothing. A comment runs from `#` to the end of its line, which must be
//! there.
//!
//! Each rule below is a function of the text and a position in it. It says
//! whether the rule matches there and, if so, what was read and where the
//! match ends. Positions count characters.
use crate::db::{put, DB};
use crate::display::PinyinDisplay;
use crate::polyphone::Polyphone;
use crate::spelling::FinalWithTones;
use crate::syllable::{py, py_spec, Finals, Initials, Pinyin};
use crate::text::to_chars;
use vstd::prelude::*;

verus! {

/// `char::from_u32` gives the character with the given code point, if the
/// number is the code point of a character.
pub assume_specification[ char::from_u32 ](i: u32) -> (r: Option<char>)
    ensures
        r == (if is_scalar_value(i as int) {
            Some(i as char)
        } else {
            None
        }),
;

/// Where reading a table stopped: the position of the first line that is
/// not a line of a table.
#[derive(Debug, Clone, Copy, PartialEq, Eq, Structural)]
pub struct ParseError {
    /// Number of characters before the line that could not be read.
    pub offset: usize,
}

/// Whether `v` is the code point of a character: at most `0x10FFFF` and no
/// surrogate.
pub open spec fn is_scalar_value(v: int) -> bool {
    0 <= v <= 0x10FFFF && !(0xD800 <= v <= 0xDFFF)
}

/// A blank or a tab.
pub open spec fn is_blank(c: char) -> bool {
    c == ' ' || c == '\t'
}

/// A digit of a hexadecimal number, in either case.
pub open spec fn is_hex_digit(c: char) -> bool {
    ('0' <= c <= '9') || ('a' <= c <= 'f') || ('A' <= c <= 'F')
}

/// The number that a hexadecimal digit stands for.
pub open spec fn hex_digit_value(c: char) -> int {
    if '0' <= c <= '9' {
        c as int - '0' as int
    } else if 'a' <= c <= 'f' {
        c as int - 'a' as int + 10
    } else {
        c as int - 'A' as int + 10
    }
}

/// A vowel that carries a tone mark, or the bare `ü`.
pub open spec fn is_marked_vowel(c: char) -> bool {
    c == 'ā' || c == 'á' || c == 'ǎ' || c == 'à' || c == 'ē' || c == 'é' || c == 'ě' || c == 'è'
        || c == 'ī' || c == 'í' || c == 'ǐ' || c == 'ì' || c == 'ō' || c == 'ó' || c == 'ǒ' || c
        == 'ò' || c == 'ū' || c == 'ú' || c == 'ǔ' || c == 'ù' || c == 'ǖ' || c == 'ǘ' || c == 'ǚ'
        || c == 'ǜ' || c == 'ü'
}

/// A character that can stand in the spelling of a final: a letter of the
/// basic Latin alphabet or a marked vowel.
pub open spec fn is_pinyin_letter(c: char) -> bool {
    ('a' <= c <= 'z') || ('A' <= c <= 'Z') || is_marked_vowel(c)
}

/// The end of the run of blanks that starts at `i`.
pub open spec fn blanks_end(s: Seq<char>, i: int) -> int
    decreases s.len() - i,
{
    if 0 <= i < s.len() && is_blank(s[i]) {
        blanks_end(s, i + 1)
    } else {
        i
    }
}

/// The end of the run of hexadecimal digits that starts at `i`.
pub open spec fn hex_end(s: Seq<char>, i: int) -> int
    decreases s.len() - i,
{
    if 0 <= i < s.len() && is_hex_digit(s[i]) {
        hex_end(s, i + 1)
    } else {
        i
    }
}

/// The end of the run of letters that starts at `i`.
pub open spec fn letters_end(s: Seq<char>, i: int) -> int
    decreases s.len() - i,
{
    if 0 <= i < s.len() && is_pinyin_letter(s[i]) {
        letters_end(s, i + 1)
    } else {
        i
    }
}

/// The position of the first line feed at or after `i`, or the length of
/// the text if there is none.
pub open spec fn line_feed_at(s: Seq<char>, i: int) -> int
    decreases s.len() - i,
{
    if 0 <= i < s.len() && s[i] != '\n' {
        line_feed_at(s, i + 1)
    } else {
        i
    }
}

/// The number written by the hexadecimal digits from `i` up to `j`.
pub open spec fn hex_value(s: Seq<char>, i: int, j: int) -> int
    decreases j - i,
{
    if i >= j {
        0
    } else {
        hex_value(s, i, j - 1) * 16 + hex_digit_value(s[j - 1])
    }
}

/// A line of blanks: blanks, then a line feed. Gives the position after the
/// line feed.
pub open spec fn empty_line_at(s: Seq<char>, i: int) -> Option<int> {
    let j = blanks_end(s, i);
    if 0 <= j < s.len() && s[j] == '\n' {
        Some(j + 1)
    } else {
        None
    }
}

/// A comment: blanks, `#`, anything up to a line feed, and the line feed.
/// Gives the position after the line feed.
pub open spec fn comment_at(s: Seq<char>, i: int) -> Option<int> {
    let j = blanks_end(s, i);
    if 0 <= j < s.len() && s[j] == '#' {
        let k = line_feed_at(s, j + 1);
        if k < s.len() {
            Some(k + 1)
        } else {
            None
        }
    } else {
        None
    }
}

/// The end of a record: a comment or a line of blanks.
pub open spec fn line_end_at(s: Seq<char>, i: int) -> Option<int> {
    match comment_at(s, i) {
        Some(j) => Some(j),
        None => empty_line_at(s, i),
    }
}

/// A code point: `U+` and one or more hexadecimal digits that write the
/// code point of a character. Gives the character and the position after
/// the last digit.
pub open spec fn code_point_at(s: Seq<char>, i: int) -> Option<(char, int)> {
    if 0 <= i && i + 2 <= s.len() && s[i] == 'U' && s[i + 1] == '+' {
        let j = hex_end(s, i + 2);
        let v = hex_value(s, i + 2, j);
        if j > i + 2 && is_scalar_value(v) {
            Some((v as char, j))
        } else {
            None
        }
    } else {
        None
    }
}

/// The initial written by the single letter `c`, if there is one.
pub open spec fn initial_of_letter(c: char) -> Option<Initials> {
    if c == 'b' {
        Some(Initials::B)
    } else if c == 'p' {
        Some(Initials::P)
    } else if c == 'm' {
        Some(Initials::M)
    } else if c == 'f' {
        Some(Initials::F)
    } else if c == 'd' {
        Some(Initials::D)
    } else if c == 't' {
        Some(Initials::T)
    } else if c == 'n' {
        Some(Initials::N)
    } else if c == 'l' {
        Some(Initials::L)
    } else if c == 'g' {
        Some(Initials::G)
    } else if c == 'k' {
        Some(Initials::K)
    } else if c == 'h' {
        Some(Initials::H)
    } else if c == 'j' {
        Some(Initials::J)
    } else if c == 'q' {
        Some(Initials::Q)
    } else if c == 'x' {
        Some(Initials::X)
    } else if c == 'r' {
        Some(Initials::R)
    } else if c == 'z' {
        Some(Initials::Z)
    } else if c == 'c' {
        Some(Initials::C)
    } else if c == 's' {
        Some(Initials::S)
    } else if c == 'y' {
        Some(Initials::Y)
    } else if c == 'w' {
        Some(Initials::W)
    } else {
        None
    }
}

/// The initial written by a letter followed by `h`, if there is one.
pub open spec fn initial_before_h(c: char) -> Option<Initials> {
    if c == 'z' {
        Some(Initials::ZH)
    } else if c == 'c' {
        Some(Initials::CH)
    } else if c == 's' {
        Some(Initials::SH)
    } else {
        None
    }
}

/// An initial: the longest spelling of an initial that the text holds at
/// `i`, so `zh`, `ch` and `sh` win over `z`, `c` and `s`. Gives the initial
/// and the position after it. The zero initial is never given.
pub open spec fn initial_at(s: Seq<char>, i: int) -> Option<(Initials, int)> {
    if 0 <= i < s.len() {
        if i + 1 < s.len() && s[i + 1] == 'h' && initial_before_h(s[i]).is_some() {
            Some((initial_before_h(s[i]).unwrap(), i + 2))
        } else if initial_of_letter(s[i]).is_some() {
            Some((initial_of_letter(s[i]).unwrap(), i + 1))
        } else {
            None
        }
    } else {
        None
    }
}

/// A final with its tone: the whole run of letters at `i`, which must be
/// one of the spellings of the table. Gives the pair and the position after
/// the run.
pub open spec fn final_at(s: Seq<char>, i: int) -> Option<(FinalWithTones, int)> {
    let j = letters_end(s, i);
    if 0 <= i < j <= s.len() {
        match FinalWithTones::parse(s.subrange(i, j)) {
            Some(x) => Some((x, j)),
            None => None,
        }
    } else {
        None
    }
}

/// A syllable: an initial if one is there, then a final with its tone. Once
/// an initial is read, the rest has to be a final: `n` alone is no
/// syllable.
pub open spec fn syllable_at(s: Seq<char>, i: int) -> Option<(Pinyin, int)> {
    let (initials, j) = match initial_at(s, i) {
        Some(found) => found,
        None => (Initials::Zero, i),
    };
    match final_at(s, j) {
        Some((x, k)) => Some((py_spec(initials, x.0, x.1), k)),
        None => None,
    }
}

/// The rest of a list of syllables, of which `found` were read up to `i`:
/// as long as a comma and a syllable follow, the syllable joins the list. A
/// comma that no syllable follows is not part of the list.
pub open spec fn more_syllables_at(s: Seq<char>, i: int, found: Seq<Pinyin>) -> (Seq<Pinyin>, int)
    decreases s.len() - i,
{
    if 0 <= i < s.len() && s[i] == ',' {
        match syllable_at(s, i + 1) {
            Some((p, j)) => if j > i {
                more_syllables_at(s, j, found.push(p))
            } else {
                (found, i)
            },
            None => (found, i),
        }
    } else {
        (found, i)
    }
}

/// A list of one or more syllables separated by commas.
pub open spec fn syllables_at(s: Seq<char>, i: int) -> Option<(Seq<Pinyin>, int)> {
    match syllable_at(s, i) {
        Some((p, j)) => Some(more_syllables_at(s, j, seq![p])),
        None => None,
    }
}

/// A record: a code point, a colon and a blank, a list of syllables and the
/// end of the record. Gives the character with its entry, and the position
/// after the record. The entry holds the first three syllables.
pub open spec fn record_at(s: Seq<char>, i: int) -> Option<((char, Polyphone), int)> {
    match code_point_at(s, i) {
        Some((c, j)) => if j + 2 <= s.len() && s[j] == ':' && s[j + 1] == ' ' {
            match syllables_at(s, j + 2) {
                Some((list, k)) => match line_end_at(s, k) {
                    Some(e) => Some(((c, Polyphone::of_syllables(list)), e)),
                    None => None,
                },
                None => None,
            }
        } else {
            None
        },
        None => None,
    }
}

/// A line: a line of blanks, a comment or a record. Gives the entry of a
/// record, and the position after the line.
pub open spec fn line_at(s: Seq<char>, i: int) -> Option<(Option<(char, Polyphone)>, int)> {
    match empty_line_at(s, i) {
        Some(j) => Some((None, j)),
        None => match comment_at(s, i) {
            Some(j) => Some((None, j)),
            None => match record_at(s, i) {
                Some((entry, j)) => Some((Some(entry), j)),
                None => None,
            },
        },
    }
}

/// The entries `found` with the entry of a line, if it has one.
pub open spec fn with_entry(found: Seq<(char, Polyphone)>, entry: Option<(char, Polyphone)>) -> Seq<
    (char, Polyphone),
> {
    match entry {
        Some(e) => found.push(e),
        None => found,
    }
}

/// The lines from `i` on, after `found` was read before: line after line
/// as long as there is one. Gives all entries in the order of their
/// records, and the position where no line starts.
pub open spec fn lines_at(s: Seq<char>, i: int, found: Seq<(char, Polyphone)>) -> (
    Seq<(char, Polyphone)>,
    int,
)
    decreases s.len() - i,
{
    match line_at(s, i) {
        Some((entry, j)) => if i < j <= s.len() {
            lines_at(s, j, with_entry(found, entry))
        } else {
            (found, i)
        },
        None => (found, i),
    }
}

/// The entries of a whole text, and the position where reading stops. The
/// text is a table if reading stops at its end.
pub open spec fn table_text(s: Seq<char>) -> (Seq<(char, Polyphone)>, int) {
    lines_at(s, 0, Seq::empty())
}

/// The table that holds the entries, stored one after the other: for a
/// character with several records the last one counts.
pub open spec fn table_of(entries: Seq<(char, Polyphone)>) -> Map<char, Polyphone>
    decreases entries.len(),
{
    if entries.len() == 0 {
        Map::empty()
    } else {
        put(table_of(entries.drop_last()), entries.last().0, entries.last().1)
    }
}

/// The end that a rule reports, as a position in the text.
pub open spec fn end_of(r: Option<usize>) -> Option<int> {
    match r {
        Some(e) => Some(e as int),
        None => None,
    }
}

/// What a rule reports, with its end as a position in the text.
pub open spec fn found_of<T>(r: Option<(T, usize)>) -> Option<(T, int)> {
    match r {
        Some((x, e)) => Some((x, e as int)),
        None => None,
    }
}

/// A run of blanks ends at or after its start, within the text.
pub proof fn lemma_blanks_end(s: Seq<char>, i: int)
    requires
        0 <= i <= s.len(),
    ensures
        i <= blanks_end(s, i) <= s.len(),
    decreases s.len() - i,
{
    if i < s.len() && is_blank(s[i]) {
        lemma_blanks_end(s, i + 1);
    }
}

/// A run of hexadecimal digits ends at or after its start, within the text.
pub proof fn lemma_hex_end(s: Seq<char>, i: int)
    requires
        0 <= i <= s.len(),
    ensures
        i <= hex_end(s, i) <= s.len(),
    decreases s.len() - i,
{
    if i < s.len() && is_hex_digit(s[i]) {
        lemma_hex_end(s, i + 1);
    }
}

/// A run of letters ends at or after its start, within the text.
pub proof fn lemma_letters_end(s: Seq<char>, i: int)
    requires
        0 <= i <= s.len(),
    ensures
        i <= letters_end(s, i) <= s.len(),
    decreases s.len() - i,
{
    if i < s.len() && is_pinyin_letter(s[i]) {
        lemma_letters_end(s, i + 1);
    }
}

/// The next line feed is at or after the start of the search, within the
/// text or at its end.
pub proof fn lemma_line_feed_at(s: Seq<char>, i: int)
    requires
        0 <= i <= s.len(),
    ensures
        i <= line_feed_at(s, i) <= s.len(),
    decreases s.len() - i,
{
    if i < s.len() && s[i] != '\n' {
        lemma_line_feed_at(s, i + 1);
    }
}

/// The position after the run of blanks that starts at `pos`.
fn skip_blanks(text: &[char], pos: usize) -> (r: usize)
    ensures
        r == blanks_end(text@, pos as int),
        pos <= r,
        pos <= text@.len() ==> r <= text@.len(),
{
    let mut j: usize = pos;
    while j < text.len() && (text[j] == ' ' || text[j] == '\t')
        invariant
            pos <= j,
            pos <= text@.len() ==> j <= text@.len(),
            blanks_end(text@, pos as int) == blanks_end(text@, j as int),
        decreases text@.len() - j,
    {
        j += 1;
    }
    j
}

/// The position of the first line feed at or after `pos`, or the length of
/// the text.
fn find_line_feed(text: &[char], pos: usize) -> (r: usize)
    ensures
        r == line_feed_at(text@, pos as int),
        pos <= r,
        pos <= text@.len() ==> r <= text@.len(),
{
    let mut j: usize = pos;
    while j < text.len() && text[j] != '\n'
        invariant
            pos <= j,
            pos <= text@.len() ==> j <= text@.len(),
            line_feed_at(text@, pos as int) == line_feed_at(text@, j as int),
        decreases text@.len() - j,
    {
        j += 1;
    }
    j
}

/// Reads a line of blanks at `pos`.
pub fn empty_line(text: &[char], pos: usize) -> (r: Option<usize>)
    ensures
        end_of(r) == empty_line_at(text@, pos as int),
{
    let j = skip_blanks(text, pos);
    if j < text.len() && text[j] == '\n' {
        Some(j + 1)
    } else {
        None
    }
}

/// Reads a comment at `pos`.
pub fn comment(text: &[char], pos: usize) -> (r: Option<usize>)
    ensures
        end_of(r) == comment_at(text@, pos as int),
{
    let j = skip_blanks(text, pos);
    if j < text.len() && text[j] == '#' {
        let k = find_line_feed(text, j + 1);
        if k < text.len() {
            Some(k + 1)
        } else {
            None
        }
    } else {
        None
    }
}

/// Reads the end of a record at `pos`.
fn line_end(text: &[char], pos: usize) -> (r: Option<usize>)
    ensures
        end_of(r) == line_end_at(text@, pos as int),
{
    match comment(text, pos) {
        Some(e) => Some(e),
        None => empty_line(text, pos),
    }
}

/// Whether `c` is a hexadecimal digit, and the number it stands for.
fn hex_digit(c: char) -> (r: Option<u32>)
    ensures
        r.is_some() == is_hex_digit(c),
        r.is_some() ==> r.unwrap() == hex_digit_value(c) && r.unwrap() < 16,
{
    if '0' <= c && c <= '9' {
        Some(c as u32 - '0' as u32)
    } else if 'a' <= c && c <= 'f' {
        Some(c as u32 - 'a' as u32 + 10)
    } else if 'A' <= c && c <= 'F' {
        Some(c as u32 - 'A' as u32 + 10)
    } else {
        None
    }
}

/// A number that is too large for a code point, whatever digits follow.
const TOO_LARGE: u32 = 0x110000;

/// `v`, or `TOO_LARGE` once `v` is too large for a code point.
spec fn capped(v: int) -> int {
    if v > 0x10FFFF {
        TOO_LARGE as int
    } else {
        v
    }
}

/// A number written in hexadecimal digits is not negative.
proof fn lemma_hex_value(s: Seq<char>, i: int, j: int)
    requires
        0 <= i,
        j <= s.len(),
        forall|k: int| i <= k < j ==> is_hex_digit(#[trigger] s[k]),
    ensures
        hex_value(s, i, j) >= 0,
    decreases j - i,
{
    if i < j {
        lemma_hex_value(s, i, j - 1);
    }
}

/// Reads a code point at `pos`.
pub fn code_point(text: &[char], pos: usize) -> (r: Option<(char, usize)>)
    ensures
        found_of(r) == code_point_at(text@, pos as int),
{
    let n = text.len();
    if n < 2 || pos > n - 2 || text[pos] != 'U' || text[pos + 1] != '+' {
        return None;
    }
    let start: usize = pos + 2;
    let mut j: usize = start;
    let mut value: u32 = 0;
    loop
        invariant
            n == text@.len(),
            start == pos + 2,
            start <= j <= n,
            hex_end(text@, start as int) == hex_end(text@, j as int),
            value == capped(hex_value(text@, start as int, j as int)),
            forall|k: int| start <= k < j ==> is_hex_digit(#[trigger] text@[k]),
        ensures
            hex_end(text@, start as int) == j,
        decreases n - j,
    {
        if j >= n {
            break ;
        }
        match hex_digit(text[j]) {
            Some(d) => {
                proof {
                    lemma_hex_value(text@, start as int, j as int);
                }
                value = if value > 0x10FFFF {
                    TOO_LARGE
                } else if value * 16 + d > 0x10FFFF {
                    TOO_LARGE
                } else {
                    value * 16 + d
                };
                j += 1;
            },
            None => {
                break ;
            },
        }
    }
    proof {
        lemma_hex_value(text@, start as int, j as int);
    }
    if j == start {
        return None;
    }
    match char::from_u32(value) {
        Some(c) => Some((c, j)),
        None => None,
    }
}

/// Reads an initial at `pos`.
pub fn initials(text: &[char], pos: usize) -> (r: Option<(Initials, usize)>)
    ensures
        found_of(r) == initial_at(text@, pos as int),
{
    if pos >= text.len() {
        return None;
    }
    let c = text[pos];
    let h = pos + 1 < text.len() && text[pos + 1] == 'h';
    if h && c == 'z' {
        Some((Initials::ZH, pos + 2))
    } else if h && c == 'c' {
        Some((Initials::CH, pos + 2))
    } else if h && c == 's' {
        Some((Initials::SH, pos + 2))
    } else if c == 'b' {
        Some((Initials::B, pos + 1))
    } else if c == 'c' {
        Some((Initials::C, pos + 1))
    } else if c == 'd' {
        Some((Initials::D, pos + 1))
    } else if c == 'f' {
        Some((Initials::F, pos + 1))
    } else if c == 'g' {
        Some((Initials::G, pos + 1))
    } else if c == 'h' {
        Some((Initials::H, pos + 1))
    } else if c == 'j' {
        Some((Initials::J, pos + 1))
    } else if c == 'k' {
        Some((Initials::K, pos + 1))
    } else if c == 'l' {
        Some((Initials::L, pos + 1))
    } else if c == 'm' {
        Some((Initials::M, pos + 1))
    } else if c == 'n' {
        Some((Initials::N, pos + 1))
    } else if c == 'p' {
        Some((Initials::P, pos + 1))
    } else if c == 'q' {
        Some((Initials::Q, pos + 1))
    } else if c == 'r' {
        Some((Initials::R, pos + 1))
    } else if c == 's' {
        Some((Initials::S, pos + 1))
    } else if c == 't' {
        Some((Initials::T, pos + 1))
    } else if c == 'w' {
        Some((Initials::W, pos + 1))
    } else if c == 'x' {
        Some((Initials::X, pos + 1))
    } else if c == 'y' {
        Some((Initials::Y, pos + 1))
    } else if c == 'z' {
        Some((Initials::Z, pos + 1))
    } else {
        None
    }
}

/// Whether `c` can stand in the spelling of a final.
pub fn is_pinyin_char(c: char) -> (r: bool)
    ensures
        r == is_pinyin_letter(c),
{
    if ('a' <= c && c <= 'z') || ('A' <= c && c <= 'Z') {
        true
    } else {
        c == 'ā' || c == 'á' || c == 'ǎ' || c == 'à' || c == 'ē' || c == 'é' || c == 'ě' || c
            == 'è' || c == 'ī' || c == 'í' || c == 'ǐ' || c == 'ì' || c == 'ō' || c == 'ó' || c
            == 'ǒ' || c == 'ò' || c == 'ū' || c == 'ú' || c == 'ǔ' || c == 'ù' || c == 'ǖ' || c
            == 'ǘ' || c == 'ǚ' || c == 'ǜ' || c == 'ü'
    }
}

/// Reads a final with its tone at `pos`.
pub fn final_and_tones(text: &[char], pos: usize) -> (r: Option<(FinalWithTones, usize)>)
    ensures
        found_of(r) == final_at(text@, pos as int),
{
    let mut j: usize = pos;
    while j < text.len() && is_pinyin_char(text[j])
        invariant
            pos <= j,
            pos <= text@.len() ==> j <= text@.len(),
            letters_end(text@, pos as int) == letters_end(text@, j as int),
        decreases text@.len() - j,
    {
        j += 1;
    }
    if j == pos || j > text.len() {
        return None;
    }
    match FinalWithTones::lookup(text, pos, j) {
        Some(x) => Some((x, j)),
        None => None,
    }
}

/// Reads a syllable at `pos`.
pub fn syllable(text: &[char], pos: usize) -> (r: Option<(Pinyin, usize)>)
    ensures
        found_of(r) == syllable_at(text@, pos as int),
{
    let (first, j) = match initials(text, pos) {
        Some(found) => found,
        None => (Initials::Zero, pos),
    };
    match final_and_tones(text, j) {
        Some((x, k)) => Some((py(first, x.0, x.1), k)),
        None => None,
    }
}

/// A syllable that was read ends after its start and within the text. It is
/// valid, has a final, and is not the all-zero syllable.
pub proof fn lemma_syllable_at(s: Seq<char>, i: int)
    requires
        0 <= i,
    ensures
        match syllable_at(s, i) {
            Some((p, j)) => i < j <= s.len() && p.is_valid() && p.finals() != Finals::Zero
                && p.bits != 0,
            None => true,
        },
{
    let (initials, j) = match initial_at(s, i) {
        Some(found) => found,
        None => (Initials::Zero, i),
    };
    match final_at(s, j) {
        Some((x, k)) => {
            crate::spelling::lemma_spelling_parse(s.subrange(j, letters_end(s, j)));
            crate::syllable::lemma_unpack_pack(initials, x.0, x.1);
        },
        None => {},
    }
}

/// Reads a list of syllables at `pos`.
pub fn syllables(text: &[char], pos: usize) -> (r: Option<(Vec<Pinyin>, usize)>)
    ensures
        match r {
            Some((list, e)) => syllables_at(text@, pos as int) == Some((list@, e as int)),
            None => syllables_at(text@, pos as int).is_none(),
        },
{
    let (first, start) = match syllable(text, pos) {
        Some(found) => found,
        None => {
            return None;
        },
    };
    proof {
        lemma_syllable_at(text@, pos as int);
    }
    let mut list: Vec<Pinyin> = Vec::new();
    list.push(first);
    assert(list@ =~= seq![first]);
    let mut at: usize = start;
    loop
        invariant
            at <= text@.len(),
            more_syllables_at(text@, at as int, list@) == more_syllables_at(
                text@,
                start as int,
                seq![first],
            ),
        ensures
            more_syllables_at(text@, start as int, seq![first]) == (list@, at as int),
        decreases text@.len() - at,
    {
        if at >= text.len() || text[at] != ',' {
            break ;
        }
        proof {
            lemma_syllable_at(text@, at + 1);
        }
        match syllable(text, at + 1) {
            Some((p, e)) => {
                list.push(p);
                at = e;
            },
            None => {
                break ;
            },
        }
    }
    Some((list, at))
}

/// The list that grows out of `found` keeps `found` as its beginning. It
/// ends at or after `i`, within the text, and the syllables that joined are
/// valid, with a final.
pub proof fn lemma_more_syllables_at(s: Seq<char>, i: int, found: Seq<Pinyin>)
    requires
        0 <= i <= s.len(),
    ensures
        i <= more_syllables_at(s, i, found).1 <= s.len(),
        more_syllables_at(s, i, found).0.len() >= found.len(),
        forall|k: int|
            0 <= k < found.len() ==> (#[trigger] more_syllables_at(s, i, found).0[k]) == found[k],
        forall|k: int|
            found.len() <= k < more_syllables_at(s, i, found).0.len() ==> {
                let p = #[trigger] more_syllables_at(s, i, found).0[k];
                p.is_valid() && p.finals() != Finals::Zero && p.bits != 0
            },
    decreases s.len() - i,
{
    if i < s.len() && s[i] == ',' {
        lemma_syllable_at(s, i + 1);
        match syllable_at(s, i + 1) {
            Some((p, j)) => {
                lemma_more_syllables_at(s, j, found.push(p));
                let grown = more_syllables_at(s, j, found.push(p)).0;
                assert forall|k: int| 0 <= k < found.len() implies (#[trigger] grown[k])
                    == found[k] by {
                    assert(found.push(p)[k] == found[k]);
                }
                assert forall|k: int| found.len() <= k < grown.len() implies {
                    let q = #[trigger] grown[k];
                    q.is_valid() && q.finals() != Finals::Zero && q.bits != 0
                } by {
                    if k == found.len() {
                        assert(found.push(p)[k] == p);
                    }
                }
            },
            None => {},
        }
    }
}

/// A record that was read ends after its start and within the text, and
/// its entry is proper: the default reading is the first syllable of the
/// record.
pub proof fn lemma_record_at(s: Seq<char>, i: int)
    ensures
        match record_at(s, i) {
            Some(((c, p), e)) => 0 <= i < e <= s.len() && p.is_proper() && p
                != Polyphone::empty(),
            None => true,
        },
{
    match code_point_at(s, i) {
        Some((c, j)) => {
            lemma_hex_end(s, i + 2);
            if j + 2 <= s.len() && s[j] == ':' && s[j + 1] == ' ' {
                lemma_syllable_at(s, j + 2);
                match syllable_at(s, j + 2) {
                    Some((first, k)) => {
                        lemma_more_syllables_at(s, k, seq![first]);
                        let (list, m) = more_syllables_at(s, k, seq![first]);
                        assert(list[0] == seq![first][0]);
                        lemma_line_end_at(s, m);
                    },
                    None => {},
                }
            }
        },
        None => {},
    }
}

/// The end of a record, where there is one, lies after its start and
/// within the text.
pub proof fn lemma_line_end_at(s: Seq<char>, i: int)
    requires
        0 <= i <= s.len(),
    ensures
        match line_end_at(s, i) {
            Some(e) => i < e <= s.len(),
            None => true,
        },
        match empty_line_at(s, i) {
            Some(e) => i < e <= s.len(),
            None => true,
        },
        match comment_at(s, i) {
            Some(e) => i < e <= s.len(),
            None => true,
        },
{
    lemma_blanks_end(s, i);
    let j = blanks_end(s, i);
    if j < s.len() {
        lemma_line_feed_at(s, j + 1);
    }
}

/// A line that was read ends after its start and within the text. If it
/// has an entry, the entry is proper.
pub proof fn lemma_line_at(s: Seq<char>, i: int)
    requires
        0 <= i <= s.len(),
    ensures
        match line_at(s, i) {
            Some((entry, e)) => i < e <= s.len() && match entry {
                Some((c, p)) => p.is_proper() && p != Polyphone::empty(),
                None => true,
            },
            None => true,
        },
{
    lemma_line_end_at(s, i);
    lemma_record_at(s, i);
}

/// Reading lines stops within the text, and keeps what was found before.
/// Every entry that it adds is proper.
pub proof fn lemma_lines_at(s: Seq<char>, i: int, found: Seq<(char, Polyphone)>)
    requires
        0 <= i <= s.len(),
        forall|k: int| 0 <= k < found.len() ==> (#[trigger] found[k]).1.is_proper(),
    ensures
        i <= lines_at(s, i, found).1 <= s.len(),
        line_at(s, lines_at(s, i, found).1).is_none(),
        forall|k: int|
            0 <= k < lines_at(s, i, found).0.len() ==> (#[trigger] lines_at(
                s,
                i,
                found,
            ).0[k]).1.is_proper(),
    decreases s.len() - i,
{
    lemma_line_at(s, i);
    match line_at(s, i) {
        Some((entry, j)) => {
            let next = with_entry(found, entry);
            assert forall|k: int| 0 <= k < next.len() implies (#[trigger] next[k]).1.is_proper() by {
                if k < found.len() {
                    assert(next[k] == found[k]);
                }
            }
            lemma_lines_at(s, j, next);
        },
        None => {},
    }
}

/// A table made of proper entries holds proper entries only.
pub proof fn lemma_table_of(entries: Seq<(char, Polyphone)>)
    requires
        forall|k: int| 0 <= k < entries.len() ==> (#[trigger] entries[k]).1.is_proper(),
    ensures
        forall|c: char|
            table_of(entries).contains_key(c) ==> (#[trigger] table_of(entries)[c]).is_proper(),
    decreases entries.len(),
{
    if entries.len() > 0 {
        let before = entries.drop_last();
        let last = entries[entries.len() - 1];
        assert forall|k: int| 0 <= k < before.len() implies (#[trigger] before[k]).1.is_proper() by {
            assert(before[k] == entries[k]);
        }
        lemma_table_of(before);
        assert(last.1.is_proper());
        assert(table_of(entries) == put(table_of(before), last.0, last.1));
        assert forall|c: char| table_of(entries).contains_key(c) implies (#[trigger] table_of(
            entries,
        )[c]).is_proper() by {
            if c == last.0 && last.1 != Polyphone::empty() {
                assert(table_of(entries)[c] == last.1);
            } else {
                assert(table_of(before).contains_key(c));
                assert(table_of(entries)[c] == table_of(before)[c]);
            }
        }
    }
}

/// Reads a record at `pos`.
pub fn parse_line(text: &[char], pos: usize) -> (r: Option<((char, Polyphone), usize)>)
    ensures
        found_of(r) == record_at(text@, pos as int),
{
    let (c, j) = match code_point(text, pos) {
        Some(found) => found,
        None => {
            return None;
        },
    };
    proof {
        lemma_hex_end(text@, pos + 2);
    }
    if text.len() < 2 || j > text.len() - 2 || text[j] != ':' || text[j + 1] != ' ' {
        return None;
    }
    let (list, k) = match syllables(text, j + 2) {
        Some(found) => found,
        None => {
            return None;
        },
    };
    proof {
        lemma_syllable_at(text@, j + 2);
        lemma_more_syllables_at(
            text@,
            syllable_at(text@, j + 2).unwrap().1,
            seq![syllable_at(text@, j + 2).unwrap().0],
        );
    }
    match line_end(text, k) {
        Some(e) => Some(((c, Polyphone::from(list)), e)),
        None => None,
    }
}

/// Reads a line at `pos`.
fn line(text: &[char], pos: usize) -> (r: Option<(Option<(char, Polyphone)>, usize)>)
    ensures
        found_of(r) == line_at(text@, pos as int),
{
    match empty_line(text, pos) {
        Some(e) => Some((None, e)),
        None => match comment(text, pos) {
            Some(e) => Some((None, e)),
            None => match parse_line(text, pos) {
                Some((entry, e)) => Some((Some(entry), e)),
                None => None,
            },
        },
    }
}

/// Reads a whole text as a table and gives its entries in the order of
/// their records. The error says where the first line starts that is no
/// line of a table.
pub fn parse_lines(text: &[char]) -> (r: Result<Vec<(char, Polyphone)>, ParseError>)
    ensures
        match r {
            Ok(entries) => table_text(text@) == (entries@, text@.len() as int),
            Err(e) => e.offset == table_text(text@).1 && e.offset < text@.len(),
        },
{
    let mut found: Vec<(char, Polyphone)> = Vec::new();
    let mut at: usize = 0;
    loop
        invariant
            at <= text@.len(),
            lines_at(text@, at as int, found@) == table_text(text@),
        ensures
            at <= text@.len(),
            table_text(text@) == (found@, at as int),
        decreases text@.len() - at,
    {
        proof {
            lemma_line_at(text@, at as int);
        }
        match line(text, at) {
            Some((entry, e)) => {
                match entry {
                    Some(x) => {
                        found.push(x);
                    },
                    None => {},
                }
                at = e;
            },
            None => {
                break ;
            },
        }
    }
    if at == text.len() {
        Ok(found)
    } else {
        Err(ParseError { offset: at })
    }
}

/// Reads a table from its text. The text has to be a table from its first
/// to its last character; if it is not, the error says where the first line
/// starts that is no line of a table. Where a character has several
/// records, the last one counts.
pub fn parse_db(i: &str) -> (r: Result<DB, ParseError>)
    ensures
        match r {
            Ok(db) => table_text(i@).1 == i@.len() && db@ == table_of(table_text(i@).0)
                && db.is_proper(),
            Err(e) => e.offset == table_text(i@).1 && e.offset < i@.len(),
        },
{
    let text = to_chars(i);
    let entries = match parse_lines(text.as_slice()) {
        Ok(entries) => entries,
        Err(e) => {
            return Err(e);
        },
    };
    let mut db = DB::new();
    let mut k: usize = 0;
    while k < entries.len()
        invariant
            k <= entries@.len(),
            db@ == table_of(entries@.take(k as int)),
        decreases entries@.len() - k,
    {
        let (c, p) = entries[k];
        db.insert(c, p);
        proof {
            assert(entries@.take(k + 1).drop_last() =~= entries@.take(k as int));
        }
        k += 1;
    }
    db.shrink_to_fit();
    proof {
        assert(entries@.take(k as int) =~= entries@);
        lemma_lines_at(i@, 0, Seq::empty());
        assert(entries@ == lines_at(i@, 0, Seq::empty()).0);
        assert forall|k: int| 0 <= k < entries@.len() implies (#[trigger] entries@[k]).1.is_proper() by {
            assert(lines_at(i@, 0, Seq::empty()).0[k].1.is_proper());
        }
        lemma_table_of(entries@);
    }
    Ok(db)
}

/// An initial that was read is spelled by the characters that were read
/// for it.
pub proof fn lemma_initial_text(s: Seq<char>, i: int)
    ensures
        match initial_at(s, i) {
            Some((initials, j)) => 0 <= i < j <= s.len() && initials.spelling() == s.subrange(
                i,
                j,
            ) && initials != Initials::Zero,
            None => true,
        },
{
    reveal_strlit("b");
    reveal_strlit("p");
    reveal_strlit("m");
    reveal_strlit("f");
    reveal_strlit("d");
    reveal_strlit("t");
    reveal_strlit("n");
    reveal_strlit("l");
    reveal_strlit("g");
    reveal_strlit("k");
    reveal_strlit("h");
    reveal_strlit("j");
    reveal_strlit("q");
    reveal_strlit("x");
    reveal_strlit("zh");
    reveal_strlit("ch");
    reveal_strlit("sh");
    reveal_strlit("r");
    reveal_strlit("z");
    reveal_strlit("c");
    reveal_strlit("s");
    reveal_strlit("y");
    reveal_strlit("w");
    match initial_at(s, i) {
        Some((initials, j)) => {
            assert(initials.spelling() =~= s.subrange(i, j));
        },
        None => {},
    }
}

/// Writing a syllable that was read, with its tone as a mark, gives back
/// the characters that it was read from.
pub proof fn lemma_syllable_text(s: Seq<char>, i: int)
    requires
        0 <= i,
    ensures
        match syllable_at(s, i) {
            Some((p, j)) => i < j <= s.len() && PinyinDisplay::UnicodeTone(p).is_writable()
                && PinyinDisplay::UnicodeTone(p).text() == s.subrange(i, j),
            None => true,
        },
{
    lemma_syllable_at(s, i);
    lemma_initial_text(s, i);
    reveal_strlit("");
    let (initials, j) = match initial_at(s, i) {
        Some(found) => found,
        None => (Initials::Zero, i),
    };
    match final_at(s, j) {
        Some((x, k)) => {
            crate::spelling::lemma_spelling_parse(s.subrange(j, letters_end(s, j)));
            crate::syllable::lemma_unpack_pack(initials, x.0, x.1);
            assert(initials.spelling() =~= s.subrange(i, j));
            assert(s.subrange(i, j) + s.subrange(j, k) =~= s.subrange(i, k));
        },
        None => {},
    }
}

} // verus!
