//! Text as a sequence of characters.
//!
//! The library reasons about text through its view, a `Seq<char>`. Scanning
//! needs indexed access in constant time, so text that is scanned is first
//! copied into a `Vec<char>`.
use vstd::prelude::*;
use vstd::std_specs::iter::IteratorSpec;

verus! {

/// `String::push` appends one character to the string.
pub assume_specification[ String::push ](s: &mut String, ch: char)
    ensures
        final(s)@ == old(s)@.push(ch),
;

/// The characters of `s`, in order.
pub fn to_chars(s: &str) -> (r: Vec<char>)
    ensures
        r@ == s@,
{
    let mut out: Vec<char> = Vec::new();
    let mut it = s.chars();
    let ghost mut done: int = 0;
    loop
        invariant
            0 <= done <= s@.len(),
            out@ == s@.subrange(0, done),
            it.remaining() == s@.subrange(done, s@.len() as int),
        decreases s@.len() - done,
    {
        match it.next() {
            Some(c) => {
                out.push(c);
                proof {
                    done = done + 1;
                }
            },
            None => {
                return out;
            },
        }
    }
}

/// Whether the characters of `text` from `start` up to `end` spell `word`.
pub fn span_is(text: &[char], start: usize, end: usize, word: &str) -> (r: bool)
    requires
        start <= end <= text@.len(),
    ensures
        r == (text@.subrange(start as int, end as int) == word@),
{
    let n: usize = word.unicode_len();
    if end - start != n {
        return false;
    }
    let mut k: usize = 0;
    while k < n
        invariant
            start <= end <= text@.len(),
            n == word@.len(),
            end - start == n,
            k <= n,
            forall|j: int| 0 <= j < k ==> text@[start + j] == word@[j],
        decreases n - k,
    {
        if text[start + k] != word.get_char(k) {
            assert(text@.subrange(start as int, end as int)[k as int] != word@[k as int]);
            return false;
        }
        k += 1;
    }
    assert(text@.subrange(start as int, end as int) =~= word@);
    true
}

} // verus!
