//! The table from characters to their readings.
//!
//! The table is cut into pages of 256 entries. The code point of a character
//! without its low byte names the page, the low byte names the entry in the
//! page. A page comes into being when something is first stored in it; an
//! entry that holds nothing is the empty [`Polyphone`].
//!
//! The pages live in a hash map of std whose keys are hashed by
//! `nohash_hasher`: a page number is its own hash.
use crate::grammar::{parse_db, table_of, table_text, ParseError};
use crate::polyphone::Polyphone;
use nohash_hasher::NoHashHasher;
use std::collections::HashMap;
use std::hash::BuildHasherDefault;
use vstd::prelude::*;

verus! {

/// The hasher of `nohash_hasher`: it takes an integer key as its own hash.
#[verifier::external_type_specification]
#[verifier::external_body]
#[verifier::reject_recursive_types(T)]
pub struct ExNoHashHasher<T>(NoHashHasher<T>);

/// The hasher factory of std that makes each hasher with `Default`.
#[verifier::external_type_specification]
#[verifier::external_body]
#[verifier::reject_recursive_types(H)]
pub struct ExBuildHasherDefault<H>(BuildHasherDefault<H>);

/// `BuildHasherDefault::default` makes the factory. Nothing is claimed of
/// it: the factory holds no data.
pub assume_specification<H>[ <BuildHasherDefault<H> as Default>::default ]() -> (r: BuildHasherDefault<H>);

/// `HashMap::with_capacity_and_hasher` makes a map that holds no key,
/// whatever the capacity and the hasher.
pub assume_specification<K, V, S>[ HashMap::<K, V, S>::with_capacity_and_hasher ](capacity: usize, hasher: S) -> (m: HashMap<K, V, S>)
    ensures
        m@.dom() =~= Set::empty(),
;

/// `HashMap::get` on a map of pages. The hasher of `nohash_hasher` gives
/// equal page numbers equal hashes (`write_u16` stores the number, `finish`
/// returns it), so the map finds a page exactly if one was stored under the
/// number, and hands out that page.
#[verifier::external_body]
fn page_get(pages: &HashMap<u16, [Polyphone; 256], BuildHasherDefault<NoHashHasher<u16>>>, id: u16) -> (r: Option<&[Polyphone; 256]>)
    ensures
        r.is_some() == pages@.contains_key(id),
        r.is_some() ==> *r.unwrap() == pages@[id],
{
    pages.get(&id)
}

/// `HashMap::insert` on a map of pages. With the hasher of `nohash_hasher`
/// the map stores the page under the number and replaces the page that was
/// there; all other pages stay.
#[verifier::external_body]
fn page_put(pages: &mut HashMap<u16, [Polyphone; 256], BuildHasherDefault<NoHashHasher<u16>>>, id: u16, page: [Polyphone; 256])
    ensures
        final(pages)@ == old(pages)@.insert(id, page),
{
    pages.insert(id, page);
}

/// `HashMap::shrink_to_fit` on a map of pages gives back spare capacity and
/// leaves what the map holds as it is.
#[verifier::external_body]
fn pages_shrink(pages: &mut HashMap<u16, [Polyphone; 256], BuildHasherDefault<NoHashHasher<u16>>>)
    ensures
        final(pages)@ == old(pages)@,
{
    pages.shrink_to_fit();
}

/// The number of the page that holds the entry of `c`.
pub open spec fn page_of(c: char) -> u16 {
    (c as u32 / 256) as u16
}

/// The place of the entry of `c` in its page.
pub open spec fn slot_of(c: char) -> int {
    (c as u32 % 256) as int
}

/// The table `m` after `p` was stored for `c`. Storing the empty entry takes
/// the character out of the table: an empty entry is no entry.
pub open spec fn put(m: Map<char, Polyphone>, c: char, p: Polyphone) -> Map<char, Polyphone> {
    if p == Polyphone::empty() {
        m.remove(c)
    } else {
        m.insert(c, p)
    }
}

/// The readings of characters, by code point.
pub struct DB {
    pages: HashMap<u16, [Polyphone; 256], BuildHasherDefault<NoHashHasher<u16>>>,
}

/// Number of pages that a new table has room for.
pub const INITIAL_PAGES: usize = 1000;

impl View for DB {
    type V = Map<char, Polyphone>;

    /// The characters that have an entry, each with its entry. No character
    /// maps to the empty entry.
    closed spec fn view(&self) -> Map<char, Polyphone> {
        Map::new(
            |c: char|
                self.pages@.contains_key(page_of(c)) && self.pages@[page_of(c)]@[slot_of(c)]
                    != Polyphone::empty(),
            |c: char| self.pages@[page_of(c)]@[slot_of(c)],
        )
    }
}

/// Splits a code point into page number and place in the page.
fn locate(c: char) -> (r: (u16, usize))
    ensures
        r.0 == page_of(c),
        r.1 == slot_of(c),
        r.1 < 256,
{
    let code: u32 = c as u32;
    assert(code <= 0x10ffff);
    assert(code >> 8 == code / 256) by (bit_vector);
    assert(code & 0xff == code % 256) by (bit_vector);
    ((code >> 8) as u16, (code & 0xff) as usize)
}

impl DB {
    /// Whether every entry of the table is proper: its default reading is a
    /// syllable with a final.
    pub open spec fn is_proper(&self) -> bool {
        forall|c: char| self@.contains_key(c) ==> (#[trigger] self@[c]).is_proper()
    }

    /// Reads a table from its text. The text has to be a table from its
    /// first to its last character; if it is not, the error says where the
    /// first line starts that is no line of a table. Where a character has
    /// several records, the last one counts.
    pub fn load(s: &str) -> (r: Result<DB, ParseError>)
        ensures
            match r {
                Ok(db) => table_text(s@).1 == s@.len() && db@ == table_of(table_text(s@).0)
                    && db.is_proper(),
                Err(e) => e.offset == table_text(s@).1 && e.offset < s@.len(),
            },
    {
        parse_db(s)
    }

    /// The table without entries.
    pub fn new() -> (r: DB)
        ensures
            r@ == Map::<char, Polyphone>::empty(),
    {
        let r = DB {
            pages: HashMap::with_capacity_and_hasher(INITIAL_PAGES, BuildHasherDefault::default()),
        };
        assert(r@ =~= Map::<char, Polyphone>::empty());
        r
    }

    /// The entry of `c`, if it has one.
    pub fn get(&self, c: char) -> (r: Option<Polyphone>)
        ensures
            r == self@.get(c),
            r != Some(Polyphone::empty()),
    {
        let (id, slot) = locate(c);
        match page_get(&self.pages, id) {
            Some(page) => {
                let entry = page[slot];
                if entry == Polyphone(0, 0, 0) {
                    None
                } else {
                    Some(entry)
                }
            },
            None => None,
        }
    }

    /// Stores `polyphone` as the entry of `c`, in place of what was there.
    /// All other entries stay.
    pub fn insert(&mut self, c: char, polyphone: Polyphone)
        ensures
            final(self)@ == put(old(self)@, c, polyphone),
    {
        let (id, slot) = locate(c);
        let mut page: [Polyphone; 256] = match page_get(&self.pages, id) {
            Some(page) => *page,
            None => [Polyphone(0, 0, 0);256],
        };
        page[slot] = polyphone;
        page_put(&mut self.pages, id, page);
        proof {
            let before = old(self)@;
            let after = self@;
            assert forall|d: char| #[trigger]
                after.contains_key(d) == put(before, c, polyphone).contains_key(d) && (
                after.contains_key(d) ==> after[d] == put(before, c, polyphone)[d]) by {
                if d != c {
                    if page_of(d) == page_of(c) && slot_of(d) == slot_of(c) {
                        lemma_place_injective(c, d);
                    }
                }
            }
            assert(after =~= put(before, c, polyphone));
        }
    }

    /// Gives back memory that the table holds in reserve. The entries stay.
    pub fn shrink_to_fit(&mut self)
        ensures
            final(self)@ == old(self)@,
    {
        pages_shrink(&mut self.pages);
    }
}

/// Two characters with the same page and the same place are the same.
proof fn lemma_place_injective(c: char, d: char)
    requires
        page_of(c) == page_of(d),
        slot_of(c) == slot_of(d),
    ensures
        c == d,
{
    let x = c as u32;
    let y = d as u32;
    assert(x <= 0x10ffff && y <= 0x10ffff);
    assert(x == (x / 256) * 256 + x % 256);
    assert(y == (y / 256) * 256 + y % 256);
}

/// A new table has no entry. What was stored last for a character is what
/// the table holds for it, unless it was the empty entry, which takes the
/// character out. Storing for one character leaves every other character as
/// it was.
pub proof fn lemma_put_get(m: Map<char, Polyphone>, c: char, p: Polyphone, d: char)
    ensures
        Map::<char, Polyphone>::empty().get(d) == None::<Polyphone>,
        p != Polyphone::empty() ==> put(m, c, p).get(c) == Some(p),
        p == Polyphone::empty() ==> put(m, c, p).get(c) == None::<Polyphone>,
        d != c ==> put(m, c, p).get(d) == m.get(d),
{
}

} // verus!
