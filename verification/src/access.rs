//! Reading what the `upspin` program prints about who may read a path.

use vstd::prelude::*;
use vstd::std_specs::iter::IteratorSpec;
use vstd::string::StringSliceAdditionalSpecFns;
use vstd::utf8::{decode_utf8, encode_utf8_decode_utf8, valid_utf8};

verus! {

/// The words that begin the list of those who may read.
pub const CAN_READ: &'static str = "can read";

/// The word that stands in such a list for everyone.
pub const EVERYONE: &'static str = "All";

/// The character that ends a line.
pub const LINE_FEED: char = '\n';

/// True when `needle` stands in `hay` at position `at`.
pub open spec fn occurs_at(needle: Seq<char>, hay: Seq<char>, at: int) -> bool {
    0 <= at && at + needle.len() <= hay.len() && hay.subrange(at, at + needle.len()) == needle
}

/// True when `needle` stands somewhere in `hay`.
pub open spec fn occurs_in(needle: Seq<char>, hay: Seq<char>) -> bool {
    exists|at: int| occurs_at(needle, hay, at)
}

/// True when the characters of `text` from `lo` up to `hi` are one line of it: they hold no
/// line feed, and on each side the text ends or a line feed stands.
pub open spec fn is_line(text: Seq<char>, lo: int, hi: int) -> bool {
    &&& 0 <= lo <= hi <= text.len()
    &&& forall|k: int| lo <= k < hi ==> text[k] != LINE_FEED
    &&& (lo == 0 || text[lo - 1] == LINE_FEED)
    &&& (hi == text.len() || text[hi] == LINE_FEED)
}

/// True when `line` says that everyone may read: it holds the words `CAN_READ` and the
/// word `EVERYONE`.
pub open spec fn line_grants_public_read(line: Seq<char>) -> bool {
    occurs_in(CAN_READ@, line) && occurs_in(EVERYONE@, line)
}

/// True when some line of `text` says that everyone may read.
pub open spec fn grants_public_read(text: Seq<char>) -> bool {
    exists|lo: int, hi: int| #[trigger]
        is_line(text, lo, hi) && line_grants_public_read(text.subrange(lo, hi))
}

/// A character at the end of `hay` that is not the last of `needle` does not change
/// whether `needle` stands in `hay`.
proof fn lemma_occurs_in_push(needle: Seq<char>, hay: Seq<char>, c: char)
    requires
        needle.len() > 0,
        needle.last() != c,
    ensures
        occurs_in(needle, hay.push(c)) == occurs_in(needle, hay),
{
    let longer = hay.push(c);
    if occurs_in(needle, hay) {
        let at = choose|at: int| occurs_at(needle, hay, at);
        assert(longer.subrange(at, at + needle.len()) =~= hay.subrange(at, at + needle.len()));
        assert(occurs_at(needle, longer, at));
    }
    if occurs_in(needle, longer) {
        let at = choose|at: int| occurs_at(needle, longer, at);
        assert(longer.subrange(at, at + needle.len()) =~= hay.subrange(at, at + needle.len()));
        assert(occurs_at(needle, hay, at));
    }
}

/// A carriage return at the end of a line does not change what the line says: it makes no
/// difference whether a line ends before a line feed or before a carriage return and a
/// line feed.
pub proof fn lemma_carriage_return_says_nothing(line: Seq<char>)
    ensures
        line_grants_public_read(line.push('\r')) == line_grants_public_read(line),
{
    reveal_strlit("can read");
    reveal_strlit("All");
    lemma_occurs_in_push(CAN_READ@, line, '\r');
    lemma_occurs_in_push(EVERYONE@, line, '\r');
}

/// The characters of `s`, one by one.
fn chars_of(s: &str) -> (v: Vec<char>)
    ensures
        v@ == s@,
{
    let mut v: Vec<char> = Vec::new();
    let mut it = s.chars();
    loop
        invariant
            v@.len() <= s@.len(),
            it.remaining() == s@.skip(v@.len() as int),
            v@ == s@.take(v@.len() as int),
        decreases s@.len() - v@.len(),
    {
        match it.next() {
            Some(c) => v.push(c),
            None => return v,
        }
    }
}

/// Tells whether `needle` stands in `hay` at position `at`.
fn stands_at(needle: &Vec<char>, hay: &Vec<char>, at: usize) -> (b: bool)
    requires
        at + needle.len() <= hay.len(),
    ensures
        b == occurs_at(needle@, hay@, at as int),
{
    let m = needle.len();
    let mut j: usize = 0;
    while j < m
        invariant
            j <= m,
            m == needle@.len(),
            at + m <= hay.len(),
            forall|k: int| 0 <= k < j ==> hay@[at + k] == needle@[k],
        decreases m - j,
    {
        if hay[at + j] != needle[j] {
            return false;
        }
        j = j + 1;
    }
    assert(hay@.subrange(at as int, at + m) =~= needle@);
    true
}

/// Tells whether `needle` stands somewhere in the characters of `hay` from `lo` up to `hi`.
fn occurs_between(needle: &Vec<char>, hay: &Vec<char>, lo: usize, hi: usize) -> (b: bool)
    requires
        lo <= hi <= hay.len(),
    ensures
        b == occurs_in(needle@, hay@.subrange(lo as int, hi as int)),
{
    let m = needle.len();
    let ghost line = hay@.subrange(lo as int, hi as int);
    if hi - lo < m {
        return false;
    }
    let last = hi - m;
    let mut at = lo;
    while at <= last
        invariant
            lo <= at,
            last == hi - m,
            lo <= last,
            hi <= hay.len(),
            m == needle@.len(),
            line == hay@.subrange(lo as int, hi as int),
            forall|k: int| 0 <= k < at - lo ==> !occurs_at(needle@, line, k),
        decreases last + 1 - at,
    {
        assert(line.subrange(at - lo, at - lo + m) =~= hay@.subrange(at as int, at + m));
        if stands_at(needle, hay, at) {
            assert(occurs_at(needle@, line, at - lo));
            return true;
        }
        if at == last {
            return false;
        }
        at = at + 1;
    }
    false
}

/// Tells whether some line of `text` says that everyone may read.
pub fn text_grants_public_read(text: &str) -> (b: bool)
    ensures
        b == grants_public_read(text@),
{
    let hay = chars_of(text);
    let can_read = chars_of(CAN_READ);
    let everyone = chars_of(EVERYONE);
    let n = hay.len();
    let mut lo: usize = 0;
    loop
        invariant
            lo <= n,
            n == hay.len(),
            hay@ == text@,
            can_read@ == CAN_READ@,
            everyone@ == EVERYONE@,
            lo == 0 || hay@[lo - 1] == LINE_FEED,
            forall|a: int, b: int| #[trigger]
                is_line(hay@, a, b) && a < lo ==> !line_grants_public_read(hay@.subrange(a, b)),
        decreases n - lo,
    {
        let mut hi = lo;
        while hi < n && hay[hi] != LINE_FEED
            invariant
                lo <= hi <= n,
                n == hay.len(),
                forall|k: int| lo <= k < hi ==> hay@[k] != LINE_FEED,
            decreases n - hi,
        {
            hi = hi + 1;
        }
        assert(is_line(hay@, lo as int, hi as int));
        if occurs_between(&can_read, &hay, lo, hi) && occurs_between(&everyone, &hay, lo, hi) {
            return true;
        }
        assert forall|a: int, b: int| #[trigger] is_line(hay@, a, b) && a <= hi implies
            !line_grants_public_read(hay@.subrange(a, b)) by {
            assert(a >= lo ==> a == lo && b == hi);
        }
        if hi == n {
            return false;
        }
        lo = hi + 1;
    }
}

/// True when `output`, read as UTF-8, is text of which some line says that everyone may
/// read. Bytes that are not UTF-8 say nothing.
pub open spec fn output_shows_public_read(output: Seq<u8>) -> bool {
    valid_utf8(output) && grants_public_read(decode_utf8(output))
}

/// `std::str::from_utf8`: the bytes as a string slice. It succeeds on well-formed UTF-8 and
/// on nothing else, and the slice it gives is made of just these bytes.
#[verifier::external_body]
fn text_of(bytes: &[u8]) -> (r: Option<&str>)
    ensures
        r is Some <==> valid_utf8(bytes@),
        r matches Some(t) ==> t.spec_bytes() == bytes@,
{
    std::str::from_utf8(bytes).ok()
}

/// Tells whether the bytes that the `info` query printed say that everyone may read.
pub fn output_grants_public_read(output: &[u8]) -> (b: bool)
    ensures
        b == output_shows_public_read(output@),
{
    match text_of(output) {
        Some(text) => {
            proof {
                encode_utf8_decode_utf8(text@);
            }
            text_grants_public_read(text)
        },
        None => false,
    }
}

} // verus!
