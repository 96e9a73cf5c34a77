//! What an Upspin path name means, over sequences of characters.

use vstd::prelude::*;

verus! {

/// The character that parts the owner from the path, and one path segment from the next.
pub const SEPARATOR: char = '/';

/// The owner named by `s`: everything before the first separator, or all of `s` where it
/// holds no separator.
pub open spec fn owner_part(s: Seq<char>) -> Seq<char> {
    match s.index_of_first(SEPARATOR) {
        Some(i) => s.subrange(0, i),
        None => s,
    }
}

/// The path named by `s`: everything after the first separator, or nothing where `s` holds
/// no separator.
pub open spec fn path_part(s: Seq<char>) -> Seq<char> {
    match s.index_of_first(SEPARATOR) {
        Some(i) => s.subrange(i + 1, s.len() as int),
        None => Seq::empty(),
    }
}

/// The final segment of `p`: everything after the last separator, or all of `p` where it
/// holds no separator. The final segment of the empty path is empty.
pub open spec fn last_segment(p: Seq<char>) -> Seq<char> {
    match p.index_of_last(SEPARATOR) {
        Some(i) => p.subrange(i + 1, p.len() as int),
        None => p,
    }
}

/// An owner and a path written as one name.
pub open spec fn joined(owner: Seq<char>, path: Seq<char>) -> Seq<char> {
    owner + seq![SEPARATOR] + path
}

/// The owner holds no separator.
pub proof fn lemma_owner_has_no_separator(s: Seq<char>)
    ensures
        !owner_part(s).contains(SEPARATOR),
{
    s.index_of_first_ensures(SEPARATOR);
}

/// The owner is empty just when the name is empty or begins with a separator.
pub proof fn lemma_owner_is_empty(s: Seq<char>)
    ensures
        owner_part(s).len() == 0 <==> s.len() == 0 || s[0] == SEPARATOR,
{
    s.index_of_first_ensures(SEPARATOR);
}

/// A name without a separator is all owner, and its path is empty.
pub proof fn lemma_parts_without_separator(s: Seq<char>)
    requires
        !s.contains(SEPARATOR),
    ensures
        owner_part(s) == s,
        path_part(s) == Seq::<char>::empty(),
{
    s.index_of_first_ensures(SEPARATOR);
}

/// A name that holds a separator is its owner, a separator and its path, in this order.
pub proof fn lemma_joined_parts(s: Seq<char>)
    requires
        s.contains(SEPARATOR),
    ensures
        joined(owner_part(s), path_part(s)) == s,
{
    s.index_of_first_ensures(SEPARATOR);
}

/// Joining an owner that holds no separator to a path, and taking the name apart again,
/// gives the two back.
pub proof fn lemma_parts_of_joined(owner: Seq<char>, path: Seq<char>)
    requires
        !owner.contains(SEPARATOR),
    ensures
        owner_part(joined(owner, path)) == owner,
        path_part(joined(owner, path)) == path,
{
    let s = joined(owner, path);
    s.index_of_first_ensures(SEPARATOR);
    assert(s[owner.len() as int] == SEPARATOR);
}

/// The final segment holds no separator.
pub proof fn lemma_last_segment_has_no_separator(p: Seq<char>)
    ensures
        !last_segment(p).contains(SEPARATOR),
{
    p.index_of_last_ensures(SEPARATOR);
}

/// A path without a separator is its own final segment.
pub proof fn lemma_last_segment_without_separator(p: Seq<char>)
    requires
        !p.contains(SEPARATOR),
    ensures
        last_segment(p) == p,
{
    p.index_of_last_ensures(SEPARATOR);
}

/// Where a file name that holds no separator is joined to what stands before it, the file
/// name is the final segment.
pub proof fn lemma_last_segment_of_joined(before: Seq<char>, file: Seq<char>)
    requires
        !file.contains(SEPARATOR),
    ensures
        last_segment(joined(before, file)) == file,
{
    let p = joined(before, file);
    p.index_of_last_ensures(SEPARATOR);
    assert(p[before.len() as int] == SEPARATOR);
}

/// The segments of `s`: the stretches of `s` between its separators, in order. A name
/// without separator is one segment, the empty name too.
pub open spec fn segments(s: Seq<char>) -> Seq<Seq<char>>
    decreases s.len(),
    via segments_decreases
{
    if s.contains(SEPARATOR) {
        seq![owner_part(s)] + segments(path_part(s))
    } else {
        seq![s]
    }
}

#[via_fn]
proof fn segments_decreases(s: Seq<char>) {
    s.index_of_first_ensures(SEPARATOR);
}

/// The segments `parts` written one after another, with a separator between each two.
pub open spec fn rejoined(parts: Seq<Seq<char>>) -> Seq<char>
    decreases parts.len(),
{
    if parts.len() == 0 {
        Seq::empty()
    } else if parts.len() == 1 {
        parts[0]
    } else {
        joined(parts[0], rejoined(parts.drop_first()))
    }
}

/// Splitting a name into its segments and joining them again gives the name back.
pub proof fn lemma_rejoined_segments(s: Seq<char>)
    ensures
        rejoined(segments(s)) == s,
    decreases s.len(),
{
    if s.contains(SEPARATOR) {
        s.index_of_first_ensures(SEPARATOR);
        lemma_rejoined_segments(path_part(s));
        lemma_segments_first(path_part(s));
        assert(segments(s).drop_first() =~= segments(path_part(s)));
        lemma_joined_parts(s);
    }
}

/// A name has at least one segment, and the first is its owner.
pub proof fn lemma_segments_first(s: Seq<char>)
    ensures
        segments(s).len() >= 1,
        segments(s)[0] == owner_part(s),
{
    if !s.contains(SEPARATOR) {
        lemma_parts_without_separator(s);
    }
}

/// The segments after the first, joined again, are the path.
pub proof fn lemma_segments_rest(s: Seq<char>)
    ensures
        rejoined(segments(s).drop_first()) == path_part(s),
{
    if s.contains(SEPARATOR) {
        lemma_rejoined_segments(path_part(s));
        assert(segments(s).drop_first() =~= segments(path_part(s)));
    } else {
        lemma_parts_without_separator(s);
    }
}

/// The final segment is the last of the segments.
pub proof fn lemma_segments_last(s: Seq<char>)
    ensures
        segments(s).last() == last_segment(s),
    decreases s.len(),
{
    if s.contains(SEPARATOR) {
        s.index_of_first_ensures(SEPARATOR);
        s.index_of_last_ensures(SEPARATOR);
        let rest = path_part(s);
        lemma_segments_last(rest);
        lemma_segments_first(rest);
        rest.index_of_last_ensures(SEPARATOR);
        let i = s.index_of_first(SEPARATOR)->0;
        let j = s.index_of_last(SEPARATOR)->0;
        if j > i {
            assert(rest[j - i - 1] == SEPARATOR);
        }
    } else {
        lemma_last_segment_without_separator(s);
    }
}

} // verus!
