//! The parsed form of an Upspin path name.

use vstd::prelude::*;
use vstd::std_specs::iter::IteratorSpec;
use vstd::string::StrSliceExecFns;
use vstd::string::StringExecFns;
use crate::error::UpspinError;
use crate::text::{
    joined, last_segment, lemma_joined_parts, lemma_last_segment_without_separator,
    lemma_owner_has_no_separator, lemma_parts_of_joined, lemma_parts_without_separator,
    owner_part, path_part, SEPARATOR,
};

verus! {

/// What an `UpspinPath` stands for: an owner and the path below that owner.
pub struct PathModel {
    pub owner: Seq<char>,
    pub path: Seq<char>,
}

/// The path to a file in Upspin.
pub struct UpspinPath {
    owner: String,
    path: String,
}

impl View for UpspinPath {
    type V = PathModel;

    closed spec fn view(&self) -> PathModel {
        PathModel { owner: self.owner@, path: self.path@ }
    }
}

impl UpspinPath {
    /// The owner holds no separator: the first separator of a name ends the owner.
    #[verifier::type_invariant]
    spec fn owner_ends_at_separator(self) -> bool {
        !self.owner@.contains(SEPARATOR)
    }
}

/// The position of the first `c` in `s`, if there is one.
fn first_position(s: &str, c: char) -> (r: Option<usize>)
    ensures
        match r {
            Some(i) => s@.index_of_first(c) == Some(i as int),
            None => s@.index_of_first(c) is None,
        },
{
    let mut i: usize = 0;
    let n = s.unicode_len();
    let mut it = s.chars();
    loop
        invariant
            i <= n,
            n == s@.len(),
            it.remaining() == s@.skip(i as int),
            forall|j: int| 0 <= j < i ==> s@[j] != c,
        decreases n - i,
    {
        match it.next() {
            Some(ch) => {
                if ch == c {
                    proof {
                        s@.index_of_first_ensures(c);
                    }
                    return Some(i);
                }
                i = i + 1;
            },
            None => {
                proof {
                    s@.index_of_first_ensures(c);
                }
                return None;
            },
        }
    }
}

/// The position of the last `c` in `s`, if there is one.
fn last_position(s: &str, c: char) -> (r: Option<usize>)
    ensures
        match r {
            Some(i) => s@.index_of_last(c) == Some(i as int),
            None => s@.index_of_last(c) is None,
        },
{
    let mut i: usize = 0;
    let mut found: Option<usize> = None;
    let n = s.unicode_len();
    let mut it = s.chars();
    loop
        invariant
            i <= n,
            n == s@.len(),
            it.remaining() == s@.skip(i as int),
            match found {
                Some(k) => k < i && s@[k as int] == c && forall|j: int| k < j < i ==> s@[j] != c,
                None => forall|j: int| 0 <= j < i ==> s@[j] != c,
            },
        decreases n - i,
    {
        match it.next() {
            Some(ch) => {
                if ch == c {
                    found = Some(i);
                }
                i = i + 1;
            },
            None => {
                proof {
                    s@.index_of_last_ensures(c);
                }
                return found;
            },
        }
    }
}

/// What parsing the name `s` gives.
pub open spec fn parsed(s: Seq<char>) -> PathModel {
    PathModel { owner: owner_part(s), path: path_part(s) }
}

impl PathModel {
    /// True of what parsing gives, and so of every `UpspinPath`: the owner holds no
    /// separator.
    pub open spec fn well_formed(self) -> bool {
        !self.owner.contains(SEPARATOR)
    }

    /// The final segment of the path.
    pub open spec fn file_name(self) -> Seq<char> {
        last_segment(self.path)
    }

    /// The owner and the path as one name.
    pub open spec fn full_path(self) -> Seq<char> {
        joined(self.owner, self.path)
    }
}

/// What parsing gives is well formed.
pub proof fn lemma_parsed_is_well_formed(s: Seq<char>)
    ensures
        parsed(s).well_formed(),
{
    lemma_owner_has_no_separator(s);
}

/// Writing a well-formed path out in full, and parsing that name, gives the path back.
pub proof fn lemma_parsed_full_path(p: PathModel)
    requires
        p.well_formed(),
    ensures
        parsed(p.full_path()) == p,
{
    lemma_parts_of_joined(p.owner, p.path);
}

/// Parsing a name that holds a separator, and writing the result out in full, gives the
/// name back.
pub proof fn lemma_full_path_of_parsed(s: Seq<char>)
    requires
        s.contains(SEPARATOR),
    ensures
        parsed(s).full_path() == s,
{
    lemma_joined_parts(s);
}

/// A name without a separator comes back from parsing with one separator added at its end,
/// and with an empty file name.
pub proof fn lemma_full_path_of_bare_owner(s: Seq<char>)
    requires
        !s.contains(SEPARATOR),
    ensures
        parsed(s).full_path() == s.push(SEPARATOR),
        parsed(s).file_name() == Seq::<char>::empty(),
{
    lemma_parts_without_separator(s);
    lemma_last_segment_without_separator(Seq::<char>::empty());
}

impl UpspinPath {
    /// Returns the owner portion of the `UpspinPath`.
    ///
    /// For "augie@upspin.io/Images/Augie/small.jpg" this is "augie@upspin.io".
    pub fn owner(&self) -> (r: &String)
        ensures
            r@ == self@.owner,
            self@.well_formed(),
    {
        proof {
            use_type_invariant(self);
        }
        &self.owner
    }

    /// Returns the path portion of the `UpspinPath`.
    ///
    /// For "augie@upspin.io/Images/Augie/small.jpg" this is "Images/Augie/small.jpg".
    pub fn path(&self) -> (r: &String)
        ensures
            r@ == self@.path,
    {
        &self.path
    }

    /// Returns the file name of the `UpspinPath`: the final segment of its path. Where the
    /// path is empty, so is the file name.
    ///
    /// For "augie@upspin.io/Images/Augie/small.jpg" this is "small.jpg".
    pub fn file_name(&self) -> (r: &str)
        ensures
            r@ == self@.file_name(),
    {
        let p = self.path.as_str();
        match last_position(p, SEPARATOR) {
            Some(i) => {
                proof {
                    p@.index_of_last_ensures(SEPARATOR);
                }
                let n = p.unicode_len();
                p.substring_char(i + 1, n)
            },
            None => p,
        }
    }

    /// Returns the full Upspin name of the `UpspinPath`.
    ///
    /// For "augie@upspin.io/Images/Augie/small.jpg" this is
    /// "augie@upspin.io/Images/Augie/small.jpg".
    pub fn full_path(&self) -> (r: String)
        ensures
            r@ == self@.full_path(),
            parsed(r@) == self@,
    {
        proof {
            reveal_strlit("/");
            use_type_invariant(self);
            lemma_parsed_full_path(self@);
        }
        let r = self.owner.clone().concat("/").concat(self.path.as_str());
        assert(r@ =~= self@.full_path());
        r
    }
}

impl std::str::FromStr for UpspinPath {
    type Err = UpspinError;

    /// Parses a name of the form `owner/segment/.../file`. Every string parses: the owner
    /// is what stands before the first `/`, the path what stands after it. A string
    /// without `/` is all owner, with an empty path.
    fn from_str(s: &str) -> (r: Result<Self, Self::Err>)
        ensures
            r matches Ok(p) && p@ == parsed(s@),
    {
        match first_position(s, SEPARATOR) {
            Some(i) => {
                proof {
                    s@.index_of_first_ensures(SEPARATOR);
                }
                let n = s.unicode_len();
                let owner = s.substring_char(0, i).to_owned();
                let path = s.substring_char(i + 1, n).to_owned();
                Ok(UpspinPath { owner, path })
            },
            None => {
                proof {
                    s@.index_of_first_ensures(SEPARATOR);
                }
                Ok(UpspinPath { owner: s.to_owned(), path: String::new() })
            },
        }
    }
}

} // verus!
