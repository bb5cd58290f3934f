//! Which names may be served from the single flat directory.

use vstd::prelude::*;
use vstd::string::*;
use crate::text::{
    contains, occurs_at, CharClass, chars_of, find_class, has_substring, lemma_first_in_bounds,
};

verus! {

/// Why a name is refused.
#[derive(Clone, Copy, Debug, PartialEq, Eq, Structural)]
pub enum PathError {
    /// The name is empty.
    Empty,
    /// The name holds the parent-directory marker `..` or a path separator.
    Unsafe,
}

/// The parent-directory marker.
pub open spec fn parent_marker() -> Seq<char> {
    ".."@
}

/// `s` holds a path separator.
pub open spec fn has_separator(s: Seq<char>) -> bool {
    exists|i: int| 0 <= i < s.len() && s[i] == '/'
}

/// `s` can leave the directory or reach below it.
pub open spec fn is_unsafe(s: Seq<char>) -> bool {
    contains(s, parent_marker()) || has_separator(s)
}

/// `s` names a direct child of the directory, or the directory itself.
pub open spec fn is_safe_name(s: Seq<char>) -> bool {
    s.len() > 0 && !is_unsafe(s)
}

/// What the guard says of a candidate.
pub open spec fn checked(s: Seq<char>) -> Result<Seq<char>, PathError> {
    if s.len() == 0 {
        Err(PathError::Empty)
    } else if is_unsafe(s) {
        Err(PathError::Unsafe)
    } else {
        Ok(s)
    }
}

/// A name that the guard accepted.
#[derive(Debug, PartialEq, Eq)]
pub struct Filename {
    name: String,
}

impl View for Filename {
    type V = Seq<char>;

    closed spec fn view(&self) -> Seq<char> {
        self.name@
    }
}

impl Clone for Filename {
    fn clone(&self) -> (r: Self)
        ensures
            r@ == self@,
    {
        proof {
            use_type_invariant(self);
        }
        Filename { name: self.name.clone() }
    }
}

impl Filename {
    #[verifier::type_invariant]
    spec fn accepted(&self) -> bool {
        is_safe_name(self.name@)
    }

    /// The name as text: non-empty, without `..` and without a separator.
    pub fn as_str(&self) -> (r: &str)
        ensures
            r@ == self@,
            is_safe_name(r@),
    {
        proof {
            use_type_invariant(self);
        }
        self.name.as_str()
    }
}

/// The guard's answer as plain values.
pub open spec fn filename_result(r: Result<Filename, PathError>) -> Result<Seq<char>, PathError> {
    match r {
        Ok(f) => Ok(f@),
        Err(e) => Err(e),
    }
}

/// Whether `s` holds a path separator.
pub fn holds_separator(s: &Vec<char>) -> (r: bool)
    ensures
        r == has_separator(s@),
{
    let i = find_class(s, 0, CharClass::Slash);
    proof {
        lemma_first_in_bounds(s@, 0, CharClass::Slash);
        if i < s.len() {
            assert(s@[i as int] == '/');
        }
    }
    i < s.len()
}

/// Checks a requested name. An empty name, one that holds `..` and one
/// that holds a path separator are refused; every other name is accepted
/// unchanged.
pub fn validate(candidate: &str) -> (r: Result<Filename, PathError>)
    ensures
        filename_result(r) == checked(candidate@),
{
    let s = chars_of(candidate);
    if s.len() == 0 {
        return Err(PathError::Empty);
    }
    let marker = chars_of("..");
    if has_substring(&s, &marker) || holds_separator(&s) {
        return Err(PathError::Unsafe);
    }
    let name = String::from_str(candidate);
    assert(marker@ == parent_marker());
    assert(is_safe_name(name@));
    Ok(Filename { name })
}

/// Every name that holds `..` or a separator is refused, and every name
/// that holds neither is accepted, but for the empty name, which is refused
/// as empty.
pub proof fn law_guard(s: Seq<char>)
    ensures
        is_unsafe(s) ==> checked(s) is Err,
        !is_unsafe(s) && s.len() > 0 ==> checked(s) == Ok::<Seq<char>, PathError>(s),
        !is_unsafe(s) && s.len() == 0 ==> checked(s) == Err::<Seq<char>, PathError>(
            PathError::Empty,
        ),
{
}

/// A safe name is a single path component other than `..`: no separator
/// stands anywhere in it, and it is not the parent-directory marker.
pub proof fn law_single_component(s: Seq<char>)
    requires
        is_safe_name(s),
    ensures
        forall|i: int| 0 <= i < s.len() ==> s[i] != '/',
        s != parent_marker(),
{
    if s == parent_marker() {
        assert(occurs_at(s, parent_marker(), 0));
    }
}

} // verus!
