//! Character-sequence searching shared by the other modules.

use vstd::prelude::*;
use vstd::string::*;

verus! {

/// `pat` stands in `s` starting at index `i`.
pub open spec fn occurs_at(s: Seq<char>, pat: Seq<char>, i: int) -> bool {
    &&& 0 <= i
    &&& i + pat.len() <= s.len()
    &&& forall|j: int| 0 <= j < pat.len() ==> s[i + j] == #[trigger] pat[j]
}

/// `pat` is a literal substring of `s`.
pub open spec fn contains(s: Seq<char>, pat: Seq<char>) -> bool {
    exists|i: int| occurs_at(s, pat, i)
}

/// Some member of `pats` is a literal substring of `s`.
pub open spec fn contains_any(s: Seq<char>, pats: Seq<Seq<char>>) -> bool {
    exists|k: int| 0 <= k < pats.len() && contains(s, #[trigger] pats[k])
}

/// The Unicode `White_Space` property.
pub open spec fn is_space(c: char) -> bool {
    let n = c as u32;
    ||| 0x09 <= n <= 0x0D
    ||| n == 0x20
    ||| n == 0x85
    ||| n == 0xA0
    ||| n == 0x1680
    ||| 0x2000 <= n <= 0x200A
    ||| n == 0x2028
    ||| n == 0x2029
    ||| n == 0x202F
    ||| n == 0x205F
    ||| n == 0x3000
}

/// The classes of characters that the scanners stop at.
#[derive(Clone, Copy, Debug)]
pub enum CharClass {
    /// The line feed that ends a line.
    LineFeed,
    /// The path separator `/`.
    Slash,
    /// What ends a URL inside prose: white space, a comma or a semicolon.
    Delimiter,
}

/// Whether `c` belongs to class `k`.
pub open spec fn in_class(k: CharClass, c: char) -> bool {
    match k {
        CharClass::LineFeed => c == '\n',
        CharClass::Slash => c == '/',
        CharClass::Delimiter => is_space(c) || c == ',' || c == ';',
    }
}

/// The first index at or after `from` whose character is in class `k`, or
/// the length of `s` where there is none.
pub open spec fn first_in(s: Seq<char>, from: int, k: CharClass) -> int
    decreases s.len() - from,
{
    if from >= s.len() {
        s.len() as int
    } else if in_class(k, s[from]) {
        from
    } else {
        first_in(s, from + 1, k)
    }
}

/// The index after the leading white space of `s`.
pub open spec fn trim_start(s: Seq<char>, from: int) -> int
    decreases s.len() - from,
{
    if 0 <= from < s.len() && is_space(s[from]) {
        trim_start(s, from + 1)
    } else {
        from
    }
}

/// The index at which the trailing white space of `s` begins, looking no
/// further back than `lo`.
pub open spec fn trim_end(s: Seq<char>, lo: int, to: int) -> int
    decreases to - lo,
{
    if lo < to <= s.len() && is_space(s[to - 1]) {
        trim_end(s, lo, to - 1)
    } else {
        to
    }
}

/// `s` without its leading and trailing white space.
pub open spec fn trimmed(s: Seq<char>) -> Seq<char> {
    let lo = trim_start(s, 0);
    s.subrange(lo, trim_end(s, lo, s.len() as int))
}

/// `first_in` stays within `s`, passes over nothing of class `k`, and stops
/// at a character of that class where it stops inside `s`.
pub proof fn lemma_first_in_bounds(s: Seq<char>, from: int, k: CharClass)
    requires
        0 <= from <= s.len(),
    ensures
        from <= first_in(s, from, k) <= s.len(),
        first_in(s, from, k) < s.len() ==> in_class(k, s[first_in(s, from, k)]),
        forall|j: int| from <= j < first_in(s, from, k) ==> !in_class(k, #[trigger] s[j]),
    decreases s.len() - from,
{
    if from < s.len() && !in_class(k, s[from]) {
        lemma_first_in_bounds(s, from + 1, k);
    }
}

/// What `trim_start` skips is white space, and it stops at the first
/// character that is none.
pub proof fn lemma_trim_start(s: Seq<char>, from: int)
    requires
        0 <= from <= s.len(),
    ensures
        from <= trim_start(s, from) <= s.len(),
        forall|i: int| from <= i < trim_start(s, from) ==> is_space(#[trigger] s[i]),
        trim_start(s, from) < s.len() ==> !is_space(s[trim_start(s, from)]),
    decreases s.len() - from,
{
    if from < s.len() && is_space(s[from]) {
        lemma_trim_start(s, from + 1);
    }
}

/// What `trim_end` cuts off is white space, and it stops behind the last
/// character that is none.
pub proof fn lemma_trim_end(s: Seq<char>, lo: int, to: int)
    requires
        0 <= lo <= to <= s.len(),
    ensures
        lo <= trim_end(s, lo, to) <= to,
        forall|i: int| trim_end(s, lo, to) <= i < to ==> is_space(#[trigger] s[i]),
        lo < trim_end(s, lo, to) ==> !is_space(s[trim_end(s, lo, to) - 1]),
    decreases to - lo,
{
    if lo < to && is_space(s[to - 1]) {
        lemma_trim_end(s, lo, to - 1);
    }
}

/// Trimming takes away white space only, and all of it at both ends: what
/// is left neither begins nor ends with white space.
pub proof fn law_trimmed(s: Seq<char>)
    ensures
        ({
            let lo = trim_start(s, 0);
            let hi = trim_end(s, lo, s.len() as int);
            &&& 0 <= lo <= hi <= s.len()
            &&& trimmed(s) == s.subrange(lo, hi)
            &&& forall|i: int| 0 <= i < lo ==> is_space(#[trigger] s[i])
            &&& forall|i: int| hi <= i < s.len() ==> is_space(#[trigger] s[i])
            &&& trimmed(s).len() > 0 ==> !is_space(trimmed(s).first()) && !is_space(
                trimmed(s).last(),
            )
        }),
{
    lemma_trim_start(s, 0);
    lemma_trim_end(s, trim_start(s, 0), s.len() as int);
}

/// The characters of each text of a list.
pub open spec fn texts_of(items: Seq<&str>) -> Seq<Seq<char>> {
    items.map_values(|p: &str| p@)
}

/// The characters of each member of a list.
pub open spec fn views_of(items: Seq<Vec<char>>) -> Seq<Seq<char>> {
    items.map_values(|v: Vec<char>| v@)
}

/// The characters of an optional string.
pub open spec fn text_of(s: Option<String>) -> Option<Seq<char>> {
    match s {
        Some(t) => Some(t@),
        None => None,
    }
}

/// A copy of an optional string.
pub fn copy_text(s: &Option<String>) -> (r: Option<String>)
    ensures
        text_of(r) == text_of(*s),
{
    match s {
        Some(t) => Some(t.clone()),
        None => None,
    }
}

/// The characters of `s`, in order.
pub fn chars_of(s: &str) -> (v: Vec<char>)
    ensures
        v@ == s@,
{
    broadcast use axiom_spec_iter;

    let mut v: Vec<char> = Vec::new();
    for c in it: s.chars()
        invariant
            it.seq() == s@,
            v@.len() == it.index(),
            forall|j: int| 0 <= j < v@.len() ==> v@[j] == it.seq()[j],
    {
        v.push(c);
    }
    assert(v@ =~= s@);
    v
}

/// Whether `c` is white space.
pub fn is_space_char(c: char) -> (r: bool)
    ensures
        r == is_space(c),
{
    let n: u32 = c as u32;
    (0x09 <= n && n <= 0x0D) || n == 0x20 || n == 0x85 || n == 0xA0 || n == 0x1680 || (0x2000 <= n
        && n <= 0x200A) || n == 0x2028 || n == 0x2029 || n == 0x202F || n == 0x205F || n == 0x3000
}

/// Whether `c` belongs to class `k`.
pub fn class_holds(k: CharClass, c: char) -> (r: bool)
    ensures
        r == in_class(k, c),
{
    match k {
        CharClass::LineFeed => c == '\n',
        CharClass::Slash => c == '/',
        CharClass::Delimiter => is_space_char(c) || c == ',' || c == ';',
    }
}

/// Scans `s` from `from` for the first character of class `k`.
pub fn find_class(s: &Vec<char>, from: usize, k: CharClass) -> (r: usize)
    requires
        from <= s.len(),
    ensures
        r == first_in(s@, from as int, k),
        from <= r <= s.len(),
{
    let mut i: usize = from;
    while i < s.len() && !class_holds(k, s[i])
        invariant
            from <= i <= s.len(),
            first_in(s@, from as int, k) == first_in(s@, i as int, k),
        decreases s.len() - i,
    {
        i += 1;
    }
    i
}

/// Whether `pat` stands in `s` at index `i`.
pub fn matches_at(s: &Vec<char>, pat: &Vec<char>, i: usize) -> (r: bool)
    ensures
        r == occurs_at(s@, pat@, i as int),
{
    if i > s.len() || pat.len() > s.len() - i {
        return false;
    }
    let mut j: usize = 0;
    while j < pat.len()
        invariant
            i + pat.len() <= s.len(),
            j <= pat.len(),
            forall|m: int| 0 <= m < j ==> s@[i + m] == #[trigger] pat@[m],
        decreases pat.len() - j,
    {
        if s[i + j] != pat[j] {
            return false;
        }
        j += 1;
    }
    true
}

/// Whether `pat` is a literal substring of `s`.
pub fn has_substring(s: &Vec<char>, pat: &Vec<char>) -> (r: bool)
    ensures
        r == contains(s@, pat@),
{
    let mut i: usize = 0;
    while i < s.len()
        invariant
            i <= s.len(),
            forall|m: int| 0 <= m < i ==> !occurs_at(s@, pat@, m),
        decreases s.len() - i,
    {
        if matches_at(s, pat, i) {
            return true;
        }
        i += 1;
    }
    matches_at(s, pat, i)
}

/// Whether some member of `pats` is a literal substring of `s`.
pub fn has_any_substring(s: &Vec<char>, pats: &Vec<Vec<char>>) -> (r: bool)
    ensures
        r == contains_any(s@, views_of(pats@)),
{
    let mut k: usize = 0;
    while k < pats.len()
        invariant
            k <= pats.len(),
            forall|m: int| 0 <= m < k ==> !contains(s@, #[trigger] views_of(pats@)[m]),
        decreases pats.len() - k,
    {
        assert(views_of(pats@)[k as int] == pats@[k as int]@);
        if has_substring(s, &pats[k]) {
            return true;
        }
        k += 1;
    }
    false
}

/// A copy of the characters of `s` from `from` up to `to`.
pub fn copy_range(s: &Vec<char>, from: usize, to: usize) -> (r: Vec<char>)
    requires
        from <= to <= s.len(),
    ensures
        r@ == s@.subrange(from as int, to as int),
{
    let mut r: Vec<char> = Vec::with_capacity(to - from);
    let mut i: usize = from;
    while i < to
        invariant
            from <= i <= to <= s.len(),
            r@ == s@.subrange(from as int, i as int),
        decreases to - i,
    {
        r.push(s[i]);
        i += 1;
        assert(r@ =~= s@.subrange(from as int, i as int));
    }
    r
}

/// The bounds of `s` without its leading and trailing white space.
pub fn trim_bounds(s: &Vec<char>) -> (r: (usize, usize))
    ensures
        r.0 == trim_start(s@, 0),
        r.1 == trim_end(s@, r.0 as int, s@.len() as int),
        r.0 <= r.1 <= s.len(),
{
    let mut lo: usize = 0;
    while lo < s.len() && is_space_char(s[lo])
        invariant
            lo <= s.len(),
            trim_start(s@, 0) == trim_start(s@, lo as int),
        decreases s.len() - lo,
    {
        lo += 1;
    }
    let mut hi: usize = s.len();
    while lo < hi && is_space_char(s[hi - 1])
        invariant
            lo <= hi <= s.len(),
            trim_end(s@, lo as int, s@.len() as int) == trim_end(s@, lo as int, hi as int),
        decreases hi - lo,
    {
        hi -= 1;
    }
    (lo, hi)
}

} // verus!
