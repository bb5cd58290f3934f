//! Finding the public URL in the free text that a tunnel client prints.
//!
//! The text is untrusted prose. A line announces the URL when, once trimmed,
//! it holds a scheme marker and one of the provider's domain patterns; the
//! URL is then cut out of that line and reduced to scheme and host.

use vstd::prelude::*;
use vstd::string::*;
use crate::text::{
    occurs_at, contains_any, trimmed, trim_start, text_of, first_in, in_class, CharClass, chars_of, find_class, matches_at,
    has_any_substring, copy_range, trim_bounds, lemma_first_in_bounds, texts_of, views_of,
};

verus! {

/// The scheme marker of plain HTTP.
pub open spec fn http_marker() -> Seq<char> {
    "http://"@
}

/// The scheme marker of HTTP over TLS.
pub open spec fn https_marker() -> Seq<char> {
    "https://"@
}

/// A scheme marker stands in `s` at index `i`.
pub open spec fn scheme_at(s: Seq<char>, i: int) -> bool {
    occurs_at(s, http_marker(), i) || occurs_at(s, https_marker(), i)
}

/// The length of the scheme marker that stands at index `i`.
pub open spec fn scheme_width(s: Seq<char>, i: int) -> int {
    if occurs_at(s, http_marker(), i) {
        http_marker().len() as int
    } else {
        https_marker().len() as int
    }
}

/// `s` holds a scheme marker somewhere.
pub open spec fn has_scheme(s: Seq<char>) -> bool {
    exists|i: int| 0 <= i < s.len() && scheme_at(s, i)
}

/// The first index at or after `from` at which a scheme marker stands, or
/// the length of `s` where there is none.
pub open spec fn first_scheme(s: Seq<char>, from: int) -> int
    decreases s.len() - from,
{
    if from >= s.len() {
        s.len() as int
    } else if scheme_at(s, from) {
        from
    } else {
        first_scheme(s, from + 1)
    }
}

/// Where the URL of a trimmed line `t` begins and ends: from the first
/// scheme marker up to the first delimiter, or up to the first `/` behind
/// the marker where that comes sooner.
pub open spec fn url_bounds(t: Seq<char>) -> (int, int) {
    let start = first_scheme(t, 0);
    let stop = first_in(t, start, CharClass::Delimiter);
    let slash = first_in(t, start + scheme_width(t, start), CharClass::Slash);
    (start, if slash < stop { slash } else { stop })
}

/// The URL that a trimmed line `t` announces: scheme and host only.
pub open spec fn url_of(t: Seq<char>) -> Seq<char> {
    t.subrange(url_bounds(t).0, url_bounds(t).1)
}

/// The URL that `line` announces for a provider with the domain patterns
/// `pats`, if it announces one.
pub open spec fn line_url(line: Seq<char>, pats: Seq<Seq<char>>) -> Option<Seq<char>> {
    let t = trimmed(line);
    if t.len() > 0 && has_scheme(t) && contains_any(t, pats) {
        Some(url_of(t))
    } else {
        None
    }
}

/// The URL of the first line of `msg`, at or after index `from`, that
/// announces one. Lines end at a line feed.
pub open spec fn message_url(msg: Seq<char>, from: int, pats: Seq<Seq<char>>) -> Option<Seq<char>>
    decreases msg.len() - from,
{
    if from < 0 || from > msg.len() {
        None
    } else {
        let end = first_in(msg, from, CharClass::LineFeed);
        match line_url(msg.subrange(from, end), pats) {
            Some(u) => Some(u),
            None => if from <= end < msg.len() {
                message_url(msg, end + 1, pats)
            } else {
                None
            },
        }
    }
}

/// What a session that has (or has not yet) emitted its URL emits for `msg`.
pub open spec fn emission(emitted: bool, msg: Seq<char>, pats: Seq<Seq<char>>) -> Option<Seq<char>> {
    if emitted {
        None
    } else {
        message_url(msg, 0, pats)
    }
}

/// The URLs that a session emits over the messages `msgs`, taken in order.
pub open spec fn emitted_urls(emitted: bool, msgs: Seq<Seq<char>>, pats: Seq<Seq<char>>) -> Seq<
    Seq<char>,
>
    decreases msgs.len(),
{
    if msgs.len() == 0 {
        Seq::empty()
    } else {
        let first = emission(emitted, msgs[0], pats);
        let rest = emitted_urls(emitted || first is Some, msgs.drop_first(), pats);
        match first {
            Some(url) => seq![url] + rest,
            None => rest,
        }
    }
}

/// The URL of the first of `msgs` that announces one.
pub open spec fn first_url(msgs: Seq<Seq<char>>, pats: Seq<Seq<char>>) -> Option<Seq<char>>
    decreases msgs.len(),
{
    if msgs.len() == 0 {
        None
    } else {
        match message_url(msgs[0], 0, pats) {
            Some(url) => Some(url),
            None => first_url(msgs.drop_first(), pats),
        }
    }
}

/// A session emits at most one URL, whatever messages it is fed and
/// however many of their lines announce one: the URL of the first message
/// that announces one. A session that has emitted its URL emits nothing
/// more.
pub proof fn law_single_emission(emitted: bool, msgs: Seq<Seq<char>>, pats: Seq<Seq<char>>)
    ensures
        emitted_urls(emitted, msgs, pats).len() <= 1,
        emitted ==> emitted_urls(emitted, msgs, pats) == Seq::<Seq<char>>::empty(),
        !emitted ==> emitted_urls(emitted, msgs, pats) == match first_url(msgs, pats) {
            Some(url) => seq![url],
            None => Seq::<Seq<char>>::empty(),
        },
    decreases msgs.len(),
{
    if msgs.len() > 0 {
        let first = emission(emitted, msgs[0], pats);
        let rest = emitted_urls(emitted || first is Some, msgs.drop_first(), pats);
        law_single_emission(emitted || first is Some, msgs.drop_first(), pats);
        if first is Some {
            assert(seq![first->0] + rest =~= seq![first->0]);
        }
    }
}

/// A line announces a URL only if, once trimmed, it holds both a scheme
/// marker and one of the domain patterns: either alone is ignored.
pub proof fn law_scheme_and_pattern(line: Seq<char>, pats: Seq<Seq<char>>)
    ensures
        !has_scheme(trimmed(line)) ==> line_url(line, pats) is None,
        !contains_any(trimmed(line), pats) ==> line_url(line, pats) is None,
        has_scheme(trimmed(line)) && contains_any(trimmed(line), pats) ==> line_url(line, pats)
            is Some,
{
}

/// A message none of whose lines announces a URL yields none.
pub proof fn law_no_announcing_line(msg: Seq<char>, from: int, pats: Seq<Seq<char>>)
    requires
        0 <= from <= msg.len(),
        forall|start: int|
            from <= start <= msg.len() ==> line_url(
                msg.subrange(start, #[trigger] first_in(msg, start, CharClass::LineFeed)),
                pats,
            ) is None,
    ensures
        message_url(msg, from, pats) is None,
    decreases msg.len() - from,
{
    let end = first_in(msg, from, CharClass::LineFeed);
    lemma_first_in_bounds(msg, from, CharClass::LineFeed);
    if end < msg.len() {
        law_no_announcing_line(msg, end + 1, pats);
    }
}

/// An extracted URL begins at a scheme marker, holds no delimiter, and
/// holds no `/` behind that marker.
pub proof fn law_url_shape(t: Seq<char>)
    requires
        has_scheme(t),
    ensures
        scheme_at(t, url_bounds(t).0),
        forall|j: int|
            url_bounds(t).0 <= j < url_bounds(t).1 ==> !in_class(CharClass::Delimiter, #[trigger] t[j]),
        forall|j: int|
            url_bounds(t).0 + scheme_width(t, url_bounds(t).0) <= j < url_bounds(t).1 ==> #[trigger] t[j]
                != '/',
{
    lemma_has_scheme(t);
    lemma_first_scheme(t, 0);
    let start = first_scheme(t, 0);
    lemma_first_in_bounds(t, start, CharClass::Delimiter);
    lemma_first_in_bounds(t, start + scheme_width(t, start), CharClass::Slash);
}

/// `first_scheme` stays within `s`, passes over no scheme marker, and stops
/// at one where it stops inside `s`.
pub proof fn lemma_first_scheme(s: Seq<char>, from: int)
    requires
        0 <= from <= s.len(),
    ensures
        from <= first_scheme(s, from) <= s.len(),
        first_scheme(s, from) < s.len() ==> scheme_at(s, first_scheme(s, from)),
        forall|j: int| from <= j < first_scheme(s, from) ==> !scheme_at(s, j),
    decreases s.len() - from,
{
    if from < s.len() && !scheme_at(s, from) {
        lemma_first_scheme(s, from + 1);
    }
}

/// A line holds a scheme marker exactly when the search for one ends inside it.
pub proof fn lemma_has_scheme(s: Seq<char>)
    ensures
        has_scheme(s) <==> first_scheme(s, 0) < s.len(),
{
    lemma_first_scheme(s, 0);
    if first_scheme(s, 0) < s.len() {
        assert(scheme_at(s, first_scheme(s, 0)));
    }
}

/// The bounds of a URL lie inside the line, in order.
pub proof fn lemma_url_bounds(t: Seq<char>)
    requires
        has_scheme(t),
    ensures
        0 <= url_bounds(t).0 <= url_bounds(t).1 <= t.len(),
{
    lemma_has_scheme(t);
    lemma_first_scheme(t, 0);
    let start = first_scheme(t, 0);
    lemma_first_in_bounds(t, start, CharClass::Delimiter);
    lemma_first_in_bounds(t, start + scheme_width(t, start), CharClass::Slash);
}

/// Finds the first scheme marker of `t`: its index and its length. The
/// index is the length of `t` where there is none.
pub fn find_scheme(t: &Vec<char>) -> (r: (usize, usize))
    ensures
        r.0 == first_scheme(t@, 0),
        r.0 <= t.len(),
        r.0 < t.len() ==> r.1 == scheme_width(t@, r.0 as int) && r.0 + r.1 <= t.len(),
        r.0 == t.len() ==> r.1 == 0,
{
    let http = chars_of("http://");
    let https = chars_of("https://");
    let mut i: usize = 0;
    while i < t.len()
        invariant
            i <= t.len(),
            http@ == http_marker(),
            https@ == https_marker(),
            first_scheme(t@, 0) == first_scheme(t@, i as int),
        decreases t.len() - i,
    {
        if matches_at(t, &http, i) {
            return (i, http.len());
        }
        if matches_at(t, &https, i) {
            return (i, https.len());
        }
        i += 1;
    }
    (i, 0)
}

/// Looks for a URL in one line. The result gives the bounds of the URL
/// within `line`.
pub fn scan_line(line: &Vec<char>, pats: &Vec<Vec<char>>) -> (r: Option<(usize, usize)>)
    ensures
        r is Some <==> line_url(line@, views_of(pats@)) is Some,
        r matches Some(b) ==> b.0 <= b.1 <= line.len() && line_url(line@, views_of(pats@))
            == Some(line@.subrange(b.0 as int, b.1 as int)),
        r matches Some(b) ==> b.0 == trim_start(line@, 0) + url_bounds(trimmed(line@)).0 && b.1
            == trim_start(line@, 0) + url_bounds(trimmed(line@)).1,
{
    let (lo, hi) = trim_bounds(line);
    let t = copy_range(line, lo, hi);
    proof {
        lemma_has_scheme(t@);
    }
    if t.len() == 0 {
        return None;
    }
    let (start, width) = find_scheme(&t);
    if start >= t.len() || !has_any_substring(&t, pats) {
        return None;
    }
    let stop = find_class(&t, start, CharClass::Delimiter);
    let slash = find_class(&t, start + width, CharClass::Slash);
    let end = if slash < stop { slash } else { stop };
    proof {
        lemma_url_bounds(t@);
        assert(t@.subrange(start as int, end as int) =~= line@.subrange(
            lo + start as int,
            lo + end as int,
        ));
    }
    Some((lo + start, lo + end))
}

/// The one-shot gate of a tunnel session: the provider's domain patterns
/// and whether a URL was emitted already.
pub struct Extractor {
    patterns: Vec<Vec<char>>,
    emitted: bool,
}

impl Extractor {
    /// The provider's domain patterns.
    pub closed spec fn patterns(&self) -> Seq<Seq<char>> {
        views_of(self.patterns@)
    }

    /// Whether this session has emitted its URL.
    pub closed spec fn emitted(&self) -> bool {
        self.emitted
    }

    /// A fresh session for a provider with the domain patterns `patterns`.
    pub fn new(patterns: &[&str]) -> (r: Self)
        ensures
            !r.emitted(),
            r.patterns() == texts_of(patterns@),
    {
        let mut pats: Vec<Vec<char>> = Vec::new();
        let mut i: usize = 0;
        while i < patterns.len()
            invariant
                i <= patterns.len(),
                pats@.len() == i,
                views_of(pats@) == texts_of(patterns@.subrange(0, i as int)),
            decreases patterns.len() - i,
        {
            let ghost prior = pats@;
            pats.push(chars_of(patterns[i]));
            i += 1;
            assert forall|j: int| 0 <= j < i implies views_of(pats@)[j] == texts_of(
                patterns@.subrange(0, i as int),
            )[j] by {
                if j < i - 1 {
                    assert(views_of(prior)[j] == texts_of(patterns@.subrange(0, i - 1))[j]);
                }
            }
            assert(views_of(pats@) =~= texts_of(patterns@.subrange(0, i as int)));
        }
        assert(patterns@.subrange(0, i as int) =~= patterns@);
        Extractor { patterns: pats, emitted: false }
    }

    /// Whether this session has emitted its URL.
    pub fn has_emitted(&self) -> (r: bool)
        ensures
            r == self.emitted(),
    {
        self.emitted
    }

    /// Takes one message of the tunnel client, of one or more lines. The
    /// first message of a session with a line that announces a URL yields
    /// that URL; once a URL was emitted no message yields another.
    pub fn feed(&mut self, message: &str) -> (r: Option<String>)
        ensures
            final(self).patterns() == old(self).patterns(),
            text_of(r) == emission(old(self).emitted(), message@, old(self).patterns()),
            final(self).emitted() == (old(self).emitted() || r is Some),
    {
        if self.emitted {
            return None;
        }
        let msg = chars_of(message);
        let mut from: usize = 0;
        loop
            invariant
                msg@ == message@,
                from <= msg.len(),
                !self.emitted,
                !old(self).emitted,
                self.patterns == old(self).patterns,
                message_url(msg@, 0, self.patterns()) == message_url(
                    msg@,
                    from as int,
                    self.patterns(),
                ),
            decreases msg.len() - from,
        {
            let end = find_class(&msg, from, CharClass::LineFeed);
            let line = copy_range(&msg, from, end);
            match scan_line(&line, &self.patterns) {
                Some((a, b)) => {
                    assert(line@.subrange(a as int, b as int) =~= message@.subrange(
                        from + a as int,
                        from + b as int,
                    ));
                    let url = String::from_str(message.substring_char(from + a, from + b));
                    self.emitted = true;
                    return Some(url);
                },
                None => {
                    if end < msg.len() {
                        from = end + 1;
                    } else {
                        return None;
                    }
                },
            }
        }
    }
}

} // verus!
