//! The tunnel providers that the server knows, with their defaults.

use vstd::prelude::*;
use vstd::string::*;
use crate::text::{chars_of, texts_of};

verus! {

/// A reverse-tunnel service.
#[derive(Clone, Copy, Debug, PartialEq, Eq, Structural)]
pub enum TunnelProvider {
    Pico,
    LocalhostRun,
}

/// The provider that a selector names, the selector taken in lower case.
pub open spec fn provider_of_alias(lower: Seq<char>) -> Option<TunnelProvider> {
    if lower == "pico"@ || lower == "pico.sh"@ || lower == "tuns"@ || lower == "tuns.sh"@ {
        Some(TunnelProvider::Pico)
    } else if lower == "localhost.run"@ || lower == "localhostrun"@ || lower == "lhr"@ {
        Some(TunnelProvider::LocalhostRun)
    } else {
        None
    }
}

/// Whether two character sequences are the same.
pub fn same_chars(a: &Vec<char>, b: &Vec<char>) -> (r: bool)
    ensures
        r == (a@ == b@),
{
    if a.len() != b.len() {
        return false;
    }
    let mut i: usize = 0;
    while i < a.len()
        invariant
            a.len() == b.len(),
            i <= a.len(),
            forall|j: int| 0 <= j < i ==> a@[j] == b@[j],
        decreases a.len() - i,
    {
        if a[i] != b[i] {
            return false;
        }
        i += 1;
    }
    assert(a@ =~= b@);
    true
}

/// Whether `s` reads exactly `word`.
pub fn reads(s: &Vec<char>, word: &str) -> (r: bool)
    ensures
        r == (s@ == word@),
{
    let w = chars_of(word);
    same_chars(s, &w)
}

impl TunnelProvider {
    /// The host name of the provider's SSH server.
    pub open spec fn spec_default_server(&self) -> Seq<char> {
        match self {
            TunnelProvider::Pico => "tuns.sh"@,
            TunnelProvider::LocalhostRun => "ssh.localhost.run"@,
        }
    }

    /// The user name that the provider accepts from anyone. Pico has none:
    /// its users sign in under their own names.
    pub open spec fn spec_default_username(&self) -> Option<Seq<char>> {
        match self {
            TunnelProvider::Pico => None,
            TunnelProvider::LocalhostRun => Some("localhost"@),
        }
    }

    /// The domain substrings of the provider's URLs, in the order in which
    /// they are tried.
    pub open spec fn spec_url_patterns(&self) -> Seq<Seq<char>> {
        match self {
            TunnelProvider::Pico => seq![".tuns.sh"@],
            TunnelProvider::LocalhostRun => seq![".lhr.life"@, ".lhr.rocks"@, ".localhost.run"@],
        }
    }

    /// Maps a selector, already in lower case, through the alias table.
    pub fn from_alias(lower: &str) -> (r: Option<TunnelProvider>)
        ensures
            r == provider_of_alias(lower@),
    {
        let s = chars_of(lower);
        if reads(&s, "pico") || reads(&s, "pico.sh") || reads(&s, "tuns") || reads(&s, "tuns.sh") {
            Some(TunnelProvider::Pico)
        } else if reads(&s, "localhost.run") || reads(&s, "localhostrun") || reads(&s, "lhr") {
            Some(TunnelProvider::LocalhostRun)
        } else {
            None
        }
    }

    /// The host name of the provider's SSH server.
    pub fn default_server(&self) -> (r: &'static str)
        ensures
            r@ == self.spec_default_server(),
    {
        match self {
            TunnelProvider::Pico => "tuns.sh",
            TunnelProvider::LocalhostRun => "ssh.localhost.run",
        }
    }

    /// The user name that the provider accepts from anyone, where it has one.
    pub fn default_username(&self) -> (r: Option<&'static str>)
        ensures
            r is Some == self.spec_default_username() is Some,
            r matches Some(u) ==> Some(u@) == self.spec_default_username(),
    {
        match self {
            TunnelProvider::Pico => None,
            TunnelProvider::LocalhostRun => Some("localhost"),
        }
    }

    /// The domain substrings by which the provider's URLs are recognised.
    pub fn url_patterns(&self) -> (r: &'static [&'static str])
        ensures
            texts_of(r@) == self.spec_url_patterns(),
            r@.len() > 0,
    {
        match self {
            TunnelProvider::Pico => &[".tuns.sh"],
            TunnelProvider::LocalhostRun => &[".lhr.life", ".lhr.rocks", ".localhost.run"],
        }
    }
}

} // verus!
