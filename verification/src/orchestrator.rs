//! The decisions around the tunnel's start: how the wait for the public
//! URL ends, and what the server then tells its user.
//!
//! The wait itself is the caller's: it starts the tunnel client, feeds its
//! messages to an `Extractor`, offers what that emits to a hand-off channel,
//! and waits for the channel or the deadline, whichever comes first.

use vstd::prelude::*;
use crate::text::text_of;

verus! {

/// How many URLs the hand-off channel holds.
pub const HANDOFF_CAPACITY: usize = 1;

/// How long the server waits for the public URL, in seconds.
pub const URL_WAIT_SECONDS: u64 = 10;

/// How the wait for the public URL ended.
#[derive(Debug, PartialEq, Eq)]
pub enum WaitEvent {
    /// The channel delivered a URL.
    Received(String),
    /// The channel was closed without a URL.
    Closed,
    /// The deadline passed first.
    TimedOut,
}

/// What the server tells its user once the wait is over.
#[derive(Debug, PartialEq, Eq)]
pub enum Startup {
    /// The server can be reached from outside under this URL.
    External(String),
    /// The server can be reached on this port of the local machine only.
    Local(u16),
}

/// A `Startup` as plain values.
pub enum StartupView {
    External(Seq<char>),
    Local(u16),
}

impl View for Startup {
    type V = StartupView;

    open spec fn view(&self) -> StartupView {
        match self {
            Startup::External(url) => StartupView::External(url@),
            Startup::Local(port) => StartupView::Local(*port),
        }
    }
}

/// The URL that a wait ended with, if it ended with one.
pub open spec fn outcome_of(event: WaitEvent) -> Option<Seq<char>> {
    match event {
        WaitEvent::Received(url) => Some(url@),
        WaitEvent::Closed => None,
        WaitEvent::TimedOut => None,
    }
}

/// Whether the end of the wait deserves a warning: only a passed deadline does.
pub open spec fn warns(event: WaitEvent) -> bool {
    event is TimedOut
}

/// The instructions that follow an outcome.
pub open spec fn startup_of(outcome: Option<Seq<char>>, local_port: u16) -> StartupView {
    match outcome {
        Some(url) => StartupView::External(url),
        None => StartupView::Local(local_port),
    }
}

/// The outcome of the wait: the URL where one was received, and nothing
/// where the deadline passed or the channel was closed.
pub fn conclude(event: WaitEvent) -> (r: Option<String>)
    ensures
        text_of(r) == outcome_of(event),
{
    match event {
        WaitEvent::Received(url) => Some(url),
        WaitEvent::Closed => None,
        WaitEvent::TimedOut => None,
    }
}

/// Whether the caller is to warn that the wait timed out.
pub fn should_warn(event: &WaitEvent) -> (r: bool)
    ensures
        r == warns(*event),
{
    match event {
        WaitEvent::TimedOut => true,
        _ => false,
    }
}

/// Which instructions the caller is to print: those for the public URL
/// where there is one, and those for the local port otherwise.
pub fn startup(outcome: Option<String>, local_port: u16) -> (r: Startup)
    ensures
        r@ == startup_of(text_of(outcome), local_port),
{
    match outcome {
        Some(url) => Startup::External(url),
        None => Startup::Local(local_port),
    }
}

/// A wait yields a URL exactly when one was received: a passed deadline
/// and a closed channel both leave the server local.
pub proof fn law_url_only_when_received(event: WaitEvent, local_port: u16)
    ensures
        outcome_of(event) is Some <==> event is Received,
        event is TimedOut ==> startup_of(outcome_of(event), local_port) == StartupView::Local(
            local_port,
        ),
        event matches WaitEvent::Received(url) ==> startup_of(outcome_of(event), local_port)
            == StartupView::External(url@),
{
}

} // verus!
