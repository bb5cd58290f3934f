use tunnel_share::extractor::Extractor;
use tunnel_share::orchestrator::{
    conclude, should_warn, startup, Startup, WaitEvent, HANDOFF_CAPACITY, URL_WAIT_SECONDS,
};
use tunnel_share::provider::TunnelProvider;

#[test]
fn timeout_gives_no_url_and_a_warning() {
    assert!(should_warn(&WaitEvent::TimedOut));
    assert_eq!(conclude(WaitEvent::TimedOut), None);
}

#[test]
fn closed_channel_gives_no_url_and_no_warning() {
    assert!(!should_warn(&WaitEvent::Closed));
    assert_eq!(conclude(WaitEvent::Closed), None);
}

#[test]
fn received_url_is_the_outcome() {
    let event = WaitEvent::Received("https://abc.tuns.sh".to_string());
    assert!(!should_warn(&event));
    assert_eq!(conclude(event), Some("https://abc.tuns.sh".to_string()));
}

#[test]
fn startup_follows_the_outcome() {
    assert_eq!(
        startup(Some("https://abc.tuns.sh".to_string()), 8080),
        Startup::External("https://abc.tuns.sh".to_string())
    );
    assert_eq!(startup(None, 8080), Startup::Local(8080));
}

#[test]
fn wait_is_ten_seconds_on_a_single_slot() {
    assert_eq!(URL_WAIT_SECONDS, 10);
    assert_eq!(HANDOFF_CAPACITY, 1);
}

#[test]
fn session_without_a_matching_line_ends_local() {
    let mut session = Extractor::new(TunnelProvider::Pico.url_patterns());
    let mut slot: Option<String> = None;
    for message in ["connecting", "authenticated", "see https://pico.sh/docs"] {
        if let Some(url) = session.feed(message) {
            if slot.is_none() {
                slot = Some(url);
            }
        }
    }
    let event = match slot {
        Some(url) => WaitEvent::Received(url),
        None => WaitEvent::TimedOut,
    };
    assert_eq!(startup(conclude(event), 3000), Startup::Local(3000));
}

#[test]
fn session_with_a_matching_line_ends_external() {
    let mut session = Extractor::new(TunnelProvider::Pico.url_patterns());
    let mut slot: Option<String> = None;
    for message in ["connecting", "ready: https://me-dev.tuns.sh/_sish", "again https://x.tuns.sh"] {
        if let Some(url) = session.feed(message) {
            if slot.is_none() {
                slot = Some(url);
            }
        }
    }
    let event = match slot {
        Some(url) => WaitEvent::Received(url),
        None => WaitEvent::TimedOut,
    };
    assert_eq!(
        startup(conclude(event), 3000),
        Startup::External("https://me-dev.tuns.sh".to_string())
    );
}
