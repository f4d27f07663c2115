use surf_bridge::browser::{AppWindow, Screen, Session};
use surf_bridge::events::{app_main, handle_event, BrowserEvent, Outcome, PairingEvent};
use surf_bridge::page::{RelayBlock, RelayEnvelope};

fn start() -> (Session, AppWindow) {
    let mut ui = AppWindow {
        url: String::new(),
        status_line: String::new(),
        error_text: String::new(),
        page_title: String::new(),
        connection_status: String::new(),
        blocks: vec![],
        loading: false,
        can_go_back: false,
        can_go_forward: false,
        relay_online: true,
    };
    let (session, ready) = app_main(&mut ui);
    assert_eq!(ready.account_id, "web-0");
    assert_eq!(
        String::from_utf8(ready.update).unwrap(),
        r#"{"type":"ready","version":"1.0"}"#
    );
    (session, ui)
}

fn open(session: &mut Session, ui: &mut AppWindow, url: &str) -> Outcome {
    handle_event(session, ui, BrowserEvent::OpenUrl(url.to_string()))
}

fn fetched(outcome: &Outcome) -> Option<String> {
    outcome.send.as_ref().map(|u| String::from_utf8(u.update.clone()).unwrap())
}

fn page(status: u16, title: &str, url: &str, error: Option<&str>) -> RelayEnvelope {
    RelayEnvelope::Page {
        id: "1".to_string(),
        status,
        title: title.to_string(),
        url: url.to_string(),
        blocks: vec![
            RelayBlock { kind: "heading".to_string(), text: "T".to_string(), href: String::new() },
            RelayBlock {
                kind: "link".to_string(),
                text: "L".to_string(),
                href: "https://l".to_string(),
            },
        ],
        error: error.map(|e| e.to_string()),
    }
}

fn update(account_id: &str, envelope: Option<RelayEnvelope>) -> BrowserEvent {
    BrowserEvent::AccountUpdate { account_id: account_id.to_string(), envelope }
}

#[test]
fn start_shows_that_nothing_is_connected() {
    let (session, ui) = start();
    assert_eq!(ui.connection_status, "Not connected");
    assert!(!ui.relay_online);
    assert_eq!(ui.status_line, "ready — no relay contacted yet");
    assert_eq!(session.last_fetch(), 0);
}

#[test]
fn screens_are_turned_to() {
    let (mut session, mut ui) = start();
    let browse = handle_event(&mut session, &mut ui, BrowserEvent::GotoBrowse);
    assert_eq!(browse.navigate, Some(Screen::Browse));
    assert!(browse.send.is_none());
    let home = handle_event(&mut session, &mut ui, BrowserEvent::GoHome);
    assert_eq!(home.navigate, Some(Screen::Home));
}

#[test]
fn opened_address_is_fetched_and_shown() {
    let (mut session, mut ui) = start();
    let outcome = open(&mut session, &mut ui, "robosats.com");
    assert_eq!(outcome.navigate, Some(Screen::Browse));
    assert_eq!(
        fetched(&outcome).unwrap(),
        r#"{"id":"1","type":"fetch","url":"https://robosats.com"}"#
    );
    let blank = open(&mut session, &mut ui, " ");
    assert_eq!(blank.navigate, Some(Screen::Browse));
    assert!(blank.send.is_none());
}

#[test]
fn followed_link_stays_on_the_screen() {
    let (mut session, mut ui) = start();
    let outcome =
        handle_event(&mut session, &mut ui, BrowserEvent::LinkClicked("https://l".to_string()));
    assert_eq!(outcome.navigate, None);
    assert_eq!(ui.url, "https://l");
    assert!(outcome.send.is_some());
}

#[test]
fn submitted_address_is_visited_and_refreshed_one_is_not() {
    let (mut session, mut ui) = start();
    ui.url = "a".to_string();
    handle_event(&mut session, &mut ui, BrowserEvent::SubmitUrl);
    assert_eq!(ui.url, "https://a");
    ui.url = "b".to_string();
    handle_event(&mut session, &mut ui, BrowserEvent::SubmitUrl);
    assert!(ui.can_go_back);
    let again = handle_event(&mut session, &mut ui, BrowserEvent::Refresh);
    assert_eq!(
        fetched(&again).unwrap(),
        r#"{"id":"3","type":"fetch","url":"https://b"}"#
    );
    handle_event(&mut session, &mut ui, BrowserEvent::GoBack);
    assert_eq!(ui.url, "https://a");
    assert!(!ui.can_go_back && ui.can_go_forward);
}

#[test]
fn back_then_forward_returns() {
    let (mut session, mut ui) = start();
    open(&mut session, &mut ui, "a");
    open(&mut session, &mut ui, "b");
    open(&mut session, &mut ui, "c");
    let back = handle_event(&mut session, &mut ui, BrowserEvent::GoBack);
    assert_eq!(ui.url, "https://b");
    assert!(ui.can_go_back && ui.can_go_forward);
    assert_eq!(
        fetched(&back).unwrap(),
        r#"{"id":"4","type":"fetch","url":"https://b"}"#
    );
    assert_eq!(back.navigate, None);
    handle_event(&mut session, &mut ui, BrowserEvent::GoForward);
    assert_eq!(ui.url, "https://c");
    assert!(ui.can_go_back && !ui.can_go_forward);
    let stuck = handle_event(&mut session, &mut ui, BrowserEvent::GoForward);
    assert!(stuck.send.is_none());
}

#[test]
fn forward_then_back_returns() {
    let (mut session, mut ui) = start();
    open(&mut session, &mut ui, "a");
    open(&mut session, &mut ui, "b");
    handle_event(&mut session, &mut ui, BrowserEvent::GoBack);
    let stuck = handle_event(&mut session, &mut ui, BrowserEvent::GoBack);
    assert!(stuck.send.is_none());
    assert_eq!(ui.url, "https://a");
    handle_event(&mut session, &mut ui, BrowserEvent::GoForward);
    handle_event(&mut session, &mut ui, BrowserEvent::GoBack);
    assert_eq!(ui.url, "https://a");
    assert!(!ui.can_go_back && ui.can_go_forward);
}

#[test]
fn new_visit_drops_what_lay_forward() {
    let (mut session, mut ui) = start();
    open(&mut session, &mut ui, "a");
    open(&mut session, &mut ui, "b");
    handle_event(&mut session, &mut ui, BrowserEvent::GoBack);
    open(&mut session, &mut ui, "c");
    assert!(!ui.can_go_forward);
    handle_event(&mut session, &mut ui, BrowserEvent::GoBack);
    assert_eq!(ui.url, "https://a");
    handle_event(&mut session, &mut ui, BrowserEvent::GoForward);
    assert_eq!(ui.url, "https://c");
}

#[test]
fn pairing_is_reported() {
    let (mut session, mut ui) = start();
    let mut status = |event: PairingEvent| {
        handle_event(&mut session, &mut ui, BrowserEvent::Pairing(event));
        ui.connection_status.clone()
    };
    assert_eq!(
        status(PairingEvent::PairingComplete { device_name: "Envoy".to_string(), new: true }),
        "Paired: Envoy (new)"
    );
    assert_eq!(
        status(PairingEvent::PairingComplete { device_name: "Envoy".to_string(), new: false }),
        "Paired: Envoy (existing)"
    );
    assert_eq!(status(PairingEvent::Disconnected), "Not paired");
    assert_eq!(status(PairingEvent::PairingFailed), "Pairing failed");
    assert_eq!(
        status(PairingEvent::RequestReceived),
        "Pairing request — approve on companion"
    );
}

#[test]
fn page_from_the_relay_is_shown() {
    let (mut session, mut ui) = start();
    let outcome =
        handle_event(&mut session, &mut ui, update("web-0", Some(page(200, "Title", "https://u", None))));
    assert!(outcome.send.is_none());
    assert_eq!(outcome.navigate, None);
    assert!(ui.relay_online);
    assert_eq!(ui.connection_status, "Relay connected");
    assert_eq!(ui.page_title, "Title");
    assert_eq!(ui.url, "https://u");
    assert_eq!(ui.error_text, "");
    assert_eq!(ui.status_line, "fetched via relay (HTTP 200)");
    assert_eq!(ui.blocks.len(), 2);
    assert_eq!(ui.blocks[1].kind, "link");
    assert_eq!(ui.blocks[1].href, "https://l");
    assert!(!ui.loading);
}

#[test]
fn failed_page_keeps_title_and_address() {
    let (mut session, mut ui) = start();
    handle_event(&mut session, &mut ui, update("web-0", Some(page(200, "Title", "https://u", None))));
    handle_event(&mut session, &mut ui, update("web-0", Some(page(0, "", "", Some("timeout")))));
    assert_eq!(ui.page_title, "Title");
    assert_eq!(ui.url, "https://u");
    assert_eq!(ui.error_text, "relay: timeout");
    assert_eq!(ui.status_line, "HTTP 0");
    handle_event(&mut session, &mut ui, update("web-0", Some(page(404, "N", "", None))));
    assert_eq!(ui.status_line, "HTTP 404");
    assert_eq!(ui.error_text, "");
}

#[test]
fn pushed_address_is_opened() {
    let (mut session, mut ui) = start();
    let outcome = handle_event(
        &mut session,
        &mut ui,
        update("web-0", Some(RelayEnvelope::OpenUrl { url: "bitcoin.org".to_string() })),
    );
    assert_eq!(outcome.navigate, Some(Screen::Browse));
    assert_eq!(
        fetched(&outcome).unwrap(),
        r#"{"id":"1","type":"fetch","url":"https://bitcoin.org"}"#
    );
    // The relay has been heard of, so no demo page is shown.
    assert_eq!(ui.page_title, "");
    assert_eq!(ui.status_line, "fetching…");
}

#[test]
fn unknown_envelope_still_counts_as_contact() {
    let (mut session, mut ui) = start();
    let outcome = handle_event(&mut session, &mut ui, update("web-0", None));
    assert!(outcome.send.is_none());
    assert!(ui.relay_online);
    open(&mut session, &mut ui, "example.com");
    assert_eq!(ui.page_title, "");
    assert_eq!(ui.status_line, "fetching…");
}

#[test]
fn other_channels_change_nothing() {
    let (mut session, mut ui) = start();
    let outcome =
        handle_event(&mut session, &mut ui, update("web-1", Some(page(200, "T", "u", None))));
    assert!(outcome.send.is_none());
    assert!(!ui.relay_online);
    assert_eq!(ui.connection_status, "Not connected");
    open(&mut session, &mut ui, "example.com");
    assert_eq!(ui.page_title, "Example Domain");
}
