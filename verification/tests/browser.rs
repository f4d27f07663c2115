use surf_bridge::browser::{
    normalize_url, push_history, render_blocks, request_page, send_envelope, set_error,
    set_status, set_url, sync_nav_state, AppWindow, Session, CHANNEL,
};
use surf_bridge::demo::demo_page;
use surf_bridge::page::Block;

fn window() -> AppWindow {
    AppWindow {
        url: String::new(),
        status_line: String::new(),
        error_text: String::new(),
        page_title: String::new(),
        connection_status: String::new(),
        blocks: vec![],
        loading: false,
        can_go_back: false,
        can_go_forward: false,
        relay_online: false,
    }
}

#[test]
fn normalize_url_prepends_https_to_bare_domains() {
    assert_eq!(normalize_url("example.com"), "https://example.com");
    assert_eq!(normalize_url("  example.com  "), "https://example.com");
    assert_eq!(normalize_url("https://example.com/"), "https://example.com/");
    assert_eq!(normalize_url("http://example.com/"), "http://example.com/");
    assert_eq!(normalize_url(""), "");
}

#[test]
fn normalize_url_trims_any_white_space() {
    assert_eq!(normalize_url("\t\u{a0}\u{3000} \n"), "");
    assert_eq!(normalize_url("\u{2003}a b\u{85}"), "https://a b");
    assert_eq!(normalize_url("\u{200b}a"), "https://\u{200b}a");
    assert_eq!(normalize_url("HTTP://a"), "https://HTTP://a");
    assert_eq!(normalize_url("ftp://a"), "https://ftp://a");
    assert_eq!(normalize_url("http://"), "http://");
}

#[test]
fn normalizing_twice_is_normalizing_once() {
    for raw in ["", "  ", "a", " http://b ", "https://c d ", "http:/e"] {
        let once = normalize_url(raw);
        assert_eq!(normalize_url(&once), once);
        assert!(once.is_empty() || once.starts_with("http://") || once.starts_with("https://"));
    }
}

#[test]
fn demo_pages_cover_quick_links() {
    // Every quick link on the home page has an offline demo page.
    assert!(demo_page("https://example.com/").is_some());
    assert!(demo_page("https://www.iana.org/domains/example").is_some());
    assert!(demo_page("https://bitcoin.org/").is_some());
    assert!(demo_page("https://github.com/OZARUMOTO/bluetooth-browser").is_some());
}

#[test]
fn demo_page_blocks_are_safe_kinds_only() {
    let (title, blocks) = demo_page("https://example.com/").unwrap();
    assert!(!title.is_empty());
    assert!(!blocks.is_empty());
    // Only the kinds the device renderer understands may appear.
    for b in &blocks {
        assert!(
            matches!(b.kind.as_str(), "heading" | "text" | "link" | "quote" | "code" | "separator"),
            "unexpected block kind: {}",
            b.kind
        );
        assert!(!b.text.is_empty());
        if b.kind == "link" {
            assert!(b.href.starts_with("https://"));
        }
    }
}

#[test]
fn unknown_urls_have_no_demo_page() {
    assert!(demo_page("https://mempool.space/").is_none());
}

#[test]
fn demo_page_contents_are_exact() {
    let (title, blocks) = demo_page("https://example.com").unwrap();
    assert_eq!(title, "Example Domain");
    assert_eq!(blocks.len(), 6);
    assert_eq!(blocks[3].kind, "link");
    assert_eq!(blocks[3].text, "More information…");
    assert_eq!(blocks[3].href, "https://www.iana.org/domains/example");
    assert_eq!(blocks[4].text, "──────");
    assert_eq!(blocks[4].href, "");

    let (title, blocks) = demo_page("https://www.iana.org/domains/example/x").unwrap();
    assert_eq!(title, "Example Domains | IANA");
    assert_eq!(blocks.len(), 7);
    assert_eq!(blocks[6].text, "[demo page — rendered on-device without the internet]");

    let (title, blocks) = demo_page("https://bitcoin.org/en/faq").unwrap();
    assert_eq!(title, "Bitcoin.org");
    assert_eq!(blocks[4].text, "FAQ");
    assert_eq!(blocks[4].href, "https://bitcoin.org/en/faq");

    let (title, blocks) = demo_page("https://github.com/OZARUMOTO/bluetooth-browser").unwrap();
    assert_eq!(title, "OZARUMOTO/bluetooth-browser");
    assert_eq!(blocks[0].text, "BLUETOOTH BROWSER");

    assert!(demo_page("http://example.com/").is_none());
    assert!(demo_page("https://www.iana.org/").is_none());
    assert!(demo_page("").is_none());
}

#[test]
fn blocks_are_made_and_rendered() {
    let heading = Block::text("heading", "Title");
    assert_eq!((heading.kind.as_str(), heading.text.as_str(), heading.href.as_str()), ("heading", "Title", ""));
    let link = Block::link("here", "https://a");
    assert_eq!((link.kind.as_str(), link.text.as_str(), link.href.as_str()), ("link", "here", "https://a"));
    let mut ui = window();
    render_blocks(&mut ui, &vec![heading, link]);
    assert_eq!(ui.blocks.len(), 2);
    assert_eq!(ui.blocks[1].href, "https://a");
    render_blocks(&mut ui, &vec![]);
    assert!(ui.blocks.is_empty());
}

#[test]
fn setters_change_one_field() {
    let mut ui = window();
    set_url(&mut ui, "u");
    set_status(&mut ui, "s");
    set_error(&mut ui, "e");
    assert_eq!((ui.url.as_str(), ui.status_line.as_str(), ui.error_text.as_str()), ("u", "s", "e"));
    assert!(!ui.can_go_back && !ui.can_go_forward && !ui.loading && !ui.relay_online);
    assert_eq!(ui.page_title, "");
}

#[test]
fn history_is_pushed_and_truncated() {
    let mut session = Session::new();
    let mut ui = window();
    sync_nav_state(&session, &mut ui);
    assert!(!ui.can_go_back && !ui.can_go_forward);
    push_history(&mut session, &mut ui, "a");
    assert!(!ui.can_go_back && !ui.can_go_forward);
    push_history(&mut session, &mut ui, "b");
    push_history(&mut session, &mut ui, "c");
    assert!(ui.can_go_back && !ui.can_go_forward);

    assert_eq!(session.step_back(), Some("b".to_string()));
    assert_eq!(session.step_back(), Some("a".to_string()));
    assert_eq!(session.step_back(), None);
    sync_nav_state(&session, &mut ui);
    assert!(!ui.can_go_back && ui.can_go_forward);
    assert_eq!(session.step_forward(), Some("b".to_string()));

    push_history(&mut session, &mut ui, "d");
    assert!(ui.can_go_back && !ui.can_go_forward);
    assert_eq!(session.step_forward(), None);
    assert_eq!(session.step_back(), Some("b".to_string()));
    assert_eq!(session.step_forward(), Some("d".to_string()));
}

#[test]
fn fetch_envelope_is_exact() {
    let mut session = Session::new();
    let mut ui = window();
    let update = request_page(&mut session, &mut ui, "example.com", true).unwrap();
    assert_eq!(update.account_id, "web-0");
    assert_eq!(update.account_id, CHANNEL);
    assert_eq!(
        String::from_utf8(update.update).unwrap(),
        r#"{"id":"1","type":"fetch","url":"https://example.com"}"#
    );
    assert_eq!(session.last_fetch(), 1);
}

#[test]
fn fetch_ids_count_up_in_decimal() {
    let mut session = Session::new();
    let mut ui = window();
    for n in 1..=12u64 {
        let update = request_page(&mut session, &mut ui, "http://a", n % 2 == 0).unwrap();
        let text = String::from_utf8(update.update).unwrap();
        assert_eq!(text, format!("{{\"id\":\"{}\",\"type\":\"fetch\",\"url\":\"http://a\"}}", n));
    }
    assert_eq!(session.last_fetch(), 12);
}

#[test]
fn envelopes_are_escaped_onto_one_line() {
    let update = send_envelope(vec![("url".to_string(), "https://a\n\"\\\u{1}é".to_string())]);
    assert_eq!(
        String::from_utf8(update.update).unwrap(),
        "{\"url\":\"https://a\\n\\\"\\\\\\u0001é\"}"
    );
}

#[test]
fn later_member_of_a_name_takes_the_place_of_the_earlier() {
    let update = send_envelope(vec![
        ("b".to_string(), "1".to_string()),
        ("a".to_string(), "2".to_string()),
        ("b".to_string(), "3".to_string()),
    ]);
    assert_eq!(String::from_utf8(update.update).unwrap(), r#"{"a":"2","b":"3"}"#);
}

#[test]
fn demo_page_is_shown_while_no_relay_was_heard_of() {
    let mut session = Session::new();
    let mut ui = window();
    ui.error_text = "old".to_string();
    request_page(&mut session, &mut ui, " bitcoin.org ", true);
    assert_eq!(ui.url, "https://bitcoin.org");
    assert_eq!(ui.error_text, "");
    assert_eq!(ui.page_title, "Bitcoin.org");
    assert_eq!(ui.blocks.len(), 7);
    assert_eq!(ui.status_line, "demo content — connect surf-relay for live web");
    assert!(!ui.loading && !ui.can_go_back);

    request_page(&mut session, &mut ui, "mempool.space", true);
    assert_eq!(ui.page_title, "Bitcoin.org");
    assert!(ui.blocks.is_empty());
    assert_eq!(ui.status_line, "fetching…");
    assert!(ui.can_go_back);
}

#[test]
fn no_demo_page_is_shown_beside_a_relay() {
    let mut session = Session::new();
    let mut ui = window();
    session.contact_relay();
    ui.page_title = "kept".to_string();
    ui.blocks = vec![Block::text("text", "kept")];
    request_page(&mut session, &mut ui, "bitcoin.org", true);
    assert_eq!(ui.page_title, "kept");
    assert_eq!(ui.blocks.len(), 1);
    assert_eq!(ui.status_line, "fetching…");
}

#[test]
fn blank_address_asks_for_nothing() {
    let mut session = Session::new();
    let mut ui = window();
    ui.error_text = "old".to_string();
    assert!(request_page(&mut session, &mut ui, " \t ", true).is_none());
    assert_eq!(session.last_fetch(), 0);
    assert_eq!(ui.error_text, "old");
    assert_eq!(ui.status_line, "");
}
