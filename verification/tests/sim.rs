use std::time::Duration;
use surf_bridge::cli::{expand_tilde, ExpandedPath};
use surf_bridge::identity::Identity;
use surf_bridge::ql::{AccountUpdate, QuantumLinkMessage};
use surf_bridge::router::{BridgeRouter, Dechunked, RouteError, Step};
use surf_bridge::sim::{check_reply, collect_reply, device_message, SimVerdict};

fn reply(account_id: &str, update: &str) -> Option<QuantumLinkMessage> {
    Some(QuantumLinkMessage::AccountUpdate(AccountUpdate {
        account_id: account_id.to_string(),
        update: update.as_bytes().to_vec(),
    }))
}

#[test]
fn simulated_device_asks_for_the_example_page() {
    let message = device_message();
    assert_eq!(message.status.version, "0.1.0");
    assert_eq!(message.status.battery_level, 88);
    assert_eq!(message.protocol_version, Some(1));
    match message.message {
        QuantumLinkMessage::AccountUpdate(update) => {
            assert_eq!(update.account_id, "web-0");
            assert_eq!(
                update.update,
                br#"{"type":"fetch","id":"1","url":"https://example.com/"}"#.to_vec()
            );
        }
        other => panic!("unexpected message {other:?}"),
    }
}

#[test]
fn self_test_succeeds_on_the_page_alone() {
    let page = "{\"title\": \"Example Domain\", \"status\": 200}";
    assert_eq!(check_reply(reply("web-0", page)), SimVerdict::GotPage);
    assert_eq!(check_reply(reply("web-0", "Example Domain")), SimVerdict::WrongPage);
    assert_eq!(
        check_reply(reply("web-0", "Example Domain \"status\":200")),
        SimVerdict::WrongPage
    );
    assert_eq!(check_reply(reply("web-0", "")), SimVerdict::WrongPage);
    assert_eq!(check_reply(reply("web-1", page)), SimVerdict::NoPage);
    assert_eq!(check_reply(Some(QuantumLinkMessage::Heartbeat)), SimVerdict::NoPage);
    assert_eq!(check_reply(None), SimVerdict::NoPage);
}

#[test]
fn page_is_found_among_bytes_that_are_no_text() {
    let mut update = vec![0xff, 0xc3];
    update.extend_from_slice(b"Example Domain");
    update.push(0xe2);
    update.extend_from_slice(b"\"status\": 200");
    let message = QuantumLinkMessage::AccountUpdate(AccountUpdate {
        account_id: "web-0".to_string(),
        update,
    });
    assert_eq!(check_reply(Some(message)), SimVerdict::GotPage);
}

#[test]
fn last_complete_reply_counts() {
    assert_eq!(collect_reply(&vec![]), Ok(None));
    assert_eq!(
        collect_reply(&vec![Dechunked::Incomplete, Dechunked::Complete(vec![1])]),
        Ok(Some(vec![1]))
    );
    assert_eq!(
        collect_reply(&vec![
            Dechunked::Complete(vec![1]),
            Dechunked::Complete(vec![2]),
            Dechunked::Incomplete
        ]),
        Ok(Some(vec![2]))
    );
    assert_eq!(
        collect_reply(&vec![Dechunked::Complete(vec![1]), Dechunked::BadChunk, Dechunked::Incomplete]),
        Err(RouteError::BadChunk)
    );
}

#[test]
fn simulated_fetch_comes_back_as_the_page() {
    let router = BridgeRouter::new(
        Identity { encoded: vec![], xid_document: vec![] },
        "127.0.0.1:8787",
        Duration::from_secs(1),
    );
    let reply_to = match router.route(device_message(), vec![4], Some(1), 1) {
        Step::Exchange { reply_to, .. } => reply_to,
        other => panic!("unexpected step {other:?}"),
    };
    let line = b"{\"title\": \"Example Domain\", \"status\": 200}\n".to_vec();
    match router.on_reply(Ok(line), reply_to, Some(2)) {
        Step::Send(outgoing) => {
            assert_eq!(outgoing.recipient, vec![4]);
            assert_eq!(check_reply(Some(outgoing.message.message)), SimVerdict::GotPage);
        }
        other => panic!("unexpected step {other:?}"),
    }
}

#[test]
fn tilde_stands_for_the_home_directory() {
    match expand_tilde("~/.surf-bridge", Some("/home/me")) {
        ExpandedPath::UnderHome { home, rest } => {
            assert_eq!(home, "/home/me");
            assert_eq!(rest, ".surf-bridge");
        }
        other => panic!("unexpected path {other:?}"),
    }
    for (p, home) in [("~/x", None), ("~", Some("/h")), ("~x/y", Some("/h")), ("/a/~/b", Some("/h")), ("", None)] {
        match expand_tilde(p, home) {
            ExpandedPath::AsGiven { path } => assert_eq!(path, p),
            other => panic!("unexpected path {other:?}"),
        }
    }
}
