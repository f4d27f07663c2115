use dcbor::CBOREncodable;
use std::time::Duration;
use surf_bridge::identity::{BridgeState, Identity};
use surf_bridge::ql::{
    message_timestamp, new_envoy_message, read_envelope, unseal_passport, unseal_reading,
    AccountUpdate, DeviceStatus, EnvelopeReading, EnvoyMessage, PairingRequest, PassportColor,
    PassportMessage, PassportModel, QuantumLinkMessage, UnsealError, WEB0_CHANNEL,
};
use surf_bridge::relay::RelayError;
use surf_bridge::router::{BridgeRouter, Dechunked, RouteError, Step};

const SENDER: [u8; 3] = [7, 8, 9];

fn router() -> BridgeRouter {
    BridgeRouter::new(
        Identity { encoded: vec![1], xid_document: vec![2, 3] },
        "127.0.0.1:8787",
        Duration::from_secs(30),
    )
}

fn passport(message: QuantumLinkMessage) -> PassportMessage {
    PassportMessage {
        message,
        status: DeviceStatus { version: "0.1.0".to_string(), battery_level: 88 },
        protocol_version: Some(1),
    }
}

fn web(account_id: &str, update: &[u8]) -> QuantumLinkMessage {
    QuantumLinkMessage::AccountUpdate(AccountUpdate {
        account_id: account_id.to_string(),
        update: update.to_vec(),
    })
}

fn route(message: QuantumLinkMessage) -> Step {
    router().route(passport(message), SENDER.to_vec(), Some(1_700_000_000), 4)
}

fn sent(step: Step) -> (EnvoyMessage, Vec<u8>) {
    match step {
        Step::Send(outgoing) => (outgoing.message, outgoing.recipient),
        other => panic!("expected a message to send, got {other:?}"),
    }
}

/// The device reads our XID and name out of the request that was sealed to it.
#[test]
fn pairing_request_is_unsealable_by_device() {
    let bridge = bc_xid::XIDDocument::default();
    let device = bc_xid::XIDDocument::default();
    let router = BridgeRouter::new(
        Identity { encoded: vec![], xid_document: bridge.to_cbor_data() },
        "127.0.0.1:1",
        Duration::from_millis(100),
    );
    let device_xid = device.to_cbor_data();
    let request = router.build_pairing_request(&device_xid, "surf-bridge", Some(5), 4);
    assert_eq!(request.recipient, device_xid);
    assert_eq!(request.message.timestamp, 5);
    assert_eq!(request.message.protocol_version, Some(4));
    let req = match request.message.message {
        QuantumLinkMessage::PairingRequest(req) => req,
        other => panic!("expected PairingRequest, got {other:?}"),
    };

    let recipient = dcbor::CBOR::try_from_data(&request.recipient).unwrap();
    let recipient = bc_xid::XIDDocument::try_from(recipient).unwrap();
    let sealed = bc_envelope::Envelope::new(req.device_name)
        .add_assertion("xid", dcbor::CBOR::to_byte_string(&req.xid_document))
        .seal(
            bridge.inception_private_keys().unwrap(),
            recipient.inception_key().unwrap().public_keys(),
        );
    let opened = sealed
        .unseal(
            bridge.inception_signing_key().unwrap(),
            device.inception_private_keys().unwrap(),
        )
        .unwrap();
    assert_eq!(opened.extract_subject::<String>().unwrap(), "surf-bridge");
    let xid = opened.extract_object_for_predicate::<dcbor::ByteString>("xid").unwrap();
    let xid_cbor = dcbor::CBOR::try_from_data(xid.data()).unwrap();
    let xid = bc_xid::XIDDocument::try_from(xid_cbor).unwrap();
    assert_eq!(xid.to_cbor_data(), bridge.to_cbor_data());
}

#[test]
fn frames_are_waited_for_and_put_together() {
    assert!(matches!(router().on_frame(Dechunked::Incomplete), Step::Idle));
    assert!(matches!(
        router().on_frame(Dechunked::BadChunk),
        Step::Fail(RouteError::BadChunk)
    ));
    let envelope = bc_envelope::Envelope::new("sealed").to_cbor_data();
    match router().on_frame(Dechunked::Complete(envelope.clone())) {
        Step::Unseal { envelope_cbor } => assert_eq!(envelope_cbor, envelope),
        other => panic!("unexpected step {other:?}"),
    }
}

#[test]
fn bytes_that_are_no_envelope_are_not_opened() {
    assert!(matches!(
        router().on_frame(Dechunked::Complete(vec![0xff])),
        Step::Fail(RouteError::Unseal(UnsealError::InvalidCbor))
    ));
    assert!(matches!(
        router().on_frame(Dechunked::Complete(vec![0x81; 100_000])),
        Step::Fail(RouteError::Unseal(UnsealError::InvalidCbor))
    ));
    assert!(matches!(
        router().on_frame(Dechunked::Complete(vec![0x01])),
        Step::Fail(RouteError::Unseal(UnsealError::InvalidEnvelope))
    ));
}

#[test]
fn seal_dechunk_unseal_round_trip() {
    // The device sends an AccountUpdate on web-0 (a fetch envelope).
    let fetch = br#"{"type":"fetch","id":"1","url":"https://example.com/"}"#;
    let bridge_keys = bc_xid::XIDDocument::default();
    let device_keys = bc_xid::XIDDocument::default();
    let device = device_keys.to_cbor_data();
    let device_message = passport(web(WEB0_CHANNEL, fetch));
    // Device seals to the bridge.
    let sealed = bc_envelope::Envelope::new(dcbor::CBOR::to_byte_string(fetch))
        .seal(
            device_keys.inception_private_keys().unwrap(),
            bridge_keys.inception_key().unwrap().public_keys(),
        )
        .to_cbor_data();

    // The reassembled envelope, opened with the keys of the bridge.
    let reassembled = match router().on_frame(Dechunked::Complete(sealed)) {
        Step::Unseal { envelope_cbor } => envelope_cbor,
        other => panic!("dechunker must reassemble, got {other:?}"),
    };
    let (msg, sender) =
        unseal_passport(&reassembled, Some((device_message, device.clone()))).expect("unseal ok");
    assert_eq!(sender, device, "sender XID is the device");
    assert_eq!(msg.status.version, "0.1.0");
    assert_eq!(msg.status.battery_level, 88);
    match msg.message {
        QuantumLinkMessage::AccountUpdate(update) => {
            assert_eq!(update.account_id, WEB0_CHANNEL);
            assert_eq!(
                update.update,
                br#"{"type":"fetch","id":"1","url":"https://example.com/"}"#.to_vec()
            );
        }
        other => panic!("unexpected message: {other:?}"),
    }

    // Where the keys refuse to open the envelope again, that refusal, given as
    // `None`, is handed on.
    let replay = unseal_passport(&reassembled, None);
    assert!(replay.is_err(), "replay must be rejected");
    assert_eq!(replay.err(), Some(UnsealError::UnsealFailed));
}

#[test]
fn web0_envelope_goes_to_the_relay_and_back() {
    let fetch = br#"{"type":"fetch","id":"1","url":"https://example.com/"}"#;
    let reply_to = match route(web(WEB0_CHANNEL, fetch)) {
        Step::Exchange { relay_addr, timeout, envelope, reply_to } => {
            assert_eq!(relay_addr, "127.0.0.1:8787");
            assert_eq!(timeout, Duration::from_secs(30));
            assert_eq!(envelope, fetch.to_vec());
            reply_to
        }
        other => panic!("unexpected step {other:?}"),
    };
    assert_eq!(reply_to, SENDER.to_vec());
    let step = router().on_reply(Ok(b"{\"type\":\"page\"}\n".to_vec()), reply_to, Some(9));
    let (message, recipient) = sent(step);
    assert_eq!(recipient, SENDER.to_vec());
    assert_eq!(message.timestamp, 9);
    assert_eq!(message.protocol_version, Some(1));
    match message.message {
        QuantumLinkMessage::AccountUpdate(update) => {
            assert_eq!(update.account_id, "web-0");
            assert_eq!(update.update, b"{\"type\":\"page\"}".to_vec());
        }
        other => panic!("unexpected message {other:?}"),
    }
}

#[test]
fn other_channels_are_ignored() {
    assert!(matches!(route(web("btc-0", b"{}")), Step::Idle));
    assert!(matches!(route(web("WEB-0", b"{}")), Step::Idle));
    assert!(matches!(route(QuantumLinkMessage::Other), Step::Idle));
}

#[test]
fn pairing_request_is_accepted() {
    let (message, recipient) = sent(route(QuantumLinkMessage::PairingRequest(PairingRequest {
        xid_document: vec![],
        device_name: "Passport".to_string(),
    })));
    assert_eq!(recipient, SENDER.to_vec());
    assert_eq!(message.timestamp, 1_700_000_000);
    assert_eq!(message.protocol_version, Some(4));
    match message.message {
        QuantumLinkMessage::PairingResponse(response) => {
            assert_eq!(response.passport_model, PassportModel::Prime);
            assert_eq!(response.passport_firmware_version, "");
            assert_eq!(response.passport_serial, "");
            assert_eq!(response.passport_color, PassportColor::Dark);
            assert!(!response.onboarding_complete);
            assert_eq!(response.device_name, Some("surf-bridge".to_string()));
        }
        other => panic!("unexpected message {other:?}"),
    }
}

#[test]
fn heartbeat_is_echoed_and_a_pairing_response_is_not() {
    let (message, recipient) = sent(route(QuantumLinkMessage::Heartbeat));
    assert!(matches!(message.message, QuantumLinkMessage::Heartbeat));
    assert_eq!(recipient, SENDER.to_vec());
    let (response, _) = sent(route(QuantumLinkMessage::PairingRequest(PairingRequest {
        xid_document: vec![],
        device_name: String::new(),
    })));
    assert!(matches!(route(response.message), Step::Idle));
}

#[test]
fn failed_exchange_sends_nothing() {
    for e in [
        RelayError::Connect,
        RelayError::SetTimeout,
        RelayError::Write,
        RelayError::Read,
        RelayError::Closed,
    ] {
        match router().on_reply(Err(e), SENDER.to_vec(), Some(1)) {
            Step::Fail(RouteError::Relay(got)) => assert_eq!(got, e),
            other => panic!("unexpected step {other:?}"),
        }
    }
    assert!(matches!(
        router().on_reply(Ok(vec![]), SENDER.to_vec(), Some(1)),
        Step::Fail(RouteError::Relay(RelayError::Closed))
    ));
}

#[test]
fn envelope_is_checked_before_it_is_opened() {
    let opened = || Some((passport(QuantumLinkMessage::Heartbeat), SENDER.to_vec()));
    let envelope = bc_envelope::Envelope::new("sealed").to_cbor_data();
    assert_eq!(unseal_passport(&vec![0xff], opened()).err(), Some(UnsealError::InvalidCbor));
    assert_eq!(unseal_passport(&vec![0x01], opened()).err(), Some(UnsealError::InvalidEnvelope));
    assert_eq!(unseal_passport(&envelope, None).err(), Some(UnsealError::UnsealFailed));
    let (message, sender) = unseal_passport(&envelope, opened()).unwrap();
    assert!(matches!(message.message, QuantumLinkMessage::Heartbeat));
    assert_eq!(sender, SENDER.to_vec());
}

#[test]
fn opened_envelope_is_routed() {
    let envelope = bc_envelope::Envelope::new("sealed").to_cbor_data();
    let step = router().on_envelope(
        &envelope,
        Some((passport(web("web-0", b"{}")), SENDER.to_vec())),
        None,
        4,
    );
    assert!(matches!(step, Step::Exchange { .. }));
    assert!(matches!(
        router().on_envelope(&envelope, None, None, 4),
        Step::Fail(RouteError::Unseal(UnsealError::UnsealFailed))
    ));
    assert!(matches!(
        router().on_envelope(&vec![], None, None, 4),
        Step::Fail(RouteError::Unseal(UnsealError::InvalidCbor))
    ));
}

#[test]
fn timestamps_are_seconds_modulo_the_word() {
    assert_eq!(message_timestamp(None), 0);
    assert_eq!(message_timestamp(Some(1_700_000_000)), 1_700_000_000);
    assert_eq!(message_timestamp(Some(0x1_0000_0005)), 5);
    let message = new_envoy_message(QuantumLinkMessage::Heartbeat, Some(3), 7);
    assert_eq!(message.timestamp, 3);
    assert_eq!(message.protocol_version, Some(7));
}

#[test]
fn router_of_a_stored_state_presents_its_identity() {
    let state = BridgeState::new(Identity { encoded: vec![1], xid_document: vec![5, 5] });
    let router = BridgeRouter::new(state.identity.clone(), "a:1", Duration::from_secs(1));
    match router.build_pairing_request(&vec![], "n", None, 1).message.message {
        QuantumLinkMessage::PairingRequest(req) => assert_eq!(req.xid_document, vec![5, 5]),
        other => panic!("unexpected message {other:?}"),
    }
}

#[test]
fn envelopes_are_told_from_other_bytes() {
    let envelope = bc_envelope::Envelope::new("sealed").to_cbor_data();
    assert_eq!(read_envelope(&envelope), EnvelopeReading::Envelope);
    assert_eq!(read_envelope(&vec![0xf6]), EnvelopeReading::NotEnvelope);
    assert_eq!(read_envelope(&vec![]), EnvelopeReading::NotCbor);
    let opened = || Some((passport(QuantumLinkMessage::Other), SENDER.to_vec()));
    assert_eq!(
        unseal_reading(EnvelopeReading::NotCbor, opened()).err(),
        Some(UnsealError::InvalidCbor)
    );
    assert_eq!(
        unseal_reading(EnvelopeReading::NotEnvelope, opened()).err(),
        Some(UnsealError::InvalidEnvelope)
    );
    assert_eq!(
        unseal_reading(EnvelopeReading::Envelope, None).err(),
        Some(UnsealError::UnsealFailed)
    );
    assert!(unseal_reading(EnvelopeReading::Envelope, opened()).is_ok());
}
