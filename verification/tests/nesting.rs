use dcbor::CBOREncodable;
use surf_bridge::identity::{
    BridgeState, Identity, PairError, StateError, StateParts, XidReading,
};
use surf_bridge::nesting::{
    has_paired_keys, is_flat, is_packed_shallow, is_shallow, CBOR_LEVEL_KIB, DOCUMENT_LEVEL_KIB,
    MAX_DOCUMENT_NESTING, MAX_NESTING,
};
use surf_bridge::ql::{read_envelope, EnvelopeReading};
use surf_bridge::storage::Stored;

fn some_identity() -> Identity {
    Identity { encoded: vec![1, 2], xid_document: vec![3] }
}

/// A number inside `levels` arrays.
fn arrays(levels: usize) -> Vec<u8> {
    let mut data = vec![0x81; levels];
    data.push(0x01);
    data
}

fn is_one_item(data: &Vec<u8>) -> bool {
    is_shallow(data, CBOR_LEVEL_KIB)
}

/// An envelope inside `levels` envelopes.
fn wrapped(levels: usize) -> bc_envelope::Envelope {
    let mut envelope = bc_envelope::Envelope::new(1);
    for _ in 0..levels {
        envelope = envelope.wrap();
    }
    envelope
}

/// A document with the given assertions.
fn document(assertions: Vec<dcbor::CBOR>) -> Vec<u8> {
    let mut items: Vec<dcbor::CBOR> = vec![tag(201, tag(40024, bytes(vec![7; 32])))];
    items.extend(assertions);
    tag(40024, tag(200, items.into())).to_cbor_data()
}

fn tag(number: u64, item: dcbor::CBOR) -> dcbor::CBOR {
    dcbor::CBOR::to_tagged_value(number, item)
}

fn bytes(content: Vec<u8>) -> dcbor::CBOR {
    dcbor::CBOR::to_byte_string(content)
}

/// The assertion with the given predicate and object.
fn claim(predicate: dcbor::CBOR, object: dcbor::CBOR) -> dcbor::CBOR {
    let mut map = dcbor::Map::new();
    map.insert(predicate, object);
    map.into()
}

/// A node whose subject is a node.
fn node_of_node() -> dcbor::CBOR {
    let inner: Vec<dcbor::CBOR> = vec![claim(701.into(), 0.into()), claim(0.into(), 0.into())];
    vec![dcbor::CBOR::from(inner), claim(0.into(), 0.into())].into()
}

/// An encrypted message with the given additional data.
fn encrypted(aad: Vec<u8>) -> dcbor::CBOR {
    let items: Vec<dcbor::CBOR> =
        vec![bytes(vec![0x81; 5000]), bytes(vec![0; 12]), bytes(vec![0; 16]), bytes(aad)];
    tag(40002, items.into())
}

fn mark(len: usize) -> Vec<u8> {
    let items: Vec<dcbor::CBOR> = vec![0.into(), bytes(vec![0; len])];
    tag(1347571542, items.into()).to_cbor_data()
}

/// A document with a private signing key made of the given items.
fn document_with_signing_key(items: Vec<dcbor::CBOR>) -> Vec<u8> {
    let public: Vec<dcbor::CBOR> =
        vec![tag(40022, bytes(vec![1; 32])), tag(40011, bytes(vec![2; 32]))];
    let private: Vec<dcbor::CBOR> = vec![tag(40021, items.into()), 0.into()];
    let private_key: Vec<dcbor::CBOR> = vec![
        claim(65.into(), tag(201, tag(40013, private.into()))),
        claim(15.into(), tag(201, tag(40018, bytes(vec![3; 16])))),
    ];
    let key: Vec<dcbor::CBOR> =
        vec![tag(201, tag(40017, public.into())), dcbor::CBOR::from(private_key)];
    document(vec![claim(8.into(), key.into())])
}

#[test]
fn depth_is_counted_from_the_heads() {
    assert_eq!(MAX_NESTING, 358);
    assert_eq!(MAX_DOCUMENT_NESTING, 179);
    for (level, max) in
        [(CBOR_LEVEL_KIB, MAX_NESTING as usize), (DOCUMENT_LEVEL_KIB, MAX_DOCUMENT_NESTING as usize)]
    {
        assert!(is_shallow(&arrays(0), level));
        assert!(is_shallow(&arrays(max - 1), level));
        assert!(!is_shallow(&arrays(max), level));
        assert!(!is_shallow(&arrays(1_000_000), level));
        assert!(!is_shallow(&vec![0xc1; 1_000_000], level));
        assert!(!is_shallow(&vec![0xa1; 1_000_000], level));
        // Siblings do not count.
        let mut wide = vec![0x99, 0x03, 0xe8];
        wide.extend_from_slice(&[0x80; 1000]);
        assert!(is_shallow(&wide, level));
    }
    assert!(!is_shallow(&arrays(0), 0));
}

#[test]
fn data_has_to_be_one_whole_item() {
    assert!(!is_one_item(&vec![]));
    assert!(!is_one_item(&vec![0x01, 0x01]));
    assert!(!is_one_item(&vec![0x82, 0x01]));
    assert!(!is_one_item(&vec![0x42, 0x01]));
    assert!(!is_one_item(&vec![0x19, 0x01]));
    assert!(!is_one_item(&vec![0x1c]));
    assert!(!is_one_item(&vec![0x9b, 0xff, 0xff, 0xff, 0xff, 0xff, 0xff, 0xff, 0xff, 0x01]));
    assert!(!is_one_item(&vec![0xbb, 0xff, 0xff, 0xff, 0xff, 0xff, 0xff, 0xff, 0xff, 0x01]));
    assert!(!is_one_item(&vec![0x5b, 0xff, 0xff, 0xff, 0xff, 0xff, 0xff, 0xff, 0xff, 0x01]));
    assert!(is_one_item(&vec![0x42, 0x01, 0x02]));
    assert!(is_one_item(&vec![0x62, 0x61, 0x62]));
    assert!(is_one_item(&vec![0xa1, 0x01, 0x82, 0x02, 0x03]));
    assert!(is_one_item(&vec![0xfb, 0x3f, 0xf1, 0x99, 0x99, 0x99, 0x99, 0x99, 0x9a]));
}

#[test]
fn looked_up_assertions_are_flat() {
    let mut state = BridgeState::new(some_identity());
    // As an assertion of a document, a key, an attachment, or a delegate or the
    // document in it, and where the predicate is hidden.
    let hidden = bytes(vec![9; 32]);
    let holder: dcbor::CBOR = vec![dcbor::CBOR::from(0), node_of_node()].into();
    let inner: dcbor::CBOR =
        vec![tag(201, tag(40024, bytes(vec![7; 32]))), node_of_node()].into();
    for assertion in [
        node_of_node(),
        claim(8.into(), holder.clone()),
        claim(50.into(), holder.clone()),
        claim(63.into(), holder.clone()),
        claim(63.into(), tag(200, inner.clone())),
        claim(64.into(), holder.clone()),
        claim(65.into(), holder.clone()),
        claim(68.into(), holder.clone()),
        claim(hidden, holder.clone()),
    ] {
        let data = document(vec![assertion]);
        assert!(!is_flat(&data));
        assert_eq!(state.pair_device(&hex::encode(&data)), Err(PairError::InvalidXid));
    }
    assert_eq!(state.device_xid, None);
}

#[test]
fn other_nodes_need_not_be_flat() {
    let mut state = BridgeState::new(some_identity());
    let holder: dcbor::CBOR = vec![dcbor::CBOR::from(0), node_of_node()].into();
    for (predicate, object) in [
        (dcbor::CBOR::from(4), node_of_node()),
        (dcbor::CBOR::from(4), holder.clone()),
        (tag(201, "note".into()), node_of_node()),
        (tag(201, "note".into()), holder.clone()),
        (dcbor::CBOR::from(701), holder.clone()),
    ] {
        let data = document(vec![claim(predicate, object)]);
        assert!(is_flat(&data));
        assert_eq!(state.pair_device(&hex::encode(&data)), Ok(()));
        assert_eq!(state.device_xid, Some(data));
    }
    // The payload of an attachment, and what a leaf holds.
    let payload: dcbor::CBOR = vec![
        tag(200, holder),
        claim(51.into(), tag(201, "vendor".into())),
    ]
    .into();
    assert!(is_flat(&document(vec![claim(50.into(), payload)])));
    assert!(is_flat(&document(vec![claim(8.into(), tag(201, node_of_node()))])));
}

#[test]
fn signed_documents_are_read_inside() {
    let plain: dcbor::CBOR =
        vec![tag(201, tag(40024, bytes(vec![7; 32]))), claim(4.into(), 0.into())].into();
    let broken: dcbor::CBOR =
        vec![tag(201, tag(40024, bytes(vec![7; 32]))), node_of_node()].into();
    let signed = |inner: &dcbor::CBOR, assertion: dcbor::CBOR| -> Vec<u8> {
        let items: Vec<dcbor::CBOR> = vec![tag(200, inner.clone()), assertion];
        tag(40024, tag(200, items.into())).to_cbor_data()
    };
    let mut state = BridgeState::new(some_identity());
    let good = signed(&plain, node_of_node());
    assert!(is_flat(&good));
    assert_eq!(state.pair_device(&hex::encode(&good)), Ok(()));
    let bad = signed(&broken, claim(3.into(), 0.into()));
    assert!(!is_flat(&bad));
    assert_eq!(state.pair_device(&hex::encode(&bad)), Err(PairError::InvalidXid));
    let bare = tag(40024, tag(200, tag(200, broken))).to_cbor_data();
    assert!(!is_flat(&bare));
    assert_eq!(state.pair_device(&hex::encode(&bare)), Err(PairError::InvalidXid));
}

#[test]
fn packed_cbor_is_walked() {
    let max = MAX_NESTING as usize;
    // A tag, an array and the string stand round what is packed.
    assert!(is_packed_shallow(&encrypted(arrays(max - 4)).to_cbor_data(), CBOR_LEVEL_KIB));
    assert!(!is_packed_shallow(&encrypted(arrays(max - 3)).to_cbor_data(), CBOR_LEVEL_KIB));
    // Length alone does not matter, nor does what is no CBOR.
    let mut long = vec![0x99, 0x03, 0xe8];
    long.extend_from_slice(&[0x80; 1000]);
    assert!(is_packed_shallow(&encrypted(long).to_cbor_data(), CBOR_LEVEL_KIB));
    assert!(is_packed_shallow(&encrypted(vec![0xff; 1000]).to_cbor_data(), CBOR_LEVEL_KIB));
    assert!(is_packed_shallow(&encrypted(vec![]).to_cbor_data(), CBOR_LEVEL_KIB));
    // Under another tag nothing is read.
    let other: Vec<dcbor::CBOR> = vec![0.into(), bytes(vec![0x81; 5000])];
    assert!(is_packed_shallow(&tag(40003, other.into()).to_cbor_data(), CBOR_LEVEL_KIB));
}

#[test]
fn enciphered_cbor_is_as_short_as_the_stack_is() {
    assert!(is_packed_shallow(&mark(355), CBOR_LEVEL_KIB));
    assert!(!is_packed_shallow(&mark(356), CBOR_LEVEL_KIB));
    assert!(is_packed_shallow(&mark(352), DOCUMENT_LEVEL_KIB));
    assert!(!is_packed_shallow(&mark(353), DOCUMENT_LEVEL_KIB));
}

#[test]
fn document_with_a_provenance_mark_is_read() {
    let marked = |info: dcbor::CBOR| -> Vec<u8> {
        bc_xid::XIDDocument::new(
            bc_xid::XIDInceptionKeyOptions::Default,
            bc_xid::XIDGenesisMarkOptions::Passphrase("secret".to_string(), None, None, Some(info)),
        )
        .to_cbor_data()
    };
    let mut nested = dcbor::CBOR::from(1);
    for _ in 0..200 {
        nested = vec![nested].into();
    }
    for info in [dcbor::CBOR::from("i".repeat(200)), nested] {
        let mut state = BridgeState::new(some_identity());
        assert_eq!(state.pair_device(&hex::encode(marked(info))), Ok(()));
        assert!(state.device_xid.is_some());
    }
    let mut state = BridgeState::new(some_identity());
    assert_eq!(
        state.pair_device(&hex::encode(marked(dcbor::CBOR::from("i".repeat(400))))),
        Err(PairError::InvalidXid)
    );
}

#[test]
fn signing_key_that_is_no_pair_is_no_document() {
    let short: [Vec<dcbor::CBOR>; 3] = [vec![], vec![1.into()], vec![2.into()]];
    for items in short {
        let data = document_with_signing_key(items);
        assert!(!has_paired_keys(&data));
        let mut state = BridgeState::new(some_identity());
        assert_eq!(state.pair_device(&hex::encode(&data)), Err(PairError::InvalidXid));
        assert_eq!(state.device_xid, None);
        let stored = BridgeState { identity: some_identity(), device_xid: Some(data) };
        assert_eq!(
            BridgeState::from_bytes(&stored.to_bytes(), Some(some_identity())).err(),
            Some(StateError::InvalidDeviceXid)
        );
    }
    // Two items are enough to be read, if not to be a key.
    let pair = document_with_signing_key(vec![1.into(), 1.into()]);
    assert!(has_paired_keys(&pair));
    let mut state = BridgeState::new(some_identity());
    assert_eq!(state.pair_device(&hex::encode(&pair)), Err(PairError::InvalidXid));
    // Another array may be short.
    assert!(has_paired_keys(&tag(40022, Vec::<dcbor::CBOR>::new().into()).to_cbor_data()));
    assert!(has_paired_keys(&tag(40021, bytes(vec![1; 32])).to_cbor_data()));
}

#[test]
fn real_documents_and_envelopes_have_a_shape_that_is_read() {
    let xid = bc_xid::XIDDocument::default().to_cbor_data();
    assert!(is_shallow(&xid, DOCUMENT_LEVEL_KIB) && is_packed_shallow(&xid, DOCUMENT_LEVEL_KIB));
    assert!(is_flat(&xid) && has_paired_keys(&xid));
    let sender = bc_xid::XIDDocument::default();
    let recipient = bc_xid::XIDDocument::default();
    let sealed = bc_envelope::Envelope::new("message")
        .seal(
            sender.inception_private_keys().unwrap(),
            recipient.inception_key().unwrap().public_keys(),
        )
        .to_cbor_data();
    assert!(is_shallow(&sealed, CBOR_LEVEL_KIB) && is_packed_shallow(&sealed, CBOR_LEVEL_KIB));
    assert_eq!(read_envelope(&sealed), EnvelopeReading::Envelope);
}

#[test]
fn deepest_data_is_still_read() {
    // Each wrapping is one tag; the innermost leaf is two tags and a number.
    let deepest = wrapped(MAX_NESTING as usize - 3).to_cbor_data();
    assert!(is_shallow(&deepest, CBOR_LEVEL_KIB));
    assert_eq!(read_envelope(&deepest), EnvelopeReading::Envelope);
    let deeper = wrapped(MAX_NESTING as usize - 2).to_cbor_data();
    assert_eq!(read_envelope(&deeper), EnvelopeReading::NotCbor);
}

#[test]
fn deepest_assertions_are_still_read() {
    // The innermost object is the tag of the envelope, the node and a number.
    let mut object = dcbor::CBOR::from(1);
    for _ in 0..MAX_NESTING as usize - 2 {
        object = claim(1.into(), object);
    }
    let deepest = tag(200, object.clone()).to_cbor_data();
    assert!(is_shallow(&deepest, CBOR_LEVEL_KIB));
    assert_eq!(read_envelope(&deepest), EnvelopeReading::Envelope);
    let deeper = tag(200, claim(1.into(), object)).to_cbor_data();
    assert_eq!(read_envelope(&deeper), EnvelopeReading::NotCbor);
}

#[test]
fn deepest_state_is_still_read() {
    let state = |levels: usize| -> Vec<u8> {
        let mut map = dcbor::Map::new();
        map.insert("identity", bytes(vec![1, 2]));
        let mut other = dcbor::CBOR::from(1);
        for _ in 0..levels {
            other = vec![other].into();
        }
        map.insert("other", other);
        dcbor::CBOR::from(map).to_cbor_data()
    };
    let deepest = state(MAX_NESTING as usize - 2);
    let read = BridgeState::from_bytes(&deepest, Some(some_identity())).unwrap();
    assert_eq!(read.device_xid, None);
    assert_eq!(read.identity.encoded, vec![1, 2]);
    let deeper = state(MAX_NESTING as usize - 1);
    assert_eq!(
        BridgeState::from_bytes(&deeper, Some(some_identity())).err(),
        Some(StateError::InvalidCbor)
    );
}

#[test]
fn deepest_packed_cbor_is_still_read() {
    // In a leaf, inside tags of an envelope and as a message that only looks
    // like one.
    let packed = encrypted(arrays(MAX_NESTING as usize - 6));
    let envelope = tag(200, tag(201, packed)).to_cbor_data();
    assert_eq!(read_envelope(&envelope), EnvelopeReading::Envelope);
    let packed = encrypted(arrays(MAX_NESTING as usize - 5));
    let envelope = tag(200, tag(201, packed)).to_cbor_data();
    assert_eq!(read_envelope(&envelope), EnvelopeReading::NotEnvelope);
    // As a message, whose additional data is read at once.
    let envelope = tag(200, encrypted(arrays(MAX_NESTING as usize - 5))).to_cbor_data();
    assert!(is_packed_shallow(&envelope, CBOR_LEVEL_KIB));
    assert_eq!(read_envelope(&envelope), EnvelopeReading::NotEnvelope);
}

#[test]
fn deepest_chain_of_delegates_is_still_read() {
    let mut document = bc_xid::XIDDocument::default();
    let mut data = document.to_cbor_data();
    loop {
        let mut outer = bc_xid::XIDDocument::default();
        outer.add_delegate(bc_xid::Delegate::new(&document)).unwrap();
        let next = outer.to_cbor_data();
        if !is_shallow(&next, DOCUMENT_LEVEL_KIB) {
            break;
        }
        document = outer;
        data = next;
    }
    let mut state = BridgeState::new(some_identity());
    assert_eq!(state.pair_device(&hex::encode(&data)), Ok(()));
    assert_eq!(state.device_xid, Some(data));
}

#[test]
fn node_whose_subject_is_a_node_is_no_document() {
    let hostile = "d99c58d8c882008282a11902bd00a10000a10000";
    let mut state = BridgeState::new(some_identity());
    assert_eq!(state.pair_device(hostile), Err(PairError::InvalidXid));
    assert_eq!(state.device_xid, None);

    let stored =
        BridgeState { identity: some_identity(), device_xid: Some(hex::decode(hostile).unwrap()) };
    let bytes = stored.to_bytes();
    assert!(matches!(
        BridgeState::read_parts(&bytes),
        StateParts::Entries { identity: Some(_), device: Some(XidReading::NotXid) }
    ));
    assert_eq!(
        BridgeState::load_or_create(Stored::Found { bytes, identity: Some(some_identity()) }).err(),
        Some(StateError::InvalidDeviceXid)
    );
}

#[test]
fn deep_data_is_refused_unread() {
    let deep = arrays(1_000_000);
    assert_eq!(read_envelope(&deep), EnvelopeReading::NotCbor);
    assert!(matches!(BridgeState::read_parts(&deep), StateParts::NotCbor));
    let mut state = BridgeState::new(some_identity());
    assert_eq!(state.pair_device(&hex::encode(&deep)), Err(PairError::InvalidCbor));
    let stored = BridgeState { identity: some_identity(), device_xid: Some(deep) };
    assert_eq!(
        BridgeState::from_bytes(&stored.to_bytes(), Some(some_identity())).err(),
        Some(StateError::InvalidDeviceXidCbor)
    );
}

#[test]
fn deep_packed_cbor_is_refused_unread() {
    let envelope = tag(200, encrypted(vec![0x81; 1_000_000])).to_cbor_data();
    assert!(is_shallow(&envelope, CBOR_LEVEL_KIB));
    assert!(!is_packed_shallow(&envelope, CBOR_LEVEL_KIB));
    assert_eq!(read_envelope(&envelope), EnvelopeReading::NotEnvelope);
}
