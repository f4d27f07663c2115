use dcbor::CBOREncodable;
use surf_bridge::identity::{
    BridgeState, Identity, PairError, StateError, StateParts, XidReading, STATE_FILE,
    STATE_TMP_FILE,
};
use surf_bridge::storage::{SaveStep, Stored, PRIVATE_DIR_MODE, PRIVATE_FILE_MODE};

/// A directory in memory: its permissions, and the name, contents and
/// permissions of each file.
struct Dir {
    exists: bool,
    mode: u32,
    files: Vec<(String, Vec<u8>, u32)>,
}

impl Dir {
    fn new() -> Self {
        Dir { exists: false, mode: 0o755, files: vec![] }
    }

    fn position(&self, name: &str) -> Option<usize> {
        self.files.iter().position(|f| f.0 == name)
    }

    fn read(&self, name: &str) -> Option<Vec<u8>> {
        self.position(name).map(|i| self.files[i].1.clone())
    }

    fn apply(&mut self, step: &SaveStep) {
        match step {
            SaveStep::CreateDir => self.exists = true,
            SaveStep::SetDirMode { mode } => self.mode = *mode,
            SaveStep::Write { file, bytes } => match self.position(file) {
                Some(i) => self.files[i].1 = bytes.clone(),
                None => self.files.push((file.clone(), bytes.clone(), 0o644)),
            },
            SaveStep::SetFileMode { file, mode } => {
                let i = self.position(file).unwrap();
                self.files[i].2 = *mode;
            }
            SaveStep::Rename { from, to } => {
                self.files.retain(|f| f.0 != *to);
                let i = self.position(from).unwrap();
                self.files[i].0 = to.clone();
            }
        }
    }

    fn save(&mut self, steps: &[SaveStep]) {
        for step in steps {
            self.apply(step);
        }
    }
}

/// An identity whose own encoding is that of its XID document.
fn generate() -> Identity {
    let xid = bc_xid::XIDDocument::default().to_cbor_data();
    Identity { encoded: xid.clone(), xid_document: xid }
}

fn decode(encoded: &[u8]) -> Identity {
    Identity { encoded: encoded.to_vec(), xid_document: encoded.to_vec() }
}

fn load_or_create(dir: &mut Dir) -> BridgeState {
    let stored = match dir.read(STATE_FILE) {
        Some(bytes) => {
            let identity = BridgeState::identity_bytes(&bytes).ok().map(|e| decode(&e));
            Stored::Found { bytes, identity }
        }
        None => Stored::Missing { generated: generate() },
    };
    let loaded = BridgeState::load_or_create(stored).unwrap();
    if let Some(steps) = &loaded.save {
        dir.save(steps);
    }
    loaded.state
}

fn some_identity() -> Identity {
    Identity { encoded: vec![1, 2], xid_document: vec![3] }
}

#[test]
fn round_trip_with_and_without_device() {
    let mut dir = Dir::new();

    // Fresh identity, no device paired yet.
    let a = load_or_create(&mut dir);
    assert!(a.device_xid.is_none());
    let reloaded = load_or_create(&mut dir);
    assert!(reloaded.device_xid.is_none());
    assert_eq!(
        reloaded.identity.xid_document,
        a.identity.xid_document,
        "identity must survive reload"
    );

    // Simulate a paired device: create a second identity and treat its
    // XID as the device's.
    let device = generate();
    let mut paired = BridgeState { identity: a.identity.clone(), device_xid: None };
    paired.device_xid = Some(device.xid_document.clone());
    dir.save(&paired.save());
    let reloaded2 = load_or_create(&mut dir);
    assert!(reloaded2.device_xid.is_some());
    assert_eq!(
        reloaded2.device_xid.unwrap(),
        device.xid_document,
        "paired device XID must survive reload"
    );
}

#[test]
fn new_state_has_no_device() {
    let state = BridgeState::new(some_identity());
    assert_eq!(state.identity.encoded, vec![1, 2]);
    assert!(state.device_xid.is_none());
}

#[test]
fn state_file_bytes_are_exact() {
    let mut state = BridgeState::new(some_identity());
    let mut expected = vec![0xa1, 0x68];
    expected.extend_from_slice(b"identity");
    expected.extend_from_slice(&[0x42, 1, 2]);
    assert_eq!(state.to_bytes(), expected);

    state.device_xid = Some(vec![7; 30]);
    expected[0] = 0xa2;
    expected.push(0x6a);
    expected.extend_from_slice(b"device_xid");
    expected.extend_from_slice(&[0x58, 30]);
    expected.extend_from_slice(&[7; 30]);
    assert_eq!(state.to_bytes(), expected);
    assert_eq!(BridgeState::identity_bytes(&expected), Ok(vec![1, 2]));
}

#[test]
fn broken_state_files_are_refused() {
    let read = |bytes: Vec<u8>| BridgeState::from_bytes(&bytes, Some(some_identity())).err();
    assert_eq!(read(vec![]), Some(StateError::InvalidCbor));
    assert_eq!(read(vec![0xff]), Some(StateError::InvalidCbor));
    assert_eq!(read(vec![0xa0, 0x00]), Some(StateError::InvalidCbor));
    assert_eq!(read(vec![0x01]), Some(StateError::NotAMap));
    assert_eq!(read(vec![0xa0]), Some(StateError::MissingIdentity));

    // A text where the byte string should be.
    let mut text = vec![0xa1, 0x68];
    text.extend_from_slice(b"identity");
    text.extend_from_slice(&[0x61, b'x']);
    assert_eq!(read(text.clone()), Some(StateError::MissingIdentity));
    assert_eq!(BridgeState::identity_bytes(&text), Err(StateError::MissingIdentity));
    assert_eq!(BridgeState::identity_bytes(&vec![0x01]), Err(StateError::NotAMap));
    assert_eq!(BridgeState::identity_bytes(&vec![0xff]), Err(StateError::InvalidCbor));
}

#[test]
fn unreadable_identity_is_reported_before_the_device() {
    let state = BridgeState { identity: some_identity(), device_xid: Some(vec![0xff]) };
    let bytes = state.to_bytes();
    assert_eq!(
        BridgeState::from_bytes(&bytes, None).err(),
        Some(StateError::CorruptIdentity)
    );
    assert_eq!(
        BridgeState::load_or_create(Stored::Found { bytes, identity: None }).err(),
        Some(StateError::CorruptIdentity)
    );
}

#[test]
fn broken_devices_are_refused() {
    let read = |device: Vec<u8>| {
        let state = BridgeState { identity: some_identity(), device_xid: Some(device) };
        BridgeState::from_bytes(&state.to_bytes(), Some(some_identity())).err()
    };
    assert_eq!(read(vec![0xff]), Some(StateError::InvalidDeviceXidCbor));
    assert_eq!(read(vec![0x01]), Some(StateError::InvalidDeviceXid));
    assert_eq!(read(bc_xid::XIDDocument::default().to_cbor_data()), None);
}

#[test]
fn device_that_is_no_byte_string_counts_as_absent() {
    let mut map = dcbor::Map::new();
    map.insert("identity", dcbor::ByteString::from(vec![1, 2]));
    map.insert("device_xid", 5);
    let bytes = dcbor::CBOR::from(map).to_cbor_data();
    let state = BridgeState::from_bytes(&bytes, Some(some_identity())).unwrap();
    assert!(state.device_xid.is_none());
}

#[test]
fn device_is_paired_from_hex_in_either_case() {
    let xid = bc_xid::XIDDocument::default().to_cbor_data();
    let mut state = BridgeState::new(some_identity());
    assert_eq!(state.pair_device(&hex::encode(&xid)), Ok(()));
    assert_eq!(state.device_xid, Some(xid.clone()));

    let mut other = BridgeState::new(some_identity());
    assert_eq!(other.pair_device(&hex::encode_upper(&xid)), Ok(()));
    assert_eq!(other.device_xid, Some(xid));
}

#[test]
fn paired_device_survives_a_round_trip() {
    let xid = bc_xid::XIDDocument::default().to_cbor_data();
    let mut state = BridgeState::new(some_identity());
    state.pair_device(&hex::encode(&xid)).unwrap();
    let again = BridgeState::from_bytes(&state.to_bytes(), Some(some_identity())).unwrap();
    assert_eq!(again.device_xid, Some(xid));
    assert_eq!(again.identity.encoded, vec![1, 2]);
}

#[test]
fn signed_document_is_stored_as_the_bare_one() {
    // The given document is signed and holds private keys; only the public
    // document is kept.
    let document = bc_xid::XIDDocument::default();
    let signed = document
        .to_envelope(
            bc_xid::XIDPrivateKeyOptions::Include,
            bc_xid::XIDGeneratorOptions::default(),
            bc_xid::XIDSigningOptions::Inception,
        )
        .unwrap();
    let given = dcbor::CBOR::to_tagged_value(40024u64, signed.to_cbor()).to_cbor_data();
    let mut state = BridgeState::new(some_identity());
    state.pair_device(&hex::encode(&given)).unwrap();
    let stored = state.device_xid.clone().unwrap();
    assert_ne!(stored, given);
    assert_eq!(stored, document.to_cbor_data());
    state.pair_device(&hex::encode(&stored)).unwrap();
    assert_eq!(state.device_xid, Some(stored));
}

#[test]
fn refused_device_leaves_the_state_alone() {
    let xid = bc_xid::XIDDocument::default().to_cbor_data();
    let mut state = BridgeState::new(some_identity());
    state.pair_device(&hex::encode(&xid)).unwrap();
    assert_eq!(state.pair_device("abc"), Err(PairError::NotHex));
    assert_eq!(state.pair_device("zz"), Err(PairError::NotHex));
    assert_eq!(state.pair_device("ff"), Err(PairError::InvalidCbor));
    assert_eq!(state.pair_device(""), Err(PairError::InvalidCbor));
    assert_eq!(state.pair_device("01"), Err(PairError::InvalidXid));
    assert_eq!(state.device_xid, Some(xid));
}

#[test]
fn saving_replaces_the_state_file_and_closes_it_to_others() {
    let mut dir = Dir::new();
    dir.files.push((STATE_FILE.to_string(), vec![9], 0o644));
    dir.files.push(("notes".to_string(), vec![8], 0o644));
    let state = BridgeState::new(some_identity());
    dir.save(&state.save());
    assert!(dir.exists);
    assert_eq!(dir.mode, 0o700);
    assert_eq!(dir.mode, PRIVATE_DIR_MODE);
    assert_eq!(dir.read(STATE_FILE), Some(state.to_bytes()));
    assert_eq!(dir.files[dir.position(STATE_FILE).unwrap()].2, 0o600);
    assert_eq!(PRIVATE_FILE_MODE, 0o600);
    assert_eq!(dir.read(STATE_TMP_FILE), None);
    assert_eq!(dir.read("notes"), Some(vec![8]));
    assert_eq!(STATE_FILE, "surf-bridge-state.bin");
    assert_eq!(STATE_TMP_FILE, "surf-bridge-state.tmp");
}

#[test]
fn saving_cut_short_leaves_the_old_state_file() {
    let state = BridgeState::new(some_identity());
    let steps = state.save();
    assert_eq!(steps.len(), 5);
    for n in 0..steps.len() {
        let mut dir = Dir::new();
        dir.files.push((STATE_FILE.to_string(), vec![9], 0o600));
        dir.save(&steps[..n]);
        assert_eq!(dir.read(STATE_FILE), Some(vec![9]));
        if dir.read(STATE_TMP_FILE).is_some() {
            assert_eq!(dir.mode, 0o700);
        }
    }
}

#[test]
fn only_a_new_state_is_saved() {
    let created =
        BridgeState::load_or_create(Stored::Missing { generated: some_identity() }).unwrap();
    assert!(created.save.is_some());
    assert!(created.state.device_xid.is_none());
    let bytes = created.state.to_bytes();
    let found = BridgeState::load_or_create(Stored::Found {
        bytes,
        identity: Some(some_identity()),
    })
    .unwrap();
    assert!(found.save.is_none());
    assert_eq!(found.state.identity.encoded, vec![1, 2]);
}

#[test]
fn parts_of_a_state_file_make_a_state() {
    let entries = |identity: Option<Vec<u8>>, device: Option<XidReading>| {
        BridgeState::from_parts(StateParts::Entries { identity, device }, Some(some_identity()))
    };
    let paired = entries(Some(vec![1]), Some(XidReading::Document(vec![5]))).unwrap();
    assert_eq!(paired.device_xid, Some(vec![5]));
    assert_eq!(paired.identity.encoded, vec![1, 2]);
    assert_eq!(entries(Some(vec![1]), None).unwrap().device_xid, None);
    assert_eq!(entries(None, None).err(), Some(StateError::MissingIdentity));
    assert_eq!(
        entries(Some(vec![1]), Some(XidReading::NotCbor)).err(),
        Some(StateError::InvalidDeviceXidCbor)
    );
    assert_eq!(
        entries(Some(vec![1]), Some(XidReading::NotXid)).err(),
        Some(StateError::InvalidDeviceXid)
    );
    assert_eq!(
        BridgeState::from_parts(StateParts::NotCbor, None).err(),
        Some(StateError::InvalidCbor)
    );
    assert_eq!(
        BridgeState::from_parts(StateParts::NotAMap, None).err(),
        Some(StateError::NotAMap)
    );
}

#[test]
fn parts_of_a_state_file_are_read() {
    let state = BridgeState { identity: some_identity(), device_xid: Some(vec![0x01]) };
    assert!(matches!(
        BridgeState::read_parts(&state.to_bytes()),
        StateParts::Entries { identity: Some(_), device: Some(XidReading::NotXid) }
    ));
    assert!(matches!(BridgeState::read_parts(&vec![0x80]), StateParts::NotAMap));
    assert!(matches!(BridgeState::read_parts(&vec![0x18, 0x01]), StateParts::NotCbor));
    assert!(matches!(
        BridgeState::read_parts(&vec![0xa0]),
        StateParts::Entries { identity: None, device: None }
    ));
}

#[test]
fn device_is_paired_from_a_reading() {
    let mut state = BridgeState::new(some_identity());
    assert_eq!(state.pair_with(XidReading::NotCbor), Err(PairError::InvalidCbor));
    assert_eq!(state.pair_with(XidReading::NotXid), Err(PairError::InvalidXid));
    assert_eq!(state.device_xid, None);
    assert_eq!(state.pair_with(XidReading::Document(vec![5])), Ok(()));
    assert_eq!(state.device_xid, Some(vec![5]));
}
