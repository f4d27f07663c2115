//! Bridge identity persistence.
//!
//! The bridge holds its own Quantum Link identity, so a Passport pairs with it
//! exactly as it would pair with a companion app. The identity and the paired
//! device are kept in one state file, so a pairing survives a restart.

use crate::cbor;
use crate::nesting;
use crate::nesting::{CBOR_LEVEL_KIB, DOCUMENT_LEVEL_KIB, STACK_KIB};
use vstd::prelude::*;

verus! {

/// The name of the state file inside the state directory.
pub const STATE_FILE: &'static str = "surf-bridge-state.bin";

/// The name under which a new state file is written before it takes the place
/// of the old one.
pub const STATE_TMP_FILE: &'static str = "surf-bridge-state.tmp";

// ---------------------------------------------------------------------------
// The state
// ---------------------------------------------------------------------------

/// A Quantum Link identity: its own encoding, private keys included, and the
/// encoding of its public XID document.
#[derive(Debug)]
pub struct Identity {
    pub encoded: Vec<u8>,
    pub xid_document: Vec<u8>,
}

/// The contents of an `Identity`.
#[verifier::ext_equal]
pub struct IdentityView {
    pub encoded: Seq<u8>,
    pub xid_document: Seq<u8>,
}

impl View for Identity {
    type V = IdentityView;

    open spec fn view(&self) -> IdentityView {
        IdentityView { encoded: self.encoded@, xid_document: self.xid_document@ }
    }
}

impl Clone for Identity {
    fn clone(&self) -> (r: Identity)
        ensures
            r@ == self@,
    {
        let r = Identity {
            encoded: self.encoded.clone(),
            xid_document: self.xid_document.clone(),
        };
        assert(r@ =~= self@);
        r
    }
}

/// What the bridge remembers between runs.
#[derive(Debug)]
pub struct BridgeState {
    /// The identity of the bridge.
    pub identity: Identity,
    /// The encoding of the XID document of the paired Passport.
    pub device_xid: Option<Vec<u8>>,
}

/// The contents of a `BridgeState`.
#[verifier::ext_equal]
pub struct BridgeStateView {
    pub identity: IdentityView,
    pub device_xid: Option<Seq<u8>>,
}

impl View for BridgeState {
    type V = BridgeStateView;

    open spec fn view(&self) -> BridgeStateView {
        BridgeStateView { identity: self.identity@, device_xid: cbor::bytes_view(self.device_xid) }
    }
}

impl BridgeStateView {
    /// The paired device, if there is one, is an XID document in its own
    /// encoding, which can be read back.
    pub open spec fn well_formed(self) -> bool {
        self.device_xid matches Some(d) ==> is_own_encoding(d)
    }

    /// The map that the state file encodes.
    pub open spec fn entries(self) -> Map<Seq<u8>, Seq<u8>> {
        let identity_only = Map::empty().insert(
            cbor::text_item("identity"@),
            cbor::byte_string_item(self.identity.encoded),
        );
        match self.device_xid {
            Some(d) => identity_only.insert(
                cbor::text_item("device_xid"@),
                cbor::byte_string_item(d),
            ),
            None => identity_only,
        }
    }

    /// The contents of the state file.
    pub open spec fn bytes(self) -> Seq<u8> {
        cbor::map_data(self.entries())
    }
}

/// Whether `d` is an XID document in its own encoding, which can be read back.
pub open spec fn is_own_encoding(d: Seq<u8>) -> bool {
    cbor::can_hold_xid(d) && cbor::well_formed(d) && cbor::xid_document_data(d) == Some(d)
}

/// Why a state file cannot be read.
#[derive(Clone, Copy, Debug, PartialEq, Eq, Structural)]
pub enum StateError {
    /// The file is not deterministic CBOR, or nests too deeply to be read.
    InvalidCbor,
    /// The file holds something else than a map.
    NotAMap,
    /// The map has no byte string under `identity`.
    MissingIdentity,
    /// The bytes under `identity` are not an identity.
    CorruptIdentity,
    /// The bytes under `device_xid` are not deterministic CBOR, or nest too
    /// deeply to be read.
    InvalidDeviceXidCbor,
    /// The item under `device_xid` is not an XID document, or not one of a shape
    /// that can be read.
    InvalidDeviceXid,
}

/// What bytes that should hold an XID document are found to be.
#[derive(Debug)]
pub enum XidReading {
    /// They are not deterministic CBOR, or nest too deeply to be read.
    NotCbor,
    /// They encode something else than an XID document, or one of a shape that
    /// cannot be read.
    NotXid,
    /// They encode an XID document; here is its own encoding.
    Document(Vec<u8>),
}

/// The contents of an `XidReading`.
#[verifier::ext_equal]
pub enum XidReadingView {
    NotCbor,
    NotXid,
    Document(Seq<u8>),
}

impl View for XidReading {
    type V = XidReadingView;

    open spec fn view(&self) -> XidReadingView {
        match self {
            XidReading::NotCbor => XidReadingView::NotCbor,
            XidReading::NotXid => XidReadingView::NotXid,
            XidReading::Document(d) => XidReadingView::Document(d@),
        }
    }
}

/// What a state file is found to hold.
#[derive(Debug)]
pub enum StateParts {
    /// It is not deterministic CBOR, or nests too deeply to be read.
    NotCbor,
    /// It encodes something else than a map.
    NotAMap,
    /// It encodes a map: the bytes under `identity`, and what the bytes under
    /// `device_xid` are found to be, each `None` where no byte string stands
    /// there.
    Entries { identity: Option<Vec<u8>>, device: Option<XidReading> },
}

/// The contents of a `StateParts`.
#[verifier::ext_equal]
pub enum StatePartsView {
    NotCbor,
    NotAMap,
    Entries { identity: Option<Seq<u8>>, device: Option<XidReadingView> },
}

impl View for StateParts {
    type V = StatePartsView;

    open spec fn view(&self) -> StatePartsView {
        match self {
            StateParts::NotCbor => StatePartsView::NotCbor,
            StateParts::NotAMap => StatePartsView::NotAMap,
            StateParts::Entries { identity, device } => StatePartsView::Entries {
                identity: cbor::bytes_view(*identity),
                device: match device {
                    Some(reading) => Some(reading@),
                    None => None,
                },
            },
        }
    }
}

/// What the bytes `raw` are found to be. A document counts where it can be read,
/// and read back from its own encoding.
pub open spec fn xid_reading(raw: Seq<u8>) -> XidReadingView {
    if !nesting::nests_within(raw, STACK_KIB as nat, CBOR_LEVEL_KIB as nat)
        || !cbor::well_formed(raw) {
        XidReadingView::NotCbor
    } else if !cbor::can_hold_xid(raw) {
        XidReadingView::NotXid
    } else {
        match cbor::xid_document_data(raw) {
            Some(d) if cbor::can_hold_xid(d) => XidReadingView::Document(d),
            _ => XidReadingView::NotXid,
        }
    }
}

/// What the state file `data` is found to hold.
pub open spec fn state_parts(data: Seq<u8>) -> StatePartsView {
    if !nesting::nests_within(data, STACK_KIB as nat, CBOR_LEVEL_KIB as nat)
        || !cbor::well_formed(data) {
        StatePartsView::NotCbor
    } else {
        match cbor::decoded_map(data) {
            Some(entries) => StatePartsView::Entries {
                identity: cbor::bytes_under(entries, "identity"@),
                device: match cbor::bytes_under(entries, "device_xid"@) {
                    Some(raw) => Some(xid_reading(raw)),
                    None => None,
                },
            },
            None => StatePartsView::NotAMap,
        }
    }
}

impl StatePartsView {
    /// The encoded identity among the parts.
    pub open spec fn identity(self) -> Result<Seq<u8>, StateError> {
        match self {
            StatePartsView::NotCbor => Err(StateError::InvalidCbor),
            StatePartsView::NotAMap => Err(StateError::NotAMap),
            StatePartsView::Entries { identity: Some(encoded), .. } => Ok(encoded),
            StatePartsView::Entries { identity: None, .. } => Err(StateError::MissingIdentity),
        }
    }

    /// The paired device among the parts.
    pub open spec fn device(self) -> Result<Option<Seq<u8>>, StateError> {
        match self {
            StatePartsView::Entries { device: Some(XidReadingView::Document(d)), .. } => Ok(
                Some(d),
            ),
            StatePartsView::Entries { device: Some(XidReadingView::NotXid), .. } => Err(
                StateError::InvalidDeviceXid,
            ),
            StatePartsView::Entries { device: Some(XidReadingView::NotCbor), .. } => Err(
                StateError::InvalidDeviceXidCbor,
            ),
            _ => Ok(None),
        }
    }

    /// The state made of the parts, where `identity` is what the encoded
    /// identity among them stands for, or `None` where it stands for nothing.
    pub open spec fn state(self, identity: Option<IdentityView>) -> Result<
        BridgeStateView,
        StateError,
    > {
        match (self.identity(), identity, self.device()) {
            (Err(e), _, _) => Err(e),
            (Ok(_), None, _) => Err(StateError::CorruptIdentity),
            (Ok(_), Some(_), Err(e)) => Err(e),
            (Ok(_), Some(identity), Ok(device_xid)) => Ok(
                BridgeStateView { identity, device_xid },
            ),
        }
    }
}

/// The encoded identity in the state file `data`.
pub open spec fn stored_identity(data: Seq<u8>) -> Result<Seq<u8>, StateError> {
    state_parts(data).identity()
}

/// The state in the state file `data`, where `identity` is what the encoded
/// identity in it stands for, or `None` where it stands for nothing.
pub open spec fn stored_state(data: Seq<u8>, identity: Option<IdentityView>) -> Result<
    BridgeStateView,
    StateError,
> {
    state_parts(data).state(identity)
}

/// Bytes are an XID document just where they are CBOR and hold one that can be
/// read, and read back from its own encoding, which is then what is kept. They
/// are no CBOR just where `dcbor` refuses them or they nest too deeply for it.
pub proof fn law_xid_reading(raw: Seq<u8>, d: Seq<u8>)
    ensures
        xid_reading(raw) == XidReadingView::Document(d) <==> (nesting::nests_within(raw, 1792, 5)
            && cbor::well_formed(raw) && cbor::can_hold_xid(raw) && cbor::xid_document_data(raw)
            == Some(d) && cbor::can_hold_xid(d)),
        xid_reading(raw) is NotCbor <==> !(nesting::nests_within(raw, 1792, 5)
            && cbor::well_formed(raw)),
{
}

/// A state file gives a state just where it is a map with an identity that
/// stands for one, and with a device only where that is an XID document. The
/// state is then that identity with that device, or with none.
pub proof fn law_state_is_what_the_file_holds(
    data: Seq<u8>,
    identity: Option<IdentityView>,
    state: BridgeStateView,
)
    ensures
        stored_state(data, identity) == Ok::<BridgeStateView, StateError>(state) <==> {
            &&& nesting::nests_within(data, 1792, 5)
            &&& cbor::well_formed(data)
            &&& cbor::decoded_map(data) matches Some(entries)
            &&& cbor::bytes_under(entries, "identity"@) is Some
            &&& identity == Some(state.identity)
            &&& match cbor::bytes_under(entries, "device_xid"@) {
                Some(raw) => state.device_xid matches Some(d) && xid_reading(raw)
                    == XidReadingView::Document(d),
                None => state.device_xid is None,
            }
        },
{
}

/// A state file that gives no state is refused for the first thing wrong with
/// it: what is no CBOR, no map, or lacks an identity, before an identity that
/// stands for nothing, and that before a device that is no XID document.
pub proof fn law_state_files_are_refused_for_what_is_wrong(
    data: Seq<u8>,
    identity: Option<IdentityView>,
)
    ensures
        ({
            let is_cbor = nesting::nests_within(data, 1792, 5) && cbor::well_formed(data);
            let map = cbor::decoded_map(data);
            let encoded = cbor::bytes_under(map->0, "identity"@);
            let device = cbor::bytes_under(map->0, "device_xid"@);
            let error = stored_state(data, identity);
            &&& !is_cbor <==> error == Err::<BridgeStateView, StateError>(StateError::InvalidCbor)
            &&& is_cbor && map is None <==> error == Err::<BridgeStateView, StateError>(
                StateError::NotAMap,
            )
            &&& is_cbor && map is Some && encoded is None <==> error == Err::<
                BridgeStateView,
                StateError,
            >(StateError::MissingIdentity)
            &&& is_cbor && map is Some && encoded is Some && identity is None <==> error == Err::<
                BridgeStateView,
                StateError,
            >(StateError::CorruptIdentity)
            &&& is_cbor && map is Some && encoded is Some && identity is Some && (
            device matches Some(raw) && xid_reading(raw) is NotCbor) <==> error == Err::<
                BridgeStateView,
                StateError,
            >(StateError::InvalidDeviceXidCbor)
            &&& is_cbor && map is Some && encoded is Some && identity is Some && (
            device matches Some(raw) && xid_reading(raw) is NotXid) <==> error == Err::<
                BridgeStateView,
                StateError,
            >(StateError::InvalidDeviceXid)
        }),
{
}

/// The identity to be opened is the byte string under `identity` in the map that
/// the file encodes, whatever else stands there.
pub proof fn law_identity_is_read_on_its_own(data: Seq<u8>, encoded: Seq<u8>)
    ensures
        stored_identity(data) == Ok::<Seq<u8>, StateError>(encoded) <==> {
            &&& nesting::nests_within(data, 1792, 5)
            &&& cbor::well_formed(data)
            &&& cbor::decoded_map(data) matches Some(entries)
            &&& cbor::bytes_under(entries, "identity"@) == Some(encoded)
        },
{
}

/// The state file holds the identity under `identity`, the device, where there
/// is one, under `device_xid`, and nothing else.
pub proof fn law_state_file_holds_the_state(state: BridgeStateView, key: Seq<u8>)
    ensures
        cbor::bytes_under(state.entries(), "identity"@) == Some(state.identity.encoded),
        cbor::bytes_under(state.entries(), "device_xid"@) == state.device_xid,
        state.entries().contains_key(key) ==> key == cbor::text_item("identity"@) || key
            == cbor::text_item("device_xid"@),
        state.bytes() == cbor::map_data(state.entries()),
{
    lemma_entries_read_back(state);
}

/// A state and what is read are seen as they stand, and a state without a device
/// is well-formed.
pub proof fn law_state_is_seen_as_it_stands(
    state: BridgeState,
    identity: Identity,
    reading: XidReading,
)
    ensures
        identity_view(Some(identity)) is Some,
        identity_view(Some(identity))->0.encoded == identity.encoded@,
        identity_view(Some(identity))->0.xid_document == identity.xid_document@,
        identity_view(None) is None,
        state@.identity.encoded == state.identity.encoded@,
        state@.identity.xid_document == state.identity.xid_document@,
        state.device_xid matches Some(d) ==> state@.device_xid == Some(d@),
        state.device_xid is None ==> state@.device_xid is None && state@.well_formed(),
        reading matches XidReading::Document(d) ==> reading@ == XidReadingView::Document(d@),
        reading is NotCbor ==> reading@ is NotCbor,
        reading is NotXid ==> reading@ is NotXid,
{
}

/// The parts of a state file are seen as they stand.
pub proof fn law_parts_are_seen_as_they_stand(parts: StateParts)
    ensures
        match parts {
            StateParts::NotCbor => parts@ is NotCbor,
            StateParts::NotAMap => parts@ is NotAMap,
            StateParts::Entries { identity, device } => {
                &&& parts@ matches StatePartsView::Entries { identity: seen, device: reading }
                &&& identity matches Some(encoded) ==> seen == Some(encoded@)
                &&& identity is None ==> seen is None
                &&& device matches Some(d) ==> reading == Some(d@)
                &&& device is None ==> reading is None
            },
        },
{
}

fn can_hold_xid(data: &Vec<u8>) -> (r: bool)
    ensures
        r == cbor::can_hold_xid(data@),
{
    nesting::is_shallow(data, DOCUMENT_LEVEL_KIB) && nesting::is_packed_shallow(
        data,
        DOCUMENT_LEVEL_KIB,
    ) && nesting::is_flat(data) && nesting::has_paired_keys(data)
}

fn read_xid(raw: &Vec<u8>) -> (r: XidReading)
    ensures
        r@ == xid_reading(raw@),
        r@ matches XidReadingView::Document(d) ==> is_own_encoding(d),
{
    if !nesting::is_shallow(raw, CBOR_LEVEL_KIB) || !cbor::is_cbor(raw) {
        return XidReading::NotCbor;
    }
    if !can_hold_xid(raw) {
        return XidReading::NotXid;
    }
    match cbor::xid_document(raw) {
        Some(d) => if can_hold_xid(&d) {
            XidReading::Document(d)
        } else {
            XidReading::NotXid
        },
        None => XidReading::NotXid,
    }
}

/// The view of an optional identity.
pub open spec fn identity_view(identity: Option<Identity>) -> Option<IdentityView> {
    match identity {
        Some(id) => Some(id@),
        None => None,
    }
}

impl BridgeState {
    /// A state with the given identity and no paired device.
    pub fn new(identity: Identity) -> (r: BridgeState)
        ensures
            r.identity == identity,
            r.device_xid is None,
            r@.well_formed(),
    {
        BridgeState { identity, device_xid: None }
    }

    /// The contents of the state file for this state.
    ///
    /// Reading the file back gives the encoded identity and, where the state is
    /// well-formed, the whole state.
    pub fn to_bytes(&self) -> (r: Vec<u8>)
        ensures
            r@ == self@.bytes(),
            stored_identity(r@) == Ok::<Seq<u8>, StateError>(self.identity.encoded@),
            self@.well_formed() ==> stored_state(r@, Some(self.identity@)) == Ok::<
                BridgeStateView,
                StateError,
            >(self@),
    {
        proof {
            lemma_keys();
        }
        let mut map = cbor::new_map();
        cbor::insert_bytes(&mut map, "identity", &self.identity.encoded);
        if let Some(d) = &self.device_xid {
            cbor::insert_bytes(&mut map, "device_xid", d);
        }
        assert(cbor::map_entries(map) =~= self@.entries());
        proof {
            lemma_entries_read_back(self@);
            lemma_entries_are_shallow(self);
            if let Some(d) = self@.device_xid {
                if is_own_encoding(d) {
                    lemma_own_encoding_is_read(d);
                }
            }
        }
        cbor::encode_map(map)
    }

    /// What the state file `bytes` is found to hold.
    pub fn read_parts(bytes: &Vec<u8>) -> (r: StateParts)
        ensures
            r@ == state_parts(bytes@),
            r@.device() matches Ok(Some(d)) ==> is_own_encoding(d),
    {
        proof {
            lemma_keys();
        }
        if !nesting::is_shallow(bytes, CBOR_LEVEL_KIB) || !cbor::is_cbor(bytes) {
            return StateParts::NotCbor;
        }
        let map = match cbor::decode_map(bytes) {
            Some(map) => map,
            None => {
                return StateParts::NotAMap;
            },
        };
        let identity = cbor::get_bytes(&map, "identity");
        let device = match cbor::get_bytes(&map, "device_xid") {
            Some(raw) => Some(read_xid(&raw)),
            None => None,
        };
        StateParts::Entries { identity, device }
    }

    /// The encoded identity in the state file `bytes`.
    pub fn identity_bytes(bytes: &Vec<u8>) -> (r: Result<Vec<u8>, StateError>)
        ensures
            stored_identity(bytes@) == (match r {
                Ok(encoded) => Ok::<Seq<u8>, StateError>(encoded@),
                Err(e) => Err(e),
            }),
    {
        match BridgeState::read_parts(bytes) {
            StateParts::NotCbor => Err(StateError::InvalidCbor),
            StateParts::NotAMap => Err(StateError::NotAMap),
            StateParts::Entries { identity: Some(encoded), .. } => Ok(encoded),
            StateParts::Entries { identity: None, .. } => Err(StateError::MissingIdentity),
        }
    }

    /// The state made of the parts of a state file, where `identity` is what
    /// the encoded identity among them stands for, or `None` where it stands
    /// for nothing.
    pub fn from_parts(parts: StateParts, identity: Option<Identity>) -> (r: Result<
        BridgeState,
        StateError,
    >)
        ensures
            parts@.state(identity_view(identity)) == (match r {
                Ok(state) => Ok::<BridgeStateView, StateError>(state@),
                Err(e) => Err(e),
            }),
    {
        let device = match parts {
            StateParts::NotCbor => {
                return Err(StateError::InvalidCbor);
            },
            StateParts::NotAMap => {
                return Err(StateError::NotAMap);
            },
            StateParts::Entries { identity: None, .. } => {
                return Err(StateError::MissingIdentity);
            },
            StateParts::Entries { identity: Some(_), device } => device,
        };
        let identity = match identity {
            Some(identity) => identity,
            None => {
                return Err(StateError::CorruptIdentity);
            },
        };
        match device {
            None => Ok(BridgeState { identity, device_xid: None }),
            Some(XidReading::Document(d)) => Ok(BridgeState { identity, device_xid: Some(d) }),
            Some(XidReading::NotCbor) => Err(StateError::InvalidDeviceXidCbor),
            Some(XidReading::NotXid) => Err(StateError::InvalidDeviceXid),
        }
    }

    /// The state in the state file `bytes`, where `identity` is what the
    /// encoded identity in it stands for, or `None` where it stands for
    /// nothing.
    pub fn from_bytes(bytes: &Vec<u8>, identity: Option<Identity>) -> (r: Result<
        BridgeState,
        StateError,
    >)
        ensures
            stored_state(bytes@, identity_view(identity)) == (match r {
                Ok(state) => Ok::<BridgeStateView, StateError>(state@),
                Err(e) => Err(e),
            }),
            r matches Ok(state) ==> state@.well_formed(),
    {
        BridgeState::from_parts(BridgeState::read_parts(bytes), identity)
    }

    /// Remembers the device whose XID document was read, or says why there is
    /// none. Then the state stays as it is.
    pub fn pair_with(&mut self, reading: XidReading) -> (r: Result<(), PairError>)
        ensures
            final(self).identity == old(self).identity,
            match reading@ {
                XidReadingView::Document(d) => r is Ok && final(self)@.device_xid == Some(d),
                XidReadingView::NotCbor => r == Err::<(), PairError>(PairError::InvalidCbor)
                    && *final(self) == *old(self),
                XidReadingView::NotXid => r == Err::<(), PairError>(PairError::InvalidXid)
                    && *final(self) == *old(self),
            },
    {
        match reading {
            XidReading::Document(d) => {
                self.device_xid = Some(d);
                Ok(())
            },
            XidReading::NotCbor => Err(PairError::InvalidCbor),
            XidReading::NotXid => Err(PairError::InvalidXid),
        }
    }

    /// Remembers the device whose XID document is given in hexadecimal, as its
    /// pairing code shows it. Where the text is refused the state stays as it
    /// is.
    pub fn pair_device(&mut self, xid_hex: &str) -> (r: Result<(), PairError>)
        ensures
            final(self).identity == old(self).identity,
            match given_device(xid_hex@) {
                Ok(d) => r is Ok && final(self)@.device_xid == Some(d),
                Err(e) => r == Err::<(), PairError>(e) && *final(self) == *old(self),
            },
            r is Ok || old(self)@.well_formed() ==> final(self)@.well_formed(),
    {
        match hex_decode(xid_hex) {
            Some(raw) => self.pair_with(read_xid(&raw)),
            None => Err(PairError::NotHex),
        }
    }
}

// ---------------------------------------------------------------------------
// Pairing by hand
// ---------------------------------------------------------------------------

/// Why a device cannot be remembered.
#[derive(Clone, Copy, Debug, PartialEq, Eq, Structural)]
pub enum PairError {
    /// The text is not hexadecimal.
    NotHex,
    /// The bytes are not deterministic CBOR, or nest too deeply to be read.
    InvalidCbor,
    /// The item is not an XID document, or not one of a shape that can be read.
    InvalidXid,
}

/// The device whose XID document the hexadecimal text `xid_hex` gives.
pub open spec fn given_device(xid_hex: Seq<char>) -> Result<Seq<u8>, PairError> {
    match hex_bytes(xid_hex) {
        Some(raw) => match xid_reading(raw) {
            XidReadingView::Document(d) => Ok(d),
            XidReadingView::NotCbor => Err(PairError::InvalidCbor),
            XidReadingView::NotXid => Err(PairError::InvalidXid),
        },
        None => Err(PairError::NotHex),
    }
}

/// The value of a hexadecimal digit, or `None` for another character.
pub open spec fn hex_value(c: char) -> Option<int> {
    if '0' <= c <= '9' {
        Some(c as int - 48)
    } else if 'a' <= c <= 'f' {
        Some(c as int - 87)
    } else if 'A' <= c <= 'F' {
        Some(c as int - 55)
    } else {
        None
    }
}

/// The bytes that pairs of hexadecimal digits give, high digit first, or `None`
/// where `text` is not made of such pairs.
pub open spec fn hex_bytes(text: Seq<char>) -> Option<Seq<u8>> {
    if text.len() % 2 == 0 && (forall|i: int|
        0 <= i < text.len() ==> hex_value(#[trigger] text[i]) is Some) {
        Some(
            Seq::new(
                text.len() / 2,
                |i: int| (16 * hex_value(text[2 * i])->0 + hex_value(text[2 * i + 1])->0) as u8,
            ),
        )
    } else {
        None
    }
}

/// `hex::decode`: the bytes that `text` gives in hexadecimal, in either case,
/// and `None` where it has an odd length or another character.
#[verifier::external_body]
fn hex_decode(text: &str) -> (r: Option<Vec<u8>>)
    ensures
        cbor::bytes_view(r) == hex_bytes(text@),
{
    hex::decode(text).ok()
}

/// Text is read as bytes just where it is two hexadecimal digits for each, the
/// high one first, in either case.
pub proof fn law_hex_is_two_digits_for_a_byte(text: Seq<char>, bytes: Seq<u8>)
    ensures
        hex_bytes(text) == Some(bytes) <==> (text.len() == 2 * bytes.len() && forall|i: int|
            0 <= i < bytes.len() ==> is_hex_digit(text[2 * i], (#[trigger] bytes[i] / 16) as int)
                && is_hex_digit(text[2 * i + 1], (bytes[i] % 16) as int)),
{
    let n = bytes.len() as int;
    if hex_bytes(text) == Some(bytes) {
        assert(text.len() == 2 * n);
        assert forall|i: int| 0 <= i < n implies is_hex_digit(
            text[2 * i],
            (#[trigger] bytes[i] / 16) as int,
        ) && is_hex_digit(text[2 * i + 1], (bytes[i] % 16) as int) by {
            lemma_hex_value(text[2 * i]);
            lemma_hex_value(text[2 * i + 1]);
            let high = hex_value(text[2 * i])->0;
            let low = hex_value(text[2 * i + 1])->0;
            assert(bytes[i] == (16 * high + low) as u8);
            assert(bytes[i] / 16 == high && bytes[i] % 16 == low);
        }
    }
    if text.len() == 2 * n && forall|i: int|
        0 <= i < n ==> is_hex_digit(text[2 * i], (#[trigger] bytes[i] / 16) as int)
            && is_hex_digit(text[2 * i + 1], (bytes[i] % 16) as int) {
        assert forall|k: int| 0 <= k < text.len() implies hex_value(#[trigger] text[k]) is Some by {
            let i = k / 2;
            assert(0 <= bytes[i] / 16 < 16);
            assert(k == 2 * i || k == 2 * i + 1);
            lemma_hex_value(text[k]);
        }
        assert forall|i: int| 0 <= i < n implies hex_bytes(text)->0[i] == bytes[i] by {
            assert(0 <= bytes[i] / 16 < 16);
            lemma_hex_value(text[2 * i]);
            lemma_hex_value(text[2 * i + 1]);
            assert(bytes[i] == 16 * (bytes[i] / 16) + bytes[i] % 16);
        }
        assert(hex_bytes(text)->0 =~= bytes);
    }
}

/// Whether `c` is the hexadecimal digit of the value `v`, by its code point: the
/// ten digits, and the first six letters, small or capital.
pub open spec fn is_hex_digit(c: char, v: int) -> bool {
    let n = c as u32;
    ||| 0 <= v < 10 && n == 0x30 + v
    ||| 10 <= v < 16 && (n == 0x61 + v - 10 || n == 0x41 + v - 10)
}

proof fn lemma_hex_value(c: char)
    ensures
        hex_value(c) matches Some(v) ==> 0 <= v < 16 && is_hex_digit(c, v),
        forall|v: int| is_hex_digit(c, v) ==> hex_value(c) == Some(v),
{
}

/// A device is taken just where the text is hexadecimal for an XID document;
/// else it is refused as no hexadecimal, no CBOR, or no XID document.
pub proof fn law_devices_are_given_in_hex(xid_hex: Seq<char>)
    ensures
        match hex_bytes(xid_hex) {
            Some(raw) => match xid_reading(raw) {
                XidReadingView::Document(d) => given_device(xid_hex) == Ok::<Seq<u8>, PairError>(d),
                XidReadingView::NotCbor => given_device(xid_hex) == Err::<Seq<u8>, PairError>(
                    PairError::InvalidCbor,
                ),
                XidReadingView::NotXid => given_device(xid_hex) == Err::<Seq<u8>, PairError>(
                    PairError::InvalidXid,
                ),
            },
            None => given_device(xid_hex) == Err::<Seq<u8>, PairError>(PairError::NotHex),
        },
{
}

/// The case of the digits does not matter, so a device is taken from either.
pub proof fn law_hex_case_is_ignored(text: Seq<char>, other: Seq<char>)
    requires
        text.len() == other.len(),
        forall|i: int|
            0 <= i < text.len() ==> crate::text::ascii_lower(#[trigger] text[i])
                == crate::text::ascii_lower(other[i]),
    ensures
        given_device(text) == given_device(other),
{
    assert forall|i: int| 0 <= i < text.len() implies hex_value(#[trigger] text[i]) == hex_value(
        other[i],
    ) by {
        assert(crate::text::ascii_lower(text[i]) as u32 == crate::text::ascii_lower(
            other[i],
        ) as u32);
    }
    if hex_bytes(text) is Some {
        assert forall|i: int| 0 <= i < other.len() implies hex_value(
            #[trigger] other[i],
        ) is Some by {
            assert(hex_value(text[i]) is Some);
        }
        assert(hex_bytes(text)->0 =~= hex_bytes(other)->0);
    } else if hex_bytes(other) is Some {
        assert forall|i: int| 0 <= i < text.len() implies hex_value(
            #[trigger] text[i],
        ) is Some by {
            assert(hex_value(other[i]) is Some);
        }
    }
}

/// The two keys of the state file are ASCII and differ.
proof fn lemma_keys()
    ensures
        vstd::utf8::is_ascii_chars("identity"@),
        vstd::utf8::is_ascii_chars("device_xid"@),
        vstd::utf8::encode_utf8("identity"@).len() == 8,
        vstd::utf8::encode_utf8("device_xid"@).len() == 10,
        cbor::text_item("identity"@) != cbor::text_item("device_xid"@),
{
    reveal_strlit("identity");
    reveal_strlit("device_xid");
    vstd::utf8::is_ascii_chars_encode_utf8("identity"@);
    vstd::utf8::is_ascii_chars_encode_utf8("device_xid"@);
    assert(cbor::text_item("identity"@)[0] == 3 * 32 + 8);
    assert(cbor::text_item("device_xid"@)[0] == 3 * 32 + 10);
}

/// The keys and values of the state file are strings, which do not nest.
proof fn lemma_entries_are_shallow(s: &BridgeState)
    ensures
        cbor::nest_within(s@.entries(), (STACK_KIB - CBOR_LEVEL_KIB) as nat),
{
    let stack = (STACK_KIB - CBOR_LEVEL_KIB) as nat;
    let level = CBOR_LEVEL_KIB as nat;
    lemma_keys();
    assert(s.identity.encoded.len() <= u64::MAX);
    nesting::lemma_string_nests_within(3, vstd::utf8::encode_utf8("identity"@), stack, level);
    nesting::lemma_string_nests_within(3, vstd::utf8::encode_utf8("device_xid"@), stack, level);
    nesting::lemma_string_nests_within(2, s.identity.encoded@, stack, level);
    if let Some(d) = s.device_xid {
        assert(d.len() <= u64::MAX);
        nesting::lemma_string_nests_within(2, d@, stack, level);
    }
}

/// A document in its own encoding is read back as it is.
proof fn lemma_own_encoding_is_read(d: Seq<u8>)
    requires
        is_own_encoding(d),
    ensures
        xid_reading(d) == XidReadingView::Document(d),
{
    nesting::lemma_nests_within_wider(
        d,
        STACK_KIB as nat,
        DOCUMENT_LEVEL_KIB as nat,
        STACK_KIB as nat,
        CBOR_LEVEL_KIB as nat,
    );
}

/// The map of a state holds the identity and the paired device.
proof fn lemma_entries_read_back(s: BridgeStateView)
    ensures
        cbor::bytes_under(s.entries(), "identity"@) == Some(s.identity.encoded),
        cbor::bytes_under(s.entries(), "device_xid"@) == s.device_xid,
{
    lemma_keys();
    cbor::lemma_byte_string_content(s.identity.encoded);
    if let Some(d) = s.device_xid {
        cbor::lemma_byte_string_content(d);
    }
}

} // verus!
