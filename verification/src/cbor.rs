//! Deterministic CBOR: the trusted calls into `dcbor`, `bc_xid` and
//! `bc_envelope`, and the byte-level facts that the rest of the library needs.
//! What is read there has to have a shape that [`crate::nesting`] describes.

use crate::nesting;
use crate::nesting::{CBOR_LEVEL_KIB, DOCUMENT_LEVEL_KIB, STACK_KIB};
use dcbor::CBOREncodable;
use vstd::prelude::*;

verus! {

// ---------------------------------------------------------------------------
// Encoded items
// ---------------------------------------------------------------------------

/// The big-endian bytes of `n`, `count` of them.
pub open spec fn big_endian(n: nat, count: nat) -> Seq<u8>
    decreases count,
{
    if count == 0 {
        Seq::empty()
    } else {
        big_endian(n / 256, (count - 1) as nat).push((n % 256) as u8)
    }
}

/// The head of a CBOR item: the major type and, in the shortest form, its
/// argument.
pub open spec fn head(major: nat, n: nat) -> Seq<u8> {
    if n < 24 {
        seq![(major * 32 + n) as u8]
    } else if n < 0x100 {
        seq![(major * 32 + 24) as u8] + big_endian(n, 1)
    } else if n < 0x1_0000 {
        seq![(major * 32 + 25) as u8] + big_endian(n, 2)
    } else if n < 0x1_0000_0000 {
        seq![(major * 32 + 26) as u8] + big_endian(n, 4)
    } else {
        seq![(major * 32 + 27) as u8] + big_endian(n, 8)
    }
}

/// The encoding of the byte string `content`.
pub open spec fn byte_string_item(content: Seq<u8>) -> Seq<u8> {
    head(2, content.len()) + content
}

/// The encoding of the text `s`.
pub open spec fn text_item(s: Seq<char>) -> Seq<u8> {
    head(3, vstd::utf8::encode_utf8(s).len()) + vstd::utf8::encode_utf8(s)
}

/// The content of the byte string that `item` encodes, or `None` where `item`
/// encodes something else.
pub open spec fn byte_string_content(item: Seq<u8>) -> Option<Seq<u8>> {
    if exists|content: Seq<u8>| item == #[trigger] byte_string_item(content) {
        Some(choose|content: Seq<u8>| item == #[trigger] byte_string_item(content))
    } else {
        None
    }
}

/// A byte string is read back from its encoding.
pub proof fn lemma_byte_string_content(content: Seq<u8>)
    ensures
        byte_string_content(byte_string_item(content)) == Some(content),
{
    let item = byte_string_item(content);
    assert(item == byte_string_item(content));
    let found = choose|c: Seq<u8>| item == #[trigger] byte_string_item(c);
    assert(head(2, content.len())[0] == item[0]);
    assert(head(2, found.len())[0] == item[0]);
    lemma_big_endian_len(content.len());
    lemma_big_endian_len(found.len());
    assert(head(2, content.len()).len() == head(2, found.len()).len());
    let n = head(2, content.len()).len() as int;
    assert(content =~= item.skip(n));
    assert(found =~= item.skip(n));
}

proof fn lemma_big_endian_len(n: nat)
    ensures
        big_endian(n, 1).len() == 1,
        big_endian(n, 2).len() == 2,
        big_endian(n, 4).len() == 4,
        big_endian(n, 8).len() == 8,
{
    reveal_with_fuel(big_endian, 9);
}

// ---------------------------------------------------------------------------
// Well-formed data
// ---------------------------------------------------------------------------

/// Whether `dcbor` accepts `data` as one deterministic CBOR item.
pub uninterp spec fn well_formed(data: Seq<u8>) -> bool;

/// Calls `dcbor::CBOR::try_from_data` and says whether it accepts `data`: one
/// well-formed item in deterministic encoding with nothing behind it.
///
/// Reading calls itself for each item inside another, so `data` has to be
/// shallow.
#[verifier::external_body]
pub(crate) fn is_cbor(data: &Vec<u8>) -> (r: bool)
    requires
        nesting::nests_within(data@, STACK_KIB as nat, CBOR_LEVEL_KIB as nat),
    ensures
        r == well_formed(data@),
{
    dcbor::CBOR::try_from_data(data).is_ok()
}

// ---------------------------------------------------------------------------
// Maps
// ---------------------------------------------------------------------------

/// `dcbor::Map`, whose keys and values are CBOR items.
#[verifier::external_type_specification]
#[verifier::external_body]
pub struct ExCborMap(dcbor::Map);

/// What a `dcbor` map holds: the encoding of each value by the encoding of its
/// key.
pub uninterp spec fn map_entries(map: dcbor::Map) -> Map<Seq<u8>, Seq<u8>>;

/// The encoding of the map that holds `entries`.
pub uninterp spec fn map_data(entries: Map<Seq<u8>, Seq<u8>>) -> Seq<u8>;

/// What the map that `data` encodes holds, or `None` where `data` does not
/// encode a map.
pub uninterp spec fn decoded_map(data: Seq<u8>) -> Option<Map<Seq<u8>, Seq<u8>>>;

/// `dcbor::Map::new`: a map without entries.
#[verifier::external_body]
pub(crate) fn new_map() -> (map: dcbor::Map)
    ensures
        map_entries(map).dom() == Set::<Seq<u8>>::empty(),
{
    dcbor::Map::new()
}

/// `dcbor::Map::insert` of a byte string under a text key, which replaces what
/// stood there.
///
/// `dcbor` encodes a text in its normalized form; an ASCII text is in it as it
/// stands.
#[verifier::external_body]
pub(crate) fn insert_bytes(map: &mut dcbor::Map, key: &str, value: &Vec<u8>)
    requires
        key.is_ascii(),
    ensures
        map_entries(*final(map)) == map_entries(*old(map)).insert(
            text_item(key@),
            byte_string_item(value@),
        ),
{
    map.insert(key, dcbor::ByteString::from(value));
}

/// `dcbor::Map::get` of a byte string under a text key: the content of the
/// byte string that stands there, and `None` where nothing or another kind of
/// item does.
#[verifier::external_body]
pub(crate) fn get_bytes(map: &dcbor::Map, key: &str) -> (r: Option<Vec<u8>>)
    requires
        key.is_ascii(),
    ensures
        bytes_view(r) == bytes_under(map_entries(*map), key@),
{
    map.get::<&str, dcbor::ByteString>(key).map(|bytes| bytes.into())
}

/// Encodes a map by `dcbor::CBOR::to_cbor_data`. The result is a well-formed
/// item that nests one level deeper than its keys and values, and reading it
/// gives a map with the same entries.
#[verifier::external_body]
pub(crate) fn encode_map(map: dcbor::Map) -> (r: Vec<u8>)
    requires
        nest_within(map_entries(map), (STACK_KIB - CBOR_LEVEL_KIB) as nat),
    ensures
        r@ == map_data(map_entries(map)),
        nesting::nests_within(r@, STACK_KIB as nat, CBOR_LEVEL_KIB as nat),
        well_formed(r@),
        decoded_map(r@) == Some(map_entries(map)),
{
    dcbor::CBOR::from(map).to_cbor_data()
}

/// Reads `data` by `dcbor::CBOR::try_from_data` and gives the map that it
/// encodes, and `None` where it is not well-formed or encodes another kind of
/// item.
#[verifier::external_body]
pub(crate) fn decode_map(data: &Vec<u8>) -> (r: Option<dcbor::Map>)
    requires
        nesting::nests_within(data@, STACK_KIB as nat, CBOR_LEVEL_KIB as nat),
    ensures
        decoded_map(data@) == (match r {
            Some(map) => Some(map_entries(map)),
            None => None,
        }),
        r is Some ==> well_formed(data@),
{
    match dcbor::CBOR::try_from_data(data).ok()?.into_case() {
        dcbor::CBORCase::Map(map) => Some(map),
        _ => None,
    }
}

/// Whether every key and every value takes no more than `stack` KiB of stack.
pub open spec fn nest_within(entries: Map<Seq<u8>, Seq<u8>>, stack: nat) -> bool {
    forall|key: Seq<u8>| #[trigger]
        entries.contains_key(key) ==> nesting::nests_within(key, stack, CBOR_LEVEL_KIB as nat)
            && nesting::nests_within(entries[key], stack, CBOR_LEVEL_KIB as nat)
}

/// The view of an optional run of bytes.
pub open spec fn bytes_view(bytes: Option<Vec<u8>>) -> Option<Seq<u8>> {
    match bytes {
        Some(b) => Some(b@),
        None => None,
    }
}

/// The content of the byte string under the text `key`, or `None` where
/// nothing or another kind of item stands there.
pub open spec fn bytes_under(entries: Map<Seq<u8>, Seq<u8>>, key: Seq<char>) -> Option<Seq<u8>> {
    if entries.contains_key(text_item(key)) {
        byte_string_content(entries[text_item(key)])
    } else {
        None
    }
}

/// A byte string is found under a key just where the map has its encoding there.
pub proof fn law_bytes_stand_under_their_key(
    entries: Map<Seq<u8>, Seq<u8>>,
    key: Seq<char>,
    content: Seq<u8>,
)
    ensures
        bytes_under(entries, key) == Some(content) <==> (entries.contains_key(text_item(key))
            && entries[text_item(key)] == byte_string_item(content)),
{
    lemma_byte_string_content(content);
    if bytes_under(entries, key) == Some(content) {
        let item = entries[text_item(key)];
        let found = choose|c: Seq<u8>| item == #[trigger] byte_string_item(c);
        assert(item == byte_string_item(found) && found == content);
    }
}

// ---------------------------------------------------------------------------
// XID documents and envelopes
// ---------------------------------------------------------------------------

/// The encoding of the XID document that `data` holds, or `None` where `data`
/// holds none.
pub uninterp spec fn xid_document_data(data: Seq<u8>) -> Option<Seq<u8>>;

/// Whether `data` has the shape in which an XID document can be read.
pub open spec fn can_hold_xid(data: Seq<u8>) -> bool {
    &&& nesting::nests_within(data, STACK_KIB as nat, DOCUMENT_LEVEL_KIB as nat)
    &&& nesting::packed_fits(data, STACK_KIB as nat, DOCUMENT_LEVEL_KIB as nat)
    &&& nesting::flat_nodes(data)
    &&& nesting::signing_keys_are_pairs(data)
}

/// The shape of an XID document takes ten KiB of stack for a level and no more
/// than there are, and leaves out what the readers of documents stop at, and
/// nothing else.
pub proof fn law_xid_shape(data: Seq<u8>)
    ensures
        can_hold_xid(data) <==> (nesting::nests_within(data, 1792, 10) && nesting::packed_fits(
            data,
            1792,
            10,
        ) && nesting::flat_nodes(data) && nesting::signing_keys_are_pairs(data)),
{
}

/// Reads `data` as an XID document, by `dcbor::CBOR::try_from_data` and
/// `bc_xid::XIDDocument::try_from`, and encodes the document again.
///
/// Only well-formed data is accepted. What comes out is itself an XID document
/// that is encoded as it stands: encoding writes the parts of a document in one
/// fixed order, leaves nothing to chance, and every part that it writes is read
/// back.
///
/// Reading calls itself for each item inside another, reads the additional data
/// of encrypted messages and the information in provenance marks as CBOR again,
/// counts on no node as the subject of an assertion that it looks up, and on two
/// items in a private signing key that is an array.
#[verifier::external_body]
pub(crate) fn xid_document(data: &Vec<u8>) -> (r: Option<Vec<u8>>)
    requires
        can_hold_xid(data@),
    ensures
        bytes_view(r) == xid_document_data(data@),
        r is Some ==> well_formed(data@),
        r matches Some(d) ==> well_formed(d@) && xid_document_data(d@) == Some(d@),
{
    let cbor = dcbor::CBOR::try_from_data(data).ok()?;
    let document = bc_xid::XIDDocument::try_from(cbor).ok()?;
    Some(document.to_cbor_data())
}

/// Whether `data` encodes a Gordian envelope.
pub uninterp spec fn envelope_data(data: Seq<u8>) -> bool;

/// Says whether `dcbor::CBOR::try_from_data` and
/// `bc_envelope::Envelope::try_from_cbor` accept `data`. Only well-formed data
/// is accepted.
///
/// Reading calls itself for each item inside another, and reads the additional
/// data of encrypted messages as CBOR again.
#[verifier::external_body]
pub(crate) fn is_envelope(data: &Vec<u8>) -> (r: bool)
    requires
        nesting::nests_within(data@, STACK_KIB as nat, CBOR_LEVEL_KIB as nat),
        nesting::packed_fits(data@, STACK_KIB as nat, CBOR_LEVEL_KIB as nat),
    ensures
        r == envelope_data(data@),
        r ==> well_formed(data@),
{
    match dcbor::CBOR::try_from_data(data) {
        Ok(cbor) => bc_envelope::Envelope::try_from_cbor(cbor).is_ok(),
        Err(_) => false,
    }
}

} // verus!
