//! JSON objects whose members are all strings.

use vstd::prelude::*;

verus! {

/// The members of an object: names and values.
pub open spec fn members_view(members: Seq<(String, String)>) -> Seq<(Seq<char>, Seq<char>)> {
    members.map_values(|m: (String, String)| (m.0@, m.1@))
}

/// The compact JSON text, in UTF-8, of the object with these members.
pub uninterp spec fn object_data(members: Seq<(Seq<char>, Seq<char>)>) -> Seq<u8>;

/// `serde_json::to_vec` of an object with these members, where a later member
/// takes the place of an earlier one of its name.
///
/// The text holds no control character: the compact form puts nothing between
/// its parts, and inside a string control characters are escaped.
#[verifier::external_body]
pub(crate) fn encode_object(members: Vec<(String, String)>) -> (r: Vec<u8>)
    ensures
        r@ == object_data(members_view(members@)),
        forall|i: int| 0 <= i < r.len() ==> r[i] >= 0x20,
{
    let object: serde_json::Map<String, serde_json::Value> = members
        .into_iter()
        .map(|(name, value)| (name, serde_json::Value::String(value)))
        .collect();
    serde_json::to_vec(&serde_json::Value::Object(object)).unwrap_or_default()
}

} // verus!
