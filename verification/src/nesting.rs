//! The shape of CBOR data, read off the heads of its items.
//!
//! The crates that read CBOR call themselves for each item inside another, and
//! some of what they read they expect to be built in one way only. The walk here
//! goes over the heads of the items alone and tells, before anything is read,
//! whether data stays within the shape that can be read safely.

use crate::cbor;
use vstd::prelude::*;

verus! {

/// The stack, in KiB, that reading may take: that of a thread as `std` makes it
/// where nothing else is asked for, which holds 2048, less 256 for the callers.
pub const STACK_KIB: u32 = 1792;

/// The stack, in KiB, that one level of nesting takes at most while CBOR or an
/// envelope is read or written. Measured were 4.3 for CBOR and 5.0 for an
/// envelope, in a build without optimizations, which takes the most.
pub const CBOR_LEVEL_KIB: u32 = 5;

/// The stack, in KiB, that one level of nesting takes at most while an XID
/// document is read or written. Measured were 9.6 for a chain of delegates, in
/// a build without optimizations, which takes the most.
pub const DOCUMENT_LEVEL_KIB: u32 = 10;

/// How deeply CBOR and envelopes may nest.
pub const MAX_NESTING: u32 = STACK_KIB / CBOR_LEVEL_KIB;

/// How deeply XID documents may nest.
pub const MAX_DOCUMENT_NESTING: u32 = STACK_KIB / DOCUMENT_LEVEL_KIB;

/// The tags of a leaf of an envelope, which holds CBOR of any kind.
pub const TAG_ENCODED_CBOR: u64 = 24;

pub const TAG_LEAF: u64 = 201;

/// The tag of an envelope, also of one wrapped in another.
pub const TAG_ENVELOPE: u64 = 200;

/// The tag of an encrypted message: an array whose fourth item, a byte string,
/// is itself read as CBOR.
pub const TAG_ENCRYPTED: u64 = 40002;

/// The tag of a provenance mark: an array whose second item, a byte string,
/// holds CBOR that is enciphered.
pub const TAG_PROVENANCE_MARK: u64 = 1347571542;

/// The tag of a private signing key, which as an array is a pair.
pub const TAG_SIGNING_PRIVATE_KEY: u64 = 40021;

/// The known values that stand before what is looked into: attachments, keys,
/// delegates, provenance, private keys and generators of provenance marks.
pub const KNOWN_KEY: u64 = 8;

pub const KNOWN_ATTACHMENT: u64 = 50;

pub const KNOWN_DELEGATE: u64 = 63;

pub const KNOWN_PROVENANCE: u64 = 64;

pub const KNOWN_PRIVATE_KEY: u64 = 65;

pub const KNOWN_PROVENANCE_GENERATOR: u64 = 68;

// ---------------------------------------------------------------------------
// Heads
// ---------------------------------------------------------------------------

/// The head of an item: its major type, its argument, and the position behind
/// it.
pub struct Head {
    pub major: u8,
    pub argument: u64,
    pub body: usize,
}

/// The contents of a `Head`.
#[verifier::ext_equal]
pub struct HeadView {
    pub major: int,
    pub argument: nat,
    pub body: int,
}

impl View for Head {
    type V = HeadView;

    open spec fn view(&self) -> HeadView {
        HeadView {
            major: self.major as int,
            argument: self.argument as nat,
            body: self.body as int,
        }
    }
}

/// The number that `count` bytes from `from` on give, most significant first.
pub open spec fn number(data: Seq<u8>, from: int, count: nat) -> nat
    decreases count,
{
    if count == 0 {
        0
    } else {
        number(data, from, (count - 1) as nat) * 256 + data[from + count - 1] as nat
    }
}

/// How many bytes the argument takes behind the first byte of a head with the
/// additional information `info`, or `None` where there is no such head.
pub open spec fn argument_len(info: int) -> Option<nat> {
    if info < 24 {
        Some(0)
    } else if info == 24 {
        Some(1)
    } else if info == 25 {
        Some(2)
    } else if info == 26 {
        Some(4)
    } else if info == 27 {
        Some(8)
    } else {
        None
    }
}

/// The head at `pos` in the part of `data` before `end`, or `None` where there
/// is none.
pub open spec fn head_at(data: Seq<u8>, pos: int, end: int) -> Option<HeadView> {
    if 0 <= pos < end {
        let major = data[pos] as int / 32;
        let info = data[pos] as int % 32;
        match argument_len(info) {
            Some(count) => if pos + 1 + count <= end {
                let argument = if count == 0 {
                    info as nat
                } else {
                    number(data, pos + 1, count)
                };
                Some(HeadView { major, argument, body: pos + 1 + count })
            } else {
                None
            },
            None => None,
        }
    } else {
        None
    }
}

/// 256 to the power of `count`.
spec fn pow256(count: nat) -> nat
    decreases count,
{
    if count == 0 {
        1
    } else {
        256 * pow256((count - 1) as nat)
    }
}

proof fn lemma_pow256()
    ensures
        pow256(0) == 1,
        pow256(1) == 0x100,
        pow256(2) == 0x1_0000,
        pow256(3) == 0x100_0000,
        pow256(4) == 0x1_0000_0000,
        pow256(5) == 0x100_0000_0000,
        pow256(6) == 0x1_0000_0000_0000,
        pow256(7) == 0x100_0000_0000_0000,
        pow256(8) == 0x1_0000_0000_0000_0000,
{
    reveal_with_fuel(pow256, 9);
}

fn read_number(data: &Vec<u8>, from: usize, count: usize) -> (r: u64)
    requires
        count <= 8,
        from + count <= data.len(),
    ensures
        r == number(data@, from as int, count as nat),
{
    let mut value: u64 = 0;
    let mut i: usize = 0;
    while i < count
        invariant
            i <= count <= 8,
            from + count <= data.len(),
            value == number(data@, from as int, i as nat),
            value < pow256(i as nat),
        decreases count - i,
    {
        proof {
            lemma_pow256();
            assert(pow256((i + 1) as nat) == 256 * pow256(i as nat));
            assert(pow256(i as nat) <= 0x100_0000_0000_0000) by {
                assert(i == 0 || i == 1 || i == 2 || i == 3 || i == 4 || i == 5 || i == 6 || i == 7);
            }
        }
        value = value * 256 + data[from + i] as u64;
        i = i + 1;
    }
    value
}

fn read_head(data: &Vec<u8>, pos: usize, end: usize) -> (r: Option<Head>)
    requires
        end <= data.len(),
    ensures
        head_at(data@, pos as int, end as int) == (match r {
            Some(h) => Some(h@),
            None => None,
        }),
        r matches Some(h) ==> pos < h.body <= end,
{
    if pos >= end {
        return None;
    }
    let major: u8 = data[pos] / 32;
    let info: u8 = data[pos] % 32;
    let count: usize = if info < 24 {
        0
    } else if info == 24 {
        1
    } else if info == 25 {
        2
    } else if info == 26 {
        4
    } else if info == 27 {
        8
    } else {
        return None;
    };
    if end - pos - 1 < count {
        return None;
    }
    let argument: u64 = if count == 0 {
        info as u64
    } else {
        read_number(data, pos + 1, count)
    };
    Some(Head { major, argument, body: pos + 1 + count })
}

// ---------------------------------------------------------------------------
// Places
// ---------------------------------------------------------------------------

/// Where an item stands, which decides what may stand there and inside it.
#[derive(Clone, Copy, Debug, PartialEq, Eq, Structural)]
pub enum Place {
    /// Anywhere: nothing but the depth matters.
    Any,
    /// Before the envelope of a document.
    Start,
    /// The envelope of a document. Where it wraps another, the document is the
    /// one inside; else its assertions are looked up.
    Document,
    /// What may be the wrapped document of a signed one.
    Signed,
    /// The object of a delegate: a wrapped document, and assertions that are
    /// looked up.
    Delegation,
    /// What may be the wrapped document of a delegate.
    Delegated,
    /// Another envelope whose assertions are looked up.
    Shell,
    /// An assertion that is looked up.
    Claim,
    /// What such an assertion says something of: an assertion itself, not a
    /// node again.
    Bare,
    /// Where CBOR inside byte strings may occur.
    Loose,
    /// Directly under the tag of an encrypted message.
    Encrypted,
    /// Behind the first item of an encrypted message: byte strings here may be
    /// read as CBOR.
    Packed,
    /// Directly under the tag of a provenance mark.
    Mark,
    /// Behind the first item of a provenance mark: byte strings here may hold
    /// enciphered CBOR.
    Enciphered,
    /// Where private signing keys may occur.
    Keys,
    /// Directly under the tag of a private signing key: an array here is a pair.
    Pair,
}

/// Whether the item at `pos` is a wrapped envelope.
pub open spec fn is_wrapped(data: Seq<u8>, pos: int, end: int) -> bool {
    head_at(data, pos, end) matches Some(h) && h.major == 6 && h.argument == TAG_ENVELOPE
}

/// The place of the object of an assertion whose predicate stands at `pos`. A
/// known value that stands before nothing of interest, or a text, leaves the
/// object alone; anything else may stand for a known value.
pub open spec fn object_place(data: Seq<u8>, pos: int, end: int) -> Place {
    match head_at(data, pos, end) {
        Some(h) => if h.major == 0 {
            if h.argument == KNOWN_DELEGATE {
                Place::Delegation
            } else if h.argument == KNOWN_KEY || h.argument == KNOWN_ATTACHMENT || h.argument
                == KNOWN_PROVENANCE || h.argument == KNOWN_PRIVATE_KEY || h.argument
                == KNOWN_PROVENANCE_GENERATOR {
                Place::Shell
            } else {
                Place::Any
            }
        } else if h.major == 6 && (h.argument == TAG_ENCODED_CBOR || h.argument == TAG_LEAF) && (
        head_at(data, h.body, end) matches Some(leaf) && leaf.major == 3) {
            Place::Any
        } else {
            Place::Shell
        },
        None => Place::Any,
    }
}

impl Place {
    /// The place of the first item of an array, where `wrapped` says whether
    /// that is a wrapped envelope.
    pub open spec fn first(self, wrapped: bool) -> Place {
        match self {
            Place::Document => if wrapped {
                Place::Signed
            } else {
                Place::Any
            },
            Place::Delegation => Place::Delegated,
            Place::Claim => Place::Bare,
            Place::Loose | Place::Encrypted | Place::Packed | Place::Mark | Place::Enciphered => {
                Place::Loose
            },
            Place::Keys | Place::Pair => Place::Keys,
            _ => Place::Any,
        }
    }

    /// The place of the other items of an array, where `wrapped` says whether
    /// the first is a wrapped envelope.
    pub open spec fn rest(self, wrapped: bool) -> Place {
        match self {
            Place::Document => if wrapped {
                Place::Any
            } else {
                Place::Claim
            },
            Place::Delegation | Place::Shell | Place::Claim => Place::Claim,
            Place::Loose | Place::Packed | Place::Enciphered => Place::Loose,
            Place::Encrypted => Place::Packed,
            Place::Mark => Place::Enciphered,
            Place::Keys | Place::Pair => Place::Keys,
            _ => Place::Any,
        }
    }

    /// The place of the keys of a map.
    pub open spec fn key(self) -> Place {
        match self {
            Place::Loose | Place::Encrypted | Place::Packed | Place::Mark | Place::Enciphered => {
                Place::Loose
            },
            Place::Keys | Place::Pair => Place::Keys,
            _ => Place::Any,
        }
    }

    /// The place of a value of a map, where `object` is the place of the object
    /// should the map be an assertion.
    pub open spec fn value(self, object: Place) -> Place {
        match self {
            Place::Claim | Place::Bare => object,
            _ => self.key(),
        }
    }

    /// The place of the item under a tag.
    pub open spec fn tagged(self, tag: nat) -> Place {
        match self {
            Place::Start => if tag == TAG_ENVELOPE {
                Place::Document
            } else {
                Place::Start
            },
            Place::Document | Place::Signed => if tag == TAG_ENVELOPE {
                Place::Shell
            } else {
                Place::Any
            },
            Place::Delegation | Place::Delegated => if tag == TAG_ENVELOPE {
                Place::Document
            } else {
                Place::Any
            },
            Place::Loose | Place::Encrypted | Place::Packed | Place::Mark | Place::Enciphered => {
                if tag == TAG_ENCRYPTED {
                    Place::Encrypted
                } else if tag == TAG_PROVENANCE_MARK {
                    Place::Mark
                } else {
                    Place::Loose
                }
            },
            Place::Keys | Place::Pair => if tag == TAG_SIGNING_PRIVATE_KEY {
                Place::Pair
            } else {
                Place::Keys
            },
            _ => Place::Any,
        }
    }
}

fn read_wrapped(data: &Vec<u8>, pos: usize, end: usize) -> (r: bool)
    requires
        end <= data.len(),
    ensures
        r == is_wrapped(data@, pos as int, end as int),
{
    match read_head(data, pos, end) {
        Some(h) => h.major == 6 && h.argument == TAG_ENVELOPE,
        None => false,
    }
}

fn read_object_place(data: &Vec<u8>, pos: usize, end: usize) -> (r: Place)
    requires
        end <= data.len(),
    ensures
        r == object_place(data@, pos as int, end as int),
{
    let h = match read_head(data, pos, end) {
        Some(h) => h,
        None => {
            return Place::Any;
        },
    };
    if h.major == 0 {
        if h.argument == KNOWN_DELEGATE {
            Place::Delegation
        } else if h.argument == KNOWN_KEY || h.argument == KNOWN_ATTACHMENT || h.argument
            == KNOWN_PROVENANCE || h.argument == KNOWN_PRIVATE_KEY || h.argument
            == KNOWN_PROVENANCE_GENERATOR {
            Place::Shell
        } else {
            Place::Any
        }
    } else if h.major == 6 && (h.argument == TAG_ENCODED_CBOR || h.argument == TAG_LEAF) {
        match read_head(data, h.body, end) {
            Some(leaf) => if leaf.major == 3 {
                Place::Any
            } else {
                Place::Shell
            },
            None => Place::Shell,
        }
    } else {
        Place::Shell
    }
}

fn first_place(place: Place, wrapped: bool) -> (r: Place)
    ensures
        r == place.first(wrapped),
{
    match place {
        Place::Document => if wrapped {
            Place::Signed
        } else {
            Place::Any
        },
        Place::Delegation => Place::Delegated,
        Place::Claim => Place::Bare,
        Place::Loose | Place::Encrypted | Place::Packed | Place::Mark | Place::Enciphered => {
            Place::Loose
        },
        Place::Keys | Place::Pair => Place::Keys,
        _ => Place::Any,
    }
}

fn rest_place(place: Place, wrapped: bool) -> (r: Place)
    ensures
        r == place.rest(wrapped),
{
    match place {
        Place::Document => if wrapped {
            Place::Any
        } else {
            Place::Claim
        },
        Place::Delegation | Place::Shell | Place::Claim => Place::Claim,
        Place::Loose | Place::Packed | Place::Enciphered => Place::Loose,
        Place::Encrypted => Place::Packed,
        Place::Mark => Place::Enciphered,
        Place::Keys | Place::Pair => Place::Keys,
        _ => Place::Any,
    }
}

fn key_place(place: Place) -> (r: Place)
    ensures
        r == place.key(),
{
    match place {
        Place::Loose | Place::Encrypted | Place::Packed | Place::Mark | Place::Enciphered => {
            Place::Loose
        },
        Place::Keys | Place::Pair => Place::Keys,
        _ => Place::Any,
    }
}

fn value_place(place: Place, object: Place) -> (r: Place)
    ensures
        r == place.value(object),
{
    match place {
        Place::Claim | Place::Bare => object,
        _ => key_place(place),
    }
}

fn tagged_place(place: Place, tag: u64) -> (r: Place)
    ensures
        r == place.tagged(tag as nat),
{
    match place {
        Place::Start => if tag == TAG_ENVELOPE {
            Place::Document
        } else {
            Place::Start
        },
        Place::Document | Place::Signed => if tag == TAG_ENVELOPE {
            Place::Shell
        } else {
            Place::Any
        },
        Place::Delegation | Place::Delegated => if tag == TAG_ENVELOPE {
            Place::Document
        } else {
            Place::Any
        },
        Place::Loose | Place::Encrypted | Place::Packed | Place::Mark | Place::Enciphered => {
            if tag == TAG_ENCRYPTED {
                Place::Encrypted
            } else if tag == TAG_PROVENANCE_MARK {
                Place::Mark
            } else {
                Place::Loose
            }
        },
        Place::Keys | Place::Pair => if tag == TAG_SIGNING_PRIVATE_KEY {
            Place::Pair
        } else {
            Place::Keys
        },
        _ => Place::Any,
    }
}

// ---------------------------------------------------------------------------
// The walk
// ---------------------------------------------------------------------------

/// What comes of a walk over items.
pub enum Walk {
    /// They end before this position.
    End(usize),
    /// They do not end, or one stands where it may not.
    Broken,
    /// They nest more deeply than the stack holds.
    TooDeep,
}

/// The contents of a `Walk`.
pub enum WalkView {
    End(int),
    Broken,
    TooDeep,
}

impl View for Walk {
    type V = WalkView;

    open spec fn view(&self) -> WalkView {
        match self {
            Walk::End(p) => WalkView::End(*p as int),
            Walk::Broken => WalkView::Broken,
            Walk::TooDeep => WalkView::TooDeep,
        }
    }
}

/// What comes of a walk over the item at `pos`, which stands in the given place
/// in the part of `data` before `end`, with a stack of `stack` KiB of which each
/// level takes `level`.
pub open spec fn item_walk(
    data: Seq<u8>,
    pos: int,
    end: int,
    stack: nat,
    level: nat,
    place: Place,
) -> WalkView
    decreases stack, 0nat,
{
    if level == 0 || stack < level {
        WalkView::TooDeep
    } else {
        let below = (stack - level) as nat;
        match head_at(data, pos, end) {
            Some(h) => if h.major == 2 || h.major == 3 {
                // A byte string or a text.
                let behind = h.body + h.argument;
                if behind > end {
                    WalkView::Broken
                } else if h.major == 2 && place == Place::Packed && item_walk(
                    data,
                    h.body,
                    behind,
                    below,
                    CBOR_LEVEL_KIB as nat,
                    Place::Any,
                ) is TooDeep {
                    WalkView::TooDeep
                } else if h.major == 2 && place == Place::Enciphered && h.argument * CBOR_LEVEL_KIB
                    > below {
                    // What cannot be seen may nest as deeply as it is long.
                    WalkView::TooDeep
                } else {
                    WalkView::End(behind)
                }
            } else if h.major == 4 {
                // An array.
                if place == Place::Bare || (place == Place::Pair && h.argument < 2) {
                    WalkView::Broken
                } else {
                    let wrapped = h.argument > 0 && is_wrapped(data, h.body, end);
                    items_walk(
                        data,
                        h.body,
                        end,
                        h.argument,
                        below,
                        level,
                        place.first(wrapped),
                        place.rest(wrapped),
                    )
                }
            } else if h.major == 5 {
                // A map.
                entries_walk(data, h.body, end, h.argument, below, level, place)
            } else if h.major == 6 {
                // An item under a tag.
                item_walk(data, h.body, end, below, level, place.tagged(h.argument))
            } else {
                // A number or a simple value.
                WalkView::End(h.body)
            },
            None => WalkView::Broken,
        }
    }
}

/// What comes of a walk over `count` items from `pos` on, of which the next
/// stands in the place `first` and the others in the place `rest`.
pub open spec fn items_walk(
    data: Seq<u8>,
    pos: int,
    end: int,
    count: nat,
    stack: nat,
    level: nat,
    first: Place,
    rest: Place,
) -> WalkView
    decreases stack, count,
{
    if count == 0 {
        WalkView::End(pos)
    } else {
        match item_walk(data, pos, end, stack, level, first) {
            WalkView::End(next) => items_walk(
                data,
                next,
                end,
                (count - 1) as nat,
                stack,
                level,
                rest,
                rest,
            ),
            other => other,
        }
    }
}

/// What comes of a walk over `count` entries, from `pos` on, of a map that
/// stands in the given place.
pub open spec fn entries_walk(
    data: Seq<u8>,
    pos: int,
    end: int,
    count: nat,
    stack: nat,
    level: nat,
    place: Place,
) -> WalkView
    decreases stack, count,
{
    if count == 0 {
        WalkView::End(pos)
    } else {
        match item_walk(data, pos, end, stack, level, place.key()) {
            WalkView::End(value) => match item_walk(
                data,
                value,
                end,
                stack,
                level,
                place.value(object_place(data, pos, end)),
            ) {
                WalkView::End(next) => entries_walk(
                    data,
                    next,
                    end,
                    (count - 1) as nat,
                    stack,
                    level,
                    place,
                ),
                other => other,
            },
            other => other,
        }
    }
}

/// Whether a walk over the item that starts in the given place ends where `data`
/// does.
pub open spec fn walks(data: Seq<u8>, stack: nat, level: nat, place: Place) -> bool {
    item_walk(data, 0, data.len() as int, stack, level, place) == WalkView::End(data.len() as int)
}

/// Whether `data` is one whole item, read off its heads, that takes no more than
/// `stack` KiB of stack where each level of nesting takes `level`.
pub open spec fn nests_within(data: Seq<u8>, stack: nat, level: nat) -> bool {
    walks(data, stack, level, Place::Any)
}

/// Whether CBOR that stands in byte strings of `data`, and is read with it, nests
/// no more deeply than the stack that is left there holds.
pub open spec fn packed_fits(data: Seq<u8>, stack: nat, level: nat) -> bool {
    walks(data, stack, level, Place::Loose)
}

/// Whether no assertion that is looked up in the XID document `data` is a node
/// whose subject is a node.
pub open spec fn flat_nodes(data: Seq<u8>) -> bool {
    walks(data, STACK_KIB as nat, DOCUMENT_LEVEL_KIB as nat, Place::Start)
}

/// Whether every private signing key in `data` that is an array has at least two
/// items.
pub open spec fn signing_keys_are_pairs(data: Seq<u8>) -> bool {
    walks(data, STACK_KIB as nat, DOCUMENT_LEVEL_KIB as nat, Place::Keys)
}

fn walk_item(
    data: &Vec<u8>,
    pos: usize,
    end: usize,
    stack: u32,
    level: u32,
    place: Place,
) -> (r: Walk)
    requires
        end <= data.len(),
    ensures
        r@ == item_walk(data@, pos as int, end as int, stack as nat, level as nat, place),
    decreases stack, 0nat,
{
    if level == 0 || stack < level {
        return Walk::TooDeep;
    }
    let below: u32 = stack - level;
    let h = match read_head(data, pos, end) {
        Some(h) => h,
        None => {
            return Walk::Broken;
        },
    };
    if h.major == 2 || h.major == 3 {
        if h.argument > (end - h.body) as u64 {
            return Walk::Broken;
        }
        let behind: usize = h.body + h.argument as usize;
        if h.major == 2 && place == Place::Packed {
            match walk_item(data, h.body, behind, below, CBOR_LEVEL_KIB, Place::Any) {
                Walk::TooDeep => {
                    return Walk::TooDeep;
                },
                _ => {},
            }
        }
        if h.major == 2 && place == Place::Enciphered && h.argument as u128
            * CBOR_LEVEL_KIB as u128 > below as u128 {
            return Walk::TooDeep;
        }
        Walk::End(behind)
    } else if h.major == 4 {
        if place == Place::Bare || (place == Place::Pair && h.argument < 2) {
            Walk::Broken
        } else {
            let wrapped = h.argument > 0 && read_wrapped(data, h.body, end);
            walk_items(
                data,
                h.body,
                end,
                h.argument,
                below,
                level,
                first_place(place, wrapped),
                rest_place(place, wrapped),
            )
        }
    } else if h.major == 5 {
        walk_entries(data, h.body, end, h.argument, below, level, place)
    } else if h.major == 6 {
        walk_item(data, h.body, end, below, level, tagged_place(place, h.argument))
    } else {
        Walk::End(h.body)
    }
}

fn walk_items(
    data: &Vec<u8>,
    pos: usize,
    end: usize,
    count: u64,
    stack: u32,
    level: u32,
    first: Place,
    rest: Place,
) -> (r: Walk)
    requires
        end <= data.len(),
    ensures
        r@ == items_walk(
            data@,
            pos as int,
            end as int,
            count as nat,
            stack as nat,
            level as nat,
            first,
            rest,
        ),
    decreases stack, 1nat,
{
    let mut at: usize = pos;
    let mut left: u64 = count;
    let mut place: Place = first;
    while left > 0
        invariant
            end <= data.len(),
            items_walk(
                data@,
                pos as int,
                end as int,
                count as nat,
                stack as nat,
                level as nat,
                first,
                rest,
            ) == items_walk(
                data@,
                at as int,
                end as int,
                left as nat,
                stack as nat,
                level as nat,
                place,
                rest,
            ),
        decreases left,
    {
        match walk_item(data, at, end, stack, level, place) {
            Walk::End(next) => {
                at = next;
            },
            other => {
                return other;
            },
        }
        left = left - 1;
        place = rest;
    }
    Walk::End(at)
}

fn walk_entries(
    data: &Vec<u8>,
    pos: usize,
    end: usize,
    count: u64,
    stack: u32,
    level: u32,
    place: Place,
) -> (r: Walk)
    requires
        end <= data.len(),
    ensures
        r@ == entries_walk(
            data@,
            pos as int,
            end as int,
            count as nat,
            stack as nat,
            level as nat,
            place,
        ),
    decreases stack, 1nat,
{
    let mut at: usize = pos;
    let mut left: u64 = count;
    while left > 0
        invariant
            end <= data.len(),
            entries_walk(
                data@,
                pos as int,
                end as int,
                count as nat,
                stack as nat,
                level as nat,
                place,
            ) == entries_walk(
                data@,
                at as int,
                end as int,
                left as nat,
                stack as nat,
                level as nat,
                place,
            ),
        decreases left,
    {
        let object = read_object_place(data, at, end);
        let value: usize = match walk_item(data, at, end, stack, level, key_place(place)) {
            Walk::End(value) => value,
            other => {
                return other;
            },
        };
        match walk_item(data, value, end, stack, level, value_place(place, object)) {
            Walk::End(next) => {
                at = next;
            },
            other => {
                return other;
            },
        }
        left = left - 1;
    }
    Walk::End(at)
}

fn walk_through(data: &Vec<u8>, level: u32, place: Place) -> (r: bool)
    ensures
        r == walks(data@, STACK_KIB as nat, level as nat, place),
{
    match walk_item(data, 0, data.len(), STACK_KIB, level, place) {
        Walk::End(end) => end == data.len(),
        _ => false,
    }
}

/// Whether `data` is one whole item, read off its heads, that does not nest too
/// deeply for a level of `level` KiB.
pub fn is_shallow(data: &Vec<u8>, level: u32) -> (r: bool)
    ensures
        r == nests_within(data@, STACK_KIB as nat, level as nat),
{
    walk_through(data, level, Place::Any)
}

/// Whether CBOR in byte strings of `data` does not nest too deeply, where outside
/// them a level takes `level` KiB.
pub fn is_packed_shallow(data: &Vec<u8>, level: u32) -> (r: bool)
    ensures
        r == packed_fits(data@, STACK_KIB as nat, level as nat),
{
    walk_through(data, level, Place::Loose)
}

/// Whether no assertion that is looked up in the XID document `data` is a node
/// whose subject is a node.
pub fn is_flat(data: &Vec<u8>) -> (r: bool)
    ensures
        r == flat_nodes(data@),
{
    walk_through(data, DOCUMENT_LEVEL_KIB, Place::Start)
}

/// Whether every private signing key in `data` that is an array has at least two
/// items.
pub fn has_paired_keys(data: &Vec<u8>) -> (r: bool)
    ensures
        r == signing_keys_are_pairs(data@),
{
    walk_through(data, DOCUMENT_LEVEL_KIB, Place::Keys)
}

// ---------------------------------------------------------------------------
// More stack, or less for a level
// ---------------------------------------------------------------------------

proof fn lemma_item_walk_wider(
    data: Seq<u8>,
    pos: int,
    end: int,
    stack: nat,
    level: nat,
    wider: nat,
    lower: nat,
)
    requires
        stack <= wider,
        0 < lower <= level,
        item_walk(data, pos, end, stack, level, Place::Any) is End,
    ensures
        item_walk(data, pos, end, wider, lower, Place::Any) == item_walk(
            data,
            pos,
            end,
            stack,
            level,
            Place::Any,
        ),
    decreases stack, 0nat,
{
    let below = (stack - level) as nat;
    let h = head_at(data, pos, end)->0;
    if h.major == 4 {
        lemma_items_walk_wider(
            data,
            h.body,
            end,
            h.argument,
            below,
            level,
            (wider - lower) as nat,
            lower,
        );
    } else if h.major == 5 {
        lemma_entries_walk_wider(
            data,
            h.body,
            end,
            h.argument,
            below,
            level,
            (wider - lower) as nat,
            lower,
        );
    } else if h.major == 6 {
        lemma_item_walk_wider(data, h.body, end, below, level, (wider - lower) as nat, lower);
    }
}

proof fn lemma_items_walk_wider(
    data: Seq<u8>,
    pos: int,
    end: int,
    count: nat,
    stack: nat,
    level: nat,
    wider: nat,
    lower: nat,
)
    requires
        stack <= wider,
        0 < lower <= level,
        items_walk(data, pos, end, count, stack, level, Place::Any, Place::Any) is End,
    ensures
        items_walk(data, pos, end, count, wider, lower, Place::Any, Place::Any) == items_walk(
            data,
            pos,
            end,
            count,
            stack,
            level,
            Place::Any,
            Place::Any,
        ),
    decreases stack, count,
{
    if count > 0 {
        lemma_item_walk_wider(data, pos, end, stack, level, wider, lower);
        if let WalkView::End(next) = item_walk(data, pos, end, stack, level, Place::Any) {
            lemma_items_walk_wider(
                data,
                next,
                end,
                (count - 1) as nat,
                stack,
                level,
                wider,
                lower,
            );
        }
    }
}

proof fn lemma_entries_walk_wider(
    data: Seq<u8>,
    pos: int,
    end: int,
    count: nat,
    stack: nat,
    level: nat,
    wider: nat,
    lower: nat,
)
    requires
        stack <= wider,
        0 < lower <= level,
        entries_walk(data, pos, end, count, stack, level, Place::Any) is End,
    ensures
        entries_walk(data, pos, end, count, wider, lower, Place::Any) == entries_walk(
            data,
            pos,
            end,
            count,
            stack,
            level,
            Place::Any,
        ),
    decreases stack, count,
{
    if count > 0 {
        lemma_item_walk_wider(data, pos, end, stack, level, wider, lower);
        if let WalkView::End(value) = item_walk(data, pos, end, stack, level, Place::Any) {
            lemma_item_walk_wider(data, value, end, stack, level, wider, lower);
            if let WalkView::End(next) = item_walk(data, value, end, stack, level, Place::Any) {
                lemma_entries_walk_wider(
                    data,
                    next,
                    end,
                    (count - 1) as nat,
                    stack,
                    level,
                    wider,
                    lower,
                );
            }
        }
    }
}

/// What nests within a stack nests within a larger one, and where a level takes
/// less.
pub proof fn lemma_nests_within_wider(
    data: Seq<u8>,
    stack: nat,
    level: nat,
    wider: nat,
    lower: nat,
)
    requires
        stack <= wider,
        0 < lower <= level,
        nests_within(data, stack, level),
    ensures
        nests_within(data, wider, lower),
{
    lemma_item_walk_wider(data, 0, data.len() as int, stack, level, wider, lower);
}

// ---------------------------------------------------------------------------
// Items inside others
// ---------------------------------------------------------------------------

/// What comes of a walk, seen from `by` positions earlier.
spec fn shifted(walk: WalkView, by: int) -> WalkView {
    match walk {
        WalkView::End(pos) => WalkView::End(pos + by),
        other => other,
    }
}

proof fn lemma_number_shifted(before: Seq<u8>, data: Seq<u8>, from: int, count: nat)
    requires
        0 <= from,
        from + count <= data.len(),
    ensures
        number(before + data, before.len() + from, count) == number(data, from, count),
    decreases count,
{
    if count > 0 {
        lemma_number_shifted(before, data, from, (count - 1) as nat);
    }
}

proof fn lemma_head_shifted(before: Seq<u8>, data: Seq<u8>, pos: int, end: int)
    requires
        0 <= pos,
        end <= data.len(),
    ensures
        head_at(before + data, before.len() + pos, before.len() + end) == (match head_at(
            data,
            pos,
            end,
        ) {
            Some(h) => Some(HeadView { body: before.len() + h.body, ..h }),
            None => None,
        }),
        head_at(data, pos, end) matches Some(h) ==> pos < h.body <= end,
{
    if pos < end {
        assert((before + data)[before.len() + pos] == data[pos]);
        if let Some(count) = argument_len(data[pos] as int % 32) {
            if pos + 1 + count <= end {
                lemma_number_shifted(before, data, pos + 1, count);
            }
        }
    }
}

proof fn lemma_item_shifted(
    before: Seq<u8>,
    data: Seq<u8>,
    pos: int,
    end: int,
    stack: nat,
    level: nat,
    place: Place,
)
    requires
        0 <= pos,
        end <= data.len(),
    ensures
        item_walk(before + data, before.len() + pos, before.len() + end, stack, level, place)
            == shifted(item_walk(data, pos, end, stack, level, place), before.len() as int),
        item_walk(data, pos, end, stack, level, place) matches WalkView::End(next) ==> pos < next
            <= end,
    decreases stack, 0nat,
{
    if level > 0 && stack >= level {
        let below = (stack - level) as nat;
        lemma_head_shifted(before, data, pos, end);
        if let Some(h) = head_at(data, pos, end) {
            if h.major == 2 && h.body + h.argument <= end {
                lemma_item_shifted(
                    before,
                    data,
                    h.body,
                    h.body + h.argument,
                    below,
                    CBOR_LEVEL_KIB as nat,
                    Place::Any,
                );
            } else if h.major == 4 {
                lemma_head_shifted(before, data, h.body, end);
                let wrapped = h.argument > 0 && is_wrapped(data, h.body, end);
                lemma_items_shifted(
                    before,
                    data,
                    h.body,
                    end,
                    h.argument,
                    below,
                    level,
                    place.first(wrapped),
                    place.rest(wrapped),
                );
            } else if h.major == 5 {
                lemma_entries_shifted(before, data, h.body, end, h.argument, below, level, place);
            } else if h.major == 6 {
                lemma_item_shifted(
                    before,
                    data,
                    h.body,
                    end,
                    below,
                    level,
                    place.tagged(h.argument),
                );
            }
        }
    }
}

proof fn lemma_items_shifted(
    before: Seq<u8>,
    data: Seq<u8>,
    pos: int,
    end: int,
    count: nat,
    stack: nat,
    level: nat,
    first: Place,
    rest: Place,
)
    requires
        0 <= pos <= end <= data.len(),
    ensures
        items_walk(
            before + data,
            before.len() + pos,
            before.len() + end,
            count,
            stack,
            level,
            first,
            rest,
        ) == shifted(
            items_walk(data, pos, end, count, stack, level, first, rest),
            before.len() as int,
        ),
        items_walk(data, pos, end, count, stack, level, first, rest) matches WalkView::End(next)
            ==> pos <= next <= end,
    decreases stack, count,
{
    if count > 0 {
        lemma_item_shifted(before, data, pos, end, stack, level, first);
        if let WalkView::End(next) = item_walk(data, pos, end, stack, level, first) {
            lemma_items_shifted(
                before,
                data,
                next,
                end,
                (count - 1) as nat,
                stack,
                level,
                rest,
                rest,
            );
        }
    }
}

proof fn lemma_entries_shifted(
    before: Seq<u8>,
    data: Seq<u8>,
    pos: int,
    end: int,
    count: nat,
    stack: nat,
    level: nat,
    place: Place,
)
    requires
        0 <= pos <= end <= data.len(),
    ensures
        entries_walk(
            before + data,
            before.len() + pos,
            before.len() + end,
            count,
            stack,
            level,
            place,
        ) == shifted(
            entries_walk(data, pos, end, count, stack, level, place),
            before.len() as int,
        ),
        entries_walk(data, pos, end, count, stack, level, place) matches WalkView::End(next)
            ==> pos <= next <= end,
    decreases stack, count,
{
    if count > 0 {
        lemma_head_shifted(before, data, pos, end);
        if let Some(h) = head_at(data, pos, end) {
            lemma_head_shifted(before, data, h.body, end);
        }
        assert(object_place(before + data, before.len() + pos, before.len() + end) == object_place(
            data,
            pos,
            end,
        ));
        lemma_item_shifted(before, data, pos, end, stack, level, place.key());
        if let WalkView::End(value) = item_walk(data, pos, end, stack, level, place.key()) {
            let object = object_place(data, pos, end);
            lemma_item_shifted(before, data, value, end, stack, level, place.value(object));
            if let WalkView::End(next) = item_walk(
                data,
                value,
                end,
                stack,
                level,
                place.value(object),
            ) {
                lemma_entries_shifted(
                    before,
                    data,
                    next,
                    end,
                    (count - 1) as nat,
                    stack,
                    level,
                    place,
                );
            }
        }
    }
}

proof fn lemma_inside_one(byte: u8, data: Seq<u8>, stack: nat, level: nat, place: Place)
    requires
        level > 0,
        byte == 0x81 || 0xc0 <= byte <= 0xd7,
        place == Place::Any || place == Place::Loose || place == Place::Keys,
    ensures
        walks(seq![byte] + data, stack + level, level, place) <==> walks(
            data,
            stack,
            level,
            place,
        ),
{
    let whole = seq![byte] + data;
    let end = whole.len() as int;
    assert(whole[0] == byte);
    lemma_item_shifted(seq![byte], data, 0, data.len() as int, stack, level, place);
    let h = head_at(whole, 0, end)->0;
    assert(h.body == 1);
    if byte == 0x81 {
        assert(h.major == 4 && h.argument == 1);
        let wrapped = is_wrapped(whole, 1, end);
        assert(place.first(wrapped) == place);
        let inner = item_walk(whole, 1, end, stack, level, place);
        assert(items_walk(whole, 1, end, 1, stack, level, place, place.rest(wrapped)) == inner) by {
            reveal_with_fuel(items_walk, 2);
        }
        assert(item_walk(whole, 0, end, stack + level, level, place) == inner);
    } else {
        assert(h.major == 6 && h.argument < 24);
        assert(place.tagged(h.argument) == place);
        assert(item_walk(whole, 0, end, stack + level, level, place) == item_walk(
            whole,
            1,
            end,
            stack,
            level,
            place,
        ));
    }
}

/// An item takes one level more inside an array, or under a tag, than by itself,
/// and no item takes less than a level.
pub proof fn law_each_level_takes_its_stack(byte: u8, data: Seq<u8>, stack: nat, level: nat)
    requires
        level > 0,
        byte == 0x81 || 0xc0 <= byte <= 0xd7,
    ensures
        nests_within(seq![byte] + data, stack + level, level) <==> nests_within(data, stack, level),
        stack < level ==> !nests_within(data, stack, level),
{
    lemma_inside_one(byte, data, stack, level, Place::Any);
}

/// CBOR inside byte strings is looked for at every depth.
pub proof fn law_packed_is_looked_for_inside(byte: u8, data: Seq<u8>, stack: nat, level: nat)
    requires
        level > 0,
        byte == 0x81 || 0xc0 <= byte <= 0xd7,
    ensures
        packed_fits(seq![byte] + data, stack + level, level) <==> packed_fits(data, stack, level),
{
    lemma_inside_one(byte, data, stack, level, Place::Loose);
}

/// A private signing key, which stands under the tag 40021, is no array of none
/// or one item.
pub proof fn law_signing_keys_are_no_short_arrays(short: u8, rest: Seq<u8>)
    requires
        short == 0x80 || short == 0x81,
    ensures
        !signing_keys_are_pairs(seq![0xd9u8, 0x9c, 0x55, short] + rest),
{
    let data = seq![0xd9u8, 0x9c, 0x55, short] + rest;
    let end = data.len() as int;
    assert(data[0] == 0xd9 && data[1] == 0x9c && data[2] == 0x55 && data[3] == short);
    reveal_with_fuel(number, 3);
    assert(head_at(data, 0, end) == Some(HeadView { major: 6, argument: 40021, body: 3 }));
    assert(head_at(data, 3, end) == Some(
        HeadView { major: 4, argument: (short - 0x80) as nat, body: 4 },
    ));
    reveal_with_fuel(item_walk, 3);
}

// ---------------------------------------------------------------------------
// Strings
// ---------------------------------------------------------------------------

/// The bytes of a number give it back.
proof fn lemma_number_of_big_endian(n: nat, count: nat, data: Seq<u8>, from: int)
    requires
        n < pow256(count),
        0 <= from,
        from + count <= data.len(),
        data.subrange(from, from + count) == cbor::big_endian(n, count),
    ensures
        number(data, from, count) == n,
    decreases count,
{
    if count > 0 {
        let bytes = cbor::big_endian(n, count);
        let fewer = (count - 1) as nat;
        assert(pow256(count) == 256 * pow256(fewer));
        lemma_big_endian_len(n / 256, fewer);
        assert(bytes.len() == count);
        assert(bytes.drop_last() =~= cbor::big_endian(n / 256, fewer));
        assert(data.subrange(from, from + fewer) =~= bytes.drop_last());
        lemma_number_of_big_endian(n / 256, fewer, data, from);
        assert(data[from + count - 1] == bytes[count - 1]);
    }
}

proof fn lemma_big_endian_len(n: nat, count: nat)
    ensures
        cbor::big_endian(n, count).len() == count,
    decreases count,
{
    if count > 0 {
        lemma_big_endian_len(n / 256, (count - 1) as nat);
    }
}

/// A byte string or a text takes no more than one level.
pub proof fn lemma_string_nests_within(major: nat, content: Seq<u8>, stack: nat, level: nat)
    requires
        major == 2 || major == 3,
        content.len() <= u64::MAX,
        0 < level <= stack,
    ensures
        nests_within(cbor::head(major, content.len()) + content, stack, level),
{
    let n = content.len();
    let head = cbor::head(major, n);
    let data = head + content;
    lemma_pow256();
    lemma_big_endian_len(n, 1);
    lemma_big_endian_len(n, 2);
    lemma_big_endian_len(n, 4);
    lemma_big_endian_len(n, 8);
    assert(data[0] == head[0]);
    if n < 24 {
    } else if n < 0x100 {
        assert(data.subrange(1, 2) =~= cbor::big_endian(n, 1));
        lemma_number_of_big_endian(n, 1, data, 1);
    } else if n < 0x1_0000 {
        assert(data.subrange(1, 3) =~= cbor::big_endian(n, 2));
        lemma_number_of_big_endian(n, 2, data, 1);
    } else if n < 0x1_0000_0000 {
        assert(data.subrange(1, 5) =~= cbor::big_endian(n, 4));
        lemma_number_of_big_endian(n, 4, data, 1);
    } else {
        assert(data.subrange(1, 9) =~= cbor::big_endian(n, 8));
        lemma_number_of_big_endian(n, 8, data, 1);
    }
    assert(head_at(data, 0, data.len() as int) == Some(
        HeadView { major: major as int, argument: n, body: head.len() as int },
    ));
}

} // verus!
