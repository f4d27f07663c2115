//! The page model: what the browser renders, and what the relay sends it.

use vstd::prelude::*;

verus! {

/// A safe, structured page block. No HTML or JavaScript reaches the device;
/// only these blocks are rendered.
#[derive(Debug)]
pub struct Block {
    pub kind: String,
    pub text: String,
    pub href: String,
}

/// The contents of a `Block`.
#[verifier::ext_equal]
pub struct BlockView {
    pub kind: Seq<char>,
    pub text: Seq<char>,
    pub href: Seq<char>,
}

impl View for Block {
    type V = BlockView;

    open spec fn view(&self) -> BlockView {
        BlockView { kind: self.kind@, text: self.text@, href: self.href@ }
    }
}

/// A block without a link.
pub open spec fn text_block(kind: Seq<char>, text: Seq<char>) -> BlockView {
    BlockView { kind, text, href: Seq::empty() }
}

/// A link.
pub open spec fn link_block(text: Seq<char>, href: Seq<char>) -> BlockView {
    BlockView { kind: "link"@, text, href }
}

impl Block {
    /// A block of the given kind, without a link.
    pub fn text(kind: &str, text: &str) -> (r: Block)
        ensures
            r@ == text_block(kind@, text@),
            r.kind@ == kind@,
            r.text@ == text@,
            r.href@.len() == 0,
    {
        let r = Block { kind: kind.to_owned(), text: text.to_owned(), href: String::new() };
        assert(r@ =~= text_block(kind@, text@));
        r
    }

    /// A link.
    pub fn link(text: &str, href: &str) -> (r: Block)
        ensures
            r@ == link_block(text@, href@),
            r.kind@ == "link"@,
            r.text@ == text@,
            r.href@ == href@,
    {
        Block { kind: "link".to_owned(), text: text.to_owned(), href: href.to_owned() }
    }
}

impl Clone for Block {
    fn clone(&self) -> (r: Block)
        ensures
            r@ == self@,
    {
        Block { kind: self.kind.clone(), text: self.text.clone(), href: self.href.clone() }
    }
}

/// The contents of a list of blocks.
pub open spec fn blocks_view(blocks: Seq<Block>) -> Seq<BlockView> {
    blocks.map_values(|b: Block| b@)
}

/// The kinds that the device can render.
pub open spec fn is_safe_kind(kind: Seq<char>) -> bool {
    ||| kind == "heading"@
    ||| kind == "text"@
    ||| kind == "link"@
    ||| kind == "quote"@
    ||| kind == "code"@
    ||| kind == "separator"@
}

// ---------------------------------------------------------------------------
// Relay to device
// ---------------------------------------------------------------------------

/// A block as the relay sends it.
#[derive(Debug)]
pub struct RelayBlock {
    pub kind: String,
    pub text: String,
    pub href: String,
}

impl View for RelayBlock {
    type V = BlockView;

    open spec fn view(&self) -> BlockView {
        BlockView { kind: self.kind@, text: self.text@, href: self.href@ }
    }
}

/// The contents of a list of blocks as the relay sends them.
pub open spec fn relay_blocks_view(blocks: Seq<RelayBlock>) -> Seq<BlockView> {
    blocks.map_values(|b: RelayBlock| b@)
}

/// An envelope from the relay.
#[derive(Debug)]
pub enum RelayEnvelope {
    /// A page, or why there is none.
    Page {
        id: String,
        status: u16,
        title: String,
        url: String,
        blocks: Vec<RelayBlock>,
        error: Option<String>,
    },
    /// The gateway, or another app through it, asks to open a page.
    OpenUrl { url: String },
}

/// The contents of a `RelayEnvelope`.
#[verifier::ext_equal]
pub enum RelayEnvelopeView {
    Page {
        id: Seq<char>,
        status: u16,
        title: Seq<char>,
        url: Seq<char>,
        blocks: Seq<BlockView>,
        error: Option<Seq<char>>,
    },
    OpenUrl { url: Seq<char> },
}

impl View for RelayEnvelope {
    type V = RelayEnvelopeView;

    open spec fn view(&self) -> RelayEnvelopeView {
        match self {
            RelayEnvelope::Page { id, status, title, url, blocks, error } => {
                RelayEnvelopeView::Page {
                    id: id@,
                    status: *status,
                    title: title@,
                    url: url@,
                    blocks: relay_blocks_view(blocks@),
                    error: match error {
                        Some(e) => Some(e@),
                        None => None,
                    },
                }
            },
            RelayEnvelope::OpenUrl { url } => RelayEnvelopeView::OpenUrl { url: url@ },
        }
    }
}

/// Blocks are seen as they stand, all of them and in their order.
pub proof fn law_blocks_are_seen_as_they_stand(blocks: Seq<Block>, i: int)
    ensures
        blocks_view(blocks).len() == blocks.len(),
        0 <= i < blocks.len() ==> {
            &&& blocks_view(blocks)[i].kind == blocks[i].kind@
            &&& blocks_view(blocks)[i].text == blocks[i].text@
            &&& blocks_view(blocks)[i].href == blocks[i].href@
        },
{
}

} // verus!
