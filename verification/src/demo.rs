//! Built-in demo pages, shown while no relay has been heard of, so that the
//! browser can be explored without one.

use crate::page;
use crate::page::{Block, BlockView};
use crate::text;
use vstd::prelude::*;

verus! {

/// A page: its title and its blocks.
pub type PageView = (Seq<char>, Seq<BlockView>);

/// The demo page for `example.com`.
pub open spec fn example_page() -> PageView {
    (
        "Example Domain"@,
        seq![
            page::text_block("heading"@, "Example Domain"@),
            page::text_block(
                "text"@,
                "This domain is for use in illustrative examples in documents."@,
            ),
            page::text_block(
                "text"@,
                "You may use this domain in literature without prior coordination or asking for permission."@,
            ),
            page::link_block("More information…"@, "https://www.iana.org/domains/example"@),
            page::text_block("separator"@, "──────"@),
            page::text_block(
                "text"@,
                "[fetched through your surf-relay gateway — no HTML, no scripts, just blocks]"@,
            ),
        ],
    )
}

/// The demo page for the example domains at IANA.
pub open spec fn iana_page() -> PageView {
    (
        "Example Domains | IANA"@,
        seq![
            page::text_block("heading"@, "Example Domains"@),
            page::text_block(
                "text"@,
                "IANA manages the .example top-level domain for documentation."@,
            ),
            page::text_block(
                "text"@,
                "The domain names example.com, example.net, example.org, and example.edu are reserved for use in documentation as examples."@,
            ),
            page::link_block("IANA home"@, "https://www.iana.org/"@),
            page::link_block("example.com"@, "https://example.com/"@),
            page::text_block("separator"@, "──────"@),
            page::text_block("text"@, "[demo page — rendered on-device without the internet]"@),
        ],
    )
}

/// The demo page for `bitcoin.org`.
pub open spec fn bitcoin_page() -> PageView {
    (
        "Bitcoin.org"@,
        seq![
            page::text_block("heading"@, "Bitcoin"@),
            page::text_block(
                "text"@,
                "Bitcoin is an innovative payment network and a new kind of money."@,
            ),
            page::text_block(
                "text"@,
                "Bitcoin uses peer-to-peer technology to operate with no central authority: managing transactions and issuing money are carried out collectively by the network."@,
            ),
            page::link_block("Getting started"@, "https://bitcoin.org/en/getting-started"@),
            page::link_block("FAQ"@, "https://bitcoin.org/en/faq"@),
            page::text_block("separator"@, "──────"@),
            page::text_block("text"@, "[demo page — connect surf-relay for the live site]"@),
        ],
    )
}

/// The demo page for the browser's own repository.
pub open spec fn browser_page() -> PageView {
    (
        "OZARUMOTO/bluetooth-browser"@,
        seq![
            page::text_block("heading"@, "BLUETOOTH BROWSER"@),
            page::text_block(
                "text"@,
                "Web over Bluetooth for Passport Prime (KeyOS). The device is BLE-only — every web request rides over Quantum Link and the surf-relay gateway does the fetching and rendering."@,
            ),
            page::text_block(
                "text"@,
                "No HTML or JavaScript ever reaches the device — only safe structured blocks."@,
            ),
            page::link_block(
                "docs/PROTOCOL.md"@,
                "https://github.com/OZARUMOTO/bluetooth-browser"@,
            ),
            page::link_block(
                "relay/surf_relay.py"@,
                "https://github.com/OZARUMOTO/bluetooth-browser"@,
            ),
            page::text_block("separator"@, "──────"@),
            page::text_block("text"@, "[demo page — the live repo renders over the relay]"@),
        ],
    )
}

/// The demo page for `url`, if there is one.
pub open spec fn demo(url: Seq<char>) -> Option<PageView> {
    if "https://example.com"@.is_prefix_of(url) {
        Some(example_page())
    } else if "https://www.iana.org/domains/example"@.is_prefix_of(url) {
        Some(iana_page())
    } else if "https://bitcoin.org"@.is_prefix_of(url) {
        Some(bitcoin_page())
    } else if "https://github.com/OZARUMOTO/bluetooth-browser"@.is_prefix_of(url) {
        Some(browser_page())
    } else {
        None
    }
}

/// The view of a page.
pub open spec fn page_view(page: Option<(String, Vec<Block>)>) -> Option<PageView> {
    match page {
        Some((title, blocks)) => Some((title@, page::blocks_view(blocks@))),
        None => None,
    }
}

fn make_example_page() -> (r: (String, Vec<Block>))
    ensures
        r.0@ == example_page().0,
        page::blocks_view(r.1@) == example_page().1,
{
    let mut blocks: Vec<Block> = Vec::new();
    blocks.push(Block::text("heading", "Example Domain"));
    blocks.push(
        Block::text(
            "text",
            "This domain is for use in illustrative examples in documents.",
        ),
    );
    blocks.push(
        Block::text(
            "text",
            "You may use this domain in literature without prior coordination or asking for permission.",
        ),
    );
    blocks.push(Block::link("More information…", "https://www.iana.org/domains/example"));
    blocks.push(Block::text("separator", "──────"));
    blocks.push(
        Block::text(
            "text",
            "[fetched through your surf-relay gateway — no HTML, no scripts, just blocks]",
        ),
    );
    assert(page::blocks_view(blocks@) =~= example_page().1);
    ("Example Domain".to_owned(), blocks)
}

fn make_iana_page() -> (r: (String, Vec<Block>))
    ensures
        r.0@ == iana_page().0,
        page::blocks_view(r.1@) == iana_page().1,
{
    let mut blocks: Vec<Block> = Vec::new();
    blocks.push(Block::text("heading", "Example Domains"));
    blocks.push(
        Block::text(
            "text",
            "IANA manages the .example top-level domain for documentation.",
        ),
    );
    blocks.push(
        Block::text(
            "text",
            "The domain names example.com, example.net, example.org, and example.edu are reserved for use in documentation as examples.",
        ),
    );
    blocks.push(Block::link("IANA home", "https://www.iana.org/"));
    blocks.push(Block::link("example.com", "https://example.com/"));
    blocks.push(Block::text("separator", "──────"));
    blocks.push(Block::text("text", "[demo page — rendered on-device without the internet]"));
    assert(page::blocks_view(blocks@) =~= iana_page().1);
    ("Example Domains | IANA".to_owned(), blocks)
}

fn make_bitcoin_page() -> (r: (String, Vec<Block>))
    ensures
        r.0@ == bitcoin_page().0,
        page::blocks_view(r.1@) == bitcoin_page().1,
{
    let mut blocks: Vec<Block> = Vec::new();
    blocks.push(Block::text("heading", "Bitcoin"));
    blocks.push(
        Block::text(
            "text",
            "Bitcoin is an innovative payment network and a new kind of money.",
        ),
    );
    blocks.push(
        Block::text(
            "text",
            "Bitcoin uses peer-to-peer technology to operate with no central authority: managing transactions and issuing money are carried out collectively by the network.",
        ),
    );
    blocks.push(Block::link("Getting started", "https://bitcoin.org/en/getting-started"));
    blocks.push(Block::link("FAQ", "https://bitcoin.org/en/faq"));
    blocks.push(Block::text("separator", "──────"));
    blocks.push(Block::text("text", "[demo page — connect surf-relay for the live site]"));
    assert(page::blocks_view(blocks@) =~= bitcoin_page().1);
    ("Bitcoin.org".to_owned(), blocks)
}

fn make_browser_page() -> (r: (String, Vec<Block>))
    ensures
        r.0@ == browser_page().0,
        page::blocks_view(r.1@) == browser_page().1,
{
    let mut blocks: Vec<Block> = Vec::new();
    blocks.push(Block::text("heading", "BLUETOOTH BROWSER"));
    blocks.push(
        Block::text(
            "text",
            "Web over Bluetooth for Passport Prime (KeyOS). The device is BLE-only — every web request rides over Quantum Link and the surf-relay gateway does the fetching and rendering.",
        ),
    );
    blocks.push(
        Block::text(
            "text",
            "No HTML or JavaScript ever reaches the device — only safe structured blocks.",
        ),
    );
    blocks.push(Block::link("docs/PROTOCOL.md", "https://github.com/OZARUMOTO/bluetooth-browser"));
    blocks.push(
        Block::link(
            "relay/surf_relay.py",
            "https://github.com/OZARUMOTO/bluetooth-browser",
        ),
    );
    blocks.push(Block::text("separator", "──────"));
    blocks.push(Block::text("text", "[demo page — the live repo renders over the relay]"));
    assert(page::blocks_view(blocks@) =~= browser_page().1);
    ("OZARUMOTO/bluetooth-browser".to_owned(), blocks)
}

/// The demo page for `url`, if there is one.
pub fn demo_page(url: &str) -> (r: Option<(String, Vec<Block>)>)
    ensures
        page_view(r) == demo(url@),
{
    if text::starts_with(url, "https://example.com") {
        return Some(make_example_page());
    }
    if text::starts_with(url, "https://www.iana.org/domains/example") {
        return Some(make_iana_page());
    }
    if text::starts_with(url, "https://bitcoin.org") {
        return Some(make_bitcoin_page());
    }
    if text::starts_with(url, "https://github.com/OZARUMOTO/bluetooth-browser") {
        return Some(make_browser_page());
    }
    None
}

/// Whether a page has a title and blocks, and every block is of a kind that the
/// device can render, has a text, and links, if at all, to `https`.
pub open spec fn is_safe_page(page: PageView) -> bool {
    &&& page.0.len() > 0
    &&& page.1.len() > 0
    &&& forall|i: int|
        0 <= i < page.1.len() ==> is_safe_block(#[trigger] page.1[i])
}

/// Whether a block is of a kind that the device can render, has a text, and
/// links to `https` where it is a link, and nowhere else.
pub open spec fn is_safe_block(block: BlockView) -> bool {
    &&& page::is_safe_kind(block.kind)
    &&& block.text.len() > 0
    &&& block.kind == "link"@ ==> "https://"@.is_prefix_of(block.href)
    &&& block.kind != "link"@ ==> block.href.len() == 0
}

/// Every demo page is safe.
pub proof fn law_demo_pages_are_safe(url: Seq<char>)
    ensures
        demo(url) matches Some(page) ==> is_safe_page(page),
{
    lemma_example_page_is_safe();
    lemma_iana_page_is_safe();
    lemma_bitcoin_page_is_safe();
    lemma_browser_page_is_safe();
}

/// There is a demo page just for the addresses under one of four, which the
/// quick links on the home screen lead to.
pub proof fn law_demo_pages_cover_the_quick_links(url: Seq<char>)
    ensures
        demo(url) is Some <==> ({
            ||| "https://example.com"@.is_prefix_of(url)
            ||| "https://www.iana.org/domains/example"@.is_prefix_of(url)
            ||| "https://bitcoin.org"@.is_prefix_of(url)
            ||| "https://github.com/OZARUMOTO/bluetooth-browser"@.is_prefix_of(url)
        }),
{
}

/// Every kind of block that a demo page shows is one that the device renders.
pub proof fn law_demo_kinds_are_rendered(url: Seq<char>, i: int)
    ensures
        demo(url) matches Some(shown) ==> (0 <= i < shown.1.len() ==> {
            let kind = shown.1[i].kind;
            ||| kind == "heading"@
            ||| kind == "text"@
            ||| kind == "link"@
            ||| kind == "quote"@
            ||| kind == "code"@
            ||| kind == "separator"@
        }),
{
    law_demo_pages_are_safe(url);
}

/// Each quick link shows its own page, for every address under it: its title,
/// and its heading, texts and links in their order.
pub proof fn law_quick_links_show_their_own_pages(url: Seq<char>)
    ensures
        "https://example.com"@.is_prefix_of(url) ==> {
            &&& demo(url) matches Some(page)
            &&& page.0 == "Example Domain"@
            &&& page.1.len() == 6
            &&& is_plain(page.1[0], "heading"@, "Example Domain"@)
            &&& is_plain(
                page.1[1],
                "text"@,
                "This domain is for use in illustrative examples in documents."@,
            )
            &&& is_plain(
                page.1[2],
                "text"@,
                "You may use this domain in literature without prior coordination or asking for permission."@,
            )
            &&& is_link(page.1[3], "More information…"@, "https://www.iana.org/domains/example"@)
            &&& is_plain(page.1[4], "separator"@, "──────"@)
            &&& is_plain(
                page.1[5],
                "text"@,
                "[fetched through your surf-relay gateway — no HTML, no scripts, just blocks]"@,
            )
        },
        "https://www.iana.org/domains/example"@.is_prefix_of(url) ==> {
            &&& demo(url) matches Some(page)
            &&& page.0 == "Example Domains | IANA"@
            &&& page.1.len() == 7
            &&& is_plain(page.1[0], "heading"@, "Example Domains"@)
            &&& is_plain(
                page.1[1],
                "text"@,
                "IANA manages the .example top-level domain for documentation."@,
            )
            &&& is_plain(
                page.1[2],
                "text"@,
                "The domain names example.com, example.net, example.org, and example.edu are reserved for use in documentation as examples."@,
            )
            &&& is_link(page.1[3], "IANA home"@, "https://www.iana.org/"@)
            &&& is_link(page.1[4], "example.com"@, "https://example.com/"@)
            &&& is_plain(page.1[5], "separator"@, "──────"@)
            &&& is_plain(
                page.1[6],
                "text"@,
                "[demo page — rendered on-device without the internet]"@,
            )
        },
        "https://bitcoin.org"@.is_prefix_of(url) ==> {
            &&& demo(url) matches Some(page)
            &&& page.0 == "Bitcoin.org"@
            &&& page.1.len() == 7
            &&& is_plain(page.1[0], "heading"@, "Bitcoin"@)
            &&& is_plain(
                page.1[1],
                "text"@,
                "Bitcoin is an innovative payment network and a new kind of money."@,
            )
            &&& is_plain(
                page.1[2],
                "text"@,
                "Bitcoin uses peer-to-peer technology to operate with no central authority: managing transactions and issuing money are carried out collectively by the network."@,
            )
            &&& is_link(page.1[3], "Getting started"@, "https://bitcoin.org/en/getting-started"@)
            &&& is_link(page.1[4], "FAQ"@, "https://bitcoin.org/en/faq"@)
            &&& is_plain(page.1[5], "separator"@, "──────"@)
            &&& is_plain(
                page.1[6],
                "text"@,
                "[demo page — connect surf-relay for the live site]"@,
            )
        },
        "https://github.com/OZARUMOTO/bluetooth-browser"@.is_prefix_of(url) ==> {
            &&& demo(url) matches Some(page)
            &&& page.0 == "OZARUMOTO/bluetooth-browser"@
            &&& page.1.len() == 7
            &&& is_plain(page.1[0], "heading"@, "BLUETOOTH BROWSER"@)
            &&& is_plain(
                page.1[1],
                "text"@,
                "Web over Bluetooth for Passport Prime (KeyOS). The device is BLE-only — every web request rides over Quantum Link and the surf-relay gateway does the fetching and rendering."@,
            )
            &&& is_plain(
                page.1[2],
                "text"@,
                "No HTML or JavaScript ever reaches the device — only safe structured blocks."@,
            )
            &&& is_link(page.1[3], "docs/PROTOCOL.md"@, "https://github.com/OZARUMOTO/bluetooth-browser"@)
            &&& is_link(page.1[4], "relay/surf_relay.py"@, "https://github.com/OZARUMOTO/bluetooth-browser"@)
            &&& is_plain(page.1[5], "separator"@, "──────"@)
            &&& is_plain(
                page.1[6],
                "text"@,
                "[demo page — the live repo renders over the relay]"@,
            )
        },
{
    lemma_quick_links_differ(url);
}

/// Whether `block` is of this kind, with this text and no link.
pub open spec fn is_plain(block: BlockView, kind: Seq<char>, text: Seq<char>) -> bool {
    block.kind == kind && block.text == text && block.href.len() == 0
}

/// Whether `block` is a link with this text to this address.
pub open spec fn is_link(block: BlockView, text: Seq<char>, href: Seq<char>) -> bool {
    block.kind == "link"@ && block.text == text && block.href == href
}

/// A page is seen as it stands.
pub proof fn law_page_is_seen_as_it_stands(title: String, blocks: Vec<Block>, i: int)
    ensures
        page_view(None) is None,
        page_view(Some((title, blocks))) is Some,
        (page_view(Some((title, blocks)))->0).0 == title@,
        (page_view(Some((title, blocks)))->0).1.len() == blocks.len(),
        0 <= i < blocks.len() ==> {
            let seen = (page_view(Some((title, blocks)))->0).1[i];
            &&& seen.kind == blocks[i].kind@
            &&& seen.text == blocks[i].text@
            &&& seen.href == blocks[i].href@
        },
{
    page::law_blocks_are_seen_as_they_stand(blocks@, i);
}

/// No address lies under two of the quick links.
proof fn lemma_quick_links_differ(url: Seq<char>)
    ensures
        "https://example.com"@.is_prefix_of(url) ==> url[8] == 'e',
        "https://www.iana.org/domains/example"@.is_prefix_of(url) ==> url[8] == 'w',
        "https://bitcoin.org"@.is_prefix_of(url) ==> url[8] == 'b',
        "https://github.com/OZARUMOTO/bluetooth-browser"@.is_prefix_of(url) ==> url[8] == 'g',
{
    reveal_strlit("https://example.com");
    reveal_strlit("https://www.iana.org/domains/example");
    reveal_strlit("https://bitcoin.org");
    reveal_strlit("https://github.com/OZARUMOTO/bluetooth-browser");
    let a = "https://example.com"@;
    let b = "https://www.iana.org/domains/example"@;
    let c = "https://bitcoin.org"@;
    let d = "https://github.com/OZARUMOTO/bluetooth-browser"@;
    assert(a[8] == 'e' && b[8] == 'w' && c[8] == 'b' && d[8] == 'g');
    if a.is_prefix_of(url) {
        assert(url.subrange(0, a.len() as int)[8] == url[8]);
    }
    if b.is_prefix_of(url) {
        assert(url.subrange(0, b.len() as int)[8] == url[8]);
    }
    if c.is_prefix_of(url) {
        assert(url.subrange(0, c.len() as int)[8] == url[8]);
    }
    if d.is_prefix_of(url) {
        assert(url.subrange(0, d.len() as int)[8] == url[8]);
    }
}

/// The other kinds in use are not links.
proof fn lemma_kinds_are_not_link()
    ensures
        "heading"@ != "link"@,
        "text"@ != "link"@,
        "separator"@ != "link"@,
{
    reveal_strlit("heading");
    reveal_strlit("text");
    reveal_strlit("separator");
    reveal_strlit("link");
    assert("heading"@[0] == 'h' && "text"@[0] == 't' && "separator"@[0] == 's' && "link"@[0]
        == 'l');
}

/// A text whose first letters are these is an `https` address.
proof fn lemma_https(href: Seq<char>)
    requires
        href.len() >= 8,
        href[0] == 'h',
        href[1] == 't',
        href[2] == 't',
        href[3] == 'p',
        href[4] == 's',
        href[5] == ':',
        href[6] == '/',
        href[7] == '/',
    ensures
        "https://"@.is_prefix_of(href),
{
    reveal_strlit("https://");
    assert("https://"@ =~= href.subrange(0, 8));
}

proof fn lemma_example_page_is_safe()
    ensures
        is_safe_page(example_page()),
{
    lemma_kinds_are_not_link();
    reveal_strlit("Example Domain");
    reveal_strlit("This domain is for use in illustrative examples in documents.");
    reveal_strlit(
        "You may use this domain in literature without prior coordination or asking for permission.",
    );
    reveal_strlit("More information…");
    reveal_strlit("──────");
    reveal_strlit("[fetched through your surf-relay gateway — no HTML, no scripts, just blocks]");
    reveal_strlit("https://www.iana.org/domains/example");
    lemma_https("https://www.iana.org/domains/example"@);
    let blocks = example_page().1;
    assert(is_safe_block(blocks[0]));
    assert(is_safe_block(blocks[1]));
    assert(is_safe_block(blocks[2]));
    assert(is_safe_block(blocks[3]));
    assert(is_safe_block(blocks[4]));
    assert(is_safe_block(blocks[5]));
}

proof fn lemma_iana_page_is_safe()
    ensures
        is_safe_page(iana_page()),
{
    lemma_kinds_are_not_link();
    reveal_strlit("Example Domains | IANA");
    reveal_strlit("Example Domains");
    reveal_strlit("IANA manages the .example top-level domain for documentation.");
    reveal_strlit(
        "The domain names example.com, example.net, example.org, and example.edu are reserved for use in documentation as examples.",
    );
    reveal_strlit("IANA home");
    reveal_strlit("example.com");
    reveal_strlit("──────");
    reveal_strlit("[demo page — rendered on-device without the internet]");
    reveal_strlit("https://www.iana.org/");
    lemma_https("https://www.iana.org/"@);
    reveal_strlit("https://example.com/");
    lemma_https("https://example.com/"@);
    let blocks = iana_page().1;
    assert(is_safe_block(blocks[0]));
    assert(is_safe_block(blocks[1]));
    assert(is_safe_block(blocks[2]));
    assert(is_safe_block(blocks[3]));
    assert(is_safe_block(blocks[4]));
    assert(is_safe_block(blocks[5]));
    assert(is_safe_block(blocks[6]));
}

proof fn lemma_bitcoin_page_is_safe()
    ensures
        is_safe_page(bitcoin_page()),
{
    lemma_kinds_are_not_link();
    reveal_strlit("Bitcoin.org");
    reveal_strlit("Bitcoin");
    reveal_strlit("Bitcoin is an innovative payment network and a new kind of money.");
    reveal_strlit(
        "Bitcoin uses peer-to-peer technology to operate with no central authority: managing transactions and issuing money are carried out collectively by the network.",
    );
    reveal_strlit("Getting started");
    reveal_strlit("FAQ");
    reveal_strlit("──────");
    reveal_strlit("[demo page — connect surf-relay for the live site]");
    reveal_strlit("https://bitcoin.org/en/getting-started");
    lemma_https("https://bitcoin.org/en/getting-started"@);
    reveal_strlit("https://bitcoin.org/en/faq");
    lemma_https("https://bitcoin.org/en/faq"@);
    let blocks = bitcoin_page().1;
    assert(is_safe_block(blocks[0]));
    assert(is_safe_block(blocks[1]));
    assert(is_safe_block(blocks[2]));
    assert(is_safe_block(blocks[3]));
    assert(is_safe_block(blocks[4]));
    assert(is_safe_block(blocks[5]));
    assert(is_safe_block(blocks[6]));
}

proof fn lemma_browser_page_is_safe()
    ensures
        is_safe_page(browser_page()),
{
    lemma_kinds_are_not_link();
    reveal_strlit("OZARUMOTO/bluetooth-browser");
    reveal_strlit("BLUETOOTH BROWSER");
    reveal_strlit(
        "Web over Bluetooth for Passport Prime (KeyOS). The device is BLE-only — every web request rides over Quantum Link and the surf-relay gateway does the fetching and rendering.",
    );
    reveal_strlit("No HTML or JavaScript ever reaches the device — only safe structured blocks.");
    reveal_strlit("docs/PROTOCOL.md");
    reveal_strlit("relay/surf_relay.py");
    reveal_strlit("──────");
    reveal_strlit("[demo page — the live repo renders over the relay]");
    reveal_strlit("https://github.com/OZARUMOTO/bluetooth-browser");
    lemma_https("https://github.com/OZARUMOTO/bluetooth-browser"@);
    let blocks = browser_page().1;
    assert(is_safe_block(blocks[0]));
    assert(is_safe_block(blocks[1]));
    assert(is_safe_block(blocks[2]));
    assert(is_safe_block(blocks[3]));
    assert(is_safe_block(blocks[4]));
    assert(is_safe_block(blocks[5]));
    assert(is_safe_block(blocks[6]));
}

} // verus!
