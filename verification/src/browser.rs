//! The browser: history, fetch bookkeeping, and what it shows.

use crate::demo;
use crate::json;
use crate::page;
use crate::page::{Block, BlockView};
use crate::ql::{AccountUpdate, AccountUpdateView};
use crate::text;
use vstd::prelude::*;

verus! {

/// The channel that all browser envelopes ride on.
pub const CHANNEL: &'static str = "web-0";

/// The status line while a page is being fetched.
pub const FETCHING: &'static str = "fetching…";

/// The status line of a demo page.
pub const DEMO_CONTENT: &'static str = "demo content — connect surf-relay for live web";

// ---------------------------------------------------------------------------
// What is shown
// ---------------------------------------------------------------------------

/// What the browser shows.
#[derive(Debug)]
pub struct AppWindow {
    pub url: String,
    pub status_line: String,
    pub error_text: String,
    pub page_title: String,
    pub connection_status: String,
    pub blocks: Vec<Block>,
    pub loading: bool,
    pub can_go_back: bool,
    pub can_go_forward: bool,
    pub relay_online: bool,
}

/// The contents of an `AppWindow`.
#[verifier::ext_equal]
pub struct AppWindowView {
    pub url: Seq<char>,
    pub status_line: Seq<char>,
    pub error_text: Seq<char>,
    pub page_title: Seq<char>,
    pub connection_status: Seq<char>,
    pub blocks: Seq<BlockView>,
    pub loading: bool,
    pub can_go_back: bool,
    pub can_go_forward: bool,
    pub relay_online: bool,
}

impl View for AppWindow {
    type V = AppWindowView;

    open spec fn view(&self) -> AppWindowView {
        AppWindowView {
            url: self.url@,
            status_line: self.status_line@,
            error_text: self.error_text@,
            page_title: self.page_title@,
            connection_status: self.connection_status@,
            blocks: page::blocks_view(self.blocks@),
            loading: self.loading,
            can_go_back: self.can_go_back,
            can_go_forward: self.can_go_forward,
            relay_online: self.relay_online,
        }
    }
}

/// Shows the blocks.
pub fn render_blocks(ui: &mut AppWindow, blocks: &Vec<Block>)
    ensures
        final(ui)@ == (AppWindowView { blocks: page::blocks_view(blocks@), ..old(ui)@ }),
{
    let mut model: Vec<Block> = Vec::new();
    let mut i: usize = 0;
    while i < blocks.len()
        invariant
            i <= blocks.len(),
            page::blocks_view(model@) == page::blocks_view(blocks@.take(i as int)),
        decreases blocks.len() - i,
    {
        model.push(blocks[i].clone());
        i = i + 1;
        assert(page::blocks_view(blocks@.take(i as int)) =~= page::blocks_view(
            blocks@.take(i - 1),
        ).push(blocks@[i - 1]@));
        assert(page::blocks_view(model@) =~= page::blocks_view(blocks@.take(i as int)));
    }
    assert(blocks@.take(i as int) =~= blocks@);
    ui.blocks = model;
}

/// Shows the address.
pub fn set_url(ui: &mut AppWindow, url: &str)
    ensures
        final(ui)@ == (AppWindowView { url: url@, ..old(ui)@ }),
{
    ui.url = url.to_owned();
}

/// Shows the status line.
pub fn set_status(ui: &mut AppWindow, text: &str)
    ensures
        final(ui)@ == (AppWindowView { status_line: text@, ..old(ui)@ }),
{
    ui.status_line = text.to_owned();
}

/// Shows the error.
pub fn set_error(ui: &mut AppWindow, text: &str)
    ensures
        final(ui)@ == (AppWindowView { error_text: text@, ..old(ui)@ }),
{
    ui.error_text = text.to_owned();
}

// ---------------------------------------------------------------------------
// What is remembered
// ---------------------------------------------------------------------------

/// What the browser remembers while it runs.
#[derive(Debug)]
pub struct Session {
    /// The addresses visited, newest last.
    history: Vec<String>,
    /// The position in the history of the page that is shown.
    index: usize,
    /// The id of the latest fetch.
    fetch_seq: u64,
    /// Whether the relay has ever been heard of.
    relay_contacted: bool,
}

/// The contents of a `Session`.
#[verifier::ext_equal]
pub struct SessionView {
    pub history: Seq<Seq<char>>,
    pub index: int,
    pub fetch_seq: nat,
    pub relay_contacted: bool,
}

/// The contents of a list of texts.
pub open spec fn texts_view(texts: Seq<String>) -> Seq<Seq<char>> {
    texts.map_values(|t: String| t@)
}

impl View for Session {
    type V = SessionView;

    closed spec fn view(&self) -> SessionView {
        SessionView {
            history: texts_view(self.history@),
            index: self.index as int,
            fetch_seq: self.fetch_seq as nat,
            relay_contacted: self.relay_contacted,
        }
    }
}

impl SessionView {
    /// The position is one in the history, or the history is empty.
    pub open spec fn well_formed(self) -> bool {
        0 <= self.index < self.history.len() || (self.index == 0 && self.history.len() == 0)
    }

    /// Whether there is a page to go back to.
    pub open spec fn can_go_back(self) -> bool {
        self.index > 0
    }

    /// Whether there is a page to go forward to.
    pub open spec fn can_go_forward(self) -> bool {
        self.index + 1 < self.history.len()
    }

    /// Whether an id is left for a fetch of `raw_url`; a blank address needs none.
    pub open spec fn has_id_for(self, raw_url: Seq<char>) -> bool {
        normalized(raw_url).len() > 0 ==> self.fetch_seq < u64::MAX
    }

    /// The address of the page to go back to; empty where there is none.
    pub open spec fn back_url(self) -> Seq<char> {
        if self.can_go_back() {
            self.history[self.index - 1]
        } else {
            Seq::empty()
        }
    }

    /// The address of the page to go forward to; empty where there is none.
    pub open spec fn forward_url(self) -> Seq<char> {
        if self.can_go_forward() {
            self.history[self.index + 1]
        } else {
            Seq::empty()
        }
    }

    /// The session after a visit to `url`: what lay forward of the position is
    /// gone, and the new page is the newest.
    pub open spec fn visited(self, url: Seq<char>) -> SessionView {
        let kept = if self.index + 1 < self.history.len() {
            self.history.take(self.index + 1)
        } else {
            self.history
        };
        SessionView { history: kept.push(url), index: kept.len() as int, ..self }
    }
}

impl Session {
    /// A session in which nothing has happened yet.
    pub fn new() -> (r: Session)
        ensures
            r@ == (SessionView {
                history: Seq::empty(),
                index: 0,
                fetch_seq: 0,
                relay_contacted: false,
            }),
    {
        let r = Session {
            history: Vec::new(),
            index: 0,
            fetch_seq: 0,
            relay_contacted: false,
        };
        assert(r@.history =~= Seq::empty());
        r
    }

    /// Goes back one page where there is one, and gives its address.
    pub fn step_back(&mut self) -> (r: Option<String>)
        requires
            old(self)@.well_formed(),
        ensures
            match r {
                Some(url) => {
                    &&& old(self)@.can_go_back()
                    &&& final(self)@ == (SessionView { index: old(self)@.index - 1, ..old(self)@ })
                    &&& url@ == old(self)@.history[old(self)@.index - 1]
                },
                None => !old(self)@.can_go_back() && final(self)@ == old(self)@,
            },
            final(self)@.well_formed(),
    {
        if self.index > 0 {
            self.index = self.index - 1;
            Some(self.history[self.index].clone())
        } else {
            None
        }
    }

    /// Goes forward one page where there is one, and gives its address.
    pub fn step_forward(&mut self) -> (r: Option<String>)
        requires
            old(self)@.well_formed(),
        ensures
            match r {
                Some(url) => {
                    &&& old(self)@.can_go_forward()
                    &&& final(self)@ == (SessionView { index: old(self)@.index + 1, ..old(self)@ })
                    &&& url@ == old(self)@.history[old(self)@.index + 1]
                },
                None => !old(self)@.can_go_forward() && final(self)@ == old(self)@,
            },
            final(self)@.well_formed(),
    {
        assert(self@.history.len() == self.history.len());
        if self.index + 1 < self.history.len() {
            self.index = self.index + 1;
            Some(self.history[self.index].clone())
        } else {
            None
        }
    }

    /// Notes that the relay has been heard of.
    pub fn contact_relay(&mut self)
        ensures
            final(self)@ == (SessionView { relay_contacted: true, ..old(self)@ }),
    {
        self.relay_contacted = true;
    }

    /// The id of the latest fetch, which is 0 where there was none.
    pub fn last_fetch(&self) -> (r: u64)
        ensures
            r == self@.fetch_seq,
    {
        self.fetch_seq
    }
}

/// A visit keeps the pages up to the one that was shown, puts the new one behind
/// them, and is at it. Nothing else that is remembered changes.
pub proof fn law_visit_follows_the_page_shown(session: SessionView, url: Seq<char>, i: int)
    requires
        session.well_formed(),
    ensures
        ({
            let after = session.visited(url);
            &&& after.index == (if session.history.len() > 0 {
                session.index + 1
            } else {
                0
            })
            &&& after.history.len() == after.index + 1
            &&& after.history[after.index] == url
            &&& 0 <= i < after.index ==> after.history[i] == session.history[i]
            &&& after.fetch_seq == session.fetch_seq
            &&& after.relay_contacted == session.relay_contacted
            &&& after.well_formed()
        }),
{
}

/// There is a page to go back to just where one stands before the position, and
/// one to go forward to just where one stands behind it.
pub proof fn law_pages_around_the_position(session: SessionView)
    requires
        session.well_formed(),
    ensures
        session.can_go_back() <==> session.index >= 1,
        session.can_go_forward() <==> session.history.len() - session.index >= 2,
        session.can_go_back() ==> session.back_url() == session.history[session.index - 1],
        session.can_go_forward() ==> session.forward_url() == session.history[session.index + 1],
{
}

/// Every address can be asked for until the ids, 64 bits long, are used up.
pub proof fn law_ids_last(session: SessionView, raw_url: Seq<char>)
    requires
        session.fetch_seq < 0xffff_ffff_ffff_ffff,
    ensures
        session.has_id_for(raw_url),
{
}

/// What is shown, with the back and forward affordances as the session has
/// them.
pub open spec fn synced(session: SessionView, ui: AppWindowView) -> AppWindowView {
    AppWindowView {
        can_go_back: session.can_go_back(),
        can_go_forward: session.can_go_forward(),
        ..ui
    }
}

/// Shows the back and forward affordances as the session has them.
pub fn sync_nav_state(session: &Session, ui: &mut AppWindow)
    requires
        session@.well_formed(),
    ensures
        final(ui)@ == synced(session@, old(ui)@),
{
    let can_back = session.index > 0;
    assert(session@.history.len() == session.history.len());
    let can_forward = session.index + 1 < session.history.len();
    ui.can_go_back = can_back;
    ui.can_go_forward = can_forward;
}

/// Records a visit to `url`, which drops what lay forward of the position.
pub fn push_history(session: &mut Session, ui: &mut AppWindow, url: &str)
    requires
        old(session)@.well_formed(),
    ensures
        final(session)@ == old(session)@.visited(url@),
        final(session)@.well_formed(),
        final(ui)@ == synced(final(session)@, old(ui)@),
{
    let ghost before = session@;
    assert(session@.history.len() == session.history.len());
    session.history.truncate(session.index + 1);
    session.history.push(url.to_owned());
    session.index = session.history.len() - 1;
    assert(session@.history =~= before.visited(url@).history);
    sync_nav_state(session, ui);
}

// ---------------------------------------------------------------------------
// Addresses
// ---------------------------------------------------------------------------

/// Whether `url` is an address that the relay accepts.
pub open spec fn is_web_url(url: Seq<char>) -> bool {
    "http://"@.is_prefix_of(url) || "https://"@.is_prefix_of(url)
}

/// A user-entered address without white space around it, with `https://` before
/// a bare domain.
pub open spec fn normalized(raw: Seq<char>) -> Seq<char> {
    let url = text::trimmed(raw);
    if url.len() == 0 || is_web_url(url) {
        url
    } else {
        "https://"@ + url
    }
}

/// A user-entered address without white space around it, with `https://` before
/// a bare domain, so that the relay accepts it.
pub fn normalize_url(raw: &str) -> (r: String)
    ensures
        r@ == normalized(raw@),
{
    let url = text::trim(raw);
    if url.as_str().unicode_len() == 0 {
        return url;
    }
    if text::starts_with(url.as_str(), "http://") || text::starts_with(url.as_str(), "https://") {
        url
    } else {
        let mut r = "https://".to_owned();
        r.append(url.as_str());
        r
    }
}

/// A normalized address is empty, where nothing but white space was entered, or
/// one that the relay accepts.
pub proof fn law_normalized_is_empty_or_web_url(raw: Seq<char>)
    ensures
        normalized(raw).len() == 0 <==> text::trimmed(raw).len() == 0,
        normalized(raw).len() > 0 <==> is_web_url(normalized(raw)),
{
    reveal_strlit("http://");
    reveal_strlit("https://");
    let url = text::trimmed(raw);
    if url.len() > 0 && !is_web_url(url) {
        assert("https://"@ =~= normalized(raw).subrange(0, 8));
    }
}

/// Normalizing an address again changes nothing.
pub proof fn law_normalizing_is_idempotent(raw: Seq<char>)
    ensures
        normalized(normalized(raw)) == normalized(raw),
{
    reveal_strlit("https://");
    law_normalized_is_empty_or_web_url(raw);
    text::lemma_trimmed_ends(raw);
    let url = normalized(raw);
    if url.len() > 0 {
        assert(!text::is_white_space(url[0]));
        assert(!text::is_white_space(url.last()));
    }
    assert(text::trimmed(url) == url);
}

/// What is fetched for an address that was entered: nothing for white space
/// alone, else the address without white space around it, as it stands where it
/// starts with `http://` or `https://`, and behind `https://` where it does not.
pub proof fn law_normalized_is_the_address_entered(
    before: Seq<char>,
    address: Seq<char>,
    behind: Seq<char>,
)
    requires
        forall|i: int| 0 <= i < before.len() ==> text::is_white_space(#[trigger] before[i]),
        forall|i: int| 0 <= i < behind.len() ==> text::is_white_space(#[trigger] behind[i]),
        address.len() > 0 ==> !text::is_white_space(address[0]) && !text::is_white_space(
            address.last(),
        ),
    ensures
        normalized(before + address + behind) == (if address.len() == 0 {
            Seq::empty()
        } else if "http://"@.is_prefix_of(address) || "https://"@.is_prefix_of(address) {
            address
        } else {
            "https://"@ + address
        }),
{
    text::law_trimming_removes_outer_white_space(before, address, behind);
    if address.len() == 0 {
        assert(address =~= Seq::empty());
    }
}

// ---------------------------------------------------------------------------
// Fetching
// ---------------------------------------------------------------------------

/// The bytes on the channel for an envelope with these members.
pub open spec fn channel_update(members: Seq<(Seq<char>, Seq<char>)>) -> AccountUpdateView {
    AccountUpdateView { account_id: CHANNEL@, update: json::object_data(members) }
}

/// The members of the envelope that asks the relay for a page.
pub open spec fn fetch_members(id: nat, url: Seq<char>) -> Seq<(Seq<char>, Seq<char>)> {
    seq![("type"@, "fetch"@), ("id"@, text::decimal(id)), ("url"@, url)]
}

/// The message that carries an envelope to the relay. The envelope holds no
/// newline.
pub fn send_envelope(members: Vec<(String, String)>) -> (r: AccountUpdate)
    ensures
        r@ == channel_update(json::members_view(members@)),
        !r@.update.contains(10u8),
{
    AccountUpdate { account_id: CHANNEL.to_owned(), update: json::encode_object(members) }
}

/// What comes of an event: the session, what is shown, the message to send to
/// the relay, and the screen to turn to.
#[verifier::ext_equal]
pub struct Effect {
    pub session: SessionView,
    pub ui: AppWindowView,
    pub send: Option<AccountUpdateView>,
    pub navigate: Option<Screen>,
}

/// A screen of the browser.
#[derive(Clone, Copy, Debug, PartialEq, Eq, Structural)]
pub enum Screen {
    Home,
    Browse,
}

/// The view of a message to send.
pub open spec fn update_view(update: Option<AccountUpdate>) -> Option<AccountUpdateView> {
    match update {
        Some(u) => Some(u@),
        None => None,
    }
}

/// What is shown once a fetch of `url` has been sent: while the relay has never
/// been heard of, its demo page or an empty one; else what was shown before.
pub open spec fn while_fetching(
    relay_contacted: bool,
    ui: AppWindowView,
    url: Seq<char>,
) -> AppWindowView {
    if relay_contacted {
        AppWindowView { status_line: FETCHING@, ..ui }
    } else {
        match demo::demo(url) {
            Some((page_title, blocks)) => AppWindowView {
                page_title,
                blocks,
                status_line: DEMO_CONTENT@,
                ..ui
            },
            None => AppWindowView { blocks: Seq::empty(), status_line: FETCHING@, ..ui },
        }
    }
}

/// What comes of asking for the page at `raw_url`, as a new visit where
/// `record` says so. Nothing does where the address is blank.
pub open spec fn requested(
    session: SessionView,
    ui: AppWindowView,
    raw_url: Seq<char>,
    record: bool,
) -> Effect {
    let url = normalized(raw_url);
    if url.len() == 0 {
        Effect { session, ui, send: None, navigate: None }
    } else {
        let visit = if record {
            session.visited(url)
        } else {
            session
        };
        let id = visit.fetch_seq + 1;
        let asking = synced(
            visit,
            AppWindowView { url, error_text: Seq::empty(), loading: false, ..ui },
        );
        Effect {
            session: SessionView { fetch_seq: id, ..visit },
            ui: while_fetching(visit.relay_contacted, asking, url),
            send: Some(channel_update(fetch_members(id, url))),
            navigate: None,
        }
    }
}

/// Asking for an address shows it without an error, and sends the relay a fetch
/// of it, and of nothing else, under the next id. What the affordances show is
/// what the history holds. Asking for white space does nothing.
pub proof fn law_request_sends_and_shows_the_address(
    session: SessionView,
    ui: AppWindowView,
    raw_url: Seq<char>,
    record: bool,
)
    requires
        session.well_formed(),
    ensures
        ({
            let url = normalized(raw_url);
            let e = requested(session, ui, raw_url, record);
            if url.len() > 0 {
                &&& e.session.fetch_seq == session.fetch_seq + 1
                &&& e.session.relay_contacted == session.relay_contacted
                &&& e.send matches Some(update)
                &&& update.account_id == "web-0"@
                &&& update.update == json::object_data(
                    seq![
                        ("type"@, "fetch"@),
                        ("id"@, text::decimal(session.fetch_seq + 1)),
                        ("url"@, url),
                    ],
                )
                &&& e.ui.url == url
                &&& e.ui.error_text.len() == 0
                &&& !e.ui.loading
                &&& e.ui.can_go_back == (e.session.index >= 1)
                &&& e.ui.can_go_forward == (e.session.history.len() - e.session.index >= 2)
                &&& e.ui.connection_status == ui.connection_status
                &&& e.ui.relay_online == ui.relay_online
                &&& e.navigate is None
            } else {
                e == (Effect { session, ui, send: None, navigate: None })
            }
        }),
{
    if normalized(raw_url).len() > 0 && record {
        law_visit_follows_the_page_shown(session, normalized(raw_url), 0);
    }
}

/// While a page is fetched, the page shown before stays, unless the relay has
/// never been heard of: then the demo page for the address is shown, or nothing
/// where there is none.
pub proof fn law_what_is_shown_while_fetching(
    session: SessionView,
    ui: AppWindowView,
    raw_url: Seq<char>,
    record: bool,
)
    requires
        normalized(raw_url).len() > 0,
    ensures
        ({
            let e = requested(session, ui, raw_url, record);
            let page = demo::demo(normalized(raw_url));
            if session.relay_contacted {
                &&& e.ui.page_title == ui.page_title
                &&& e.ui.blocks == ui.blocks
                &&& e.ui.status_line == "fetching…"@
            } else if page is Some {
                &&& e.ui.page_title == (page->0).0
                &&& e.ui.blocks == (page->0).1
                &&& e.ui.status_line == "demo content — connect surf-relay for live web"@
            } else {
                &&& e.ui.page_title == ui.page_title
                &&& e.ui.blocks.len() == 0
                &&& e.ui.status_line == "fetching…"@
            }
        }),
{
}

/// The window is seen as it stands.
pub proof fn law_window_is_seen_as_it_stands(ui: AppWindow, i: int)
    ensures
        ui@.url == ui.url@,
        ui@.status_line == ui.status_line@,
        ui@.error_text == ui.error_text@,
        ui@.page_title == ui.page_title@,
        ui@.connection_status == ui.connection_status@,
        ui@.loading == ui.loading,
        ui@.can_go_back == ui.can_go_back,
        ui@.can_go_forward == ui.can_go_forward,
        ui@.relay_online == ui.relay_online,
        ui@.blocks.len() == ui.blocks.len(),
        0 <= i < ui.blocks.len() ==> {
            &&& ui@.blocks[i].kind == ui.blocks[i].kind@
            &&& ui@.blocks[i].text == ui.blocks[i].text@
            &&& ui@.blocks[i].href == ui.blocks[i].href@
        },
{
    page::law_blocks_are_seen_as_they_stand(ui.blocks@, i);
}

/// Asks the relay for the page at `raw_url`, as a new visit where `record` says
/// so, and shows the demo page for it while the relay has never been heard of.
/// The result is the message to send, or `None` where the address is blank.
pub fn request_page(
    session: &mut Session,
    ui: &mut AppWindow,
    raw_url: &str,
    record: bool,
) -> (r: Option<AccountUpdate>)
    requires
        old(session)@.well_formed(),
        old(session)@.has_id_for(raw_url@),
    ensures
        requested(old(session)@, old(ui)@, raw_url@, record) == (Effect {
            session: final(session)@,
            ui: final(ui)@,
            send: update_view(r),
            navigate: None,
        }),
        final(session)@.well_formed(),
{
    let url = normalize_url(raw_url);
    if url.as_str().unicode_len() == 0 {
        return None;
    }
    let ghost before = session@;
    let ghost shown = ui@;
    set_url(ui, url.as_str());
    set_error(ui, "");
    ui.loading = true;
    if record {
        push_history(session, ui, url.as_str());
    } else {
        sync_nav_state(session, ui);
    }
    let ghost visit = session@;

    session.fetch_seq = session.fetch_seq + 1;
    let mut members: Vec<(String, String)> = Vec::new();
    members.push(("type".to_owned(), "fetch".to_owned()));
    members.push(("id".to_owned(), text::decimal_string(session.fetch_seq)));
    members.push(("url".to_owned(), url.clone()));
    assert(json::members_view(members@) =~= fetch_members(visit.fetch_seq + 1, url@));
    let update = send_envelope(members);

    if !session.relay_contacted {
        match demo::demo_page(url.as_str()) {
            Some((title, blocks)) => {
                ui.page_title = title;
                render_blocks(ui, &blocks);
                set_status(ui, DEMO_CONTENT);
            },
            None => {
                let none: Vec<Block> = Vec::new();
                assert(page::blocks_view(none@) =~= Seq::empty());
                render_blocks(ui, &none);
                set_status(ui, FETCHING);
            },
        }
    } else {
        set_status(ui, FETCHING);
    }
    ui.loading = false;
    proof {
        reveal_strlit("");
        assert(""@ =~= Seq::empty());
    }
    assert(ui@ =~= requested(before, shown, raw_url@, record).ui);
    Some(update)
}

} // verus!
