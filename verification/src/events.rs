//! The events of the browser: what the user does, what pairing reports, and
//! what the relay sends.

use crate::browser;
use crate::browser::{
    AppWindow, AppWindowView, Effect, Screen, Session, SessionView, CHANNEL,
};
use crate::demo;
use crate::json;
use crate::page;
use crate::page::{Block, BlockView, RelayBlock, RelayEnvelope, RelayEnvelopeView};
use crate::ql::{AccountUpdate, QuantumLinkMessageView};
use crate::router;
use crate::router::{RouterView, StepView};
use crate::text;
use vstd::prelude::*;

verus! {

/// What the caller has to do after an event: a message to send to the relay,
/// and a screen to turn to.
#[derive(Debug)]
pub struct Outcome {
    pub send: Option<AccountUpdate>,
    pub navigate: Option<Screen>,
}

/// The effect that an outcome is part of.
pub open spec fn effect(session: SessionView, ui: AppWindowView, outcome: Outcome) -> Effect {
    Effect {
        session,
        ui,
        send: browser::update_view(outcome.send),
        navigate: outcome.navigate,
    }
}

// ---------------------------------------------------------------------------
// Start
// ---------------------------------------------------------------------------

/// What is shown at the start.
pub open spec fn started(ui: AppWindowView) -> AppWindowView {
    AppWindowView {
        connection_status: "Not connected"@,
        relay_online: false,
        status_line: "ready — no relay contacted yet"@,
        ..ui
    }
}

/// The members of the envelope that announces the browser to the gateway.
pub open spec fn ready_members() -> Seq<(Seq<char>, Seq<char>)> {
    seq![("type"@, "ready"@), ("version"@, "1.0"@)]
}

/// Starts the browser: a new session, and the message that announces the
/// browser to the gateway.
pub fn app_main(ui: &mut AppWindow) -> (r: (Session, AccountUpdate))
    ensures
        final(ui)@ == started(old(ui)@),
        r.0@ == (SessionView {
            history: Seq::empty(),
            index: 0,
            fetch_seq: 0,
            relay_contacted: false,
        }),
        r.1@ == browser::channel_update(ready_members()),
{
    ui.connection_status = "Not connected".to_owned();
    ui.relay_online = false;
    browser::set_status(ui, "ready — no relay contacted yet");
    let mut members: Vec<(String, String)> = Vec::new();
    members.push(("type".to_owned(), "ready".to_owned()));
    members.push(("version".to_owned(), "1.0".to_owned()));
    assert(json::members_view(members@) =~= ready_members());
    (Session::new(), browser::send_envelope(members))
}

// ---------------------------------------------------------------------------
// Navigation
// ---------------------------------------------------------------------------

/// What comes of an address opened from the home screen or by the gateway: the
/// page is asked for and the browse screen shown.
pub open spec fn opened(session: SessionView, ui: AppWindowView, url: Seq<char>) -> Effect {
    Effect {
        navigate: Some(Screen::Browse),
        ..browser::requested(session, ui, url, true)
    }
}

/// What comes of going back.
pub open spec fn gone_back(session: SessionView, ui: AppWindowView) -> Effect {
    if session.can_go_back() {
        let there = SessionView { index: session.index - 1, ..session };
        browser::requested(there, ui, there.history[there.index], false)
    } else {
        Effect { session, ui, send: None, navigate: None }
    }
}

/// What comes of going forward.
pub open spec fn gone_forward(session: SessionView, ui: AppWindowView) -> Effect {
    if session.can_go_forward() {
        let there = SessionView { index: session.index + 1, ..session };
        browser::requested(there, ui, there.history[there.index], false)
    } else {
        Effect { session, ui, send: None, navigate: None }
    }
}

/// Opens an address from the home screen or for the gateway, and shows the
/// browse screen.
pub fn open_url(session: &mut Session, ui: &mut AppWindow, url: &str) -> (r: Outcome)
    requires
        old(session)@.well_formed(),
        old(session)@.has_id_for(url@),
    ensures
        effect(final(session)@, final(ui)@, r) == opened(old(session)@, old(ui)@, url@),
        final(session)@.well_formed(),
{
    let send = browser::request_page(session, ui, url, true);
    Outcome { send, navigate: Some(Screen::Browse) }
}

/// Goes back one page, where there is one.
pub fn go_back(session: &mut Session, ui: &mut AppWindow) -> (r: Outcome)
    requires
        old(session)@.well_formed(),
        old(session)@.has_id_for(old(session)@.back_url()),
    ensures
        effect(final(session)@, final(ui)@, r) == gone_back(old(session)@, old(ui)@),
        final(session)@.well_formed(),
{
    match session.step_back() {
        Some(url) => Outcome {
            send: browser::request_page(session, ui, url.as_str(), false),
            navigate: None,
        },
        None => Outcome { send: None, navigate: None },
    }
}

/// Goes forward one page, where there is one.
pub fn go_forward(session: &mut Session, ui: &mut AppWindow) -> (r: Outcome)
    requires
        old(session)@.well_formed(),
        old(session)@.has_id_for(old(session)@.forward_url()),
    ensures
        effect(final(session)@, final(ui)@, r) == gone_forward(old(session)@, old(ui)@),
        final(session)@.well_formed(),
{
    match session.step_forward() {
        Some(url) => Outcome {
            send: browser::request_page(session, ui, url.as_str(), false),
            navigate: None,
        },
        None => Outcome { send: None, navigate: None },
    }
}

// ---------------------------------------------------------------------------
// Pairing
// ---------------------------------------------------------------------------

/// What is heard of the pairing with a companion.
#[derive(Debug)]
pub enum PairingEvent {
    PairingComplete { device_name: String, new: bool },
    Disconnected,
    PairingFailed,
    RequestReceived,
}

/// The connection status after a pairing event.
pub open spec fn pairing_text(event: PairingEvent) -> Seq<char> {
    match event {
        PairingEvent::PairingComplete { device_name, new } => "Paired: "@ + device_name@ + " ("@
            + (if new {
            "new"@
        } else {
            "existing"@
        }) + ")"@,
        PairingEvent::Disconnected => "Not paired"@,
        PairingEvent::PairingFailed => "Pairing failed"@,
        PairingEvent::RequestReceived => "Pairing request — approve on companion"@,
    }
}

/// The connection status after a pairing event.
pub fn pairing_status(event: &PairingEvent) -> (r: String)
    ensures
        r@ == pairing_text(*event),
{
    match event {
        PairingEvent::PairingComplete { device_name, new } => {
            let mut status = "Paired: ".to_owned();
            status.append(device_name.as_str());
            status.append(" (");
            status.append(
                if *new {
                    "new"
                } else {
                    "existing"
                },
            );
            status.append(")");
            status
        },
        PairingEvent::Disconnected => "Not paired".to_owned(),
        PairingEvent::PairingFailed => "Pairing failed".to_owned(),
        PairingEvent::RequestReceived => "Pairing request — approve on companion".to_owned(),
    }
}

// ---------------------------------------------------------------------------
// The relay
// ---------------------------------------------------------------------------

/// The status line of a page that the relay sent.
pub open spec fn http_text(status: u16) -> Seq<char> {
    if status == 200 {
        "fetched via relay (HTTP "@ + text::decimal(status as nat) + ")"@
    } else {
        "HTTP "@ + text::decimal(status as nat)
    }
}

/// What is shown of a page that the relay sent. An empty title or address
/// leaves the one shown before.
pub open spec fn page_shown(
    ui: AppWindowView,
    status: u16,
    title: Seq<char>,
    url: Seq<char>,
    blocks: Seq<BlockView>,
    error: Option<Seq<char>>,
) -> AppWindowView {
    AppWindowView {
        error_text: match error {
            Some(e) => "relay: "@ + e,
            None => Seq::empty(),
        },
        page_title: if title.len() > 0 {
            title
        } else {
            ui.page_title
        },
        url: if url.len() > 0 {
            url
        } else {
            ui.url
        },
        status_line: http_text(status),
        blocks,
        loading: false,
        ..ui
    }
}

/// What comes of an update from the companion, where `envelope` is what its
/// bytes stand for, or `None` where they stand for no envelope. Updates on
/// other channels are left alone.
pub open spec fn heard(
    session: SessionView,
    ui: AppWindowView,
    account_id: Seq<char>,
    envelope: Option<RelayEnvelopeView>,
) -> Effect {
    if account_id != CHANNEL@ {
        Effect { session, ui, send: None, navigate: None }
    } else {
        let session = SessionView { relay_contacted: true, ..session };
        let ui = AppWindowView {
            relay_online: true,
            connection_status: "Relay connected"@,
            ..ui
        };
        match envelope {
            Some(RelayEnvelopeView::Page { id: _, status, title, url, blocks, error }) => Effect {
                session,
                ui: page_shown(ui, status, title, url, blocks, error),
                send: None,
                navigate: None,
            },
            Some(RelayEnvelopeView::OpenUrl { url }) => opened(session, ui, url),
            None => Effect { session, ui, send: None, navigate: None },
        }
    }
}

/// The address that an update from the companion asks to open; empty where it
/// asks for none.
pub open spec fn pushed_url(
    account_id: Seq<char>,
    envelope: Option<RelayEnvelopeView>,
) -> Seq<char> {
    match envelope {
        Some(RelayEnvelopeView::OpenUrl { url }) if account_id == CHANNEL@ => url,
        _ => Seq::empty(),
    }
}

/// The view of what the bytes of an update stand for.
pub open spec fn envelope_view(envelope: Option<RelayEnvelope>) -> Option<RelayEnvelopeView> {
    match envelope {
        Some(e) => Some(e@),
        None => None,
    }
}

fn http_status(status: u16) -> (r: String)
    ensures
        r@ == http_text(status),
{
    let number = text::decimal_string(status as u64);
    if status == 200 {
        let mut line = "fetched via relay (HTTP ".to_owned();
        line.append(number.as_str());
        line.append(")");
        line
    } else {
        let mut line = "HTTP ".to_owned();
        line.append(number.as_str());
        line
    }
}

fn convert_blocks(blocks: &Vec<RelayBlock>) -> (r: Vec<Block>)
    ensures
        page::blocks_view(r@) == page::relay_blocks_view(blocks@),
{
    let mut r: Vec<Block> = Vec::new();
    let mut i: usize = 0;
    while i < blocks.len()
        invariant
            i <= blocks.len(),
            r.len() == i,
            forall|j: int| 0 <= j < i ==> (#[trigger] r[j])@ == blocks[j]@,
        decreases blocks.len() - i,
    {
        let b = &blocks[i];
        r.push(Block { kind: b.kind.clone(), text: b.text.clone(), href: b.href.clone() });
        i = i + 1;
    }
    assert(page::blocks_view(r@) =~= page::relay_blocks_view(blocks@));
    r
}

/// Takes an update from the companion, where `envelope` is what its bytes stand
/// for, or `None` where they stand for no envelope.
pub fn account_update(
    session: &mut Session,
    ui: &mut AppWindow,
    account_id: &str,
    envelope: Option<RelayEnvelope>,
) -> (r: Outcome)
    requires
        old(session)@.well_formed(),
        old(session)@.has_id_for(pushed_url(account_id@, envelope_view(envelope))),
    ensures
        effect(final(session)@, final(ui)@, r) == heard(
            old(session)@,
            old(ui)@,
            account_id@,
            envelope_view(envelope),
        ),
        final(session)@.well_formed(),
{
    if !text::same(account_id, CHANNEL) {
        return Outcome { send: None, navigate: None };
    }
    session.contact_relay();
    ui.relay_online = true;
    ui.connection_status = "Relay connected".to_owned();
    match envelope {
        Some(RelayEnvelope::Page { id: _, status, title, url, blocks, error }) => {
            ui.loading = true;
            match &error {
                Some(e) => {
                    let mut line = "relay: ".to_owned();
                    line.append(e.as_str());
                    browser::set_error(ui, line.as_str());
                },
                None => browser::set_error(ui, ""),
            }
            if title.as_str().unicode_len() > 0 {
                ui.page_title = title;
            }
            if url.as_str().unicode_len() > 0 {
                browser::set_url(ui, url.as_str());
            }
            browser::set_status(ui, http_status(status).as_str());
            let converted = convert_blocks(&blocks);
            browser::render_blocks(ui, &converted);
            ui.loading = false;
            proof {
                reveal_strlit("");
                assert(""@ =~= Seq::empty());
            }
            Outcome { send: None, navigate: None }
        },
        Some(RelayEnvelope::OpenUrl { url }) => open_url(session, ui, url.as_str()),
        None => Outcome { send: None, navigate: None },
    }
}

// ---------------------------------------------------------------------------
// All events
// ---------------------------------------------------------------------------

/// Something that happens to the browser.
#[derive(Debug)]
pub enum BrowserEvent {
    /// The browse screen is asked for.
    GotoBrowse,
    /// The home screen is asked for.
    GoHome,
    /// An address is opened from the home screen.
    OpenUrl(String),
    /// A link in a page is followed.
    LinkClicked(String),
    /// The address that is shown is submitted.
    SubmitUrl,
    GoBack,
    GoForward,
    /// The address that is shown is fetched again.
    Refresh,
    Pairing(PairingEvent),
    /// An update from the companion, and what its bytes stand for, or `None`
    /// where they stand for no envelope.
    AccountUpdate { account_id: String, envelope: Option<RelayEnvelope> },
}

/// What comes of an event.
pub open spec fn handled(session: SessionView, ui: AppWindowView, event: BrowserEvent) -> Effect {
    match event {
        BrowserEvent::GotoBrowse => Effect {
            session,
            ui,
            send: None,
            navigate: Some(Screen::Browse),
        },
        BrowserEvent::GoHome => Effect { session, ui, send: None, navigate: Some(Screen::Home) },
        BrowserEvent::OpenUrl(url) => opened(session, ui, url@),
        BrowserEvent::LinkClicked(href) => browser::requested(session, ui, href@, true),
        BrowserEvent::SubmitUrl => browser::requested(session, ui, ui.url, true),
        BrowserEvent::GoBack => gone_back(session, ui),
        BrowserEvent::GoForward => gone_forward(session, ui),
        BrowserEvent::Refresh => browser::requested(session, ui, ui.url, false),
        BrowserEvent::Pairing(event) => Effect {
            session,
            ui: AppWindowView { connection_status: pairing_text(event), ..ui },
            send: None,
            navigate: None,
        },
        BrowserEvent::AccountUpdate { account_id, envelope } => heard(
            session,
            ui,
            account_id@,
            envelope_view(envelope),
        ),
    }
}

/// The address that an event asks for; empty where it asks for none.
pub open spec fn asked_url(
    session: SessionView,
    ui: AppWindowView,
    event: BrowserEvent,
) -> Seq<char> {
    match event {
        BrowserEvent::OpenUrl(url) => url@,
        BrowserEvent::LinkClicked(href) => href@,
        BrowserEvent::SubmitUrl => ui.url,
        BrowserEvent::Refresh => ui.url,
        BrowserEvent::GoBack => session.back_url(),
        BrowserEvent::GoForward => session.forward_url(),
        BrowserEvent::AccountUpdate { account_id, envelope } => pushed_url(
            account_id@,
            envelope_view(envelope),
        ),
        _ => Seq::empty(),
    }
}

/// Takes an event.
pub fn handle_event(session: &mut Session, ui: &mut AppWindow, event: BrowserEvent) -> (r: Outcome)
    requires
        old(session)@.well_formed(),
        old(session)@.has_id_for(asked_url(old(session)@, old(ui)@, event)),
    ensures
        effect(final(session)@, final(ui)@, r) == handled(old(session)@, old(ui)@, event),
        final(session)@.well_formed(),
{
    match event {
        BrowserEvent::GotoBrowse => Outcome { send: None, navigate: Some(Screen::Browse) },
        BrowserEvent::GoHome => Outcome { send: None, navigate: Some(Screen::Home) },
        BrowserEvent::OpenUrl(url) => open_url(session, ui, url.as_str()),
        BrowserEvent::LinkClicked(href) => Outcome {
            send: browser::request_page(session, ui, href.as_str(), true),
            navigate: None,
        },
        BrowserEvent::SubmitUrl => {
            let url = ui.url.clone();
            Outcome {
                send: browser::request_page(session, ui, url.as_str(), true),
                navigate: None,
            }
        },
        BrowserEvent::GoBack => go_back(session, ui),
        BrowserEvent::GoForward => go_forward(session, ui),
        BrowserEvent::Refresh => {
            let url = ui.url.clone();
            Outcome {
                send: browser::request_page(session, ui, url.as_str(), false),
                navigate: None,
            }
        },
        BrowserEvent::Pairing(event) => {
            ui.connection_status = pairing_status(&event);
            Outcome { send: None, navigate: None }
        },
        BrowserEvent::AccountUpdate { account_id, envelope } => account_update(
            session,
            ui,
            account_id.as_str(),
            envelope,
        ),
    }
}

// ---------------------------------------------------------------------------
// Laws
// ---------------------------------------------------------------------------

/// What the browser sends, the bridge forwards to the relay byte for byte; what
/// the bridge sends back, the browser takes as coming from the relay.
pub proof fn law_browser_and_bridge_share_a_channel(
    router: RouterView,
    session: SessionView,
    ui: AppWindowView,
    event: BrowserEvent,
    sender: Seq<u8>,
    clock: Option<u64>,
    protocol_version: u32,
    line: Seq<u8>,
    later: Option<u64>,
    envelope: Option<RelayEnvelopeView>,
)
    requires
        line.len() > 0,
    ensures
        handled(session, ui, event).send matches Some(update) ==> router.route_step(
            QuantumLinkMessageView::AccountUpdate(update),
            sender,
            clock,
            protocol_version,
        ) == (StepView::Exchange {
            relay_addr: router.relay_addr,
            timeout: router.relay_timeout,
            envelope: update.update,
            reply_to: sender,
        }),
        router::reply_step(Ok(line), sender, later) matches StepView::Send(outgoing)
            && outgoing.message.message matches QuantumLinkMessageView::AccountUpdate(reply)
            && heard(session, ui, reply.account_id, envelope).session.relay_contacted,
{
}

/// At the start the browser says that it is not connected and that no relay has
/// been contacted, and announces itself on the channel; whatever else is shown
/// stays.
pub proof fn law_start_announces_the_browser(ui: AppWindowView)
    ensures
        started(ui).connection_status == "Not connected"@,
        started(ui).status_line == "ready — no relay contacted yet"@,
        !started(ui).relay_online,
        started(ui).url == ui.url,
        started(ui).error_text == ui.error_text,
        started(ui).page_title == ui.page_title,
        started(ui).blocks == ui.blocks,
        started(ui).loading == ui.loading,
        started(ui).can_go_back == ui.can_go_back,
        started(ui).can_go_forward == ui.can_go_forward,
        browser::channel_update(ready_members()).account_id == "web-0"@,
        browser::channel_update(ready_members()).update == json::object_data(
            seq![("type"@, "ready"@), ("version"@, "1.0"@)],
        ),
{
}

/// An event in which the user, or the gateway on the browser's channel, names an
/// address to visit: by opening it, following a link to it, submitting the one
/// that is shown, or pushing it.
pub open spec fn names_address(ui: AppWindowView, event: BrowserEvent, address: Seq<char>) -> bool {
    ||| (event matches BrowserEvent::OpenUrl(url) && url@ == address)
    ||| (event matches BrowserEvent::LinkClicked(href) && href@ == address)
    ||| (event is SubmitUrl && ui.url == address)
    ||| (event matches BrowserEvent::AccountUpdate {
        account_id,
        envelope: Some(RelayEnvelope::OpenUrl { url }),
    } && account_id@ == "web-0"@ && url@ == address)
}

/// Whether `e` shows the relay as heard of where the event came from it, and
/// says of the relay what was said before where it did not.
pub open spec fn is_heard_in(
    session: SessionView,
    ui: AppWindowView,
    event: BrowserEvent,
    e: Effect,
) -> bool {
    if event is AccountUpdate {
        &&& e.session.relay_contacted
        &&& e.ui.relay_online
        &&& e.ui.connection_status == "Relay connected"@
    } else {
        &&& e.session.relay_contacted == session.relay_contacted
        &&& e.ui.relay_online == ui.relay_online
        &&& e.ui.connection_status == ui.connection_status
    }
}

/// Every visit is recorded: after an event that names an address, the history is
/// the pages up to the one that was shown, and then the address. So there is
/// nothing to go forward to, and just the page that was shown to go back to. The
/// address is shown and fetched under the next id, and the browse screen turned
/// to where the address was opened or pushed.
pub proof fn law_visits_are_recorded(
    session: SessionView,
    ui: AppWindowView,
    event: BrowserEvent,
    address: Seq<char>,
)
    requires
        session.well_formed(),
        names_address(ui, event, address),
        browser::normalized(address).len() > 0,
    ensures
        ({
            let e = handled(session, ui, event);
            let url = browser::normalized(address);
            let kept: int = if session.history.len() > 0 {
                session.index + 1
            } else {
                0
            };
            &&& e.session.index == kept
            &&& e.session.history.len() == kept + 1
            &&& e.session.history[kept] == url
            &&& forall|i: int|
                0 <= i < kept ==> #[trigger] e.session.history[i] == session.history[i]
            &&& e.ui.can_go_back == (session.history.len() > 0)
            &&& !e.ui.can_go_forward
            &&& e.ui.url == url
            &&& e.ui.error_text.len() == 0
            &&& !e.ui.loading
            &&& e.session.fetch_seq == session.fetch_seq + 1
            &&& e.send matches Some(update)
            &&& update.account_id == "web-0"@
            &&& update.update == json::object_data(
                seq![
                    ("type"@, "fetch"@),
                    ("id"@, text::decimal(session.fetch_seq + 1)),
                    ("url"@, url),
                ],
            )
            &&& e.navigate == (if event is OpenUrl || event is AccountUpdate {
                Some(Screen::Browse)
            } else {
                None
            })
            &&& is_heard_in(session, ui, event, e)
        }),
{
    let url = browser::normalized(address);
    assert forall|i: int| 0 <= i < session.visited(url).index implies #[trigger] session.visited(
        url,
    ).history[i] == session.history[i] by {
        browser::law_visit_follows_the_page_shown(session, url, i);
    }
    browser::law_visit_follows_the_page_shown(session, url, 0);
    browser::law_request_sends_and_shows_the_address(session, ui, address, true);
}

/// A blank address is not visited: neither the history nor the page that is
/// shown changes, and nothing is fetched.
pub proof fn law_blank_addresses_are_not_visited(
    session: SessionView,
    ui: AppWindowView,
    event: BrowserEvent,
    address: Seq<char>,
)
    requires
        names_address(ui, event, address),
        forall|i: int| 0 <= i < address.len() ==> text::is_white_space(#[trigger] address[i]),
    ensures
        ({
            let e = handled(session, ui, event);
            &&& e.session.history == session.history
            &&& e.session.index == session.index
            &&& e.session.fetch_seq == session.fetch_seq
            &&& e.send is None
            &&& e.ui.url == ui.url
            &&& e.ui.page_title == ui.page_title
            &&& e.ui.blocks == ui.blocks
            &&& e.ui.status_line == ui.status_line
            &&& e.ui.error_text == ui.error_text
            &&& e.navigate == (if event is OpenUrl || event is AccountUpdate {
                Some(Screen::Browse)
            } else {
                None
            })
            &&& is_heard_in(session, ui, event, e)
            &&& !(event is AccountUpdate) ==> e.session == session && e.ui == ui
        }),
{
    text::law_trimming_removes_outer_white_space(address, Seq::empty(), Seq::empty());
    assert(address + Seq::<char>::empty() + Seq::<char>::empty() =~= address);
}

/// Following a link and going back shows the page that the link was on, and
/// going forward from there the one that it leads to.
pub proof fn law_link_then_back_then_forward(
    session: SessionView,
    ui: AppWindowView,
    click: BrowserEvent,
    href: Seq<char>,
)
    requires
        consistent(session, ui),
        session.history.len() > 0,
        names_address(ui, click, href),
        browser::normalized(href).len() > 0,
    ensures
        ({
            let there = handled(session, ui, click);
            let back = handled(there.session, there.ui, BrowserEvent::GoBack);
            let again = handled(back.session, back.ui, BrowserEvent::GoForward);
            &&& there.ui.url == browser::normalized(href)
            &&& back.ui.url == session.history[session.index]
            &&& back.session.index == session.index
            &&& back.ui.can_go_forward
            &&& again.ui.url == browser::normalized(href)
            &&& again.session.index == session.index + 1
            &&& again.session.history == there.session.history
        }),
{
    let there = handled(session, ui, click);
    law_visits_are_recorded(session, ui, click, href);
    law_events_keep_the_browser_consistent(session, ui, click);
    assert(there.session.history[session.index] == session.history[session.index]);
    law_steps_through_the_history(there.session, there.ui);
    let back = handled(there.session, there.ui, BrowserEvent::GoBack);
    law_events_keep_the_browser_consistent(there.session, there.ui, BrowserEvent::GoBack);
    law_steps_through_the_history(back.session, back.ui);
}

/// Going back or forward moves one page along the history, which stays as it is,
/// and shows and fetches the page there; at the end of the history it does
/// nothing.
pub proof fn law_steps_through_the_history(session: SessionView, ui: AppWindowView)
    requires
        consistent(session, ui),
    ensures
        ({
            let e = handled(session, ui, BrowserEvent::GoBack);
            if session.index >= 1 {
                is_step_to(session, e, session.index - 1) && is_heard_in(
                    session,
                    ui,
                    BrowserEvent::GoBack,
                    e,
                )
            } else {
                e == (Effect { session, ui, send: None, navigate: None })
            }
        }),
        ({
            let e = handled(session, ui, BrowserEvent::GoForward);
            if session.history.len() - session.index >= 2 {
                is_step_to(session, e, session.index + 1) && is_heard_in(
                    session,
                    ui,
                    BrowserEvent::GoForward,
                    e,
                )
            } else {
                e == (Effect { session, ui, send: None, navigate: None })
            }
        }),
{
    if session.index >= 1 {
        lemma_step(session, ui, session.index - 1);
    }
    if session.history.len() - session.index >= 2 {
        lemma_step(session, ui, session.index + 1);
    }
}

/// Whether `e` moves from `session` to the position `to` in the same history,
/// and shows and fetches the page there.
pub open spec fn is_step_to(session: SessionView, e: Effect, to: int) -> bool {
    &&& e.session.history == session.history
    &&& e.session.index == to
    &&& e.session.fetch_seq == session.fetch_seq + 1
    &&& e.session.relay_contacted == session.relay_contacted
    &&& e.ui.url == session.history[to]
    &&& e.ui.can_go_back == (to >= 1)
    &&& e.ui.can_go_forward == (session.history.len() - to >= 2)
    &&& e.ui.error_text.len() == 0
    &&& !e.ui.loading
    &&& e.send matches Some(update)
    &&& update.account_id == "web-0"@
    &&& update.update == json::object_data(
        seq![
            ("type"@, "fetch"@),
            ("id"@, text::decimal(session.fetch_seq + 1)),
            ("url"@, session.history[to]),
        ],
    )
    &&& e.navigate is None
}

proof fn lemma_step(session: SessionView, ui: AppWindowView, to: int)
    requires
        consistent(session, ui),
        0 <= to < session.history.len(),
    ensures
        is_step_to(
            session,
            browser::requested(SessionView { index: to, ..session }, ui, session.history[to], false),
            to,
        ),
{
    lemma_normal_not_empty(session.history[to]);
    browser::law_request_sends_and_shows_the_address(
        SessionView { index: to, ..session },
        ui,
        session.history[to],
        false,
    );
}

/// Refreshing fetches the address that is shown and leaves the history and the
/// position in it as they are.
pub proof fn law_refresh_fetches_the_address_shown(session: SessionView, ui: AppWindowView)
    requires
        session.well_formed(),
    ensures
        ({
            let e = handled(session, ui, BrowserEvent::Refresh);
            let url = browser::normalized(ui.url);
            &&& e.session.history == session.history
            &&& e.session.index == session.index
            &&& e.navigate is None
            &&& is_heard_in(session, ui, BrowserEvent::Refresh, e)
            &&& url.len() > 0 ==> {
                &&& e.session.fetch_seq == session.fetch_seq + 1
                &&& e.ui.url == url
                &&& e.ui.error_text.len() == 0
                &&& !e.ui.loading
                &&& e.ui.can_go_back == (session.index >= 1)
                &&& e.ui.can_go_forward == (session.history.len() - session.index >= 2)
                &&& e.send matches Some(update)
                &&& update.account_id == "web-0"@
                &&& update.update == json::object_data(
                    seq![
                        ("type"@, "fetch"@),
                        ("id"@, text::decimal(session.fetch_seq + 1)),
                        ("url"@, url),
                    ],
                )
            }
            &&& url.len() == 0 ==> e.session == session && e.ui == ui && e.send is None
        }),
{
    browser::law_request_sends_and_shows_the_address(session, ui, ui.url, false);
}

/// While a page is fetched after any event, the page shown before stays, unless
/// the relay has never been heard of: then it is the demo page for the address,
/// or nothing where there is none.
pub proof fn law_events_show_demo_pages_without_a_relay(
    session: SessionView,
    ui: AppWindowView,
    event: BrowserEvent,
)
    requires
        handled(session, ui, event).send is Some,
    ensures
        ({
            let e = handled(session, ui, event);
            if session.relay_contacted || event is AccountUpdate {
                &&& e.ui.page_title == ui.page_title
                &&& e.ui.blocks == ui.blocks
                &&& e.ui.status_line == "fetching…"@
            } else {
                match demo::demo(e.ui.url) {
                    Some((title, blocks)) => {
                        &&& e.ui.page_title == title
                        &&& e.ui.blocks == blocks
                        &&& e.ui.status_line == "demo content — connect surf-relay for live web"@
                    },
                    None => {
                        &&& e.ui.page_title == ui.page_title
                        &&& e.ui.blocks.len() == 0
                        &&& e.ui.status_line == "fetching…"@
                    },
                }
            }
        }),
{
}

/// A page from the relay is shown as it was sent: every block, in order, with
/// its kind, text and link, and the title and address where there are any; an
/// error is shown as the relay's, and no error where there is none. The status
/// is told, and whether it is that of a page. The history stays, nothing is
/// fetched, and no other screen is turned to.
pub proof fn law_page_is_shown_as_sent(
    session: SessionView,
    ui: AppWindowView,
    account_id: String,
    id: String,
    status: u16,
    title: String,
    url: String,
    blocks: Vec<RelayBlock>,
    error: Option<String>,
)
    requires
        account_id@ == "web-0"@,
    ensures
        ({
            let page = RelayEnvelope::Page { id, status, title, url, blocks, error };
            let e = handled(
                session,
                ui,
                BrowserEvent::AccountUpdate { account_id, envelope: Some(page) },
            );
            &&& e.ui.blocks.len() == blocks.len()
            &&& forall|i: int|
                0 <= i < blocks.len() ==> {
                    &&& (#[trigger] e.ui.blocks[i]).kind == blocks[i].kind@
                    &&& e.ui.blocks[i].text == blocks[i].text@
                    &&& e.ui.blocks[i].href == blocks[i].href@
                }
            &&& e.ui.page_title == (if title@.len() > 0 {
                title@
            } else {
                ui.page_title
            })
            &&& e.ui.url == (if url@.len() > 0 {
                url@
            } else {
                ui.url
            })
            &&& error matches Some(reason) ==> e.ui.error_text == "relay: "@ + reason@
            &&& error is None ==> e.ui.error_text.len() == 0
            &&& e.ui.status_line == (if status == 200 {
                "fetched via relay (HTTP "@ + text::decimal(200) + ")"@
            } else {
                "HTTP "@ + text::decimal(status as nat)
            })
            &&& !e.ui.loading
            &&& e.ui.relay_online
            &&& e.ui.connection_status == "Relay connected"@
            &&& e.ui.can_go_back == ui.can_go_back
            &&& e.ui.can_go_forward == ui.can_go_forward
            &&& e.session.history == session.history
            &&& e.session.index == session.index
            &&& e.session.fetch_seq == session.fetch_seq
            &&& e.session.relay_contacted
            &&& e.send is None
            &&& e.navigate is None
        }),
{
}

/// Bytes on the browser's channel that are no envelope show that the relay is
/// there, and change nothing else.
pub proof fn law_other_bytes_show_the_relay_only(
    session: SessionView,
    ui: AppWindowView,
    account_id: String,
)
    requires
        account_id@ == "web-0"@,
    ensures
        handled(session, ui, BrowserEvent::AccountUpdate { account_id, envelope: None }) == (
        Effect {
            session: SessionView { relay_contacted: true, ..session },
            ui: AppWindowView {
                relay_online: true,
                connection_status: "Relay connected"@,
                ..ui
            },
            send: None,
            navigate: None,
        }),
{
}

/// An update on another channel than the browser's changes nothing, whatever it
/// holds.
pub proof fn law_only_web0_is_heard(
    session: SessionView,
    ui: AppWindowView,
    account_id: String,
    envelope: Option<RelayEnvelope>,
)
    requires
        account_id@ != "web-0"@,
    ensures
        handled(session, ui, BrowserEvent::AccountUpdate { account_id, envelope }) == (Effect {
            session,
            ui,
            send: None,
            navigate: None,
        }),
{
}

/// A pairing event is told in the connection status, with the name of the
/// companion once paired, and changes nothing else.
pub proof fn law_pairing_is_told(session: SessionView, ui: AppWindowView, event: PairingEvent)
    ensures
        handled(session, ui, BrowserEvent::Pairing(event)) == (Effect {
            session,
            ui: AppWindowView {
                connection_status: match event {
                    PairingEvent::PairingComplete { device_name, new } => if new {
                        "Paired: "@ + device_name@ + " ("@ + "new"@ + ")"@
                    } else {
                        "Paired: "@ + device_name@ + " ("@ + "existing"@ + ")"@
                    },
                    PairingEvent::Disconnected => "Not paired"@,
                    PairingEvent::PairingFailed => "Pairing failed"@,
                    PairingEvent::RequestReceived => "Pairing request — approve on companion"@,
                },
                ..ui
            },
            send: None,
            navigate: None,
        }),
{
}

/// Turning to a screen does nothing else.
pub proof fn law_screens_are_turned_to(session: SessionView, ui: AppWindowView)
    ensures
        handled(session, ui, BrowserEvent::GotoBrowse) == (Effect {
            session,
            ui,
            send: None,
            navigate: Some(Screen::Browse),
        }),
        handled(session, ui, BrowserEvent::GoHome) == (Effect {
            session,
            ui,
            send: None,
            navigate: Some(Screen::Home),
        }),
{
}

/// An event amounts to the same as what it stands for, done directly.
pub proof fn law_events_stand_for_what_is_done(
    session: SessionView,
    ui: AppWindowView,
    url: String,
    event: PairingEvent,
    account_id: String,
    envelope: Option<RelayEnvelope>,
)
    ensures
        handled(session, ui, BrowserEvent::OpenUrl(url)) == opened(session, ui, url@),
        handled(session, ui, BrowserEvent::GoBack) == gone_back(session, ui),
        handled(session, ui, BrowserEvent::GoForward) == gone_forward(session, ui),
        handled(session, ui, BrowserEvent::Pairing(event)).ui.connection_status == pairing_text(
            event,
        ),
        handled(session, ui, BrowserEvent::AccountUpdate { account_id, envelope }) == heard(
            session,
            ui,
            account_id@,
            envelope_view(envelope),
        ),
{
}

/// What an outcome tells the caller to do is the effect of the event.
pub proof fn law_outcomes_are_seen_as_they_stand(
    session: SessionView,
    ui: AppWindowView,
    outcome: Outcome,
)
    ensures
        ({
            let e = effect(session, ui, outcome);
            &&& e.session == session
            &&& e.ui == ui
            &&& e.navigate == outcome.navigate
            &&& outcome.send is None ==> e.send is None
            &&& outcome.send matches Some(update) ==> {
                &&& e.send matches Some(sent)
                &&& sent.account_id == update.account_id@
                &&& sent.update == update.update@
            }
        }),
{
}

/// Whether every address in the history is a normalized one that the relay
/// accepts, and the back and forward affordances shown are those of the
/// session.
pub open spec fn consistent(session: SessionView, ui: AppWindowView) -> bool {
    &&& session.well_formed()
    &&& forall|i: int|
        0 <= i < session.history.len() ==> is_normal_url(#[trigger] session.history[i])
    &&& ui.can_go_back == session.can_go_back()
    &&& ui.can_go_forward == session.can_go_forward()
}

/// Whether `url` is a normalized address that the relay accepts.
pub open spec fn is_normal_url(url: Seq<char>) -> bool {
    browser::is_web_url(url) && browser::normalized(url) == url
}

/// The browser is consistent at the start, where no affordance is shown yet.
pub proof fn law_start_is_consistent(ui: AppWindowView)
    requires
        !ui.can_go_back,
        !ui.can_go_forward,
    ensures
        consistent(
            SessionView {
                history: Seq::empty(),
                index: 0,
                fetch_seq: 0,
                relay_contacted: false,
            },
            started(ui),
        ),
{
}

/// Every event leaves a consistent browser consistent.
pub proof fn law_events_keep_the_browser_consistent(
    session: SessionView,
    ui: AppWindowView,
    event: BrowserEvent,
)
    requires
        consistent(session, ui),
    ensures
        consistent(handled(session, ui, event).session, handled(session, ui, event).ui),
{
    match event {
        BrowserEvent::OpenUrl(url) => lemma_request_keeps_consistent(session, ui, url@, true),
        BrowserEvent::LinkClicked(href) => lemma_request_keeps_consistent(
            session,
            ui,
            href@,
            true,
        ),
        BrowserEvent::SubmitUrl => lemma_request_keeps_consistent(session, ui, ui.url, true),
        BrowserEvent::Refresh => lemma_request_keeps_consistent(session, ui, ui.url, false),
        BrowserEvent::GoBack => {
            if session.can_go_back() {
                let there = SessionView { index: session.index - 1, ..session };
                lemma_normal_not_empty(there.history[there.index]);
                lemma_request_keeps_consistent(there, ui, there.history[there.index], false);
            }
        },
        BrowserEvent::GoForward => {
            if session.can_go_forward() {
                let there = SessionView { index: session.index + 1, ..session };
                lemma_normal_not_empty(there.history[there.index]);
                lemma_request_keeps_consistent(there, ui, there.history[there.index], false);
            }
        },
        BrowserEvent::AccountUpdate { account_id, envelope } => {
            if let Some(RelayEnvelopeView::OpenUrl { url }) = envelope_view(envelope) {
                lemma_request_keeps_consistent(
                    SessionView { relay_contacted: true, ..session },
                    AppWindowView {
                        relay_online: true,
                        connection_status: "Relay connected"@,
                        ..ui
                    },
                    url,
                    true,
                );
            }
        },
        _ => {},
    }
}

proof fn lemma_request_keeps_consistent(
    session: SessionView,
    ui: AppWindowView,
    raw_url: Seq<char>,
    record: bool,
)
    requires
        consistent(session, browser::synced(session, ui)),
        consistent(session, ui) || browser::normalized(raw_url).len() > 0,
    ensures
        ({
            let e = browser::requested(session, ui, raw_url, record);
            consistent(e.session, e.ui)
        }),
{
    browser::law_normalized_is_empty_or_web_url(raw_url);
    browser::law_normalizing_is_idempotent(raw_url);
}

/// A new visit becomes the newest page: nothing lies forward of it, and the
/// pages up to the one that was shown stay where they are.
pub proof fn law_new_visit_is_newest(session: SessionView, ui: AppWindowView, raw_url: Seq<char>)
    requires
        session.well_formed(),
        browser::normalized(raw_url).len() > 0,
    ensures
        ({
            let e = browser::requested(session, ui, raw_url, true);
            let kept = if session.history.len() > 0 {
                session.history.take(session.index + 1)
            } else {
                Seq::empty()
            };
            &&& e.session.history == kept.push(browser::normalized(raw_url))
            &&& e.session.index == kept.len()
            &&& !e.ui.can_go_forward
            &&& e.ui.can_go_back == (session.history.len() > 0)
        }),
{
    let e = browser::requested(session, ui, raw_url, true);
    if session.history.len() > 0 {
        assert(e.session.history =~= session.history.take(session.index + 1).push(
            browser::normalized(raw_url),
        ));
    } else {
        assert(e.session.history =~= Seq::empty().push(browser::normalized(raw_url)));
    }
}

/// Going back and then forward again shows the same page and leaves the history
/// as it was.
pub proof fn law_back_then_forward(session: SessionView, ui: AppWindowView)
    requires
        consistent(session, ui),
        session.can_go_back(),
    ensures
        ({
            let back = gone_back(session, ui);
            let again = gone_forward(back.session, back.ui);
            &&& back.ui.url == session.history[session.index - 1]
            &&& again.ui.url == session.history[session.index]
            &&& again.session.history == session.history
            &&& again.session.index == session.index
        }),
{
    lemma_normal_not_empty(session.history[session.index - 1]);
    lemma_normal_not_empty(session.history[session.index]);
}

/// Going forward and then back again shows the same page and leaves the history
/// as it was.
pub proof fn law_forward_then_back(session: SessionView, ui: AppWindowView)
    requires
        consistent(session, ui),
        session.can_go_forward(),
    ensures
        ({
            let forward = gone_forward(session, ui);
            let again = gone_back(forward.session, forward.ui);
            &&& forward.ui.url == session.history[session.index + 1]
            &&& again.ui.url == session.history[session.index]
            &&& again.session.history == session.history
            &&& again.session.index == session.index
        }),
{
    lemma_normal_not_empty(session.history[session.index + 1]);
    lemma_normal_not_empty(session.history[session.index]);
}

proof fn lemma_normal_not_empty(url: Seq<char>)
    requires
        is_normal_url(url),
    ensures
        url.len() > 0,
{
    browser::law_normalized_is_empty_or_web_url(url);
}

/// An event that asks for an address sends the relay a fetch of it, normalized
/// to one that the relay accepts and then shown, under an id one above the
/// latest. No other event sends anything, or uses up an id.
pub proof fn law_messages_are_fresh_fetches(
    session: SessionView,
    ui: AppWindowView,
    event: BrowserEvent,
)
    ensures
        ({
            let e = handled(session, ui, event);
            let url = browser::normalized(asked_url(session, ui, event));
            if url.len() > 0 {
                &&& e.session.fetch_seq == session.fetch_seq + 1
                &&& e.send == Some(
                    browser::channel_update(browser::fetch_members(e.session.fetch_seq, url)),
                )
                &&& e.ui.url == url
                &&& browser::is_web_url(url)
            } else {
                &&& e.session.fetch_seq == session.fetch_seq
                &&& e.send is None
            }
        }),
{
    browser::law_normalized_is_empty_or_web_url(asked_url(session, ui, event));
}

/// Two fetches under different numbers carry different ids.
pub proof fn law_fetch_ids_differ(m: nat, n: nat, url: Seq<char>, other: Seq<char>)
    requires
        m != n,
    ensures
        browser::fetch_members(m, url)[1].0 == "id"@,
        browser::fetch_members(n, other)[1].0 == "id"@,
        browser::fetch_members(m, url)[1].1 != browser::fetch_members(n, other)[1].1,
{
    if text::decimal(m) == text::decimal(n) {
        text::lemma_decimal_injective(m, n);
    }
}

/// The relay counts as heard of once an update came on the browser's channel,
/// and ever after, and that is when it starts to be shown as online.
pub proof fn law_relay_is_heard_once_for_all(
    session: SessionView,
    ui: AppWindowView,
    event: BrowserEvent,
)
    ensures
        handled(session, ui, event).session.relay_contacted <==> (session.relay_contacted || (
        event matches BrowserEvent::AccountUpdate { account_id, .. } && account_id@ == CHANNEL@)),
        handled(session, ui, event).ui.relay_online <==> (ui.relay_online || (
        event matches BrowserEvent::AccountUpdate { account_id, .. } && account_id@ == CHANNEL@)),
{
}

/// Once the relay has been heard of, asking for a page shows no demo content:
/// the page that is shown stays until the relay sends another.
pub proof fn law_no_demo_content_beside_a_relay(
    session: SessionView,
    ui: AppWindowView,
    raw_url: Seq<char>,
    record: bool,
)
    requires
        session.relay_contacted,
    ensures
        ({
            let e = browser::requested(session, ui, raw_url, record);
            e.ui.blocks == ui.blocks && e.ui.page_title == ui.page_title
        }),
{
}

/// Updates on other channels change nothing.
pub proof fn law_other_channels_are_left_alone(
    session: SessionView,
    ui: AppWindowView,
    account_id: Seq<char>,
    envelope: Option<RelayEnvelopeView>,
)
    requires
        account_id != CHANNEL@,
    ensures
        heard(session, ui, account_id, envelope) == (Effect {
            session,
            ui,
            send: None,
            navigate: None,
        }),
{
}

} // verus!
