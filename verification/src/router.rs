//! The routing core: what the bridge does with each message from the device.
//!
//! A web-0 `AccountUpdate` is forwarded verbatim to the surf-relay, and the
//! relay's one-line reply goes back to the device on the same channel. Pairing
//! requests and heartbeats are answered; everything else is left alone.
//!
//! The router decides, and the caller acts: it reassembles frames, opens and
//! seals envelopes and talks to the relay, and hands back what came of it.

use crate::identity::{Identity, IdentityView};
use crate::ql;
use crate::ql::{
    AccountUpdate, AccountUpdateView, EnvelopeReading, EnvoyMessage, EnvoyMessageView,
    PairingRequest, PairingRequestView, PairingResponse, PairingResponseView, PassportColor,
    PassportMessage, PassportMessageView, PassportModel, QuantumLinkMessage,
    QuantumLinkMessageView, UnsealError,
};
use crate::relay;
use crate::relay::RelayError;
use crate::text;
use core::time::Duration;
use vstd::prelude::*;

verus! {

/// The name by which the bridge presents itself to a device.
pub const BRIDGE_NAME: &'static str = "surf-bridge";

/// The protocol version of the replies on the web-0 channel.
pub const WEB0_PROTOCOL_VERSION: u32 = 1;

// ---------------------------------------------------------------------------
// Steps
// ---------------------------------------------------------------------------

/// What came of one frame from the device, put to the frames before it.
#[derive(Debug)]
pub enum Dechunked {
    /// The frame is not a chunk of a message.
    BadChunk,
    /// More chunks of the message are to come.
    Incomplete,
    /// The message is complete: the bytes of a sealed envelope.
    Complete(Vec<u8>),
}

/// A message to seal, and the XID document of the one to seal it to.
#[derive(Debug)]
pub struct Outgoing {
    pub message: EnvoyMessage,
    pub recipient: Vec<u8>,
}

/// The contents of an `Outgoing`.
#[verifier::ext_equal]
pub struct OutgoingView {
    pub message: EnvoyMessageView,
    pub recipient: Seq<u8>,
}

impl View for Outgoing {
    type V = OutgoingView;

    open spec fn view(&self) -> OutgoingView {
        OutgoingView { message: self.message@, recipient: self.recipient@ }
    }
}

/// Why a message from the device came to nothing.
#[derive(Clone, Copy, Debug, PartialEq, Eq, Structural)]
pub enum RouteError {
    /// A frame was not a chunk of a message.
    BadChunk,
    /// The envelope gave no message.
    Unseal(UnsealError),
    /// The relay gave no reply.
    Relay(RelayError),
}

/// What to do next.
#[derive(Debug)]
pub enum Step {
    /// Nothing: wait for the next frame.
    Idle,
    /// Open the sealed envelope and go on with `on_envelope`.
    Unseal { envelope_cbor: Vec<u8> },
    /// Send the envelope to the relay and go on with `on_reply`.
    Exchange { relay_addr: String, timeout: Duration, envelope: Vec<u8>, reply_to: Vec<u8> },
    /// Seal the message, cut it into frames and write them to the device.
    Send(Outgoing),
    /// Give the message up.
    Fail(RouteError),
}

/// The contents of a `Step`.
#[verifier::ext_equal]
pub enum StepView {
    Idle,
    Unseal { envelope_cbor: Seq<u8> },
    Exchange { relay_addr: Seq<char>, timeout: Duration, envelope: Seq<u8>, reply_to: Seq<u8> },
    Send(OutgoingView),
    Fail(RouteError),
}

impl View for Step {
    type V = StepView;

    open spec fn view(&self) -> StepView {
        match self {
            Step::Idle => StepView::Idle,
            Step::Unseal { envelope_cbor } => StepView::Unseal { envelope_cbor: envelope_cbor@ },
            Step::Exchange { relay_addr, timeout, envelope, reply_to } => StepView::Exchange {
                relay_addr: relay_addr@,
                timeout: *timeout,
                envelope: envelope@,
                reply_to: reply_to@,
            },
            Step::Send(outgoing) => StepView::Send(outgoing@),
            Step::Fail(e) => StepView::Fail(*e),
        }
    }
}

// ---------------------------------------------------------------------------
// The decisions
// ---------------------------------------------------------------------------

/// What a router knows.
#[verifier::ext_equal]
pub struct RouterView {
    pub identity: IdentityView,
    pub relay_addr: Seq<char>,
    pub relay_timeout: Duration,
}

/// The answer to every pairing request.
pub open spec fn pairing_response() -> PairingResponseView {
    PairingResponseView {
        passport_model: PassportModel::Prime,
        passport_firmware_version: Seq::empty(),
        passport_serial: Seq::empty(),
        passport_color: PassportColor::Dark,
        onboarding_complete: false,
        device_name: Some(BRIDGE_NAME@),
    }
}

/// A message to the given recipient.
pub open spec fn outgoing(
    message: QuantumLinkMessageView,
    clock: Option<u64>,
    protocol_version: u32,
    recipient: Seq<u8>,
) -> OutgoingView {
    OutgoingView {
        message: EnvoyMessageView {
            message,
            timestamp: ql::timestamp(clock),
            protocol_version: Some(protocol_version),
        },
        recipient,
    }
}

/// What to do with one frame. Only bytes that are found to be an envelope are
/// opened.
pub open spec fn frame_step(dechunked: Dechunked) -> StepView {
    match dechunked {
        Dechunked::BadChunk => StepView::Fail(RouteError::BadChunk),
        Dechunked::Incomplete => StepView::Idle,
        Dechunked::Complete(envelope_cbor) => match ql::envelope_reading(envelope_cbor@) {
            EnvelopeReading::NotCbor => StepView::Fail(
                RouteError::Unseal(UnsealError::InvalidCbor),
            ),
            EnvelopeReading::NotEnvelope => StepView::Fail(
                RouteError::Unseal(UnsealError::InvalidEnvelope),
            ),
            EnvelopeReading::Envelope => StepView::Unseal { envelope_cbor: envelope_cbor@ },
        },
    }
}

impl RouterView {
    /// What to do with a message from `sender`.
    pub open spec fn route_step(
        self,
        message: QuantumLinkMessageView,
        sender: Seq<u8>,
        clock: Option<u64>,
        protocol_version: u32,
    ) -> StepView {
        match message {
            QuantumLinkMessageView::AccountUpdate(update) => if update.account_id
                == ql::WEB0_CHANNEL@ {
                StepView::Exchange {
                    relay_addr: self.relay_addr,
                    timeout: self.relay_timeout,
                    envelope: update.update,
                    reply_to: sender,
                }
            } else {
                StepView::Idle
            },
            QuantumLinkMessageView::PairingRequest(_) => StepView::Send(
                outgoing(
                    QuantumLinkMessageView::PairingResponse(pairing_response()),
                    clock,
                    protocol_version,
                    sender,
                ),
            ),
            QuantumLinkMessageView::Heartbeat => StepView::Send(
                outgoing(QuantumLinkMessageView::Heartbeat, clock, protocol_version, sender),
            ),
            QuantumLinkMessageView::PairingResponse(_) => StepView::Idle,
            QuantumLinkMessageView::Other => StepView::Idle,
        }
    }

    /// What to do with a complete envelope, where `opened` says what the keys
    /// of the bridge make of it.
    pub open spec fn envelope_step(
        self,
        envelope_cbor: Seq<u8>,
        opened: Option<(PassportMessageView, Seq<u8>)>,
        clock: Option<u64>,
        protocol_version: u32,
    ) -> StepView {
        match ql::unsealed(ql::envelope_reading(envelope_cbor), opened) {
            Ok((message, sender)) => self.route_step(
                message.message,
                sender,
                clock,
                protocol_version,
            ),
            Err(e) => StepView::Fail(RouteError::Unseal(e)),
        }
    }
}

/// What to do with the line that the relay sent for an envelope from `sender`.
pub open spec fn reply_step(
    line: Result<Seq<u8>, RelayError>,
    sender: Seq<u8>,
    clock: Option<u64>,
) -> StepView {
    let reply = match line {
        Ok(l) => relay::payload(l),
        Err(e) => Err(e),
    };
    match reply {
        Ok(update) => StepView::Send(
            outgoing(
                QuantumLinkMessageView::AccountUpdate(
                    AccountUpdateView { account_id: ql::WEB0_CHANNEL@, update },
                ),
                clock,
                WEB0_PROTOCOL_VERSION,
                sender,
            ),
        ),
        Err(e) => StepView::Fail(RouteError::Relay(e)),
    }
}

/// The view of what the keys of the bridge make of an envelope.
pub open spec fn opened_view(opened: Option<(PassportMessage, Vec<u8>)>) -> Option<
    (PassportMessageView, Seq<u8>),
> {
    match opened {
        Some((message, sender)) => Some((message@, sender@)),
        None => None,
    }
}

/// The view of the line that the relay sent.
pub open spec fn line_view(line: Result<Vec<u8>, RelayError>) -> Result<Seq<u8>, RelayError> {
    match line {
        Ok(l) => Ok(l@),
        Err(e) => Err(e),
    }
}

// ---------------------------------------------------------------------------
// The router
// ---------------------------------------------------------------------------

/// Decides what the bridge does with the messages of a device.
pub struct BridgeRouter {
    identity: Identity,
    relay_addr: String,
    relay_timeout: Duration,
}

impl View for BridgeRouter {
    type V = RouterView;

    closed spec fn view(&self) -> RouterView {
        RouterView {
            identity: self.identity@,
            relay_addr: self.relay_addr@,
            relay_timeout: self.relay_timeout,
        }
    }
}

impl BridgeRouter {
    /// A router for the given identity, which reaches the relay at the given
    /// address and waits for it no longer than the given time.
    pub fn new(identity: Identity, relay_addr: &str, relay_timeout: Duration) -> (r: BridgeRouter)
        ensures
            r@ == (RouterView { identity: identity@, relay_addr: relay_addr@, relay_timeout }),
    {
        BridgeRouter { identity, relay_addr: relay_addr.to_owned(), relay_timeout }
    }

    /// The request that asks a device whose XID document is known to accept the
    /// bridge as its companion.
    pub fn build_pairing_request(
        &self,
        device_xid: &Vec<u8>,
        device_name: &str,
        clock: Option<u64>,
        protocol_version: u32,
    ) -> (r: Outgoing)
        ensures
            r@ == outgoing(
                QuantumLinkMessageView::PairingRequest(
                    PairingRequestView {
                        xid_document: self@.identity.xid_document,
                        device_name: device_name@,
                    },
                ),
                clock,
                protocol_version,
                device_xid@,
            ),
            r.recipient@ == device_xid@,
            r.message@.message matches QuantumLinkMessageView::PairingRequest(request)
                && request.xid_document == self@.identity.xid_document && request.device_name
                == device_name@,
    {
        let request = QuantumLinkMessage::PairingRequest(
            PairingRequest {
                xid_document: self.identity.xid_document.clone(),
                device_name: device_name.to_owned(),
            },
        );
        let message = ql::new_envoy_message(request, clock, protocol_version);
        let r = Outgoing { message, recipient: device_xid.clone() };
        assert(self.identity.xid_document@ =~= self@.identity.xid_document);
        r
    }

    /// What to do with one frame from the device, given what came of putting it
    /// to the frames before it.
    pub fn on_frame(&self, dechunked: Dechunked) -> (r: Step)
        ensures
            r@ == frame_step(dechunked),
    {
        match dechunked {
            Dechunked::BadChunk => Step::Fail(RouteError::BadChunk),
            Dechunked::Incomplete => Step::Idle,
            Dechunked::Complete(envelope_cbor) => match ql::read_envelope(&envelope_cbor) {
                EnvelopeReading::NotCbor => Step::Fail(
                    RouteError::Unseal(UnsealError::InvalidCbor),
                ),
                EnvelopeReading::NotEnvelope => Step::Fail(
                    RouteError::Unseal(UnsealError::InvalidEnvelope),
                ),
                EnvelopeReading::Envelope => Step::Unseal { envelope_cbor },
            },
        }
    }

    /// What to do with a complete envelope, where `opened` says what the keys
    /// of the bridge make of it: nothing, or a message and the XID document of
    /// its sender.
    pub fn on_envelope(
        &self,
        envelope_cbor: &Vec<u8>,
        opened: Option<(PassportMessage, Vec<u8>)>,
        clock: Option<u64>,
        protocol_version: u32,
    ) -> (r: Step)
        ensures
            r@ == self@.envelope_step(envelope_cbor@, opened_view(opened), clock, protocol_version),
    {
        match ql::unseal_passport(envelope_cbor, opened) {
            Ok((message, sender)) => self.route(message, sender, clock, protocol_version),
            Err(e) => Step::Fail(RouteError::Unseal(e)),
        }
    }

    /// What to do with a message from `sender`.
    pub fn route(
        &self,
        msg: PassportMessage,
        sender: Vec<u8>,
        clock: Option<u64>,
        protocol_version: u32,
    ) -> (r: Step)
        ensures
            r@ == self@.route_step(msg@.message, sender@, clock, protocol_version),
    {
        match msg.message {
            QuantumLinkMessage::AccountUpdate(update) => {
                if !text::same(update.account_id.as_str(), ql::WEB0_CHANNEL) {
                    return Step::Idle;
                }
                self.handle_web0(update.update, sender)
            },
            QuantumLinkMessage::PairingRequest(_) => {
                let response = QuantumLinkMessage::PairingResponse(
                    PairingResponse {
                        passport_model: PassportModel::Prime,
                        passport_firmware_version: String::new(),
                        passport_serial: String::new(),
                        passport_color: PassportColor::Dark,
                        onboarding_complete: false,
                        device_name: Some(BRIDGE_NAME.to_owned()),
                    },
                );
                let message = ql::new_envoy_message(response, clock, protocol_version);
                assert(message@.message =~= QuantumLinkMessageView::PairingResponse(
                    pairing_response(),
                ));
                Step::Send(Outgoing { message, recipient: sender })
            },
            QuantumLinkMessage::Heartbeat => {
                let message = ql::new_envoy_message(
                    QuantumLinkMessage::Heartbeat,
                    clock,
                    protocol_version,
                );
                Step::Send(Outgoing { message, recipient: sender })
            },
            _ => Step::Idle,
        }
    }

    /// Forwards an envelope from `sender` on the web-0 channel to the relay.
    pub fn handle_web0(&self, envelope: Vec<u8>, sender: Vec<u8>) -> (r: Step)
        ensures
            r@ == (StepView::Exchange {
                relay_addr: self@.relay_addr,
                timeout: self@.relay_timeout,
                envelope: envelope@,
                reply_to: sender@,
            }),
    {
        Step::Exchange {
            relay_addr: self.relay_addr.clone(),
            timeout: self.relay_timeout,
            envelope,
            reply_to: sender,
        }
    }

    /// What to do with the line that the relay sent for an envelope from
    /// `sender`, or with the failure to get one.
    pub fn on_reply(
        &self,
        line: Result<Vec<u8>, RelayError>,
        sender: Vec<u8>,
        clock: Option<u64>,
    ) -> (r: Step)
        ensures
            r@ == reply_step(line_view(line), sender@, clock),
    {
        let line = match line {
            Ok(line) => line,
            Err(e) => {
                return Step::Fail(RouteError::Relay(e));
            },
        };
        match relay::reply_payload(line) {
            Ok(reply) => {
                let update = AccountUpdate {
                    account_id: ql::WEB0_CHANNEL.to_owned(),
                    update: reply,
                };
                let message = ql::new_envoy_message(
                    QuantumLinkMessage::AccountUpdate(update),
                    clock,
                    WEB0_PROTOCOL_VERSION,
                );
                Step::Send(Outgoing { message, recipient: sender })
            },
            Err(e) => Step::Fail(RouteError::Relay(e)),
        }
    }
}

// ---------------------------------------------------------------------------
// Laws
// ---------------------------------------------------------------------------

/// What is to be sent carries the message, the protocol version and the
/// recipient as given, and the time of sending.
pub proof fn law_outgoing_is_what_was_asked_for(
    message: QuantumLinkMessageView,
    clock: Option<u64>,
    protocol_version: u32,
    recipient: Seq<u8>,
)
    ensures
        ({
            let o = outgoing(message, clock, protocol_version, recipient);
            &&& o.message.message == message
            &&& o.message.protocol_version == Some(protocol_version)
            &&& o.recipient == recipient
            &&& o.message.timestamp == (match clock {
                Some(seconds) => seconds as int % 0x1_0000_0000,
                None => 0,
            })
        }),
{
}

/// Every message of a device gets what it asks for. A web-0 update goes to the
/// relay as it stands, and its reply is for the sender. Every pairing request is
/// answered to the sender with a response that names the bridge, and every
/// heartbeat with a heartbeat. Nothing else is answered.
pub proof fn law_messages_get_their_answers(
    router: RouterView,
    message: QuantumLinkMessageView,
    sender: Seq<u8>,
    clock: Option<u64>,
    protocol_version: u32,
)
    ensures
        ({
            let step = router.route_step(message, sender, clock, protocol_version);
            let time: int = match clock {
                Some(seconds) => seconds as int % 0x1_0000_0000,
                None => 0,
            };
            &&& message matches QuantumLinkMessageView::AccountUpdate(update) ==> {
                &&& update.account_id == "web-0"@ ==> step == (StepView::Exchange {
                    relay_addr: router.relay_addr,
                    timeout: router.relay_timeout,
                    envelope: update.update,
                    reply_to: sender,
                })
                &&& update.account_id != "web-0"@ ==> step is Idle
            }
            &&& message is PairingRequest ==> {
                &&& step matches StepView::Send(o)
                &&& o.recipient == sender
                &&& o.message.timestamp == time
                &&& o.message.protocol_version == Some(protocol_version)
                &&& o.message.message matches QuantumLinkMessageView::PairingResponse(response)
                &&& response.device_name == Some("surf-bridge"@)
                &&& response.passport_model == PassportModel::Prime
                &&& response.passport_color == PassportColor::Dark
                &&& response.passport_firmware_version.len() == 0
                &&& response.passport_serial.len() == 0
                &&& !response.onboarding_complete
            }
            &&& message is Heartbeat ==> {
                &&& step matches StepView::Send(o)
                &&& o.recipient == sender
                &&& o.message.timestamp == time
                &&& o.message.protocol_version == Some(protocol_version)
                &&& o.message.message is Heartbeat
            }
            &&& message is PairingResponse || message is Other ==> step is Idle
        }),
{
}

/// Every envelope that the keys open is answered for the message in it and to
/// the one who sent it, whoever that is: a web-0 update goes to the relay byte
/// for byte and its reply to the sender, and pairing requests and heartbeats are
/// answered to the sender.
pub proof fn law_opened_envelopes_are_answered_to_their_senders(
    router: RouterView,
    envelope_cbor: Seq<u8>,
    message: PassportMessage,
    sender: Vec<u8>,
    clock: Option<u64>,
    protocol_version: u32,
)
    requires
        ql::envelope_reading(envelope_cbor) == EnvelopeReading::Envelope,
    ensures
        ({
            let step = router.envelope_step(
                envelope_cbor,
                opened_view(Some((message, sender))),
                clock,
                protocol_version,
            );
            &&& step matches StepView::Send(o) ==> o.recipient == sender@
            &&& step matches StepView::Exchange { reply_to, .. } ==> reply_to == sender@
            &&& message.message matches QuantumLinkMessage::AccountUpdate(update) ==> {
                &&& update.account_id@ == "web-0"@ ==> step == (StepView::Exchange {
                    relay_addr: router.relay_addr,
                    timeout: router.relay_timeout,
                    envelope: update.update@,
                    reply_to: sender@,
                })
                &&& update.account_id@ != "web-0"@ ==> step is Idle
            }
            &&& message.message is PairingRequest ==> {
                &&& step matches StepView::Send(o)
                &&& o.recipient == sender@
                &&& o.message.protocol_version == Some(protocol_version)
                &&& o.message.message matches QuantumLinkMessageView::PairingResponse(response)
                &&& response.device_name == Some("surf-bridge"@)
            }
            &&& message.message is Heartbeat ==> {
                &&& step matches StepView::Send(o)
                &&& o.recipient == sender@
                &&& o.message.protocol_version == Some(protocol_version)
                &&& o.message.message is Heartbeat
            }
            &&& message.message is PairingResponse || message.message is Other ==> step is Idle
        }),
{
    law_messages_get_their_answers(
        router,
        message@.message,
        sender@,
        clock,
        protocol_version,
    );
}

/// The page comes back to the device that asked: whatever line the relay sends
/// for the envelope of a web-0 update, all of it but its line ends is sealed to
/// the sender of that update, on the same channel.
pub proof fn law_page_comes_back_to_the_device(
    router: RouterView,
    envelope_cbor: Seq<u8>,
    message: PassportMessage,
    update: AccountUpdate,
    sender: Vec<u8>,
    clock: Option<u64>,
    protocol_version: u32,
    reply: Seq<u8>,
    ends: Seq<u8>,
    later: Option<u64>,
)
    requires
        ql::envelope_reading(envelope_cbor) == EnvelopeReading::Envelope,
        message.message == QuantumLinkMessage::AccountUpdate(update),
        update.account_id@ == "web-0"@,
        reply.len() > 0 ==> reply.last() != 10 && reply.last() != 13,
        forall|i: int| 0 <= i < ends.len() ==> #[trigger] ends[i] == 10 || ends[i] == 13,
        reply.len() + ends.len() > 0,
    ensures
        ({
            let step = router.envelope_step(
                envelope_cbor,
                opened_view(Some((message, sender))),
                clock,
                protocol_version,
            );
            &&& step matches StepView::Exchange { envelope, reply_to, .. }
            &&& envelope == update.update@
            &&& reply_step(Ok(reply + ends), reply_to, later) matches StepView::Send(o)
            &&& o.recipient == sender@
            &&& o.message.protocol_version == Some(1u32)
            &&& o.message.timestamp == (match later {
                Some(seconds) => seconds as int % 0x1_0000_0000,
                None => 0,
            })
            &&& o.message.message matches QuantumLinkMessageView::AccountUpdate(answer)
            &&& answer.account_id == "web-0"@
            &&& answer.update == reply
        }),
{
    relay::law_payload_is_the_line(reply, ends);
    law_opened_envelopes_are_answered_to_their_senders(
        router,
        envelope_cbor,
        message,
        sender,
        clock,
        protocol_version,
    );
}

/// A failed exchange with the relay is reported as what failed, and a relay that
/// closes the connection as that.
pub proof fn law_relay_failures_are_reported(e: RelayError, sender: Seq<u8>, clock: Option<u64>)
    ensures
        reply_step(Err(e), sender, clock) == StepView::Fail(RouteError::Relay(e)),
        reply_step(Ok(Seq::empty()), sender, clock) == StepView::Fail(
            RouteError::Relay(RelayError::Closed),
        ),
{
}

/// A frame by itself sends nothing. A complete envelope is handed on to be
/// opened as it stands, other complete bytes are refused for what they are, and
/// an incomplete message is waited for.
pub proof fn law_frames_lead_to_whole_envelopes(envelope_cbor: Vec<u8>)
    ensures
        frame_step(Dechunked::BadChunk) == StepView::Fail(RouteError::BadChunk),
        frame_step(Dechunked::Incomplete) == StepView::Idle,
        match ql::envelope_reading(envelope_cbor@) {
            EnvelopeReading::Envelope => frame_step(Dechunked::Complete(envelope_cbor)) == (
            StepView::Unseal { envelope_cbor: envelope_cbor@ }),
            EnvelopeReading::NotEnvelope => frame_step(Dechunked::Complete(envelope_cbor))
                == StepView::Fail(RouteError::Unseal(UnsealError::InvalidEnvelope)),
            EnvelopeReading::NotCbor => frame_step(Dechunked::Complete(envelope_cbor))
                == StepView::Fail(RouteError::Unseal(UnsealError::InvalidCbor)),
        },
{
}

/// What the keys and the relay gave is judged as it stands.
pub proof fn law_answers_are_judged_as_they_stand(
    message: PassportMessage,
    sender: Vec<u8>,
    line: Vec<u8>,
    e: RelayError,
)
    ensures
        opened_view(Some((message, sender))) == Some((message@, sender@)),
        opened_view(None) is None,
        line_view(Ok(line)) == Ok::<Seq<u8>, RelayError>(line@),
        line_view(Err(e)) == Err::<Seq<u8>, RelayError>(e),
{
}

/// What the caller is told to do is what was decided: the steps and the messages
/// in them are seen as they stand.
pub proof fn law_steps_are_seen_as_they_stand(step: Step)
    ensures
        match step {
            Step::Idle => step@ is Idle,
            Step::Unseal { envelope_cbor } => step@ == (StepView::Unseal {
                envelope_cbor: envelope_cbor@,
            }),
            Step::Exchange { relay_addr, timeout, envelope, reply_to } => step@ == (
            StepView::Exchange {
                relay_addr: relay_addr@,
                timeout,
                envelope: envelope@,
                reply_to: reply_to@,
            }),
            Step::Send(o) => {
                &&& step@ matches StepView::Send(sent)
                &&& sent.recipient == o.recipient@
                &&& sent.message.timestamp == o.message.timestamp
                &&& sent.message.protocol_version == o.message.protocol_version
                &&& match o.message.message {
                    QuantumLinkMessage::AccountUpdate(update) => {
                        &&& sent.message.message matches QuantumLinkMessageView::AccountUpdate(seen)
                        &&& seen.account_id == update.account_id@
                        &&& seen.update == update.update@
                    },
                    QuantumLinkMessage::PairingRequest(request) => {
                        &&& sent.message.message matches QuantumLinkMessageView::PairingRequest(
                            seen,
                        )
                        &&& seen.xid_document == request.xid_document@
                        &&& seen.device_name == request.device_name@
                    },
                    QuantumLinkMessage::PairingResponse(response) => {
                        &&& sent.message.message matches QuantumLinkMessageView::PairingResponse(
                            seen,
                        )
                        &&& seen.passport_model == response.passport_model
                        &&& seen.passport_color == response.passport_color
                        &&& seen.passport_firmware_version
                            == response.passport_firmware_version@
                        &&& seen.passport_serial == response.passport_serial@
                        &&& seen.onboarding_complete == response.onboarding_complete
                        &&& response.device_name matches Some(name) ==> seen.device_name == Some(
                            name@,
                        )
                        &&& response.device_name is None ==> seen.device_name is None
                    },
                    QuantumLinkMessage::Heartbeat => sent.message.message is Heartbeat,
                    QuantumLinkMessage::Other => sent.message.message is Other,
                }
            },
            Step::Fail(e) => step@ == StepView::Fail(e),
        },
{
}

/// The relay sees the web-0 updates of the device and nothing else.
pub proof fn law_only_web0_reaches_the_relay(
    router: RouterView,
    message: QuantumLinkMessageView,
    sender: Seq<u8>,
    clock: Option<u64>,
    protocol_version: u32,
)
    ensures
        router.route_step(message, sender, clock, protocol_version) is Exchange <==> (
        message matches QuantumLinkMessageView::AccountUpdate(update) && update.account_id
            == ql::WEB0_CHANNEL@),
{
}

/// Whatever the bridge sends in answer to a message is sealed to the sender of
/// that message, at once or after the relay has replied.
pub proof fn law_answers_go_to_the_sender(
    router: RouterView,
    message: QuantumLinkMessageView,
    sender: Seq<u8>,
    clock: Option<u64>,
    protocol_version: u32,
    line: Result<Seq<u8>, RelayError>,
    later: Option<u64>,
)
    ensures
        match router.route_step(message, sender, clock, protocol_version) {
            StepView::Send(outgoing) => outgoing.recipient == sender,
            StepView::Exchange { reply_to, .. } => reply_to == sender && (reply_step(
                line,
                reply_to,
                later,
            ) matches StepView::Send(outgoing) ==> outgoing.recipient == sender),
            _ => true,
        },
{
}

/// A web-0 envelope reaches the configured relay byte for byte, and the reply
/// line that the relay ends with a newline reaches the device byte for byte, on
/// the same channel.
pub proof fn law_web0_round_trip(
    router: RouterView,
    envelope: Seq<u8>,
    sender: Seq<u8>,
    clock: Option<u64>,
    protocol_version: u32,
    reply: Seq<u8>,
    later: Option<u64>,
)
    requires
        reply.len() > 0 ==> !relay::is_line_end(reply.last()),
    ensures
        router.route_step(
            QuantumLinkMessageView::AccountUpdate(
                AccountUpdateView { account_id: ql::WEB0_CHANNEL@, update: envelope },
            ),
            sender,
            clock,
            protocol_version,
        ) == (StepView::Exchange {
            relay_addr: router.relay_addr,
            timeout: router.relay_timeout,
            envelope,
            reply_to: sender,
        }),
        reply_step(Ok(reply.push(10)), sender, later) == StepView::Send(
            outgoing(
                QuantumLinkMessageView::AccountUpdate(
                    AccountUpdateView { account_id: ql::WEB0_CHANNEL@, update: reply },
                ),
                later,
                WEB0_PROTOCOL_VERSION,
                sender,
            ),
        ),
{
    relay::law_framing_is_transparent(reply);
}

/// Where the relay gives no reply, nothing is sent to the device.
pub proof fn law_no_reply_sends_nothing(
    line: Result<Seq<u8>, RelayError>,
    sender: Seq<u8>,
    clock: Option<u64>,
)
    ensures
        reply_step(line, sender, clock) is Fail <==> (line is Err || line == Ok::<
            Seq<u8>,
            RelayError,
        >(Seq::empty())),
        reply_step(line, sender, clock) is Fail || reply_step(line, sender, clock) is Send,
{
    if let Ok(l) = line {
        if l.len() == 0 {
            assert(l =~= Seq::empty());
        }
    }
}

/// An envelope that the bridge cannot open neither reaches the relay nor gets
/// an answer.
pub proof fn law_unopened_envelopes_are_dropped(
    router: RouterView,
    envelope_cbor: Seq<u8>,
    clock: Option<u64>,
    protocol_version: u32,
)
    ensures
        router.envelope_step(envelope_cbor, None, clock, protocol_version) is Fail,
        ql::envelope_reading(envelope_cbor) == EnvelopeReading::Envelope ==> router.envelope_step(
            envelope_cbor,
            None,
            clock,
            protocol_version,
        ) == StepView::Fail(RouteError::Unseal(UnsealError::UnsealFailed)),
{
}

/// Bytes that are no envelope are refused for what they are, whatever else is
/// said of them.
pub proof fn law_other_bytes_are_refused(
    router: RouterView,
    envelope_cbor: Seq<u8>,
    opened: Option<(PassportMessageView, Seq<u8>)>,
    clock: Option<u64>,
    protocol_version: u32,
)
    ensures
        ql::envelope_reading(envelope_cbor) == EnvelopeReading::NotCbor ==> router.envelope_step(
            envelope_cbor,
            opened,
            clock,
            protocol_version,
        ) == StepView::Fail(RouteError::Unseal(UnsealError::InvalidCbor)),
        ql::envelope_reading(envelope_cbor) == EnvelopeReading::NotEnvelope
            ==> router.envelope_step(envelope_cbor, opened, clock, protocol_version)
            == StepView::Fail(RouteError::Unseal(UnsealError::InvalidEnvelope)),
{
}

} // verus!
