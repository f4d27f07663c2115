//! Quantum Link messages.
//!
//! The messages that the bridge and a Passport exchange, as far as the bridge
//! reads or writes them. Sealing, chunking and their inverses are done by the
//! caller.

use crate::cbor;
use crate::nesting;
use crate::nesting::{CBOR_LEVEL_KIB, STACK_KIB};
use vstd::prelude::*;

verus! {

/// The channel that all browser envelopes ride on.
pub const WEB0_CHANNEL: &'static str = "web-0";

// ---------------------------------------------------------------------------
// Messages
// ---------------------------------------------------------------------------

/// Bytes on a named channel.
#[derive(Debug)]
pub struct AccountUpdate {
    pub account_id: String,
    pub update: Vec<u8>,
}

/// The contents of an `AccountUpdate`.
#[verifier::ext_equal]
pub struct AccountUpdateView {
    pub account_id: Seq<char>,
    pub update: Seq<u8>,
}

impl View for AccountUpdate {
    type V = AccountUpdateView;

    open spec fn view(&self) -> AccountUpdateView {
        AccountUpdateView { account_id: self.account_id@, update: self.update@ }
    }
}

/// A companion asks to be paired with.
#[derive(Debug)]
pub struct PairingRequest {
    /// The encoding of the XID document of the one who asks.
    pub xid_document: Vec<u8>,
    pub device_name: String,
}

/// The contents of a `PairingRequest`.
#[verifier::ext_equal]
pub struct PairingRequestView {
    pub xid_document: Seq<u8>,
    pub device_name: Seq<char>,
}

impl View for PairingRequest {
    type V = PairingRequestView;

    open spec fn view(&self) -> PairingRequestView {
        PairingRequestView { xid_document: self.xid_document@, device_name: self.device_name@ }
    }
}

/// The model that a pairing response names.
#[derive(Clone, Copy, Debug, PartialEq, Eq, Structural)]
pub enum PassportModel {
    Prime,
}

/// The colour that a pairing response names.
#[derive(Clone, Copy, Debug, PartialEq, Eq, Structural)]
pub enum PassportColor {
    Dark,
}

/// The answer to a pairing request.
#[derive(Debug)]
pub struct PairingResponse {
    pub passport_model: PassportModel,
    pub passport_firmware_version: String,
    pub passport_serial: String,
    pub passport_color: PassportColor,
    pub onboarding_complete: bool,
    pub device_name: Option<String>,
}

/// The contents of a `PairingResponse`.
#[verifier::ext_equal]
pub struct PairingResponseView {
    pub passport_model: PassportModel,
    pub passport_firmware_version: Seq<char>,
    pub passport_serial: Seq<char>,
    pub passport_color: PassportColor,
    pub onboarding_complete: bool,
    pub device_name: Option<Seq<char>>,
}

impl View for PairingResponse {
    type V = PairingResponseView;

    open spec fn view(&self) -> PairingResponseView {
        PairingResponseView {
            passport_model: self.passport_model,
            passport_firmware_version: self.passport_firmware_version@,
            passport_serial: self.passport_serial@,
            passport_color: self.passport_color,
            onboarding_complete: self.onboarding_complete,
            device_name: match self.device_name {
                Some(name) => Some(name@),
                None => None,
            },
        }
    }
}

/// A message between a companion and a Passport.
#[derive(Debug)]
pub enum QuantumLinkMessage {
    AccountUpdate(AccountUpdate),
    PairingRequest(PairingRequest),
    PairingResponse(PairingResponse),
    Heartbeat,
    /// Any of the messages that the bridge has no use for.
    Other,
}

/// The contents of a `QuantumLinkMessage`.
#[verifier::ext_equal]
pub enum QuantumLinkMessageView {
    AccountUpdate(AccountUpdateView),
    PairingRequest(PairingRequestView),
    PairingResponse(PairingResponseView),
    Heartbeat,
    Other,
}

impl View for QuantumLinkMessage {
    type V = QuantumLinkMessageView;

    open spec fn view(&self) -> QuantumLinkMessageView {
        match self {
            QuantumLinkMessage::AccountUpdate(m) => QuantumLinkMessageView::AccountUpdate(m@),
            QuantumLinkMessage::PairingRequest(m) => QuantumLinkMessageView::PairingRequest(m@),
            QuantumLinkMessage::PairingResponse(m) => QuantumLinkMessageView::PairingResponse(m@),
            QuantumLinkMessage::Heartbeat => QuantumLinkMessageView::Heartbeat,
            QuantumLinkMessage::Other => QuantumLinkMessageView::Other,
        }
    }
}

/// A message from a companion to a Passport.
#[derive(Debug)]
pub struct EnvoyMessage {
    pub message: QuantumLinkMessage,
    /// Seconds since the Unix epoch.
    pub timestamp: u32,
    pub protocol_version: Option<u32>,
}

/// The contents of an `EnvoyMessage`.
#[verifier::ext_equal]
pub struct EnvoyMessageView {
    pub message: QuantumLinkMessageView,
    pub timestamp: u32,
    pub protocol_version: Option<u32>,
}

impl View for EnvoyMessage {
    type V = EnvoyMessageView;

    open spec fn view(&self) -> EnvoyMessageView {
        EnvoyMessageView {
            message: self.message@,
            timestamp: self.timestamp,
            protocol_version: self.protocol_version,
        }
    }
}

/// How a Passport is doing.
#[derive(Debug)]
pub struct DeviceStatus {
    pub version: String,
    pub battery_level: u8,
}

/// The contents of a `DeviceStatus`.
#[verifier::ext_equal]
pub struct DeviceStatusView {
    pub version: Seq<char>,
    pub battery_level: u8,
}

impl View for DeviceStatus {
    type V = DeviceStatusView;

    open spec fn view(&self) -> DeviceStatusView {
        DeviceStatusView { version: self.version@, battery_level: self.battery_level }
    }
}

/// A message from a Passport to its companion.
#[derive(Debug)]
pub struct PassportMessage {
    pub message: QuantumLinkMessage,
    pub status: DeviceStatus,
    pub protocol_version: Option<u32>,
}

/// The contents of a `PassportMessage`.
#[verifier::ext_equal]
pub struct PassportMessageView {
    pub message: QuantumLinkMessageView,
    pub status: DeviceStatusView,
    pub protocol_version: Option<u32>,
}

impl View for PassportMessage {
    type V = PassportMessageView;

    open spec fn view(&self) -> PassportMessageView {
        PassportMessageView {
            message: self.message@,
            status: self.status@,
            protocol_version: self.protocol_version,
        }
    }
}

/// A message of a Passport is seen as it stands.
pub proof fn law_passport_message_is_seen_as_it_stands(message: PassportMessage)
    ensures
        message@.status.version == message.status.version@,
        message@.status.battery_level == message.status.battery_level,
        message@.protocol_version == message.protocol_version,
        match message.message {
            QuantumLinkMessage::AccountUpdate(update) => {
                &&& message@.message matches QuantumLinkMessageView::AccountUpdate(seen)
                &&& seen.account_id == update.account_id@
                &&& seen.update == update.update@
            },
            QuantumLinkMessage::PairingRequest(request) => {
                &&& message@.message matches QuantumLinkMessageView::PairingRequest(seen)
                &&& seen.xid_document == request.xid_document@
                &&& seen.device_name == request.device_name@
            },
            QuantumLinkMessage::PairingResponse(_) => message@.message is PairingResponse,
            QuantumLinkMessage::Heartbeat => message@.message is Heartbeat,
            QuantumLinkMessage::Other => message@.message is Other,
        },
{
}

// ---------------------------------------------------------------------------
// Outgoing messages
// ---------------------------------------------------------------------------

/// The timestamp of a message sent when the clock shows `clock` seconds since
/// the Unix epoch, or nothing because it stands before it.
pub open spec fn timestamp(clock: Option<u64>) -> u32 {
    match clock {
        Some(seconds) => (seconds as int % 0x1_0000_0000) as u32,
        None => 0,
    }
}

/// The timestamp of a message sent when the clock shows `clock` seconds since
/// the Unix epoch, or nothing because it stands before it.
pub fn message_timestamp(clock: Option<u64>) -> (r: u32)
    ensures
        r == timestamp(clock),
{
    match clock {
        Some(seconds) => (seconds % 0x1_0000_0000) as u32,
        None => 0,
    }
}

/// The timestamp is the clock's count of seconds as long as that fits in 32
/// bits, starts again at 0 where it no longer does, and is 0 for a clock that
/// stands before the epoch.
pub proof fn law_timestamp_follows_the_clock(seconds: u64)
    ensures
        seconds < 0x1_0000_0000 ==> timestamp(Some(seconds)) == seconds,
        seconds >= 0x1_0000_0000 ==> timestamp(Some(seconds)) == timestamp(
            Some((seconds - 0x1_0000_0000) as u64),
        ),
        timestamp(None) == 0,
{
}

/// A message to send now, in the given protocol version.
pub fn new_envoy_message(
    message: QuantumLinkMessage,
    clock: Option<u64>,
    protocol_version: u32,
) -> (r: EnvoyMessage)
    ensures
        r.message == message,
        r.timestamp == timestamp(clock),
        r.protocol_version == Some(protocol_version),
{
    EnvoyMessage {
        message,
        timestamp: message_timestamp(clock),
        protocol_version: Some(protocol_version),
    }
}

// ---------------------------------------------------------------------------
// Incoming messages
// ---------------------------------------------------------------------------

/// Why an incoming envelope gives no message.
#[derive(Clone, Copy, Debug, PartialEq, Eq, Structural)]
pub enum UnsealError {
    /// The bytes are not deterministic CBOR, or nest too deeply to be read.
    InvalidCbor,
    /// The item is not an envelope, or holds CBOR in a byte string that nests too
    /// deeply to be read.
    InvalidEnvelope,
    /// The envelope is not sealed to us, is not signed by its sender, was seen
    /// before, or holds no message.
    UnsealFailed,
}

/// What incoming bytes are found to be.
#[derive(Clone, Copy, Debug, PartialEq, Eq, Structural)]
pub enum EnvelopeReading {
    /// They are not deterministic CBOR, or nest too deeply to be read.
    NotCbor,
    /// They encode something else than an envelope, or hold CBOR in a byte string
    /// that nests too deeply to be read.
    NotEnvelope,
    /// They encode an envelope.
    Envelope,
}

/// What the bytes `data` are found to be.
pub open spec fn envelope_reading(data: Seq<u8>) -> EnvelopeReading {
    if !nesting::nests_within(data, STACK_KIB as nat, CBOR_LEVEL_KIB as nat)
        || !cbor::well_formed(data) {
        EnvelopeReading::NotCbor
    } else if !nesting::packed_fits(data, STACK_KIB as nat, CBOR_LEVEL_KIB as nat)
        || !cbor::envelope_data(data) {
        EnvelopeReading::NotEnvelope
    } else {
        EnvelopeReading::Envelope
    }
}

/// What incoming bytes give, where `opened` says what the keys of the bridge
/// make of them.
pub open spec fn unsealed<T>(reading: EnvelopeReading, opened: Option<T>) -> Result<
    T,
    UnsealError,
> {
    match (reading, opened) {
        (EnvelopeReading::NotCbor, _) => Err(UnsealError::InvalidCbor),
        (EnvelopeReading::NotEnvelope, _) => Err(UnsealError::InvalidEnvelope),
        (EnvelopeReading::Envelope, None) => Err(UnsealError::UnsealFailed),
        (EnvelopeReading::Envelope, Some(message)) => Ok(message),
    }
}

/// Bytes are an envelope just where `dcbor` and `bc_envelope` accept them and
/// the stack holds what they nest; they are no CBOR just where they nest too
/// deeply or `dcbor` refuses them.
pub proof fn law_envelope_reading(data: Seq<u8>)
    ensures
        envelope_reading(data) == EnvelopeReading::Envelope <==> (cbor::well_formed(data)
            && cbor::envelope_data(data) && nesting::nests_within(data, 1792, 5)
            && nesting::packed_fits(data, 1792, 5)),
        envelope_reading(data) == EnvelopeReading::NotCbor <==> !(cbor::well_formed(data)
            && nesting::nests_within(data, 1792, 5)),
{
}

/// What the keys make of an envelope counts just where the bytes are one. Else
/// what they are found to be decides which error there is.
pub proof fn law_only_opened_envelopes_give_messages<T>(
    reading: EnvelopeReading,
    opened: Option<T>,
)
    ensures
        unsealed(reading, opened) matches Ok(message) ==> reading == EnvelopeReading::Envelope
            && opened == Some(message),
        reading == EnvelopeReading::Envelope && opened is Some ==> unsealed(reading, opened) is Ok,
        reading == EnvelopeReading::NotCbor ==> unsealed(reading, opened) == Err::<T, UnsealError>(
            UnsealError::InvalidCbor,
        ),
        reading == EnvelopeReading::NotEnvelope ==> unsealed(reading, opened) == Err::<
            T,
            UnsealError,
        >(UnsealError::InvalidEnvelope),
        reading == EnvelopeReading::Envelope && opened is None ==> unsealed(reading, opened)
            == Err::<T, UnsealError>(UnsealError::UnsealFailed),
{
}

/// What the bytes `data` are found to be.
pub fn read_envelope(data: &Vec<u8>) -> (r: EnvelopeReading)
    ensures
        r == envelope_reading(data@),
{
    if !nesting::is_shallow(data, CBOR_LEVEL_KIB) || !cbor::is_cbor(data) {
        EnvelopeReading::NotCbor
    } else if !nesting::is_packed_shallow(data, CBOR_LEVEL_KIB) || !cbor::is_envelope(data) {
        EnvelopeReading::NotEnvelope
    } else {
        EnvelopeReading::Envelope
    }
}

/// The message in incoming bytes that are found to be this, and its sender,
/// where `opened` says what the keys of the bridge make of them.
pub fn unseal_reading(
    reading: EnvelopeReading,
    opened: Option<(PassportMessage, Vec<u8>)>,
) -> (r: Result<(PassportMessage, Vec<u8>), UnsealError>)
    ensures
        r == unsealed(reading, opened),
{
    match reading {
        EnvelopeReading::NotCbor => Err(UnsealError::InvalidCbor),
        EnvelopeReading::NotEnvelope => Err(UnsealError::InvalidEnvelope),
        EnvelopeReading::Envelope => match opened {
            Some(message) => Ok(message),
            None => Err(UnsealError::UnsealFailed),
        },
    }
}

/// The message in a complete incoming envelope and the XID document of its
/// sender, where `opened` says what the keys of the bridge make of it, replay
/// protection included: nothing, or a message and its sender.
pub fn unseal_passport(
    envelope_cbor: &Vec<u8>,
    opened: Option<(PassportMessage, Vec<u8>)>,
) -> (r: Result<(PassportMessage, Vec<u8>), UnsealError>)
    ensures
        r == unsealed(envelope_reading(envelope_cbor@), opened),
{
    unseal_reading(read_envelope(envelope_cbor), opened)
}

} // verus!
