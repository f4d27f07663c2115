//! Web over Bluetooth for a hardware wallet that has no other radio.
//!
//! Two programs share this library. The browser on the Passport keeps a history
//! and asks a gateway, the surf-relay, for pages: [`browser`], [`events`],
//! [`page`] and [`demo`]. The bridge on the box beside the gateway pairs with
//! the Passport over Bluetooth and carries its envelopes to the gateway and
//! back: [`ble`], [`ql`], [`router`], [`relay`], [`identity`], [`storage`],
//! [`sim`] and [`cli`].
//!
//! The library decides; radios, sockets, files and keys are the caller's. What
//! it takes from other crates stands behind trusted items in [`cbor`], [`json`]
//! and [`identity`]; [`nesting`] keeps from them the data that they cannot read.

pub mod ble;
pub mod browser;
pub mod cbor;
pub mod cli;
pub mod demo;
pub mod events;
pub mod identity;
pub mod json;
pub mod nesting;
pub mod page;
pub mod ql;
pub mod relay;
pub mod router;
pub mod sim;
pub mod storage;
pub mod text;
