//! Protocol logic for controlling a Wiz smart bulb over its JSON datagram
//! protocol: the wire data types, the codec between them and JSON documents,
//! the interpretation of replies, and the hue schedule of party mode.
//!
//! Sockets, timing and floating-point colour spaces are left to the caller;
//! everything here works on plain values.

pub mod wire;
pub mod json;
pub mod codec;
pub mod exchange;
pub mod client;
pub mod party;

pub use client::Client;
pub use wire::{
    ColorDto, CommandDto, Error, Pilot, ResponseDto, ResponsePayloadDto, UserConfigDto,
};
