//! Core of an IBC relayer: translates events observed on a source chain into
//! the messages that must be submitted to a sink chain.
//!
//! The library is organised around three verified layers:
//! * a decoder that turns raw ABCI events into typed IBC events,
//! * per-event message builders together with the packet admission policy,
//! * a protobuf wire encoder that produces the outbound message payloads.
//!
//! Chain access goes through the [`chain::ChainPort`] trait; every query a
//! builder makes is pinned to the event's height, and the contracts of the
//! builders are stated against the port's abstract chain model.
#![verifier::loop_isolation(false)]

pub mod height;
pub mod strutil;
pub mod hexbytes;
pub mod types;
pub mod error;
pub mod proto;
pub mod msgs;
pub mod events;
pub mod decode;
pub mod chain;
pub mod translate;
pub mod scale;
pub mod laws;
pub mod emit;
pub mod ports;
