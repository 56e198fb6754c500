//! SnapMail zome logic: handles (user names), mails, acknowledgements and the
//! direct-message protocol between agents, written as verified decisions over
//! plain values. Every exchange with the Holochain host (source chain, DHT,
//! direct messages, signals) is named by a `HostCall` and answered by a
//! `HostReply`; a zome function that talks to the host is a state machine
//! that consumes replies and produces its next call or its result.

pub mod dna;
pub mod handle;
pub mod host;
pub mod host_model;
pub mod mail;
pub mod protocol;
pub mod signal_protocol;
