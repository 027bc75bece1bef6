//! A transport layer for real-time simulations: outbound messages are queued
//! with a delivery requirement, sent at a paced rate, and whatever the
//! transport engine reports is normalised into one small event vocabulary.
//!
//! The stages here decide and never touch the network. The send stage says
//! which messages leave the queue in a cycle and which packet sends each; the
//! receive stage says which events the engine's notifications become. Whoever
//! owns the socket hands packets and notifications across as plain values.

pub mod address;
pub mod events;
pub mod laminar;
pub mod message;
pub mod payload;
pub mod requirements;
pub mod timing;
pub mod transport;
