//! Controller library for networked speakers that speak a UDP command
//! protocol with multicast discovery.
//!
//! The library holds what is decided and computed: the frame of a packet
//! ([`protocol`]), the catalog of commands and what they carry
//! ([`commands`], [`media`], [`channel`]), the announcement of a device
//! ([`discovery_reply`]), and the devices that a controller knows, with what
//! a packet does to them and what is to be sent ([`device`], [`manager`]).
//! It opens no socket and starts no thread; a program around it does.
//!
//! Three crates do work that is not proved here: `httparse` reads the head
//! of an announcement ([`http`]), `serde_json` reads and writes the text of
//! JSON documents ([`json`]), and `std` turns bytes into text and hands
//! events to subscribers. Each such call stands alone in a small function
//! whose documentation says what is taken on trust.

pub mod address;
pub mod channel;
pub mod commands;
pub mod device;
pub mod discovery_reply;
pub mod fake;
pub mod http;
pub mod json;
pub mod manager;
pub mod media;
pub mod protocol;
pub mod text;
