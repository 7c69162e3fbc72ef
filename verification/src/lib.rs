//! Handfast: a desktop daemon, and its front-end, for pairing with phones over
//! the KDE Connect wire protocol.
//!
//! * [`protocol`] is the wire protocol: packets, line framing, identities,
//!   certificates and transfer metadata.
//! * [`plugins`] are the packet transformers and their registry.
//! * [`daemon`] is the device manager with pairing and certificate pinning, the
//!   handshake, file transfers, platform feeds and the request router.
//! * [`ipc`] is the local control plane: frames, requests, events, sessions.
//! * [`gui`] is the front-end as a reducer from messages to state and effects.
//! * [`base`] holds the events, directories, persisted rows and supervision
//!   that the others share.
//! * [`json`], [`buffer`], [`ordered`] and [`text`] are the data that all of
//!   them work on.
//!
//! The library decides and computes. Sockets, files, processes and the clock
//! belong to its callers, which hand in what they observed and carry out what
//! they are told.
use vstd::prelude::*;

pub mod base;
pub mod buffer;
pub mod daemon;
pub mod gui;
pub mod ipc;
pub mod json;
pub mod ordered;
pub mod plugins;
pub mod protocol;
pub mod text;

verus! {

} // verus!
