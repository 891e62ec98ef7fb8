//! Capslock-as-Ctrl and Ctrl+H/J/K/L-as-arrows remapping for a stream of
//! kernel input events.
//!
//! `event` holds the event record and the key codes; `remap` holds the
//! translation of one event into the events to emit, with the laws it obeys;
//! `session` holds the bookkeeping of one device session (grab state, read
//! checks, errors) around the translation.
pub mod event;
pub mod remap;
pub mod session;
