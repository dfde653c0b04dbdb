//! Core of a two-node interactive kiosk: an embedded controller (buttons and
//! a display) and a host process (dialogue and receipt printing), linked by a
//! point-to-point control protocol.
//!
//! The modules cover the protocol message catalogue (`icd`), the device-side
//! button sampler (`buttons`), the latest-wins display cell (`display`), the
//! request dispatcher (`rpc`), the character collection (`character`), the
//! conversation transcript and text sanitiser (`conversation`), and the
//! host-side session state machine (`session`).

pub mod buttons;
pub mod character;
pub mod conversation;
pub mod display;
pub mod icd;
pub mod rpc;
pub mod session;
