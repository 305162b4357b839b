//! Core of a keyboard-to-USB-HID bridge: key classification, tracking of the
//! currently pressed key set, streaming chord matching, and encoding of the
//! 8-byte HID boot-keyboard report.
//!
//! Device discovery, the event loop, and the writes to the gadget file are
//! collaborators outside this library; they hand events in as plain values
//! and take the encoded reports back.

pub mod key;
pub mod chord;
pub mod keyboard;
pub mod report;
