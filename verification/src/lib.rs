//! Command-protocol front end of an LED-matrix controller.
//!
//! A host sends fixed-format byte frames over a transport link. This crate
//! decodes one frame into a discrete [`command::Command`] and applies that
//! command to the mutable device state, reporting the collaborator action
//! (display call or terminal platform primitive) that the runtime must
//! perform. Malformed frames are silently rejected: decode-or-discard, with
//! no acknowledgement back to the sender.

pub mod command;
pub mod decode;
pub mod dispatch;
