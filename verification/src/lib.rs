//! Change-tracked playback status with a verified publish handshake.
//!
//! The crate models a bridge between a periodically polled media source and
//! an asynchronously consuming publishing sink.  Its pieces are:
//!
//! * [`util`] — a generic dirty-bit cell that remembers whether its value
//!   differs from the value it held at the last acknowledgment;
//! * [`status`] — the aggregate playback status built from those cells, with
//!   whole-object change detection, reset, and a fallible refresh;
//! * [`mpris`] — the rendezvous gate coordinating a sampling thread and a
//!   publishing thread so that every detected change is published exactly
//!   once, plus the pure rendering of property values and change groups.
//!
//! All I/O (querying the player, serving the bus) lives outside this crate;
//! the functions here work on plain values and carry full contracts.

pub mod mpris;
pub mod status;
pub mod util;
