//! Framing, pacing and control rules of a live audio forwarder.
//!
//! The crate holds the parts of the forwarder that decide or compute: the
//! binary frame layout, the codec table, the arithmetic of the synthetic tone
//! frames, target-process selection, the capture state machine, the inbound
//! control rule and the sequencing of outgoing frames. Device access, the
//! network connection and the tone's waveform live with the caller.

pub mod capture;
pub mod chunking;
pub mod clock;
pub mod codec;
pub mod control;
pub mod forwarder;
pub mod packet;
pub mod process;
pub mod tone;
