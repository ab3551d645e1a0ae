//! Session core of a live audio/video receiver.
//!
//! The crate holds the decisions of a receiver that takes a stream from a
//! remote producer: the bounded event log, the single-slot frame cell, the
//! routing of arriving tracks to per-kind processing chains, the reactions to
//! signaling events, the supervision of bus notifications and the controller
//! that owns the running pipeline. The media graph itself is driven by the
//! caller; every function here works on plain values.

pub mod bus;
pub mod chain;
pub mod event_log;
pub mod frame;
pub mod pipeline;
pub mod router;
pub mod signaling;
pub mod source;
pub mod track;
