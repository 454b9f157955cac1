//! Control of media players on a shared message bus: which services are
//! players, which of them is active, what each command asks of it, and how
//! its answers become one track record.
//!
//! The library decides and computes on plain values. Talking to the bus is
//! left to the caller, who hands over what the bus answered.

pub mod backend;
pub mod dict;
pub mod discovery;
pub mod dispatch;
pub mod error;
pub mod metadata;
pub mod radiotray;
pub mod select;
mod text;
pub mod track;
