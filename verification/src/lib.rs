//! Two small contract-style state machines: a plain counter, and a per-owner
//! record registry with monotonic id assignment and owner-gated updates.

pub mod counter;
pub mod registry;
