//! Core of a minimal real-time rendering host.
//!
//! The crate models the decision logic of the host: GPU swap-chain and
//! buffer configuration, the per-frame UI update cycle (clock, events,
//! frame building, buffer synchronization), the outbound UI message
//! queue, and the event-loop control state. The windowing, GPU and
//! immediate-mode UI collaborators are external: a thin host binary
//! performs their calls and feeds their outcomes to this crate as plain
//! values.

use vstd::prelude::*;

pub mod engine;
pub mod gpu;
pub mod ui;

verus! {

} // verus!
