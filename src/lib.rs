//! The control side of a gain plugin: the clamped, change-flagged gain parameter and the
//! bridge that, once per user-interface tick, commits the interface's intents to the host
//! and reports parameter changes and the peak level back without echoing its own writes.
//! Gain and level values are held as `f32` bit patterns.
use vstd::prelude::*;

pub mod bridge;
pub mod gain;

verus! {

} // verus!
