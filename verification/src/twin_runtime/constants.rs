//! Deadlines of the conversation between the brain and its zones.
use vstd::prelude::*;

verus! {

/// How long the brain waits for a zone's answer before it tells the zone again.
pub const ZONE_TELL_BACK_WAIT_MILLIS: u64 = 100;

/// How often the brain tells a silent zone again before it gives up on it.
pub const ZONE_TELL_RETRIES: u32 = 2;

} // verus!
