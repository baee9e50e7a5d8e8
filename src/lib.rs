//! A continuous pitch shifter's control logic: parameter indexing, the
//! preset byte format, and the cache that decides when the band-limiting
//! filter cutoffs must be recomputed.
use vstd::prelude::*;

pub mod cutoff;
pub mod parameters;
pub mod preset;

verus! {

/// Number of audio channels the engine processes.
pub const CHANNEL_COUNT: usize = 2;

/// Number of trailing samples whose spectrum is maintained per channel.
pub const WINDOW_LENGTH: usize = 1024;

} // verus!
