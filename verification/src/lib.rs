use vstd::prelude::*;

pub mod dec;
pub mod laws;
pub mod norm;
pub mod sys;
pub mod time;

pub use crate::time::Duration;

verus! {

/// Nanoseconds in one second.
pub const NANOS_PER_SEC: i32 = 1000000000;

/// Nanoseconds in one millisecond.
pub const NANOS_PER_MILLI: i32 = 1000000;

/// Nanoseconds in one microsecond.
pub const NANOS_PER_MICRO: i32 = 1000;

} // verus!
