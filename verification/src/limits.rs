//! Bounds shared by the whole library.

use vstd::prelude::*;

verus! {

/// Pause of the status listener between two polls of the port, in milliseconds.
pub const THREAD_SLEEP: u64 = 10;

/// Largest acceleration an axis accepts.
pub const MAX_ACCELERATION: u32 = 20_000;

/// Largest speed of an axis in full-step mode, in revolutions per minute.
pub const MAX_RPM: u32 = 5_000;

/// Largest value of any duration field: one year, in milliseconds.
pub const MAX_DURATION_MS: u64 = 31_536_000_000;

/// Ceiling on the number of samples kept for one speed curve.
pub const MAX_POINTS_GRAPHS: usize = 250_000;

/// Length of the command frame that carries a protocol.
pub const BYTES: usize = 110;

/// Length of the record of one axis inside the command frame.
pub const AXIS_BYTES: usize = 34;

} // verus!
