//! Shared arithmetic on clock readings and counters. The library never reads
//! a clock itself: every time-dependent operation takes the current reading
//! in milliseconds as an argument, so its behaviour is pinned for every value
//! the surrounding process may supply.

use vstd::prelude::*;

verus! {

/// Saturating increment, so that statistics counters never overflow.
pub open spec fn sat_inc_u64(x: u64) -> u64 {
    if x == u64::MAX {
        x
    } else {
        (x + 1) as u64
    }
}

/// Saturating increment for 32-bit counters.
pub open spec fn sat_inc_u32(x: u32) -> u32 {
    if x == u32::MAX {
        x
    } else {
        (x + 1) as u32
    }
}

/// Saturating addition on 64-bit counters.
pub open spec fn sat_add_u64(x: u64, y: u64) -> u64 {
    if x + y > u64::MAX {
        u64::MAX
    } else {
        (x + y) as u64
    }
}

/// Milliseconds elapsed between two clock readings, zero when the clock
/// moved backwards.
pub open spec fn spec_elapsed_ms(now: u64, since: u64) -> u64 {
    if now >= since {
        (now - since) as u64
    } else {
        0
    }
}

/// Executable counterpart of [`spec_elapsed_ms`].
pub fn elapsed_ms(now: u64, since: u64) -> (r: u64)
    ensures
        r == spec_elapsed_ms(now, since),
{
    if now >= since {
        now - since
    } else {
        0
    }
}

/// Executable counterpart of [`sat_add_u64`].
pub fn sat_add(x: u64, y: u64) -> (r: u64)
    ensures
        r == sat_add_u64(x, y),
{
    if x <= u64::MAX - y {
        x + y
    } else {
        u64::MAX
    }
}

} // verus!
