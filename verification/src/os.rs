//! What the modem library asks of the operating system, as far as it is a
//! matter of computing.

use vstd::prelude::*;

verus! {

/// The clock cycles that the processor makes in one millisecond, at 64 MHz.
pub const CYCLES_PER_MILLISECOND: u32 = 64_000;

/// The error number that stands for "timed out".
pub const ETIMEDOUT: i32 = 60;

/// How a timed wait that the modem library asks for is served.
#[derive(Clone, Copy, Debug, PartialEq, Eq)]
pub struct TimedWait {
    /// The number of clock cycles to let pass, or `None` to return at once.
    pub delay: Option<u32>,
    /// The code to return to the modem library.
    pub code: i32,
}

/// The way a wait of `timeout_ms` milliseconds is served.
///
/// A negative time means "wait until woken", which cannot be done here: the
/// wait returns at once with zero. Any other time is waited out in full, and
/// the wait reports that it timed out. The number of cycles is a 32-bit
/// product: it is taken modulo 2^32.
pub open spec fn timed_wait_of(timeout_ms: i32) -> TimedWait {
    if timeout_ms < 0 {
        TimedWait { delay: None, code: 0 }
    } else {
        TimedWait {
            delay: Some(((timeout_ms * CYCLES_PER_MILLISECOND) % 0x1_0000_0000) as u32),
            code: ETIMEDOUT,
        }
    }
}

/// Decides how a wait of `timeout_ms` milliseconds is served.
pub fn timed_wait(timeout_ms: i32) -> (wait: TimedWait)
    ensures
        wait == timed_wait_of(timeout_ms),
{
    if timeout_ms < 0 {
        TimedWait { delay: None, code: 0 }
    } else {
        let time: u64 = timeout_ms as u64;
        let rate: u64 = CYCLES_PER_MILLISECOND as u64;
        assert(time * rate <= 0x7fff_ffff * 64_000) by (nonlinear_arith)
            requires
                time <= 0x7fff_ffff,
                rate == 64_000,
        ;
        let product: u64 = time * rate;
        TimedWait { delay: Some((product % 0x1_0000_0000) as u32), code: ETIMEDOUT }
    }
}

} // verus!
