//! The last-error register: one slot that mirrors the most recent error code
//! of the modem library.
//!
//! The slot has a single writer, the layer below, which calls
//! [`LastErrorRegister::record`] whenever the library reports an error of its
//! own. Everything above only reads. A value that was read is a snapshot: the
//! next error overwrites the slot, so a caller that works with several sockets
//! copies the value right after the call that failed.

use vstd::prelude::*;

verus! {

/// The slot that holds the last error code.
pub struct LastErrorRegister {
    value: i32,
}

impl View for LastErrorRegister {
    type V = i32;

    closed spec fn view(&self) -> i32 {
        self.value
    }
}

impl LastErrorRegister {
    /// A register in which no error has been recorded yet: it reads zero.
    pub fn new() -> (register: LastErrorRegister)
        ensures
            register@ == 0,
    {
        LastErrorRegister { value: 0 }
    }

    /// Records `errno` as the last error. The previous value is overwritten,
    /// nothing is accumulated.
    pub fn record(&mut self, errno: i32)
        ensures
            final(self)@ == errno,
    {
        self.value = errno;
    }
}

/// Returns the last error that was recorded in `register`, and leaves the
/// register as it is.
pub fn get_last_error(register: &LastErrorRegister) -> (code: i32)
    ensures
        code == register@,
{
    register.value
}

} // verus!
