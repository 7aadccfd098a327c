//! Requests to the firmware (the supervisor binary interface).
//!
//! The functions here compute the request; issuing it is left to the caller.

use vstd::prelude::*;

verus! {

/// Firmware function that writes one character to the console.
pub const SBI_CONSOLE_PUTCHAR: usize = 1;

/// Firmware function that halts the machine.
pub const SBI_SHUTDOWN: usize = 8;

/// One firmware call: the function number and its three arguments.
#[derive(Clone, Copy, Debug, PartialEq, Eq, Structural)]
pub struct SbiCall {
    pub which: usize,
    pub arg0: usize,
    pub arg1: usize,
    pub arg2: usize,
}

/// The firmware call that writes the character `c`.
pub open spec fn putchar_call(c: usize) -> SbiCall {
    SbiCall { which: SBI_CONSOLE_PUTCHAR, arg0: c, arg1: 0, arg2: 0 }
}

/// The firmware call that halts the machine.
pub open spec fn shutdown_call() -> SbiCall {
    SbiCall { which: SBI_SHUTDOWN, arg0: 0, arg1: 0, arg2: 0 }
}

/// Builds the firmware call that writes the character `c` to the console.
pub fn console_putchar(c: usize) -> (call: SbiCall)
    ensures
        call == putchar_call(c),
{
    SbiCall { which: SBI_CONSOLE_PUTCHAR, arg0: c, arg1: 0, arg2: 0 }
}

/// Builds the firmware call that halts the machine.
pub fn shutdown() -> (call: SbiCall)
    ensures
        call == shutdown_call(),
{
    SbiCall { which: SBI_SHUTDOWN, arg0: 0, arg1: 0, arg2: 0 }
}

} // verus!
