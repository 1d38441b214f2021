//! Scheduling of the calling thread.

use crate::driver::DriverCall;
use libc::c_int;
use vstd::prelude::*;

verus! {

/// Asks to move the calling program, or thread, to a higher priority with
/// real-time scheduling.
///
/// `level` runs from 0, the default, to 99. It gives the program no more
/// speed, but a bigger slice of time while others run, and it counts
/// relative to the priorities of those others.
///
/// Only a program that runs as root can change its priority: for any other
/// the driver does nothing. [`priority_raised`] reads the answer.
pub fn priority(level: u8) -> (call: DriverCall)
    ensures
        call == (DriverCall::RaisePriority { priority: level as c_int }),
{
    DriverCall::RaisePriority { priority: level as c_int }
}

/// Whether the driver, by the status that it answered, has raised the
/// priority: a negative status reports an error.
pub fn priority_raised(status: c_int) -> (raised: bool)
    ensures
        raised == (status >= 0),
{
    status >= 0
}

} // verus!
