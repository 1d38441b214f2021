//! The driver boundary.
//!
//! This library never touches hardware. Every operation hands back the call
//! that has to be made on the native GPIO driver, as a plain value, and the
//! caller makes it. What the driver answers, where it answers anything, is
//! handed to the function that reads it. A program that links the native
//! driver performs each call as it gets it; a stand-in for the driver can
//! simply record them.
//!
//! The driver takes any call for any pin, in whatever mode the pin is and
//! whatever it is wired to. What keeps the calls in order is the types of
//! the handles that give them out.

use crate::scheme::Scheme;
use libc::{c_int, c_uint};
use vstd::prelude::*;

verus! {

/// Mode code of the driver for a digital input.
pub const INPUT: c_int = 0;

/// Mode code of the driver for a digital output.
pub const OUTPUT: c_int = 1;

/// Mode code of the driver for the output of the hardware PWM generator.
pub const PWM_OUTPUT: c_int = 2;

/// Mode code of the driver for the output of the GPIO clock generator.
pub const GPIO_CLOCK: c_int = 3;

/// The fixed range of a software PWM pin: duty cycles run from 0 to this.
pub const SOFT_PWM_RANGE: c_int = 100;

/// One call on the native driver, with its arguments.
///
/// Integer arguments have the C types of the driver's functions.
#[derive(Clone, Copy, Debug, PartialEq, Eq)]
pub enum DriverCall {
    /// Initialise the driver for one numbering scheme. Answers a status,
    /// negative on failure.
    Initialize { scheme: Scheme },
    /// Put a pin into the mode with the given code.
    SetPinMode { pin: c_int, mode: c_int },
    /// Read the logic level at a pin. Answers the level.
    DigitalRead { pin: c_int },
    /// Drive a pin to a logic level.
    DigitalWrite { pin: c_int, level: c_int },
    /// Drive the first eight pins at once, one bit each.
    DigitalWriteByte { value: c_int },
    /// Sample an analog input. Answers the sample.
    AnalogRead { pin: c_int },
    /// Write to an analog output.
    AnalogWrite { pin: c_int, value: c_int },
    /// Configure the pull resistor of a pin.
    SetPull { pin: c_int, mode: c_int },
    /// Write a duty cycle to the PWM register of a pin.
    PwmWrite { pin: c_int, value: c_int },
    /// Select the mode of the hardware PWM generator.
    PwmSetMode { mode: c_int },
    /// Set the range register of the hardware PWM generator, the upper bound
    /// of its duty cycles.
    PwmSetRange { upper: c_uint },
    /// Set the clock divisor of the hardware PWM generator.
    PwmSetClock { divisor: c_int },
    /// Start a software PWM timer on a pin.
    SoftPwmCreate { pin: c_int, initial: c_int, range: c_int },
    /// Set the duty cycle of the software PWM timer of a pin.
    SoftPwmWrite { pin: c_int, value: c_int },
    /// Stop the software PWM timer of a pin.
    SoftPwmStop { pin: c_int },
    /// Set the frequency of the GPIO clock behind a pin.
    GpioClockSet { pin: c_int, frequency: c_int },
    /// Answers the milliseconds since initialisation.
    ElapsedMillis,
    /// Answers the microseconds since initialisation.
    ElapsedMicros,
    /// Answers the hardware generation of the board.
    BoardRevision,
    /// Look up a logical pin number. Answers the Broadcom number of the pin.
    LogicalToNative { pin: c_int },
    /// Look up a connector position. Answers the Broadcom number of the pin.
    PhysicalToNative { pin: c_int },
    /// Raise the scheduling priority of the caller. Answers a status,
    /// negative on failure.
    RaisePriority { priority: c_int },
}

impl DriverCall {
    /// The pin that a call addresses. A call without one acts on the whole
    /// process or on a generator that every pin shares.
    pub open spec fn target(self) -> Option<c_int> {
        match self {
            DriverCall::SetPinMode { pin, .. } => Some(pin),
            DriverCall::DigitalRead { pin } => Some(pin),
            DriverCall::DigitalWrite { pin, .. } => Some(pin),
            DriverCall::AnalogRead { pin } => Some(pin),
            DriverCall::AnalogWrite { pin, .. } => Some(pin),
            DriverCall::SetPull { pin, .. } => Some(pin),
            DriverCall::PwmWrite { pin, .. } => Some(pin),
            DriverCall::SoftPwmCreate { pin, .. } => Some(pin),
            DriverCall::SoftPwmWrite { pin, .. } => Some(pin),
            DriverCall::SoftPwmStop { pin } => Some(pin),
            DriverCall::GpioClockSet { pin, .. } => Some(pin),
            DriverCall::LogicalToNative { pin } => Some(pin),
            DriverCall::PhysicalToNative { pin } => Some(pin),
            _ => None,
        }
    }
}

} // verus!
