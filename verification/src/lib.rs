//! Typed handles for the general-purpose I/O pins of a Raspberry Pi.
//!
//! The native GPIO driver takes any pin number for any operation, whatever
//! mode the pin is in and whatever the pin is wired to, and several numbering
//! schemes give the same number to different pins. This library puts types on
//! top: a [`WiringPi`] is bound to one numbering scheme and mints handles, one
//! type of handle per hardware mode (see [`pin`]), and a change of mode
//! consumes the handle. Hardware PWM and the GPIO clock are to be had only on
//! the pins that are wired for them (see [`scheme`]).
//!
//! The library makes no call on the driver itself. Every operation gives
//! back the [`driver::DriverCall`]s that the caller has to make; [`protocol`]
//! says what they mean and [`laws`] what is proved of them.
//!
//! The driver is set up once. A [`SetupGuard`] hands out the call that
//! initialises it for a scheme, and [`setup`], [`setup_gpio`], [`setup_phys`]
//! or [`setup_sys`] turns the status that the driver answers into a
//! [`WiringPi`] or into an [`InitializationError`].

pub mod driver;
pub mod laws;
pub mod pin;
pub mod protocol;
pub mod scheme;
pub mod thread;

use crate::driver::DriverCall;
use crate::pin::{ClockPin, GpioClock, InputPin, OutputPin, Pin, Pwm, PwmPin, RequiresRoot, SoftPwmPin};
use crate::protocol::{enter, Mode, PinState};
use crate::scheme::Scheme;
use libc::c_int;
use std::marker::PhantomData;
use vstd::prelude::*;

verus! {

/// Why the driver could not be set up.
#[derive(Clone, Copy, Debug, PartialEq, Eq)]
pub enum InitializationError {
    /// The driver answered a negative status: the hardware is not the one it
    /// drives, or the process lacks the privileges that the scheme needs.
    DriverFailed { status: c_int },
    /// A setup of the driver has begun before. The driver can be set up once
    /// per process.
    AlreadyInitialized,
}

/// How far the one setup of the driver has come.
#[derive(Clone, Copy, Debug, PartialEq, Eq)]
pub enum SetupStage {
    /// No setup has begun.
    NotBegun,
    /// The call that initialises the driver for `scheme` has been handed out,
    /// and the status that the driver answers to it is awaited.
    Pending { scheme: Scheme },
    /// The setup has come to its end, with a driver that is set up or with
    /// an error.
    Finished,
}

/// Keeps the driver from being set up twice.
///
/// A process holds one guard. The first [`SetupGuard::begin`] hands out the
/// call that initialises the driver, and every later one is refused. The
/// status that the driver answers completes the setup, once.
pub struct SetupGuard {
    stage: SetupStage,
}

impl View for SetupGuard {
    type V = SetupStage;

    closed spec fn view(&self) -> SetupStage {
        self.stage
    }
}

impl SetupGuard {
    /// A guard under which no setup has begun.
    pub fn new() -> (guard: SetupGuard)
        ensures
            guard@ == SetupStage::NotBegun,
    {
        SetupGuard { stage: SetupStage::NotBegun }
    }

    /// How far the setup has come.
    pub fn stage(&self) -> (stage: SetupStage)
        ensures
            stage == self@,
    {
        self.stage
    }

    /// Begins the setup for `scheme`. The first time this gives the call that
    /// initialises the driver; the status that the driver answers goes to
    /// [`setup`], [`setup_gpio`], [`setup_phys`] or [`setup_sys`], by the
    /// scheme. Any further time it fails, and no call is to be made.
    pub fn begin(&mut self, scheme: Scheme) -> (call: Result<DriverCall, InitializationError>)
        ensures
            old(self)@ == SetupStage::NotBegun ==> {
                &&& call == Ok::<DriverCall, InitializationError>(DriverCall::Initialize { scheme })
                &&& final(self)@ == (SetupStage::Pending { scheme })
            },
            old(self)@ != SetupStage::NotBegun ==> {
                &&& call == Err::<DriverCall, InitializationError>(
                    InitializationError::AlreadyInitialized,
                )
                &&& final(self)@ == old(self)@
            },
    {
        match self.stage {
            SetupStage::NotBegun => {
                self.stage = SetupStage::Pending { scheme };
                Ok(DriverCall::Initialize { scheme })
            },
            _ => Err(InitializationError::AlreadyInitialized),
        }
    }
}

/// The driver, set up for the numbering scheme `P`. It mints the pin handles.
pub struct WiringPi<P>(PhantomData<P>);

impl<P: Pin> WiringPi<P> {
    fn complete(guard: &mut SetupGuard, status: c_int) -> (made: Result<
        WiringPi<P>,
        InitializationError,
    >)
        requires
            old(guard)@ == (SetupStage::Pending { scheme: P::scheme() }),
        ensures
            final(guard)@ == SetupStage::Finished,
            made is Ok <==> status >= 0,
            made matches Err(error) ==> error == (InitializationError::DriverFailed { status }),
    {
        guard.stage = SetupStage::Finished;
        if status < 0 {
            Err(InitializationError::DriverFailed { status })
        } else {
            Ok(WiringPi(PhantomData))
        }
    }

    /// Makes `pin` an input.
    pub fn input_pin(&self, pin: u16) -> (minted: (InputPin<P>, DriverCall))
        ensures
            minted.0@ == PinState::fresh(P::scheme(), pin as c_int, Mode::Input),
            minted.0@.admitted(),
            minted.1 == enter(pin as c_int, Mode::Input),
    {
        InputPin::new(pin as c_int)
    }

    /// Makes `pin` an output.
    pub fn output_pin(&self, pin: u16) -> (minted: (OutputPin<P>, DriverCall))
        ensures
            minted.0@ == PinState::fresh(P::scheme(), pin as c_int, Mode::Output),
            minted.0@.admitted(),
            minted.1 == enter(pin as c_int, Mode::Output),
    {
        OutputPin::new(pin as c_int)
    }

    /// Asks for the milliseconds since the driver was set up. The answer is
    /// an unsigned 32-bit number, which wraps after 49 days.
    pub fn millis(&self) -> (call: DriverCall)
        ensures
            call == DriverCall::ElapsedMillis,
    {
        DriverCall::ElapsedMillis
    }

    /// Asks for the microseconds since the driver was set up. The answer is
    /// an unsigned 32-bit number, which wraps after 71 minutes.
    pub fn micros(&self) -> (call: DriverCall)
        ensures
            call == DriverCall::ElapsedMicros,
    {
        DriverCall::ElapsedMicros
    }

    /// Writes the bits of `byte` to the first eight pins at once.
    pub fn digital_write_byte(&self, byte: u8) -> (call: DriverCall)
        ensures
            call == (DriverCall::DigitalWriteByte { value: byte as c_int }),
    {
        DriverCall::DigitalWriteByte { value: byte as c_int }
    }
}

impl<P: Pwm + Pin> WiringPi<P> {
    /// Makes the one pin of the scheme that is wired to the hardware PWM
    /// generator a hardware PWM output.
    pub fn pwm_pin(&self) -> (minted: (PwmPin<P>, DriverCall))
        ensures
            minted.0@.admitted(),
            minted.1 == enter(minted.0@.pin, Mode::HardwarePwm),
    {
        P::pwm_pin()
    }
}

impl<P: GpioClock + Pin> WiringPi<P> {
    /// Makes the one pin of the scheme that is wired to the GPIO clock
    /// generator a clock output.
    pub fn clock_pin(&self) -> (minted: (ClockPin<P>, DriverCall))
        ensures
            minted.0@.admitted(),
            minted.1 == enter(minted.0@.pin, Mode::Clock),
    {
        P::clock_pin()
    }
}

impl<P: Pin + RequiresRoot> WiringPi<P> {
    /// Starts a software PWM timer on `pin`.
    pub fn soft_pwm_pin(&self, pin: u16) -> (minted: (SoftPwmPin<P>, DriverCall))
        ensures
            minted.0@ == PinState::fresh(P::scheme(), pin as c_int, Mode::SoftwarePwm),
            minted.0@.admitted(),
            minted.1 == enter(pin as c_int, Mode::SoftwarePwm),
    {
        SoftPwmPin::new(pin as c_int)
    }
}

/// Completes the setup for the simplified numbering of the driver, given the
/// status that the driver answered to its initialisation.
///
/// The simplified numbering maps the numbers 0 through 16 to Broadcom
/// numbers. The driver needs root privileges for it.
pub fn setup(guard: &mut SetupGuard, status: c_int) -> (made: Result<
    WiringPi<pin::WiringPi>,
    InitializationError,
>)
    requires
        old(guard)@ == (SetupStage::Pending { scheme: Scheme::Logical }),
    ensures
        final(guard)@ == SetupStage::Finished,
        made is Ok <==> status >= 0,
        made matches Err(error) ==> error == (InitializationError::DriverFailed { status }),
{
    WiringPi::complete(guard, status)
}

/// Completes the setup for Broadcom numbering, given the status that the
/// driver answered to its initialisation. The driver needs root privileges
/// for it.
pub fn setup_gpio(guard: &mut SetupGuard, status: c_int) -> (made: Result<
    WiringPi<pin::Gpio>,
    InitializationError,
>)
    requires
        old(guard)@ == (SetupStage::Pending { scheme: Scheme::BroadcomGpio }),
    ensures
        final(guard)@ == SetupStage::Finished,
        made is Ok <==> status >= 0,
        made matches Err(error) ==> error == (InitializationError::DriverFailed { status }),
{
    WiringPi::complete(guard, status)
}

/// Completes the setup for the numbering by position on the main connector,
/// given the status that the driver answered to its initialisation. The
/// driver needs root privileges for it.
pub fn setup_phys(guard: &mut SetupGuard, status: c_int) -> (made: Result<
    WiringPi<pin::Phys>,
    InitializationError,
>)
    requires
        old(guard)@ == (SetupStage::Pending { scheme: Scheme::PhysicalConnector }),
    ensures
        final(guard)@ == SetupStage::Finished,
        made is Ok <==> status >= 0,
        made matches Err(error) ==> error == (InitializationError::DriverFailed { status }),
{
    WiringPi::complete(guard, status)
}

/// Completes the setup through the sysfs interface, given the status that
/// the driver answered to its initialisation.
///
/// This works without root privileges, on the pins that have been exported
/// beforehand, in Broadcom numbering. What needs direct register access is
/// not on offer under this scheme.
pub fn setup_sys(guard: &mut SetupGuard, status: c_int) -> (made: Result<
    WiringPi<pin::Sys>,
    InitializationError,
>)
    requires
        old(guard)@ == (SetupStage::Pending { scheme: Scheme::SysfsExported }),
    ensures
        final(guard)@ == SetupStage::Finished,
        made is Ok <==> status >= 0,
        made matches Err(error) ==> error == (InitializationError::DriverFailed { status }),
{
    WiringPi::complete(guard, status)
}

/// Asks for the revision of the board, which the driver answers as is. Some
/// pins changed their Broadcom number from one revision to the next.
pub fn board_revision() -> (call: DriverCall)
    ensures
        call == DriverCall::BoardRevision,
{
    DriverCall::BoardRevision
}

} // verus!
