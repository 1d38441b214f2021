//! Pin handles.
//!
//! A handle stands for one physical pin in one hardware mode. Its type fixes
//! the numbering scheme and the mode, so that only the operations of that
//! mode can be asked of it, and a change of mode consumes the handle and
//! gives back one of the new mode. No function here touches hardware: each
//! gives back the [`DriverCall`]s to make, in the order in which to make
//! them.
//!
//! Operations that rely on direct register access (software PWM, the pull
//! resistors) need elevated privileges. Without them the driver ignores the
//! call: it has no effect and reports no error.

use crate::driver::{DriverCall, GPIO_CLOCK, INPUT, OUTPUT, PWM_OUTPUT, SOFT_PWM_RANGE};
use crate::protocol::{admits, enter, issues, release, switch, Mode, PinState};
use crate::scheme::{has_capability, is_privileged, Capability, Scheme};
use libc::{c_int, c_uint};
use std::marker::PhantomData;
use vstd::prelude::*;

verus! {

/// A numbering scheme, as a type.
pub trait Pin {
    /// The scheme that the type stands for.
    spec fn scheme() -> Scheme;
}

/// A scheme that works through direct register access, which needs elevated
/// privileges.
pub trait RequiresRoot: Pin {
    /// The scheme that the type stands for is a privileged one.
    proof fn scheme_is_privileged()
        ensures
            is_privileged(Self::scheme()),
    ;
}

/// A scheme under which one pin is wired to the hardware PWM generator.
pub trait Pwm: RequiresRoot + Sized {
    /// Makes the PWM pin of the scheme a hardware PWM output.
    fn pwm_pin() -> (minted: (PwmPin<Self>, DriverCall))
        ensures
            minted.0@.admitted(),
            minted.1 == enter(minted.0@.pin, Mode::HardwarePwm),
    ;
}

/// A scheme under which one pin is wired to the GPIO clock generator.
pub trait GpioClock: RequiresRoot + Sized {
    /// Makes the clock pin of the scheme a clock output.
    fn clock_pin() -> (minted: (ClockPin<Self>, DriverCall))
        ensures
            minted.0@.admitted(),
            minted.1 == enter(minted.0@.pin, Mode::Clock),
    ;
}

/// The simplified numbering of the driver.
#[derive(Clone, Copy)]
pub struct WiringPi;

/// The numbering of the Broadcom chip.
#[derive(Clone, Copy)]
pub struct Gpio;

/// The positions on the main connector of the board.
#[derive(Clone, Copy)]
pub struct Phys;

/// The pins exported through sysfs, in Broadcom numbering.
#[derive(Clone, Copy)]
pub struct Sys;

impl Pin for WiringPi {
    open spec fn scheme() -> Scheme {
        Scheme::Logical
    }
}

impl Pin for Gpio {
    open spec fn scheme() -> Scheme {
        Scheme::BroadcomGpio
    }
}

impl Pin for Phys {
    open spec fn scheme() -> Scheme {
        Scheme::PhysicalConnector
    }
}

impl Pin for Sys {
    open spec fn scheme() -> Scheme {
        Scheme::SysfsExported
    }
}

impl RequiresRoot for WiringPi {
    proof fn scheme_is_privileged() {
    }
}

impl RequiresRoot for Gpio {
    proof fn scheme_is_privileged() {
    }
}

impl RequiresRoot for Phys {
    proof fn scheme_is_privileged() {
    }
}

impl Pwm for WiringPi {
    fn pwm_pin() -> (minted: (PwmPin<WiringPi>, DriverCall)) {
        PwmPin::mint(1)
    }
}

impl Pwm for Gpio {
    fn pwm_pin() -> (minted: (PwmPin<Gpio>, DriverCall)) {
        PwmPin::mint(18)
    }
}

impl Pwm for Phys {
    fn pwm_pin() -> (minted: (PwmPin<Phys>, DriverCall)) {
        PwmPin::mint(12)
    }
}

impl GpioClock for WiringPi {
    fn clock_pin() -> (minted: (ClockPin<WiringPi>, DriverCall)) {
        ClockPin::mint(7)
    }
}

impl GpioClock for Gpio {
    fn clock_pin() -> (minted: (ClockPin<Gpio>, DriverCall)) {
        ClockPin::mint(4)
    }
}

impl GpioClock for Phys {
    fn clock_pin() -> (minted: (ClockPin<Phys>, DriverCall)) {
        ClockPin::mint(7)
    }
}

/// Asks for the Broadcom number of a pin given by its logical number. The
/// driver takes the board revision into account. [`gpio_number`] reads the
/// answer.
pub fn wpi_to_gpio_number(wpi_number: u16) -> (call: DriverCall)
    ensures
        call == (DriverCall::LogicalToNative { pin: wpi_number as c_int }),
{
    DriverCall::LogicalToNative { pin: wpi_number as c_int }
}

/// Asks for the Broadcom number of a pin given by its position on the main
/// connector. [`gpio_number`] reads the answer.
pub fn phys_to_gpio_number(phys_number: u16) -> (call: DriverCall)
    ensures
        call == (DriverCall::PhysicalToNative { pin: phys_number as c_int }),
{
    DriverCall::PhysicalToNative { pin: phys_number as c_int }
}

/// The low 16 bits of an answer of the driver, read as an unsigned number.
pub open spec fn low_word(answer: c_int) -> int {
    (answer as int) % 0x1_0000
}

fn take_low_word(answer: c_int) -> (word: u16)
    ensures
        word as int == low_word(answer),
{
    assert(answer as u16 == (answer & 0xffff) as u16) by (bit_vector);
    assert((answer & 0xffff) as int == (answer as int) % 0x1_0000) by (bit_vector);
    #[verifier::truncate]
    (answer as u16)
}

/// The Broadcom number that the driver answered when asked for one: the low
/// 16 bits of the answer.
pub fn gpio_number(answer: c_int) -> (number: u16)
    ensures
        number as int == low_word(answer),
{
    take_low_word(answer)
}

/// The sample that the driver answered to an analog read: the low 16 bits of
/// the answer.
pub fn analog_sample(answer: c_int) -> (sample: u16)
    ensures
        sample as int == low_word(answer),
{
    take_low_word(answer)
}

/// A logic level.
#[derive(Clone, Copy, Debug, PartialEq, Eq)]
pub enum Value {
    /// The level of ground.
    Low,
    /// The level of the supply, 3.3 V.
    High,
}

impl Value {
    /// The level as the driver writes it: 0 for low, 1 for high.
    pub open spec fn spec_level(self) -> c_int {
        match self {
            Value::Low => 0,
            Value::High => 1,
        }
    }

    /// The level as the driver writes it: 0 for low, 1 for high.
    #[verifier::when_used_as_spec(spec_level)]
    pub fn level(self) -> (level: c_int)
        ensures
            level == self.spec_level(),
    {
        match self {
            Value::Low => 0,
            Value::High => 1,
        }
    }

    /// The level that the driver answered to a digital read: low for 0, high
    /// for anything else.
    pub fn from_level(level: c_int) -> (value: Value)
        ensures
            value == if level == 0 {
                Value::Low
            } else {
                Value::High
            },
    {
        if level == 0 {
            Value::Low
        } else {
            Value::High
        }
    }
}

/// The setting of a pull resistor.
#[derive(Clone, Copy, Debug, PartialEq, Eq)]
pub enum Pull {
    /// No pull up or down.
    Off,
    /// Pull to ground.
    Down,
    /// Pull to 3.3 V.
    Up,
}

impl Pull {
    /// The code of the driver for the setting: 0 off, 1 down, 2 up.
    pub open spec fn spec_code(self) -> c_int {
        match self {
            Pull::Off => 0,
            Pull::Down => 1,
            Pull::Up => 2,
        }
    }

    /// The code of the driver for the setting: 0 off, 1 down, 2 up.
    #[verifier::when_used_as_spec(spec_code)]
    pub fn code(self) -> (code: c_int)
        ensures
            code == self.spec_code(),
    {
        match self {
            Pull::Off => 0,
            Pull::Down => 1,
            Pull::Up => 2,
        }
    }
}

/// The mode of the hardware PWM generator. It belongs to the generator, which
/// all hardware PWM pins share, and not to a pin.
#[derive(Clone, Copy, Debug, PartialEq, Eq)]
pub enum PwmMode {
    /// The traditional mode: the output is high for the duty cycle and low
    /// for the rest of the period.
    MarkSpace,
    /// The mode that the generator starts out in: the high time is spread
    /// evenly over the period.
    Balanced,
}

impl PwmMode {
    /// The code of the driver for the mode: 0 mark:space, 1 balanced.
    pub open spec fn spec_code(self) -> c_int {
        match self {
            PwmMode::MarkSpace => 0,
            PwmMode::Balanced => 1,
        }
    }

    /// The code of the driver for the mode: 0 mark:space, 1 balanced.
    #[verifier::when_used_as_spec(spec_code)]
    pub fn code(self) -> (code: c_int)
        ensures
            code == self.spec_code(),
    {
        match self {
            PwmMode::MarkSpace => 0,
            PwmMode::Balanced => 1,
        }
    }
}

/// A pin that is a digital input.
pub struct InputPin<P>(c_int, PhantomData<P>);

/// A pin that is a digital output.
pub struct OutputPin<P>(c_int, PhantomData<P>);

/// A pin that is driven by the hardware PWM generator.
///
/// A handle of this type exists only for a pin that is wired to the
/// generator under the scheme of the handle.
pub struct PwmPin<P: Pin>(c_int, PhantomData<P>);

/// A pin that is driven by the GPIO clock generator.
///
/// A handle of this type exists only for a pin that is wired to the clock
/// generator under the scheme of the handle.
pub struct ClockPin<P: Pin>(c_int, PhantomData<P>);

/// A pin with software controlled PWM output.
///
/// The hardware PWM generator serves one pin only; a software timer can
/// drive any pin, with less fidelity. The duty cycle runs from 0, a constant
/// low, to 100, a constant high, at a base frequency of 100 Hz.
///
/// The timer starts with the handle and runs until it is stopped, by
/// [`SoftPwmPin::pwm_stop`] or by the change into another mode. A stopped
/// handle can still change mode, but takes no more writes.
pub struct SoftPwmPin<P>(c_int, bool, PhantomData<P>);

impl<P> InputPin<P> {
    /// The number of the pin, under the scheme of the handle.
    pub closed spec fn pin(&self) -> c_int {
        self.0
    }
}

impl<P: Pin> View for InputPin<P> {
    type V = PinState;

    open spec fn view(&self) -> PinState {
        PinState { scheme: P::scheme(), pin: self.pin(), mode: Mode::Input, timer: false }
    }
}

impl<P> OutputPin<P> {
    /// The number of the pin, under the scheme of the handle.
    pub closed spec fn pin(&self) -> c_int {
        self.0
    }
}

impl<P: Pin> View for OutputPin<P> {
    type V = PinState;

    open spec fn view(&self) -> PinState {
        PinState { scheme: P::scheme(), pin: self.pin(), mode: Mode::Output, timer: false }
    }
}

impl<P: Pin> InputPin<P> {
    /// Makes `pin` an input.
    pub fn new(pin: c_int) -> (minted: (InputPin<P>, DriverCall))
        ensures
            minted.0@ == PinState::fresh(P::scheme(), pin, Mode::Input),
            minted.0@.admitted(),
            minted.1 == enter(pin, Mode::Input),
    {
        (InputPin(pin, PhantomData), DriverCall::SetPinMode { pin, mode: INPUT })
    }

    /// The number of the pin.
    pub fn number(&self) -> (number: c_int)
        ensures
            number == self@.pin,
    {
        self.0
    }

    /// Asks for the logic level at the pin. [`Value::from_level`] reads the
    /// answer.
    pub fn digital_read(&self) -> (call: DriverCall)
        ensures
            call == (DriverCall::DigitalRead { pin: self@.pin }),
            issues(self@, call),
    {
        DriverCall::DigitalRead { pin: self.0 }
    }

    /// Asks for a sample of the analog input behind the pin, which exists
    /// only where an analog module is registered with the driver.
    /// [`analog_sample`] reads the answer.
    pub fn analog_read(&self) -> (call: DriverCall)
        ensures
            call == (DriverCall::AnalogRead { pin: self@.pin }),
            issues(self@, call),
    {
        DriverCall::AnalogRead { pin: self.0 }
    }

    /// Turns the pin into an output.
    pub fn into_output(self) -> (next: (OutputPin<P>, DriverCall))
        ensures
            next.0@ == self@.switched(Mode::Output),
            next.0@.admitted(),
            next.1 == enter(self@.pin, Mode::Output),
    {
        OutputPin::new(self.0)
    }
}

impl<P: Pin + RequiresRoot> InputPin<P> {
    /// Sets the pull resistor of the pin.
    pub fn pull_up_dn_control(&self, pud: Pull) -> (call: DriverCall)
        ensures
            call == (DriverCall::SetPull { pin: self@.pin, mode: pud.code() }),
            issues(self@, call),
    {
        proof {
            P::scheme_is_privileged();
        }
        DriverCall::SetPull { pin: self.0, mode: pud.code() }
    }

    /// Starts a software PWM timer on the pin.
    pub fn into_soft_pwm(self) -> (next: (SoftPwmPin<P>, DriverCall))
        ensures
            next.0@ == self@.switched(Mode::SoftwarePwm),
            next.0@.admitted(),
            next.1 == enter(self@.pin, Mode::SoftwarePwm),
    {
        SoftPwmPin::new(self.0)
    }
}

impl<P: Pin + Pwm> InputPin<P> {
    /// Hands the pin to the hardware PWM generator.
    pub fn into_pwm(self) -> (next: (PwmPin<P>, DriverCall))
        requires
            admits(P::scheme(), self@.pin, Mode::HardwarePwm),
        ensures
            next.0@ == self@.switched(Mode::HardwarePwm),
            next.0@.admitted(),
            next.1 == enter(self@.pin, Mode::HardwarePwm),
    {
        PwmPin::mint(self.0)
    }
}

impl<P: Pin + GpioClock> InputPin<P> {
    /// Hands the pin to the GPIO clock generator.
    pub fn into_clock(self) -> (next: (ClockPin<P>, DriverCall))
        requires
            admits(P::scheme(), self@.pin, Mode::Clock),
        ensures
            next.0@ == self@.switched(Mode::Clock),
            next.0@.admitted(),
            next.1 == enter(self@.pin, Mode::Clock),
    {
        ClockPin::mint(self.0)
    }
}

impl<P: Pin> OutputPin<P> {
    /// Makes `pin` an output.
    pub fn new(pin: c_int) -> (minted: (OutputPin<P>, DriverCall))
        ensures
            minted.0@ == PinState::fresh(P::scheme(), pin, Mode::Output),
            minted.0@.admitted(),
            minted.1 == enter(pin, Mode::Output),
    {
        (OutputPin(pin, PhantomData), DriverCall::SetPinMode { pin, mode: OUTPUT })
    }

    /// The number of the pin.
    pub fn number(&self) -> (number: c_int)
        ensures
            number == self@.pin,
    {
        self.0
    }

    /// Drives the pin to `value`.
    pub fn digital_write(&self, value: Value) -> (call: DriverCall)
        ensures
            call == (DriverCall::DigitalWrite { pin: self@.pin, level: value.level() }),
            issues(self@, call),
    {
        DriverCall::DigitalWrite { pin: self.0, level: value.level() }
    }

    /// Writes `value` to the analog output behind the pin, which exists only
    /// where an analog module is registered with the driver.
    pub fn analog_write(&self, value: u16) -> (call: DriverCall)
        ensures
            call == (DriverCall::AnalogWrite { pin: self@.pin, value: value as c_int }),
            issues(self@, call),
    {
        DriverCall::AnalogWrite { pin: self.0, value: value as c_int }
    }

    /// Turns the pin into an input.
    pub fn into_input(self) -> (next: (InputPin<P>, DriverCall))
        ensures
            next.0@ == self@.switched(Mode::Input),
            next.0@.admitted(),
            next.1 == enter(self@.pin, Mode::Input),
    {
        InputPin::new(self.0)
    }
}

impl<P: Pin + RequiresRoot> OutputPin<P> {
    /// Starts a software PWM timer on the pin.
    pub fn into_soft_pwm(self) -> (next: (SoftPwmPin<P>, DriverCall))
        ensures
            next.0@ == self@.switched(Mode::SoftwarePwm),
            next.0@.admitted(),
            next.1 == enter(self@.pin, Mode::SoftwarePwm),
    {
        SoftPwmPin::new(self.0)
    }
}

impl<P: Pin + Pwm> OutputPin<P> {
    /// Hands the pin to the hardware PWM generator.
    pub fn into_pwm(self) -> (next: (PwmPin<P>, DriverCall))
        requires
            admits(P::scheme(), self@.pin, Mode::HardwarePwm),
        ensures
            next.0@ == self@.switched(Mode::HardwarePwm),
            next.0@.admitted(),
            next.1 == enter(self@.pin, Mode::HardwarePwm),
    {
        PwmPin::mint(self.0)
    }
}

impl<P: Pin + GpioClock> OutputPin<P> {
    /// Hands the pin to the GPIO clock generator.
    pub fn into_clock(self) -> (next: (ClockPin<P>, DriverCall))
        requires
            admits(P::scheme(), self@.pin, Mode::Clock),
        ensures
            next.0@ == self@.switched(Mode::Clock),
            next.0@.admitted(),
            next.1 == enter(self@.pin, Mode::Clock),
    {
        ClockPin::mint(self.0)
    }
}

impl<P: Pin> PwmPin<P> {
    /// The number of the pin, under the scheme of the handle.
    pub closed spec fn pin(&self) -> c_int {
        self.0
    }

    #[verifier::type_invariant]
    spec fn wired_to_generator(&self) -> bool {
        has_capability(P::scheme(), self.0 as int, Capability::HardwarePwm)
    }

    fn mint(pin: c_int) -> (minted: (PwmPin<P>, DriverCall))
        requires
            admits(P::scheme(), pin, Mode::HardwarePwm),
        ensures
            minted.0@ == PinState::fresh(P::scheme(), pin, Mode::HardwarePwm),
            minted.0@.admitted(),
            minted.1 == enter(pin, Mode::HardwarePwm),
    {
        (PwmPin(pin, PhantomData), DriverCall::SetPinMode { pin, mode: PWM_OUTPUT })
    }
}

impl<P: Pin> View for PwmPin<P> {
    type V = PinState;

    open spec fn view(&self) -> PinState {
        PinState { scheme: P::scheme(), pin: self.pin(), mode: Mode::HardwarePwm, timer: false }
    }
}

impl<P: Pin + Pwm> PwmPin<P> {
    /// Makes `pin` a hardware PWM output.
    pub fn new(pin: c_int) -> (minted: (PwmPin<P>, DriverCall))
        requires
            admits(P::scheme(), pin, Mode::HardwarePwm),
        ensures
            minted.0@ == PinState::fresh(P::scheme(), pin, Mode::HardwarePwm),
            minted.0@.admitted(),
            minted.1 == enter(pin, Mode::HardwarePwm),
    {
        PwmPin::mint(pin)
    }

    /// The number of the pin, which is one that is wired to the generator.
    pub fn number(&self) -> (number: c_int)
        ensures
            number == self@.pin,
            self@.admitted(),
    {
        proof {
            use_type_invariant(self);
        }
        self.0
    }

    /// Turns the pin into an input.
    pub fn into_input(self) -> (next: (InputPin<P>, DriverCall))
        ensures
            next.0@ == self@.switched(Mode::Input),
            next.0@.admitted(),
            next.1 == enter(self@.pin, Mode::Input),
    {
        InputPin::new(self.0)
    }

    /// Turns the pin into an output.
    pub fn into_output(self) -> (next: (OutputPin<P>, DriverCall))
        ensures
            next.0@ == self@.switched(Mode::Output),
            next.0@.admitted(),
            next.1 == enter(self@.pin, Mode::Output),
    {
        OutputPin::new(self.0)
    }

    /// Starts a software PWM timer on the pin.
    pub fn into_soft_pwm(self) -> (next: (SoftPwmPin<P>, DriverCall))
        ensures
            next.0@ == self@.switched(Mode::SoftwarePwm),
            next.0@.admitted(),
            next.1 == enter(self@.pin, Mode::SoftwarePwm),
    {
        SoftPwmPin::new(self.0)
    }

    /// Writes `value` to the PWM register of the pin. The generator takes
    /// duty cycles from 0 up to its range, which is 1024 unless
    /// [`PwmPin::set_range`] has changed it.
    pub fn write(&self, value: u16) -> (call: DriverCall)
        ensures
            call == (DriverCall::PwmWrite { pin: self@.pin, value: value as c_int }),
            issues(self@, call),
    {
        DriverCall::PwmWrite { pin: self.0, value: value as c_int }
    }

    /// Selects the mode of the PWM generator. The generator starts out
    /// balanced.
    ///
    /// The generator is shared: the call addresses no pin, and the setting
    /// holds for every hardware PWM pin, not for this one alone.
    pub fn set_mode(&self, mode: PwmMode) -> (call: DriverCall)
        ensures
            call == (DriverCall::PwmSetMode { mode: mode.code() }),
            call.target() is None,
            issues(self@, call),
    {
        DriverCall::PwmSetMode { mode: mode.code() }
    }

    /// Sets the range register of the PWM generator. The generator starts
    /// out with 1024.
    ///
    /// The generator is shared: the call addresses no pin, and the setting
    /// holds for every hardware PWM pin, not for this one alone.
    pub fn set_range(&self, value: u16) -> (call: DriverCall)
        ensures
            call == (DriverCall::PwmSetRange { upper: value as c_uint }),
            call.target() is None,
            issues(self@, call),
    {
        DriverCall::PwmSetRange { upper: value as c_uint }
    }

    /// Sets the divisor of the clock of the PWM generator.
    ///
    /// The generator is shared: the call addresses no pin, and the setting
    /// holds for every hardware PWM pin, not for this one alone.
    pub fn set_clock(&self, value: u16) -> (call: DriverCall)
        ensures
            call == (DriverCall::PwmSetClock { divisor: value as c_int }),
            call.target() is None,
            issues(self@, call),
    {
        DriverCall::PwmSetClock { divisor: value as c_int }
    }
}

impl<P: Pin> ClockPin<P> {
    /// The number of the pin, under the scheme of the handle.
    pub closed spec fn pin(&self) -> c_int {
        self.0
    }

    #[verifier::type_invariant]
    spec fn wired_to_clock(&self) -> bool {
        has_capability(P::scheme(), self.0 as int, Capability::GpioClock)
    }

    fn mint(pin: c_int) -> (minted: (ClockPin<P>, DriverCall))
        requires
            admits(P::scheme(), pin, Mode::Clock),
        ensures
            minted.0@ == PinState::fresh(P::scheme(), pin, Mode::Clock),
            minted.0@.admitted(),
            minted.1 == enter(pin, Mode::Clock),
    {
        (ClockPin(pin, PhantomData), DriverCall::SetPinMode { pin, mode: GPIO_CLOCK })
    }
}

impl<P: Pin> View for ClockPin<P> {
    type V = PinState;

    open spec fn view(&self) -> PinState {
        PinState { scheme: P::scheme(), pin: self.pin(), mode: Mode::Clock, timer: false }
    }
}

impl<P: Pin + GpioClock> ClockPin<P> {
    /// Makes `pin` a clock output.
    pub fn new(pin: c_int) -> (minted: (ClockPin<P>, DriverCall))
        requires
            admits(P::scheme(), pin, Mode::Clock),
        ensures
            minted.0@ == PinState::fresh(P::scheme(), pin, Mode::Clock),
            minted.0@.admitted(),
            minted.1 == enter(pin, Mode::Clock),
    {
        ClockPin::mint(pin)
    }

    /// The number of the pin, which is one that is wired to the clock
    /// generator.
    pub fn number(&self) -> (number: c_int)
        ensures
            number == self@.pin,
            self@.admitted(),
    {
        proof {
            use_type_invariant(self);
        }
        self.0
    }

    /// Turns the pin into an input.
    pub fn into_input(self) -> (next: (InputPin<P>, DriverCall))
        ensures
            next.0@ == self@.switched(Mode::Input),
            next.0@.admitted(),
            next.1 == enter(self@.pin, Mode::Input),
    {
        InputPin::new(self.0)
    }

    /// Turns the pin into an output.
    pub fn into_output(self) -> (next: (OutputPin<P>, DriverCall))
        ensures
            next.0@ == self@.switched(Mode::Output),
            next.0@.admitted(),
            next.1 == enter(self@.pin, Mode::Output),
    {
        OutputPin::new(self.0)
    }

    /// Starts a software PWM timer on the pin.
    pub fn into_soft_pwm(self) -> (next: (SoftPwmPin<P>, DriverCall))
        ensures
            next.0@ == self@.switched(Mode::SoftwarePwm),
            next.0@.admitted(),
            next.1 == enter(self@.pin, Mode::SoftwarePwm),
    {
        SoftPwmPin::new(self.0)
    }

    /// Sets the frequency of the clock behind the pin.
    pub fn frequency(&self, freq: u16) -> (call: DriverCall)
        ensures
            call == (DriverCall::GpioClockSet { pin: self@.pin, frequency: freq as c_int }),
            issues(self@, call),
    {
        DriverCall::GpioClockSet { pin: self.0, frequency: freq as c_int }
    }
}

impl<P> SoftPwmPin<P> {
    /// The number of the pin, under the scheme of the handle.
    pub closed spec fn pin(&self) -> c_int {
        self.0
    }

    /// Whether the timer that started with the handle is still running.
    pub closed spec fn running(&self) -> bool {
        self.1
    }
}

impl<P: Pin> View for SoftPwmPin<P> {
    type V = PinState;

    open spec fn view(&self) -> PinState {
        PinState { scheme: P::scheme(), pin: self.pin(), mode: Mode::SoftwarePwm, timer: self.running() }
    }
}

impl<P: Pin + RequiresRoot> SoftPwmPin<P> {
    /// Starts a software PWM timer on `pin`, with a duty cycle of 0.
    pub fn new(pin: c_int) -> (minted: (SoftPwmPin<P>, DriverCall))
        ensures
            minted.0@ == PinState::fresh(P::scheme(), pin, Mode::SoftwarePwm),
            minted.0@.admitted(),
            minted.1 == enter(pin, Mode::SoftwarePwm),
    {
        proof {
            P::scheme_is_privileged();
        }
        (
            SoftPwmPin(pin, true, PhantomData),
            DriverCall::SoftPwmCreate { pin, initial: 0, range: SOFT_PWM_RANGE },
        )
    }

    /// The number of the pin, which is under a privileged scheme.
    pub fn number(&self) -> (number: c_int)
        ensures
            number == self@.pin,
            self@.admitted(),
    {
        proof {
            P::scheme_is_privileged();
        }
        self.0
    }

    /// Whether the timer is still running, which is when the pin takes
    /// writes.
    pub fn is_running(&self) -> (running: bool)
        ensures
            running == self@.timer,
    {
        self.1
    }

    /// Sets the duty cycle, from 0 to 100, while the timer runs.
    pub fn pwm_write(&self, value: c_int) -> (call: DriverCall)
        requires
            self@.timer,
            0 <= value <= SOFT_PWM_RANGE,
        ensures
            call == (DriverCall::SoftPwmWrite { pin: self@.pin, value }),
            issues(self@, call),
    {
        DriverCall::SoftPwmWrite { pin: self.0, value }
    }

    /// Stops the timer, if it is still running. A pin that is to be under
    /// software PWM again afterwards has to change mode and come back.
    pub fn pwm_stop(&mut self) -> (calls: Vec<DriverCall>)
        ensures
            calls@ == release(old(self)@),
            final(self)@ == old(self)@.stopped(),
    {
        let mut calls = Vec::new();
        if self.1 {
            calls.push(DriverCall::SoftPwmStop { pin: self.0 });
            self.1 = false;
        }
        calls
    }

    /// Stops the timer, if it is still running, and turns the pin into an
    /// input.
    pub fn into_input(self) -> (next: (InputPin<P>, Vec<DriverCall>))
        ensures
            next.0@ == self@.switched(Mode::Input),
            next.0@.admitted(),
            next.1@ == switch(self@, Mode::Input),
    {
        let mut this = self;
        let mut calls = this.pwm_stop();
        let (pin, call) = InputPin::new(this.0);
        calls.push(call);
        (pin, calls)
    }

    /// Stops the timer, if it is still running, and turns the pin into an
    /// output.
    pub fn into_output(self) -> (next: (OutputPin<P>, Vec<DriverCall>))
        ensures
            next.0@ == self@.switched(Mode::Output),
            next.0@.admitted(),
            next.1@ == switch(self@, Mode::Output),
    {
        let mut this = self;
        let mut calls = this.pwm_stop();
        let (pin, call) = OutputPin::new(this.0);
        calls.push(call);
        (pin, calls)
    }
}

impl<P: Pin + Pwm> SoftPwmPin<P> {
    /// Stops the timer, if it is still running, and hands the pin to the
    /// hardware PWM generator.
    pub fn into_pwm(self) -> (next: (PwmPin<P>, Vec<DriverCall>))
        requires
            admits(P::scheme(), self@.pin, Mode::HardwarePwm),
        ensures
            next.0@ == self@.switched(Mode::HardwarePwm),
            next.0@.admitted(),
            next.1@ == switch(self@, Mode::HardwarePwm),
    {
        let mut this = self;
        let mut calls = this.pwm_stop();
        let (pin, call) = PwmPin::mint(this.0);
        calls.push(call);
        (pin, calls)
    }
}

impl<P: Pin + GpioClock> SoftPwmPin<P> {
    /// Stops the timer, if it is still running, and hands the pin to the
    /// GPIO clock generator.
    pub fn into_clock(self) -> (next: (ClockPin<P>, Vec<DriverCall>))
        requires
            admits(P::scheme(), self@.pin, Mode::Clock),
        ensures
            next.0@ == self@.switched(Mode::Clock),
            next.0@.admitted(),
            next.1@ == switch(self@, Mode::Clock),
    {
        let mut this = self;
        let mut calls = this.pwm_stop();
        let (pin, call) = ClockPin::mint(this.0);
        calls.push(call);
        (pin, calls)
    }
}

} // verus!
