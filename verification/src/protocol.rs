//! The pin protocol, as a mathematical model.
//!
//! A pin handle stands for one physical pin in one hardware mode. This module
//! says, without any executable code, which driver calls establish a mode,
//! which calls a change of mode takes, which calls a handle may issue while
//! it is in a mode, and what a board that receives those calls makes of them.
//! The handles in [`crate::pin`] are specified against it, and the proof
//! functions in [`crate::laws`] state what the protocol guarantees.

use crate::driver::{DriverCall, GPIO_CLOCK, INPUT, OUTPUT, PWM_OUTPUT, SOFT_PWM_RANGE};
use crate::scheme::{has_capability, is_privileged, Capability, Scheme};
use libc::c_int;
use vstd::prelude::*;

verus! {

/// The hardware modes that a pin handle can stand for.
#[derive(Clone, Copy, Debug, PartialEq, Eq)]
pub enum Mode {
    /// A digital input.
    Input,
    /// A digital output.
    Output,
    /// The output of the hardware PWM generator.
    HardwarePwm,
    /// An output that a software timer drives.
    SoftwarePwm,
    /// The output of the GPIO clock generator.
    Clock,
}

/// Whether `scheme` admits `pin` in `mode`: any pin can be an input or an
/// output, hardware PWM and the clock need a pin that is wired for them, and
/// software PWM needs a privileged scheme.
pub open spec fn admits(scheme: Scheme, pin: c_int, mode: Mode) -> bool {
    match mode {
        Mode::Input => true,
        Mode::Output => true,
        Mode::HardwarePwm => has_capability(scheme, pin as int, Capability::HardwarePwm),
        Mode::Clock => has_capability(scheme, pin as int, Capability::GpioClock),
        Mode::SoftwarePwm => is_privileged(scheme),
    }
}

/// What a pin handle stands for: a pin under a numbering scheme, the mode it
/// was put into, and whether a software PWM timer started through the handle
/// is still running.
pub struct PinState {
    pub scheme: Scheme,
    pub pin: c_int,
    pub mode: Mode,
    pub timer: bool,
}

impl PinState {
    /// The state of a handle that has just been put into `mode`.
    pub open spec fn fresh(scheme: Scheme, pin: c_int, mode: Mode) -> PinState {
        PinState { scheme, pin, mode, timer: mode == Mode::SoftwarePwm }
    }

    /// The state of the handle that a change into the mode `to` gives back:
    /// fresh in the new mode, on the same pin under the same scheme.
    pub open spec fn switched(self, to: Mode) -> PinState {
        PinState::fresh(self.scheme, self.pin, to)
    }

    /// The same handle once its software PWM timer has been stopped.
    pub open spec fn stopped(self) -> PinState {
        PinState { timer: false, ..self }
    }

    /// Whether the scheme of the handle admits its pin in its mode.
    pub open spec fn admitted(self) -> bool {
        admits(self.scheme, self.pin, self.mode)
    }
}

/// The one call that puts `pin` into `mode`.
pub open spec fn enter(pin: c_int, mode: Mode) -> DriverCall {
    match mode {
        Mode::Input => DriverCall::SetPinMode { pin, mode: INPUT },
        Mode::Output => DriverCall::SetPinMode { pin, mode: OUTPUT },
        Mode::HardwarePwm => DriverCall::SetPinMode { pin, mode: PWM_OUTPUT },
        Mode::Clock => DriverCall::SetPinMode { pin, mode: GPIO_CLOCK },
        Mode::SoftwarePwm => DriverCall::SoftPwmCreate { pin, initial: 0, range: SOFT_PWM_RANGE },
    }
}

/// The calls that release what a handle holds besides the pin's mode: the
/// stop of its software PWM timer, if one is running.
pub open spec fn release(state: PinState) -> Seq<DriverCall> {
    if state.timer {
        seq![DriverCall::SoftPwmStop { pin: state.pin }]
    } else {
        Seq::empty()
    }
}

/// The calls that take a handle from `state` into the mode `to`, in order:
/// whatever releases the old state, then the call that enters the new mode.
pub open spec fn switch(state: PinState, to: Mode) -> Seq<DriverCall> {
    release(state).push(enter(state.pin, to))
}

/// Whether `call` is one that a handle in `state` can issue without leaving
/// its mode.
pub open spec fn issues(state: PinState, call: DriverCall) -> bool {
    match state.mode {
        Mode::Input => match call {
            DriverCall::DigitalRead { pin } => pin == state.pin,
            DriverCall::AnalogRead { pin } => pin == state.pin,
            DriverCall::SetPull { pin, .. } => pin == state.pin && is_privileged(state.scheme),
            _ => false,
        },
        Mode::Output => match call {
            DriverCall::DigitalWrite { pin, .. } => pin == state.pin,
            DriverCall::AnalogWrite { pin, .. } => pin == state.pin,
            _ => false,
        },
        Mode::HardwarePwm => match call {
            DriverCall::PwmWrite { pin, .. } => pin == state.pin,
            DriverCall::PwmSetMode { .. } => true,
            DriverCall::PwmSetRange { .. } => true,
            DriverCall::PwmSetClock { .. } => true,
            _ => false,
        },
        Mode::SoftwarePwm => match call {
            DriverCall::SoftPwmWrite { pin, .. } => pin == state.pin && state.timer,
            _ => false,
        },
        Mode::Clock => match call {
            DriverCall::GpioClockSet { pin, .. } => pin == state.pin,
            _ => false,
        },
    }
}

/// A board as the driver has it: the numbering scheme that the driver was set
/// up for, the mode that each pin was last put into, and the pins on which a
/// software PWM timer runs.
pub struct Board {
    pub scheme: Scheme,
    pub modes: Map<c_int, Mode>,
    pub timers: Set<c_int>,
}

/// The mode that a mode code of the driver selects, if it is one of the four
/// that this library uses.
pub open spec fn mode_of_code(code: c_int) -> Option<Mode> {
    if code == INPUT {
        Some(Mode::Input)
    } else if code == OUTPUT {
        Some(Mode::Output)
    } else if code == PWM_OUTPUT {
        Some(Mode::HardwarePwm)
    } else if code == GPIO_CLOCK {
        Some(Mode::Clock)
    } else {
        None
    }
}

/// The board after one call. Only the calls that set a mode or start or stop
/// a timer change the board.
pub open spec fn observe(board: Board, call: DriverCall) -> Board {
    match call {
        DriverCall::SetPinMode { pin, mode } => match mode_of_code(mode) {
            Some(m) => Board { modes: board.modes.insert(pin, m), ..board },
            None => board,
        },
        DriverCall::SoftPwmCreate { pin, .. } => Board {
            modes: board.modes.insert(pin, Mode::SoftwarePwm),
            timers: board.timers.insert(pin),
            ..board
        },
        DriverCall::SoftPwmStop { pin } => Board { timers: board.timers.remove(pin), ..board },
        _ => board,
    }
}

/// The board after a sequence of calls, first to last.
pub open spec fn replay(board: Board, calls: Seq<DriverCall>) -> Board
    decreases calls.len(),
{
    if calls.len() == 0 {
        board
    } else {
        observe(replay(board, calls.drop_last()), calls.last())
    }
}

/// Whether the board has `pin` in `mode`.
pub open spec fn in_mode(board: Board, pin: c_int, mode: Mode) -> bool {
    board.modes.contains_key(pin) && board.modes[pin] == mode
}

/// Whether the board is numbered by the scheme of the handle and has the pin
/// of `state` in the mode, and with the timer, that the handle stands for.
pub open spec fn agrees(board: Board, state: PinState) -> bool {
    &&& board.scheme == state.scheme
    &&& in_mode(board, state.pin, state.mode)
    &&& board.timers.contains(state.pin) == state.timer
}

/// Whether `call` is legal on the board as it is. The driver itself takes
/// any call for any pin; a call is legal where it does what it is meant to
/// do:
/// - a change of mode names a mode that the scheme of the board admits on
///   the pin, and finds no timer left running there;
/// - a read, write or configuration of a pin finds the pin in the matching
///   mode, and the control of a pull resistor finds a privileged scheme;
/// - a stop finds a timer to stop.
pub open spec fn legal(board: Board, call: DriverCall) -> bool {
    match call {
        DriverCall::SetPinMode { pin, mode } => {
            &&& !board.timers.contains(pin)
            &&& mode_of_code(mode) matches Some(m)
            &&& admits(board.scheme, pin, m)
        },
        DriverCall::SoftPwmCreate { pin, .. } => {
            &&& !board.timers.contains(pin)
            &&& admits(board.scheme, pin, Mode::SoftwarePwm)
        },
        DriverCall::SoftPwmStop { pin } => board.timers.contains(pin),
        DriverCall::SoftPwmWrite { pin, .. } => board.timers.contains(pin),
        DriverCall::DigitalRead { pin } => in_mode(board, pin, Mode::Input),
        DriverCall::AnalogRead { pin } => in_mode(board, pin, Mode::Input),
        DriverCall::SetPull { pin, .. } => {
            &&& in_mode(board, pin, Mode::Input)
            &&& is_privileged(board.scheme)
        },
        DriverCall::DigitalWrite { pin, .. } => in_mode(board, pin, Mode::Output),
        DriverCall::AnalogWrite { pin, .. } => in_mode(board, pin, Mode::Output),
        DriverCall::PwmWrite { pin, .. } => in_mode(board, pin, Mode::HardwarePwm),
        DriverCall::GpioClockSet { pin, .. } => in_mode(board, pin, Mode::Clock),
        _ => true,
    }
}

/// Whether every call of a sequence, made in order from `board` on, is legal
/// on the board that it arrives at.
pub open spec fn legal_in_order(board: Board, calls: Seq<DriverCall>) -> bool
    decreases calls.len(),
{
    calls.len() == 0 || {
        &&& legal_in_order(board, calls.drop_last())
        &&& legal(replay(board, calls.drop_last()), calls.last())
    }
}

/// Whether two boards are the same for every pin but `pin`.
pub open spec fn same_elsewhere(before: Board, after: Board, pin: c_int) -> bool {
    &&& after.scheme == before.scheme
    &&& forall|other: c_int|
        other != pin ==> {
            &&& #[trigger] after.modes.contains_key(other) == before.modes.contains_key(other)
            &&& after.modes[other] == before.modes[other]
            &&& after.timers.contains(other) == before.timers.contains(other)
        }
}

} // verus!
