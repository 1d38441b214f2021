//! What the pin protocol guarantees.
//!
//! Each proof function here states one property of the model in
//! [`crate::protocol`], for every pin, mode and board. The handles in
//! [`crate::pin`] are specified against that model, so each property holds
//! of every handle and of the calls that it gives out.
//!
//! Where a property speaks of a board that agrees with a handle, it rests on
//! what the handles themselves cannot see to: that the calls are made, in the
//! order in which they are given out, and that no second handle is minted for
//! a pin while the first is in use. The library keeps no registry of pins.

use crate::driver::{DriverCall, INPUT, OUTPUT};
use crate::protocol::{
    admits, agrees, enter, in_mode, issues, legal, legal_in_order, observe, release, replay,
    same_elsewhere, switch, Board, Mode, PinState,
};
use crate::scheme::Scheme;
use libc::c_int;
use vstd::prelude::*;

verus! {

/// Whether `call` is one of the calls that put a pin into a mode.
pub open spec fn sets_mode(call: DriverCall) -> bool {
    call is SetPinMode || call is SoftPwmCreate
}

/// Through sysfs a pin can be an input or an output and nothing else,
/// whichever pin it is.
pub proof fn lemma_sysfs_admits_digital_modes_only(pin: c_int, mode: Mode)
    ensures
        admits(Scheme::SysfsExported, pin, mode) <==> (mode == Mode::Input || mode
            == Mode::Output),
{
}

/// Replaying a sequence and then one more call is replaying the longer
/// sequence.
pub proof fn lemma_replay_push(board: Board, calls: Seq<DriverCall>, call: DriverCall)
    ensures
        replay(board, calls.push(call)) == observe(replay(board, calls), call),
        legal_in_order(board, calls.push(call)) == (legal_in_order(board, calls) && legal(
            replay(board, calls),
            call,
        )),
{
    assert(calls.push(call).drop_last() =~= calls);
}

/// Replaying no call leaves the board as it is, and replaying one call is
/// observing it.
pub proof fn lemma_replay_short(board: Board, call: DriverCall)
    ensures
        replay(board, Seq::empty()) == board,
        replay(board, seq![call]) == observe(board, call),
        legal_in_order(board, Seq::empty()),
        legal_in_order(board, seq![call]) == legal(board, call),
{
    reveal_with_fuel(replay, 2);
    reveal_with_fuel(legal_in_order, 2);
    assert(seq![call].drop_last() =~= Seq::<DriverCall>::empty());
}

/// Minting a handle: where the scheme of the board admits the pin in the
/// mode, and no timer is left running on the pin, the call that enters the
/// mode is legal, leaves the board in agreement with the fresh handle, and
/// changes nothing for any other pin.
pub proof fn lemma_enter_establishes(board: Board, pin: c_int, mode: Mode)
    requires
        admits(board.scheme, pin, mode),
        !board.timers.contains(pin),
    ensures
        legal(board, enter(pin, mode)),
        agrees(observe(board, enter(pin, mode)), PinState::fresh(board.scheme, pin, mode)),
        same_elsewhere(board, observe(board, enter(pin, mode)), pin),
{
}

/// A change of mode of a handle without a running timer is the one call that
/// enters the new mode.
pub proof fn lemma_switch_without_timer(state: PinState, to: Mode)
    requires
        !state.timer,
    ensures
        switch(state, to) == seq![enter(state.pin, to)],
{
    assert(switch(state, to) =~= seq![enter(state.pin, to)]);
}

/// Every change of mode makes exactly one call that sets a mode. That call
/// comes last, and it enters the new mode on the pin that the handle had.
pub proof fn lemma_switch_sets_one_mode(state: PinState, to: Mode)
    ensures
        switch(state, to).len() >= 1,
        switch(state, to).last() == enter(state.pin, to),
        sets_mode(switch(state, to).last()),
        switch(state, to).last().target() == Some(state.pin),
        forall|i: int|
            0 <= i < switch(state, to).len() - 1 ==> !sets_mode(#[trigger] switch(state, to)[i]),
{
}

/// A change of mode is never out of place: where the board agrees with the
/// handle before, and the scheme admits the pin in the new mode, each call
/// of the change is legal on the board that it arrives at, the board agrees
/// with the new handle afterwards, and no other pin is touched.
pub proof fn lemma_switch_is_legal(board: Board, state: PinState, to: Mode)
    requires
        agrees(board, state),
        admits(state.scheme, state.pin, to),
    ensures
        legal_in_order(board, switch(state, to)),
        agrees(replay(board, switch(state, to)), state.switched(to)),
        same_elsewhere(board, replay(board, switch(state, to)), state.pin),
{
    let last = enter(state.pin, to);
    lemma_replay_push(board, release(state), last);
    if state.timer {
        lemma_replay_short(board, DriverCall::SoftPwmStop { pin: state.pin });
    } else {
        lemma_replay_short(board, last);
    }
}

/// Mode safety: where the board agrees with a handle, every call that the
/// handle can issue is legal, and leaves the board as it was.
pub proof fn lemma_issue_is_legal(board: Board, state: PinState, call: DriverCall)
    requires
        agrees(board, state),
        issues(state, call),
    ensures
        legal(board, call),
        observe(board, call) == board,
{
}

/// Stopping the timer of a handle: where the board agrees with the handle,
/// the calls that release it are legal, the board then agrees with the
/// stopped handle, and no other pin is touched.
pub proof fn lemma_release_stops_timer(board: Board, state: PinState)
    requires
        agrees(board, state),
    ensures
        legal_in_order(board, release(state)),
        agrees(replay(board, release(state)), state.stopped()),
        same_elsewhere(board, replay(board, release(state)), state.pin),
{
    let stop = DriverCall::SoftPwmStop { pin: state.pin };
    lemma_replay_short(board, stop);
    if state.timer {
        assert(observe(board, stop).modes == board.modes);
    }
}

/// An input pin that is turned into an output and back: the handle that
/// comes back stands for the same pin as an input, the two changes make
/// exactly two calls, the mode-set to output and the mode-set to input on
/// that pin, and whatever the board was before, it has the pin as an input
/// afterwards.
pub proof fn lemma_round_trip(board: Board, scheme: Scheme, pin: c_int)
    ensures
        ({
            let input = PinState::fresh(scheme, pin, Mode::Input);
            let output = input.switched(Mode::Output);
            let calls = switch(input, Mode::Output) + switch(output, Mode::Input);
            &&& output.switched(Mode::Input) == input
            &&& calls == seq![
                DriverCall::SetPinMode { pin, mode: OUTPUT },
                DriverCall::SetPinMode { pin, mode: INPUT },
            ]
            &&& in_mode(replay(board, calls), pin, Mode::Input)
        }),
{
    let first = DriverCall::SetPinMode { pin, mode: OUTPUT };
    let second = DriverCall::SetPinMode { pin, mode: INPUT };
    let input = PinState::fresh(scheme, pin, Mode::Input);
    let calls = switch(input, Mode::Output) + switch(input.switched(Mode::Output), Mode::Input);
    assert(calls =~= seq![first].push(second));
    lemma_replay_push(board, seq![first], second);
}

/// Leaving software PWM: whether the timer is stopped beforehand or not, the
/// driver gets the stop of the timer first and the call that enters the new
/// mode second, and nothing else, and the handle that comes back is the
/// same.
pub proof fn lemma_soft_pwm_stops_before_leaving(scheme: Scheme, pin: c_int, to: Mode)
    ensures
        ({
            let running = PinState::fresh(scheme, pin, Mode::SoftwarePwm);
            let in_order = seq![DriverCall::SoftPwmStop { pin }, enter(pin, to)];
            &&& switch(running, to) == in_order
            &&& release(running) + switch(running.stopped(), to) == in_order
            &&& running.stopped().switched(to) == running.switched(to)
        }),
{
    let running = PinState::fresh(scheme, pin, Mode::SoftwarePwm);
    let in_order = seq![DriverCall::SoftPwmStop { pin }, enter(pin, to)];
    assert(switch(running, to) =~= in_order);
    assert(release(running) + switch(running.stopped(), to) =~= in_order);
}

/// The hardware PWM generator is shared. A call that a hardware PWM handle
/// issues and that is not the write of its own duty cycle addresses no pin,
/// and every other hardware PWM handle issues the very same call.
pub proof fn lemma_generator_is_shared(a: PinState, b: PinState, call: DriverCall)
    requires
        a.mode == Mode::HardwarePwm,
        b.mode == Mode::HardwarePwm,
        issues(a, call),
        !(call is PwmWrite),
    ensures
        call.target() is None,
        issues(b, call),
{
}

} // verus!
