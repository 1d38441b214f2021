//! Each handle: the calls of its mode, and its changes of mode.

use wiringpi::driver::DriverCall;
use wiringpi::pin::{
    ClockPin, Gpio, GpioClock, InputPin, OutputPin, Phys, Pull, Pwm, PwmMode, PwmPin, SoftPwmPin,
    Sys, Value, WiringPi,
};

#[test]
fn value_levels() {
    assert_eq!(Value::Low.level(), 0);
    assert_eq!(Value::High.level(), 1);
}

#[test]
fn value_from_level_takes_anything_but_zero_for_high() {
    assert_eq!(Value::from_level(0), Value::Low);
    assert_eq!(Value::from_level(1), Value::High);
    assert_eq!(Value::from_level(2), Value::High);
    assert_eq!(Value::from_level(-1), Value::High);
    assert_eq!(Value::from_level(i32::MIN), Value::High);
}

#[test]
fn pull_codes() {
    assert_eq!(Pull::Off.code(), 0);
    assert_eq!(Pull::Down.code(), 1);
    assert_eq!(Pull::Up.code(), 2);
}

#[test]
fn pwm_mode_codes() {
    assert_eq!(PwmMode::MarkSpace.code(), 0);
    assert_eq!(PwmMode::Balanced.code(), 1);
}

#[test]
fn input_pin_new_sets_input_mode() {
    let (pin, call) = InputPin::<Sys>::new(17);
    assert_eq!(pin.number(), 17);
    assert_eq!(call, DriverCall::SetPinMode { pin: 17, mode: 0 });
}

#[test]
fn input_pin_reads() {
    let (pin, _) = InputPin::<Gpio>::new(22);
    assert_eq!(pin.digital_read(), DriverCall::DigitalRead { pin: 22 });
    assert_eq!(pin.analog_read(), DriverCall::AnalogRead { pin: 22 });
}

#[test]
fn input_pin_pull_control() {
    let (pin, _) = InputPin::<Phys>::new(11);
    assert_eq!(pin.pull_up_dn_control(Pull::Off), DriverCall::SetPull { pin: 11, mode: 0 });
    assert_eq!(pin.pull_up_dn_control(Pull::Down), DriverCall::SetPull { pin: 11, mode: 1 });
    assert_eq!(pin.pull_up_dn_control(Pull::Up), DriverCall::SetPull { pin: 11, mode: 2 });
}

#[test]
fn input_pin_into_output() {
    let (pin, _) = InputPin::<Sys>::new(3);
    let (pin, call) = pin.into_output();
    assert_eq!(pin.number(), 3);
    assert_eq!(call, DriverCall::SetPinMode { pin: 3, mode: 1 });
}

#[test]
fn input_pin_into_soft_pwm() {
    let (pin, _) = InputPin::<WiringPi>::new(3);
    let (pin, call) = pin.into_soft_pwm();
    assert_eq!(pin.number(), 3);
    assert!(pin.is_running());
    assert_eq!(call, DriverCall::SoftPwmCreate { pin: 3, initial: 0, range: 100 });
}

#[test]
fn input_pin_into_pwm() {
    let (pin, _) = InputPin::<Gpio>::new(18);
    let (pin, call) = pin.into_pwm();
    assert_eq!(pin.number(), 18);
    assert_eq!(call, DriverCall::SetPinMode { pin: 18, mode: 2 });
}

#[test]
fn input_pin_into_clock() {
    let (pin, _) = InputPin::<Gpio>::new(4);
    let (pin, call) = pin.into_clock();
    assert_eq!(pin.number(), 4);
    assert_eq!(call, DriverCall::SetPinMode { pin: 4, mode: 3 });
}

#[test]
fn output_pin_new_sets_output_mode() {
    let (pin, call) = OutputPin::<Sys>::new(0);
    assert_eq!(pin.number(), 0);
    assert_eq!(call, DriverCall::SetPinMode { pin: 0, mode: 1 });
}

#[test]
fn output_pin_writes() {
    let (pin, _) = OutputPin::<WiringPi>::new(5);
    assert_eq!(pin.digital_write(Value::High), DriverCall::DigitalWrite { pin: 5, level: 1 });
    assert_eq!(pin.digital_write(Value::Low), DriverCall::DigitalWrite { pin: 5, level: 0 });
    assert_eq!(pin.analog_write(0), DriverCall::AnalogWrite { pin: 5, value: 0 });
    assert_eq!(pin.analog_write(65535), DriverCall::AnalogWrite { pin: 5, value: 65535 });
}

#[test]
fn output_pin_into_input() {
    let (pin, _) = OutputPin::<Sys>::new(9);
    let (pin, call) = pin.into_input();
    assert_eq!(pin.number(), 9);
    assert_eq!(call, DriverCall::SetPinMode { pin: 9, mode: 0 });
}

#[test]
fn output_pin_into_soft_pwm() {
    let (pin, _) = OutputPin::<Phys>::new(9);
    let (pin, call) = pin.into_soft_pwm();
    assert_eq!(pin.number(), 9);
    assert_eq!(call, DriverCall::SoftPwmCreate { pin: 9, initial: 0, range: 100 });
}

#[test]
fn output_pin_into_pwm() {
    let (pin, _) = OutputPin::<Phys>::new(12);
    let (pin, call) = pin.into_pwm();
    assert_eq!(pin.number(), 12);
    assert_eq!(call, DriverCall::SetPinMode { pin: 12, mode: 2 });
}

#[test]
fn output_pin_into_clock() {
    let (pin, _) = OutputPin::<Phys>::new(7);
    let (pin, call) = pin.into_clock();
    assert_eq!(pin.number(), 7);
    assert_eq!(call, DriverCall::SetPinMode { pin: 7, mode: 3 });
}

#[test]
fn pwm_pin_new_sets_pwm_mode() {
    let (pin, call) = PwmPin::<WiringPi>::new(1);
    assert_eq!(pin.number(), 1);
    assert_eq!(call, DriverCall::SetPinMode { pin: 1, mode: 2 });
}

#[test]
fn pwm_trait_mints_the_pin_of_the_scheme() {
    let (pin, call) = <WiringPi as Pwm>::pwm_pin();
    assert_eq!(pin.number(), 1);
    assert_eq!(call, DriverCall::SetPinMode { pin: 1, mode: 2 });
    let (pin, call) = <Gpio as Pwm>::pwm_pin();
    assert_eq!(pin.number(), 18);
    assert_eq!(call, DriverCall::SetPinMode { pin: 18, mode: 2 });
    let (pin, call) = <Phys as Pwm>::pwm_pin();
    assert_eq!(pin.number(), 12);
    assert_eq!(call, DriverCall::SetPinMode { pin: 12, mode: 2 });
}

#[test]
fn clock_trait_mints_the_pin_of_the_scheme() {
    let (pin, call) = <WiringPi as GpioClock>::clock_pin();
    assert_eq!(pin.number(), 7);
    assert_eq!(call, DriverCall::SetPinMode { pin: 7, mode: 3 });
    let (pin, call) = <Gpio as GpioClock>::clock_pin();
    assert_eq!(pin.number(), 4);
    assert_eq!(call, DriverCall::SetPinMode { pin: 4, mode: 3 });
    let (pin, call) = <Phys as GpioClock>::clock_pin();
    assert_eq!(pin.number(), 7);
    assert_eq!(call, DriverCall::SetPinMode { pin: 7, mode: 3 });
}

#[test]
fn pwm_pin_write_forwards_the_duty() {
    let (pin, _) = PwmPin::<Gpio>::new(18);
    assert_eq!(pin.write(0), DriverCall::PwmWrite { pin: 18, value: 0 });
    assert_eq!(pin.write(512), DriverCall::PwmWrite { pin: 18, value: 512 });
    assert_eq!(pin.write(1024), DriverCall::PwmWrite { pin: 18, value: 1024 });
    assert_eq!(pin.write(65535), DriverCall::PwmWrite { pin: 18, value: 65535 });
}

#[test]
fn pwm_pin_configures_the_generator() {
    let (pin, _) = PwmPin::<Gpio>::new(18);
    assert_eq!(pin.set_mode(PwmMode::MarkSpace), DriverCall::PwmSetMode { mode: 0 });
    assert_eq!(pin.set_mode(PwmMode::Balanced), DriverCall::PwmSetMode { mode: 1 });
    assert_eq!(pin.set_range(1024), DriverCall::PwmSetRange { upper: 1024 });
    assert_eq!(pin.set_range(65535), DriverCall::PwmSetRange { upper: 65535 });
    assert_eq!(pin.set_clock(192), DriverCall::PwmSetClock { divisor: 192 });
}

#[test]
fn pwm_pin_changes_of_mode() {
    let (pin, _) = PwmPin::<WiringPi>::new(1);
    let (pin, call) = pin.into_input();
    assert_eq!(pin.number(), 1);
    assert_eq!(call, DriverCall::SetPinMode { pin: 1, mode: 0 });

    let (pin, _) = PwmPin::<WiringPi>::new(1);
    let (pin, call) = pin.into_output();
    assert_eq!(pin.number(), 1);
    assert_eq!(call, DriverCall::SetPinMode { pin: 1, mode: 1 });

    let (pin, _) = PwmPin::<WiringPi>::new(1);
    let (pin, call) = pin.into_soft_pwm();
    assert_eq!(pin.number(), 1);
    assert_eq!(call, DriverCall::SoftPwmCreate { pin: 1, initial: 0, range: 100 });
}

#[test]
fn clock_pin_new_sets_clock_mode() {
    let (pin, call) = ClockPin::<Gpio>::new(4);
    assert_eq!(pin.number(), 4);
    assert_eq!(call, DriverCall::SetPinMode { pin: 4, mode: 3 });
}

#[test]
fn clock_pin_frequency() {
    let (pin, _) = ClockPin::<Gpio>::new(4);
    assert_eq!(pin.frequency(0), DriverCall::GpioClockSet { pin: 4, frequency: 0 });
    assert_eq!(pin.frequency(9600), DriverCall::GpioClockSet { pin: 4, frequency: 9600 });
    assert_eq!(pin.frequency(65535), DriverCall::GpioClockSet { pin: 4, frequency: 65535 });
}

#[test]
fn clock_pin_changes_of_mode() {
    let (pin, _) = ClockPin::<Phys>::new(7);
    let (pin, call) = pin.into_input();
    assert_eq!(pin.number(), 7);
    assert_eq!(call, DriverCall::SetPinMode { pin: 7, mode: 0 });

    let (pin, _) = ClockPin::<Phys>::new(7);
    let (pin, call) = pin.into_output();
    assert_eq!(pin.number(), 7);
    assert_eq!(call, DriverCall::SetPinMode { pin: 7, mode: 1 });

    let (pin, _) = ClockPin::<Phys>::new(7);
    let (pin, call) = pin.into_soft_pwm();
    assert_eq!(pin.number(), 7);
    assert_eq!(call, DriverCall::SoftPwmCreate { pin: 7, initial: 0, range: 100 });
}

#[test]
fn soft_pwm_pin_new_starts_a_timer() {
    let (pin, call) = SoftPwmPin::<Gpio>::new(23);
    assert_eq!(pin.number(), 23);
    assert!(pin.is_running());
    assert_eq!(call, DriverCall::SoftPwmCreate { pin: 23, initial: 0, range: 100 });
}

#[test]
fn soft_pwm_pin_write_at_both_ends_of_the_range() {
    let (pin, _) = SoftPwmPin::<Gpio>::new(23);
    assert_eq!(pin.pwm_write(0), DriverCall::SoftPwmWrite { pin: 23, value: 0 });
    assert_eq!(pin.pwm_write(100), DriverCall::SoftPwmWrite { pin: 23, value: 100 });
}

#[test]
fn soft_pwm_pin_stop_is_made_once() {
    let (mut pin, _) = SoftPwmPin::<Gpio>::new(23);
    assert_eq!(pin.pwm_stop(), vec![DriverCall::SoftPwmStop { pin: 23 }]);
    assert!(!pin.is_running());
    assert_eq!(pin.number(), 23);
    assert_eq!(pin.pwm_stop(), Vec::<DriverCall>::new());
    assert!(!pin.is_running());
}

#[test]
fn soft_pwm_pin_into_input() {
    let (pin, _) = SoftPwmPin::<Gpio>::new(23);
    let (pin, calls) = pin.into_input();
    assert_eq!(pin.number(), 23);
    assert_eq!(
        calls,
        vec![DriverCall::SoftPwmStop { pin: 23 }, DriverCall::SetPinMode { pin: 23, mode: 0 }]
    );
}

#[test]
fn soft_pwm_pin_into_input_after_stop() {
    let (mut pin, _) = SoftPwmPin::<Gpio>::new(23);
    pin.pwm_stop();
    let (pin, calls) = pin.into_input();
    assert_eq!(pin.number(), 23);
    assert_eq!(calls, vec![DriverCall::SetPinMode { pin: 23, mode: 0 }]);
}

#[test]
fn soft_pwm_pin_into_output() {
    let (pin, _) = SoftPwmPin::<WiringPi>::new(2);
    let (pin, calls) = pin.into_output();
    assert_eq!(pin.number(), 2);
    assert_eq!(
        calls,
        vec![DriverCall::SoftPwmStop { pin: 2 }, DriverCall::SetPinMode { pin: 2, mode: 1 }]
    );
}

#[test]
fn soft_pwm_pin_into_pwm() {
    let (pin, _) = SoftPwmPin::<WiringPi>::new(1);
    let (pin, calls) = pin.into_pwm();
    assert_eq!(pin.number(), 1);
    assert_eq!(
        calls,
        vec![DriverCall::SoftPwmStop { pin: 1 }, DriverCall::SetPinMode { pin: 1, mode: 2 }]
    );
}

#[test]
fn soft_pwm_pin_into_pwm_after_stop() {
    let (mut pin, _) = SoftPwmPin::<WiringPi>::new(1);
    pin.pwm_stop();
    let (pin, calls) = pin.into_pwm();
    assert_eq!(pin.number(), 1);
    assert_eq!(calls, vec![DriverCall::SetPinMode { pin: 1, mode: 2 }]);
}

#[test]
fn soft_pwm_pin_into_clock() {
    let (pin, _) = SoftPwmPin::<Phys>::new(7);
    let (pin, calls) = pin.into_clock();
    assert_eq!(pin.number(), 7);
    assert_eq!(
        calls,
        vec![DriverCall::SoftPwmStop { pin: 7 }, DriverCall::SetPinMode { pin: 7, mode: 3 }]
    );
}

#[test]
fn every_change_of_mode_ends_with_its_one_mode_set() {
    let (pin, _) = InputPin::<Gpio>::new(18);
    let (pin, first) = pin.into_output();
    let (pin, second) = pin.into_soft_pwm();
    let (pin, third) = pin.into_pwm();
    let (pin, fourth) = pin.into_input();
    assert_eq!(pin.number(), 18);
    let mut calls = vec![first, second];
    calls.extend(third);
    calls.push(fourth);
    assert_eq!(
        calls,
        vec![
            DriverCall::SetPinMode { pin: 18, mode: 1 },
            DriverCall::SoftPwmCreate { pin: 18, initial: 0, range: 100 },
            DriverCall::SoftPwmStop { pin: 18 },
            DriverCall::SetPinMode { pin: 18, mode: 2 },
            DriverCall::SetPinMode { pin: 18, mode: 0 },
        ]
    );
}
