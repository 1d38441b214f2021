//! The capability table.

use wiringpi::driver::DriverCall;
use wiringpi::scheme::{Capability, Scheme};
use wiringpi::pin::{Gpio, Phys, WiringPi as Logical};
use wiringpi::{setup, setup_gpio, setup_phys, SetupGuard, WiringPi};

fn logical() -> WiringPi<Logical> {
    let mut guard = SetupGuard::new();
    guard.begin(Scheme::Logical).unwrap();
    setup(&mut guard, 0).ok().unwrap()
}

fn broadcom() -> WiringPi<Gpio> {
    let mut guard = SetupGuard::new();
    guard.begin(Scheme::BroadcomGpio).unwrap();
    setup_gpio(&mut guard, 0).ok().unwrap()
}

fn physical() -> WiringPi<Phys> {
    let mut guard = SetupGuard::new();
    guard.begin(Scheme::PhysicalConnector).unwrap();
    setup_phys(&mut guard, 0).ok().unwrap()
}

fn pins_with(scheme: Scheme, capability: Capability) -> Vec<i32> {
    (-5..200).filter(|pin| scheme.supports(*pin, capability)).collect()
}

#[test]
fn logical_scheme_has_pwm_on_pin_1_and_the_clock_on_pin_7() {
    assert_eq!(pins_with(Scheme::Logical, Capability::HardwarePwm), vec![1]);
    assert_eq!(pins_with(Scheme::Logical, Capability::GpioClock), vec![7]);
}

#[test]
fn broadcom_scheme_has_pwm_on_pin_18_and_the_clock_on_pin_4() {
    assert_eq!(pins_with(Scheme::BroadcomGpio, Capability::HardwarePwm), vec![18]);
    assert_eq!(pins_with(Scheme::BroadcomGpio, Capability::GpioClock), vec![4]);
}

#[test]
fn physical_scheme_has_pwm_on_pin_12_and_the_clock_on_pin_7() {
    assert_eq!(pins_with(Scheme::PhysicalConnector, Capability::HardwarePwm), vec![12]);
    assert_eq!(pins_with(Scheme::PhysicalConnector, Capability::GpioClock), vec![7]);
}

#[test]
fn sysfs_scheme_has_no_capability() {
    assert_eq!(pins_with(Scheme::SysfsExported, Capability::HardwarePwm), Vec::<i32>::new());
    assert_eq!(pins_with(Scheme::SysfsExported, Capability::GpioClock), Vec::<i32>::new());
}

#[test]
fn table_has_no_entry_at_the_ends_of_the_range() {
    assert!(!Scheme::Logical.supports(i32::MAX, Capability::HardwarePwm));
    assert!(!Scheme::Logical.supports(i32::MIN, Capability::GpioClock));
    assert!(!Scheme::BroadcomGpio.supports(-18, Capability::HardwarePwm));
}

#[test]
fn every_scheme_but_sysfs_requires_root() {
    assert!(Scheme::Logical.requires_root());
    assert!(Scheme::BroadcomGpio.requires_root());
    assert!(Scheme::PhysicalConnector.requires_root());
    assert!(!Scheme::SysfsExported.requires_root());
}

#[test]
fn pwm_pin_is_the_pin_of_the_table() {
    let (logical, call) = logical().pwm_pin();
    assert_eq!(logical.number(), 1);
    assert_eq!(call, DriverCall::SetPinMode { pin: 1, mode: 2 });
    let (broadcom, call) = broadcom().pwm_pin();
    assert_eq!(broadcom.number(), 18);
    assert_eq!(call, DriverCall::SetPinMode { pin: 18, mode: 2 });
    let (physical, call) = physical().pwm_pin();
    assert_eq!(physical.number(), 12);
    assert_eq!(call, DriverCall::SetPinMode { pin: 12, mode: 2 });
}

#[test]
fn clock_pin_is_the_pin_of_the_table() {
    let (logical, call) = logical().clock_pin();
    assert_eq!(logical.number(), 7);
    assert_eq!(call, DriverCall::SetPinMode { pin: 7, mode: 3 });
    let (broadcom, call) = broadcom().clock_pin();
    assert_eq!(broadcom.number(), 4);
    assert_eq!(call, DriverCall::SetPinMode { pin: 4, mode: 3 });
    let (physical, call) = physical().clock_pin();
    assert_eq!(physical.number(), 7);
    assert_eq!(call, DriverCall::SetPinMode { pin: 7, mode: 3 });
}
