//! Numbering schemes and the capability table.
//!
//! The same integer names different physical pins under different numbering
//! schemes, and only a few pins of each scheme are wired to the hardware PWM
//! generator or to the GPIO clock generator. The table in this module is the
//! single place where those facts are written down.

use libc::c_int;
use vstd::prelude::*;

verus! {

/// A convention that maps an integer to a physical pin.
#[derive(Clone, Copy, Debug, PartialEq, Eq)]
pub enum Scheme {
    /// The simplified numbering of the driver, pins 0 through 16.
    Logical,
    /// The numbering of the Broadcom chip itself.
    BroadcomGpio,
    /// The position of the pin on the main connector of the board.
    PhysicalConnector,
    /// Broadcom numbering, restricted to the pins exported through sysfs.
    SysfsExported,
}

/// A special hardware feature that only some pins have.
#[derive(Clone, Copy, Debug, PartialEq, Eq)]
pub enum Capability {
    /// The pin is wired to the hardware PWM generator.
    HardwarePwm,
    /// The pin is wired to the GPIO clock generator.
    GpioClock,
}

/// The capability table: whether `pin`, numbered under `scheme`, has
/// `capability`.
pub open spec fn has_capability(scheme: Scheme, pin: int, capability: Capability) -> bool {
    match (scheme, capability) {
        (Scheme::Logical, Capability::HardwarePwm) => pin == 1,
        (Scheme::Logical, Capability::GpioClock) => pin == 7,
        (Scheme::BroadcomGpio, Capability::HardwarePwm) => pin == 18,
        (Scheme::BroadcomGpio, Capability::GpioClock) => pin == 4,
        (Scheme::PhysicalConnector, Capability::HardwarePwm) => pin == 12,
        (Scheme::PhysicalConnector, Capability::GpioClock) => pin == 7,
        (Scheme::SysfsExported, _) => false,
    }
}

/// Whether pins of `scheme` are driven through direct register access, which
/// needs elevated privileges and is what software PWM and pull resistor
/// control rely on.
pub open spec fn is_privileged(scheme: Scheme) -> bool {
    scheme != Scheme::SysfsExported
}

impl Scheme {
    /// Looks `pin` up in the capability table.
    pub fn supports(self, pin: c_int, capability: Capability) -> (found: bool)
        ensures
            found == has_capability(self, pin as int, capability),
    {
        match self {
            Scheme::Logical => match capability {
                Capability::HardwarePwm => pin == 1,
                Capability::GpioClock => pin == 7,
            },
            Scheme::BroadcomGpio => match capability {
                Capability::HardwarePwm => pin == 18,
                Capability::GpioClock => pin == 4,
            },
            Scheme::PhysicalConnector => match capability {
                Capability::HardwarePwm => pin == 12,
                Capability::GpioClock => pin == 7,
            },
            Scheme::SysfsExported => false,
        }
    }

    /// Whether the scheme works through direct register access and therefore
    /// needs elevated privileges.
    pub fn requires_root(self) -> (privileged: bool)
        ensures
            privileged == is_privileged(self),
    {
        match self {
            Scheme::SysfsExported => false,
            _ => true,
        }
    }
}

/// Under every scheme at most one pin has a given capability, so that to say
/// of a pin that it has the capability is to say which pin it is.
pub proof fn lemma_capability_names_one_pin(
    scheme: Scheme,
    capability: Capability,
    pin: int,
    other: int,
)
    requires
        has_capability(scheme, pin, capability),
        has_capability(scheme, other, capability),
    ensures
        pin == other,
{
}

} // verus!
