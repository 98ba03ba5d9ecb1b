//! Power supplies as the kernel describes them in text.

use crate::files::{same_text, trim, trimmed};
use std::str::FromStr;
use vstd::prelude::*;

verus! {

/// The kind of a power supply.
#[derive(Debug, Clone, Copy, PartialEq, Eq, Structural)]
pub enum PowerSupplyType {
    Unknown,
    Battery,
    UPS,
    Mains,
    USB,
    UsbDcp,
    UsbCdp,
    UsbAca,
    UsbC,
    UsbPd,
    UsbPdDrp,
    BrickID,
    Wireless,
}

/// What a battery is doing.
#[derive(Debug, Clone, Copy, PartialEq, Eq, Structural)]
pub enum PowerSupplyStatus {
    Unknown,
    Charging,
    Discharging,
    NotCharging,
    Full,
}

/// A power supply that the bar shows.
#[derive(Debug, Clone, Copy, PartialEq, Eq, Structural)]
pub enum PowerSupply {
    Battery { status: PowerSupplyStatus, capacity: usize },
    Mains { online: bool },
}

/// The power supplies, as sent to the bar's state.
#[derive(Debug)]
pub enum BatteryMessage {
    UpdatePowerSupplies(Vec<PowerSupply>),
}

impl PowerSupplyType {
    /// The kind that the kernel writes as `s`; `Unknown` for any other text.
    pub open spec fn named(s: Seq<char>) -> PowerSupplyType {
        if s == "Battery"@ {
            PowerSupplyType::Battery
        } else if s == "UPS"@ {
            PowerSupplyType::UPS
        } else if s == "Mains"@ {
            PowerSupplyType::Mains
        } else if s == "USB"@ {
            PowerSupplyType::USB
        } else if s == "USB_DCP"@ {
            PowerSupplyType::UsbDcp
        } else if s == "USB_CDP"@ {
            PowerSupplyType::UsbCdp
        } else if s == "USB_ACA"@ {
            PowerSupplyType::UsbAca
        } else if s == "USB_C"@ {
            PowerSupplyType::UsbC
        } else if s == "USB_PD"@ {
            PowerSupplyType::UsbPd
        } else if s == "USB_PD_DRP"@ {
            PowerSupplyType::UsbPdDrp
        } else if s == "BrickID"@ {
            PowerSupplyType::BrickID
        } else if s == "Wireless"@ {
            PowerSupplyType::Wireless
        } else {
            PowerSupplyType::Unknown
        }
    }

    /// The kind that the kernel writes as `s`; `Unknown` for any other text.
    pub fn from_name(s: &str) -> (r: PowerSupplyType)
        ensures
            r == PowerSupplyType::named(s@),
    {
        if same_text(s, "Battery") {
            PowerSupplyType::Battery
        } else if same_text(s, "UPS") {
            PowerSupplyType::UPS
        } else if same_text(s, "Mains") {
            PowerSupplyType::Mains
        } else if same_text(s, "USB") {
            PowerSupplyType::USB
        } else if same_text(s, "USB_DCP") {
            PowerSupplyType::UsbDcp
        } else if same_text(s, "USB_CDP") {
            PowerSupplyType::UsbCdp
        } else if same_text(s, "USB_ACA") {
            PowerSupplyType::UsbAca
        } else if same_text(s, "USB_C") {
            PowerSupplyType::UsbC
        } else if same_text(s, "USB_PD") {
            PowerSupplyType::UsbPd
        } else if same_text(s, "USB_PD_DRP") {
            PowerSupplyType::UsbPdDrp
        } else if same_text(s, "BrickID") {
            PowerSupplyType::BrickID
        } else if same_text(s, "Wireless") {
            PowerSupplyType::Wireless
        } else {
            PowerSupplyType::Unknown
        }
    }
}

impl FromStr for PowerSupplyType {
    type Err = ();

    /// The kind that the kernel writes as `s`; no text is refused.
    fn from_str(s: &str) -> (r: Result<Self, ()>)
        ensures
            r == Ok::<PowerSupplyType, ()>(PowerSupplyType::named(s@)),
    {
        Ok(PowerSupplyType::from_name(s))
    }
}

impl PowerSupplyStatus {
    /// The status that the kernel writes as `s`; `Unknown` for any other
    /// text.
    pub open spec fn named(s: Seq<char>) -> PowerSupplyStatus {
        if s == "Charging"@ {
            PowerSupplyStatus::Charging
        } else if s == "Discharging"@ {
            PowerSupplyStatus::Discharging
        } else if s == "Not charging"@ {
            PowerSupplyStatus::NotCharging
        } else if s == "Full"@ {
            PowerSupplyStatus::Full
        } else {
            PowerSupplyStatus::Unknown
        }
    }

    /// The status that the kernel writes as `s`; `Unknown` for any other
    /// text.
    pub fn from_name(s: &str) -> (r: PowerSupplyStatus)
        ensures
            r == PowerSupplyStatus::named(s@),
    {
        if same_text(s, "Charging") {
            PowerSupplyStatus::Charging
        } else if same_text(s, "Discharging") {
            PowerSupplyStatus::Discharging
        } else if same_text(s, "Not charging") {
            PowerSupplyStatus::NotCharging
        } else if same_text(s, "Full") {
            PowerSupplyStatus::Full
        } else {
            PowerSupplyStatus::Unknown
        }
    }
}

impl FromStr for PowerSupplyStatus {
    type Err = ();

    /// The status that the kernel writes as `s`; no text is refused.
    fn from_str(s: &str) -> (r: Result<Self, ()>)
        ensures
            r == Ok::<PowerSupplyStatus, ()>(PowerSupplyStatus::named(s@)),
    {
        Ok(PowerSupplyStatus::from_name(s))
    }
}

impl PowerSupply {
    /// The battery whose file `status` holds `status`, white space around
    /// it left out, and whose file `capacity` holds `capacity`.
    pub fn battery(status: &str, capacity: usize) -> (r: PowerSupply)
        ensures
            r == (PowerSupply::Battery {
                status: PowerSupplyStatus::named(trimmed(status@)),
                capacity,
            }),
    {
        PowerSupply::Battery { status: PowerSupplyStatus::from_name(trim(status)), capacity }
    }

    /// The mains supply whose file `online` holds `online`: it is online
    /// where that count is over zero.
    pub fn mains(online: usize) -> (r: PowerSupply)
        ensures
            r == (PowerSupply::Mains { online: online > 0 }),
    {
        PowerSupply::Mains { online: online > 0 }
    }
}

/// The kind of the supply whose file `type` holds `text`, white space around
/// it left out.
pub fn supply_type(text: &str) -> (r: PowerSupplyType)
    ensures
        r == PowerSupplyType::named(trimmed(text@)),
{
    PowerSupplyType::from_name(trim(text))
}

} // verus!
