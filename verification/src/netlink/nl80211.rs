//! Wireless interfaces as the kernel's nl80211 family reports them.

use crate::netlink::MacAddr;
use vstd::prelude::*;

verus! {

/// The transmit queue counters of a wireless interface.
#[derive(Debug, Clone)]
pub struct Nl80211TxqStats {
    pub backlog_bytes: u32,
    pub backlog_packets: u32,
    pub flows: u32,
    pub drops: u32,
    pub ecn_marks: u32,
    pub overlimit: u32,
    pub overmemory: u32,
    pub collisions: u32,
    pub tx_bytes: u32,
    pub tx_packets: u32,
    pub max_flows: u32,
}

/// One wireless interface.
#[derive(Debug, Clone)]
pub struct Nl80211Interface {
    pub if_name: String,
    pub if_type: Nl80211IfType,
    pub if_index: u32,
    pub wiphy: u32,
    pub wdev: u64,
    pub mac: MacAddr,
    pub generation: u32,
    pub txq_stats: Nl80211TxqStats,
    pub addr4: u8,
    pub vif_radio_mask: u32,
    pub wiphy_tx_power_level: Option<u32>,
    pub ssid: Option<String>,
}

/// A command of the nl80211 family.
#[derive(Debug, Clone, Copy, PartialEq, Eq, Structural)]
pub enum Nl80211Command {
    Unspecified,
    GetWiPhy,
    GetInterface,
    /// A constant that has no variant of its own.
    UnrecognizedConst(u8),
}

impl Nl80211Command {
    /// The variant that stands for the constant `code`.
    pub open spec fn of(code: u8) -> Nl80211Command {
        if code == 0 {
            Nl80211Command::Unspecified
        } else if code == 1 {
            Nl80211Command::GetWiPhy
        } else if code == 5 {
            Nl80211Command::GetInterface
        } else {
            Nl80211Command::UnrecognizedConst(code)
        }
    }

    /// The constant that the variant stands for.
    pub open spec fn code(self) -> u8 {
        match self {
            Nl80211Command::Unspecified => 0,
            Nl80211Command::GetWiPhy => 1,
            Nl80211Command::GetInterface => 5,
            Nl80211Command::UnrecognizedConst(code) => code,
        }
    }

    /// Whether the value is a constant without a variant of its own.
    pub fn is_unrecognized(&self) -> (r: bool)
        ensures
            r == (*self is UnrecognizedConst),
    {
        match *self {
            Nl80211Command::UnrecognizedConst(_) => true,
            _ => false,
        }
    }

    /// Every constant comes back from its variant.
    pub proof fn law_code_round_trip(code: u8)
        ensures
            Nl80211Command::of(code).code() == code,
    {
    }

    /// Every variant comes back from its constant, but a constant kept
    /// as unrecognized that has a variant of its own.
    pub proof fn law_variant_round_trip(v: Nl80211Command)
        requires
            v matches Nl80211Command::UnrecognizedConst(code) ==> Nl80211Command::of(code) is UnrecognizedConst,
        ensures
            Nl80211Command::of(v.code()) == v,
    {
    }
}

impl From<u8> for Nl80211Command {
    fn from(cnst: u8) -> (r: Nl80211Command) {
        if cnst == 0 {
            Nl80211Command::Unspecified
        } else if cnst == 1 {
            Nl80211Command::GetWiPhy
        } else if cnst == 5 {
            Nl80211Command::GetInterface
        } else {
            Nl80211Command::UnrecognizedConst(cnst)
        }
    }
}

impl vstd::std_specs::convert::FromSpecImpl<u8> for Nl80211Command {
    open spec fn obeys_from_spec() -> bool {
        true
    }

    open spec fn from_spec(cnst: u8) -> Nl80211Command {
        Nl80211Command::of(cnst)
    }
}

impl From<Nl80211Command> for u8 {
    fn from(enm: Nl80211Command) -> (r: u8) {
        match enm {
            Nl80211Command::Unspecified => 0,
            Nl80211Command::GetWiPhy => 1,
            Nl80211Command::GetInterface => 5,
            Nl80211Command::UnrecognizedConst(i) => i,
        }
    }
}

impl vstd::std_specs::convert::FromSpecImpl<Nl80211Command> for u8 {
    open spec fn obeys_from_spec() -> bool {
        true
    }

    open spec fn from_spec(enm: Nl80211Command) -> u8 {
        enm.code()
    }
}

/// The role of a wireless interface.
#[derive(Debug, Clone, Copy, PartialEq, Eq, Structural)]
pub enum Nl80211IfType {
    Unspecified,
    Station,
    Ap,
    Monitor,
    P2pDevice,
    /// A constant that has no variant of its own.
    UnrecognizedConst(u32),
}

impl Nl80211IfType {
    /// The variant that stands for the constant `code`.
    pub open spec fn of(code: u32) -> Nl80211IfType {
        if code == 0 {
            Nl80211IfType::Unspecified
        } else if code == 2 {
            Nl80211IfType::Station
        } else if code == 3 {
            Nl80211IfType::Ap
        } else if code == 6 {
            Nl80211IfType::Monitor
        } else if code == 10 {
            Nl80211IfType::P2pDevice
        } else {
            Nl80211IfType::UnrecognizedConst(code)
        }
    }

    /// The constant that the variant stands for.
    pub open spec fn code(self) -> u32 {
        match self {
            Nl80211IfType::Unspecified => 0,
            Nl80211IfType::Station => 2,
            Nl80211IfType::Ap => 3,
            Nl80211IfType::Monitor => 6,
            Nl80211IfType::P2pDevice => 10,
            Nl80211IfType::UnrecognizedConst(code) => code,
        }
    }

    /// Whether the value is a constant without a variant of its own.
    pub fn is_unrecognized(&self) -> (r: bool)
        ensures
            r == (*self is UnrecognizedConst),
    {
        match *self {
            Nl80211IfType::UnrecognizedConst(_) => true,
            _ => false,
        }
    }

    /// Every constant comes back from its variant.
    pub proof fn law_code_round_trip(code: u32)
        ensures
            Nl80211IfType::of(code).code() == code,
    {
    }

    /// Every variant comes back from its constant, but a constant kept
    /// as unrecognized that has a variant of its own.
    pub proof fn law_variant_round_trip(v: Nl80211IfType)
        requires
            v matches Nl80211IfType::UnrecognizedConst(code) ==> Nl80211IfType::of(code) is UnrecognizedConst,
        ensures
            Nl80211IfType::of(v.code()) == v,
    {
    }
}

impl From<u32> for Nl80211IfType {
    fn from(cnst: u32) -> (r: Nl80211IfType) {
        if cnst == 0 {
            Nl80211IfType::Unspecified
        } else if cnst == 2 {
            Nl80211IfType::Station
        } else if cnst == 3 {
            Nl80211IfType::Ap
        } else if cnst == 6 {
            Nl80211IfType::Monitor
        } else if cnst == 10 {
            Nl80211IfType::P2pDevice
        } else {
            Nl80211IfType::UnrecognizedConst(cnst)
        }
    }
}

impl vstd::std_specs::convert::FromSpecImpl<u32> for Nl80211IfType {
    open spec fn obeys_from_spec() -> bool {
        true
    }

    open spec fn from_spec(cnst: u32) -> Nl80211IfType {
        Nl80211IfType::of(cnst)
    }
}

impl From<Nl80211IfType> for u32 {
    fn from(enm: Nl80211IfType) -> (r: u32) {
        match enm {
            Nl80211IfType::Unspecified => 0,
            Nl80211IfType::Station => 2,
            Nl80211IfType::Ap => 3,
            Nl80211IfType::Monitor => 6,
            Nl80211IfType::P2pDevice => 10,
            Nl80211IfType::UnrecognizedConst(i) => i,
        }
    }
}

impl vstd::std_specs::convert::FromSpecImpl<Nl80211IfType> for u32 {
    open spec fn obeys_from_spec() -> bool {
        true
    }

    open spec fn from_spec(enm: Nl80211IfType) -> u32 {
        enm.code()
    }
}

/// An attribute of a wireless interface.
#[derive(Debug, Clone, Copy, PartialEq, Eq, Structural)]
pub enum Nl80211InterfaceAttribute {
    Unspecified,
    WiPhy,
    IfIndex,
    IfName,
    IfType,
    Mac,
    Generation,
    Ssid,
    Addr4,
    WiPhyTxPowerLevel,
    Wdev,
    TxqStats,
    VifRadioMask,
    /// A constant that has no variant of its own.
    UnrecognizedConst(u16),
}

impl Nl80211InterfaceAttribute {
    /// The variant that stands for the constant `code`.
    pub open spec fn of(code: u16) -> Nl80211InterfaceAttribute {
        if code == 0 {
            Nl80211InterfaceAttribute::Unspecified
        } else if code == 1 {
            Nl80211InterfaceAttribute::WiPhy
        } else if code == 3 {
            Nl80211InterfaceAttribute::IfIndex
        } else if code == 4 {
            Nl80211InterfaceAttribute::IfName
        } else if code == 5 {
            Nl80211InterfaceAttribute::IfType
        } else if code == 6 {
            Nl80211InterfaceAttribute::Mac
        } else if code == 46 {
            Nl80211InterfaceAttribute::Generation
        } else if code == 52 {
            Nl80211InterfaceAttribute::Ssid
        } else if code == 83 {
            Nl80211InterfaceAttribute::Addr4
        } else if code == 98 {
            Nl80211InterfaceAttribute::WiPhyTxPowerLevel
        } else if code == 153 {
            Nl80211InterfaceAttribute::Wdev
        } else if code == 265 {
            Nl80211InterfaceAttribute::TxqStats
        } else if code == 333 {
            Nl80211InterfaceAttribute::VifRadioMask
        } else {
            Nl80211InterfaceAttribute::UnrecognizedConst(code)
        }
    }

    /// The constant that the variant stands for.
    pub open spec fn code(self) -> u16 {
        match self {
            Nl80211InterfaceAttribute::Unspecified => 0,
            Nl80211InterfaceAttribute::WiPhy => 1,
            Nl80211InterfaceAttribute::IfIndex => 3,
            Nl80211InterfaceAttribute::IfName => 4,
            Nl80211InterfaceAttribute::IfType => 5,
            Nl80211InterfaceAttribute::Mac => 6,
            Nl80211InterfaceAttribute::Generation => 46,
            Nl80211InterfaceAttribute::Ssid => 52,
            Nl80211InterfaceAttribute::Addr4 => 83,
            Nl80211InterfaceAttribute::WiPhyTxPowerLevel => 98,
            Nl80211InterfaceAttribute::Wdev => 153,
            Nl80211InterfaceAttribute::TxqStats => 265,
            Nl80211InterfaceAttribute::VifRadioMask => 333,
            Nl80211InterfaceAttribute::UnrecognizedConst(code) => code,
        }
    }

    /// Whether the value is a constant without a variant of its own.
    pub fn is_unrecognized(&self) -> (r: bool)
        ensures
            r == (*self is UnrecognizedConst),
    {
        match *self {
            Nl80211InterfaceAttribute::UnrecognizedConst(_) => true,
            _ => false,
        }
    }

    /// Every constant comes back from its variant.
    pub proof fn law_code_round_trip(code: u16)
        ensures
            Nl80211InterfaceAttribute::of(code).code() == code,
    {
    }

    /// Every variant comes back from its constant, but a constant kept
    /// as unrecognized that has a variant of its own.
    pub proof fn law_variant_round_trip(v: Nl80211InterfaceAttribute)
        requires
            v matches Nl80211InterfaceAttribute::UnrecognizedConst(code) ==> Nl80211InterfaceAttribute::of(code) is UnrecognizedConst,
        ensures
            Nl80211InterfaceAttribute::of(v.code()) == v,
    {
    }
}

impl From<u16> for Nl80211InterfaceAttribute {
    fn from(cnst: u16) -> (r: Nl80211InterfaceAttribute) {
        if cnst == 0 {
            Nl80211InterfaceAttribute::Unspecified
        } else if cnst == 1 {
            Nl80211InterfaceAttribute::WiPhy
        } else if cnst == 3 {
            Nl80211InterfaceAttribute::IfIndex
        } else if cnst == 4 {
            Nl80211InterfaceAttribute::IfName
        } else if cnst == 5 {
            Nl80211InterfaceAttribute::IfType
        } else if cnst == 6 {
            Nl80211InterfaceAttribute::Mac
        } else if cnst == 46 {
            Nl80211InterfaceAttribute::Generation
        } else if cnst == 52 {
            Nl80211InterfaceAttribute::Ssid
        } else if cnst == 83 {
            Nl80211InterfaceAttribute::Addr4
        } else if cnst == 98 {
            Nl80211InterfaceAttribute::WiPhyTxPowerLevel
        } else if cnst == 153 {
            Nl80211InterfaceAttribute::Wdev
        } else if cnst == 265 {
            Nl80211InterfaceAttribute::TxqStats
        } else if cnst == 333 {
            Nl80211InterfaceAttribute::VifRadioMask
        } else {
            Nl80211InterfaceAttribute::UnrecognizedConst(cnst)
        }
    }
}

impl vstd::std_specs::convert::FromSpecImpl<u16> for Nl80211InterfaceAttribute {
    open spec fn obeys_from_spec() -> bool {
        true
    }

    open spec fn from_spec(cnst: u16) -> Nl80211InterfaceAttribute {
        Nl80211InterfaceAttribute::of(cnst)
    }
}

impl From<Nl80211InterfaceAttribute> for u16 {
    fn from(enm: Nl80211InterfaceAttribute) -> (r: u16) {
        match enm {
            Nl80211InterfaceAttribute::Unspecified => 0,
            Nl80211InterfaceAttribute::WiPhy => 1,
            Nl80211InterfaceAttribute::IfIndex => 3,
            Nl80211InterfaceAttribute::IfName => 4,
            Nl80211InterfaceAttribute::IfType => 5,
            Nl80211InterfaceAttribute::Mac => 6,
            Nl80211InterfaceAttribute::Generation => 46,
            Nl80211InterfaceAttribute::Ssid => 52,
            Nl80211InterfaceAttribute::Addr4 => 83,
            Nl80211InterfaceAttribute::WiPhyTxPowerLevel => 98,
            Nl80211InterfaceAttribute::Wdev => 153,
            Nl80211InterfaceAttribute::TxqStats => 265,
            Nl80211InterfaceAttribute::VifRadioMask => 333,
            Nl80211InterfaceAttribute::UnrecognizedConst(i) => i,
        }
    }
}

impl vstd::std_specs::convert::FromSpecImpl<Nl80211InterfaceAttribute> for u16 {
    open spec fn obeys_from_spec() -> bool {
        true
    }

    open spec fn from_spec(enm: Nl80211InterfaceAttribute) -> u16 {
        enm.code()
    }
}

} // verus!
