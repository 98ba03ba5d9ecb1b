//! Wired interfaces as the kernel's ethtool family reports them.

use vstd::prelude::*;

verus! {

/// One physical layer device.
#[derive(Debug, Clone)]
pub struct EthtoolPhy {
    pub phy_index: u32,
    pub driver_name: String,
    pub name: String,
    pub upstream_type: u32,
    pub upstream_index: u32,
    pub upstream_sfp_name: Option<String>,
    pub downstream_sfp_name: Option<String>,
}

/// A command of the ethtool family.
#[derive(Debug, Clone, Copy, PartialEq, Eq, Structural)]
pub enum EthtoolCommand {
    PhyGet,
    StatsGet,
    /// A constant that has no variant of its own.
    UnrecognizedConst(u8),
}

impl EthtoolCommand {
    /// The variant that stands for the constant `code`.
    pub open spec fn of(code: u8) -> EthtoolCommand {
        if code == 45 {
            EthtoolCommand::PhyGet
        } else if code == 32 {
            EthtoolCommand::StatsGet
        } else {
            EthtoolCommand::UnrecognizedConst(code)
        }
    }

    /// The constant that the variant stands for.
    pub open spec fn code(self) -> u8 {
        match self {
            EthtoolCommand::PhyGet => 45,
            EthtoolCommand::StatsGet => 32,
            EthtoolCommand::UnrecognizedConst(code) => code,
        }
    }

    /// Whether the value is a constant without a variant of its own.
    pub fn is_unrecognized(&self) -> (r: bool)
        ensures
            r == (*self is UnrecognizedConst),
    {
        match *self {
            EthtoolCommand::UnrecognizedConst(_) => true,
            _ => false,
        }
    }

    /// Every constant comes back from its variant.
    pub proof fn law_code_round_trip(code: u8)
        ensures
            EthtoolCommand::of(code).code() == code,
    {
    }

    /// Every variant comes back from its constant, but a constant kept
    /// as unrecognized that has a variant of its own.
    pub proof fn law_variant_round_trip(v: EthtoolCommand)
        requires
            v matches EthtoolCommand::UnrecognizedConst(code) ==> EthtoolCommand::of(code) is UnrecognizedConst,
        ensures
            EthtoolCommand::of(v.code()) == v,
    {
    }
}

impl From<u8> for EthtoolCommand {
    fn from(cnst: u8) -> (r: EthtoolCommand) {
        if cnst == 45 {
            EthtoolCommand::PhyGet
        } else if cnst == 32 {
            EthtoolCommand::StatsGet
        } else {
            EthtoolCommand::UnrecognizedConst(cnst)
        }
    }
}

impl vstd::std_specs::convert::FromSpecImpl<u8> for EthtoolCommand {
    open spec fn obeys_from_spec() -> bool {
        true
    }

    open spec fn from_spec(cnst: u8) -> EthtoolCommand {
        EthtoolCommand::of(cnst)
    }
}

impl From<EthtoolCommand> for u8 {
    fn from(enm: EthtoolCommand) -> (r: u8) {
        match enm {
            EthtoolCommand::PhyGet => 45,
            EthtoolCommand::StatsGet => 32,
            EthtoolCommand::UnrecognizedConst(i) => i,
        }
    }
}

impl vstd::std_specs::convert::FromSpecImpl<EthtoolCommand> for u8 {
    open spec fn obeys_from_spec() -> bool {
        true
    }

    open spec fn from_spec(enm: EthtoolCommand) -> u8 {
        enm.code()
    }
}

/// What a physical layer device is attached to.
#[derive(Debug, Clone, Copy, PartialEq, Eq, Structural)]
pub enum EthtoolUpstreamType {
    Mac,
    Phy,
    /// A constant that has no variant of its own.
    UnrecognizedConst(u32),
}

impl EthtoolUpstreamType {
    /// The variant that stands for the constant `code`.
    pub open spec fn of(code: u32) -> EthtoolUpstreamType {
        if code == 0 {
            EthtoolUpstreamType::Mac
        } else if code == 1 {
            EthtoolUpstreamType::Phy
        } else {
            EthtoolUpstreamType::UnrecognizedConst(code)
        }
    }

    /// The constant that the variant stands for.
    pub open spec fn code(self) -> u32 {
        match self {
            EthtoolUpstreamType::Mac => 0,
            EthtoolUpstreamType::Phy => 1,
            EthtoolUpstreamType::UnrecognizedConst(code) => code,
        }
    }

    /// Whether the value is a constant without a variant of its own.
    pub fn is_unrecognized(&self) -> (r: bool)
        ensures
            r == (*self is UnrecognizedConst),
    {
        match *self {
            EthtoolUpstreamType::UnrecognizedConst(_) => true,
            _ => false,
        }
    }

    /// Every constant comes back from its variant.
    pub proof fn law_code_round_trip(code: u32)
        ensures
            EthtoolUpstreamType::of(code).code() == code,
    {
    }

    /// Every variant comes back from its constant, but a constant kept
    /// as unrecognized that has a variant of its own.
    pub proof fn law_variant_round_trip(v: EthtoolUpstreamType)
        requires
            v matches EthtoolUpstreamType::UnrecognizedConst(code) ==> EthtoolUpstreamType::of(code) is UnrecognizedConst,
        ensures
            EthtoolUpstreamType::of(v.code()) == v,
    {
    }
}

impl From<u32> for EthtoolUpstreamType {
    fn from(cnst: u32) -> (r: EthtoolUpstreamType) {
        if cnst == 0 {
            EthtoolUpstreamType::Mac
        } else if cnst == 1 {
            EthtoolUpstreamType::Phy
        } else {
            EthtoolUpstreamType::UnrecognizedConst(cnst)
        }
    }
}

impl vstd::std_specs::convert::FromSpecImpl<u32> for EthtoolUpstreamType {
    open spec fn obeys_from_spec() -> bool {
        true
    }

    open spec fn from_spec(cnst: u32) -> EthtoolUpstreamType {
        EthtoolUpstreamType::of(cnst)
    }
}

impl From<EthtoolUpstreamType> for u32 {
    fn from(enm: EthtoolUpstreamType) -> (r: u32) {
        match enm {
            EthtoolUpstreamType::Mac => 0,
            EthtoolUpstreamType::Phy => 1,
            EthtoolUpstreamType::UnrecognizedConst(i) => i,
        }
    }
}

impl vstd::std_specs::convert::FromSpecImpl<EthtoolUpstreamType> for u32 {
    open spec fn obeys_from_spec() -> bool {
        true
    }

    open spec fn from_spec(enm: EthtoolUpstreamType) -> u32 {
        enm.code()
    }
}

/// An attribute of a physical layer device.
#[derive(Debug, Clone, Copy, PartialEq, Eq, Structural)]
pub enum EthtoolPhyAttribute {
    Unspecified,
    ReqHdr,
    Index,
    DrvName,
    Name,
    UpstreamType,
    UpstreamIndex,
    UpstreamSfpName,
    DownstreamSfpName,
    /// A constant that has no variant of its own.
    UnrecognizedConst(u16),
}

impl EthtoolPhyAttribute {
    /// The variant that stands for the constant `code`.
    pub open spec fn of(code: u16) -> EthtoolPhyAttribute {
        if code == 0 {
            EthtoolPhyAttribute::Unspecified
        } else if code == 1 {
            EthtoolPhyAttribute::ReqHdr
        } else if code == 2 {
            EthtoolPhyAttribute::Index
        } else if code == 3 {
            EthtoolPhyAttribute::DrvName
        } else if code == 4 {
            EthtoolPhyAttribute::Name
        } else if code == 5 {
            EthtoolPhyAttribute::UpstreamType
        } else if code == 6 {
            EthtoolPhyAttribute::UpstreamIndex
        } else if code == 7 {
            EthtoolPhyAttribute::UpstreamSfpName
        } else if code == 8 {
            EthtoolPhyAttribute::DownstreamSfpName
        } else {
            EthtoolPhyAttribute::UnrecognizedConst(code)
        }
    }

    /// The constant that the variant stands for.
    pub open spec fn code(self) -> u16 {
        match self {
            EthtoolPhyAttribute::Unspecified => 0,
            EthtoolPhyAttribute::ReqHdr => 1,
            EthtoolPhyAttribute::Index => 2,
            EthtoolPhyAttribute::DrvName => 3,
            EthtoolPhyAttribute::Name => 4,
            EthtoolPhyAttribute::UpstreamType => 5,
            EthtoolPhyAttribute::UpstreamIndex => 6,
            EthtoolPhyAttribute::UpstreamSfpName => 7,
            EthtoolPhyAttribute::DownstreamSfpName => 8,
            EthtoolPhyAttribute::UnrecognizedConst(code) => code,
        }
    }

    /// Whether the value is a constant without a variant of its own.
    pub fn is_unrecognized(&self) -> (r: bool)
        ensures
            r == (*self is UnrecognizedConst),
    {
        match *self {
            EthtoolPhyAttribute::UnrecognizedConst(_) => true,
            _ => false,
        }
    }

    /// Every constant comes back from its variant.
    pub proof fn law_code_round_trip(code: u16)
        ensures
            EthtoolPhyAttribute::of(code).code() == code,
    {
    }

    /// Every variant comes back from its constant, but a constant kept
    /// as unrecognized that has a variant of its own.
    pub proof fn law_variant_round_trip(v: EthtoolPhyAttribute)
        requires
            v matches EthtoolPhyAttribute::UnrecognizedConst(code) ==> EthtoolPhyAttribute::of(code) is UnrecognizedConst,
        ensures
            EthtoolPhyAttribute::of(v.code()) == v,
    {
    }
}

impl From<u16> for EthtoolPhyAttribute {
    fn from(cnst: u16) -> (r: EthtoolPhyAttribute) {
        if cnst == 0 {
            EthtoolPhyAttribute::Unspecified
        } else if cnst == 1 {
            EthtoolPhyAttribute::ReqHdr
        } else if cnst == 2 {
            EthtoolPhyAttribute::Index
        } else if cnst == 3 {
            EthtoolPhyAttribute::DrvName
        } else if cnst == 4 {
            EthtoolPhyAttribute::Name
        } else if cnst == 5 {
            EthtoolPhyAttribute::UpstreamType
        } else if cnst == 6 {
            EthtoolPhyAttribute::UpstreamIndex
        } else if cnst == 7 {
            EthtoolPhyAttribute::UpstreamSfpName
        } else if cnst == 8 {
            EthtoolPhyAttribute::DownstreamSfpName
        } else {
            EthtoolPhyAttribute::UnrecognizedConst(cnst)
        }
    }
}

impl vstd::std_specs::convert::FromSpecImpl<u16> for EthtoolPhyAttribute {
    open spec fn obeys_from_spec() -> bool {
        true
    }

    open spec fn from_spec(cnst: u16) -> EthtoolPhyAttribute {
        EthtoolPhyAttribute::of(cnst)
    }
}

impl From<EthtoolPhyAttribute> for u16 {
    fn from(enm: EthtoolPhyAttribute) -> (r: u16) {
        match enm {
            EthtoolPhyAttribute::Unspecified => 0,
            EthtoolPhyAttribute::ReqHdr => 1,
            EthtoolPhyAttribute::Index => 2,
            EthtoolPhyAttribute::DrvName => 3,
            EthtoolPhyAttribute::Name => 4,
            EthtoolPhyAttribute::UpstreamType => 5,
            EthtoolPhyAttribute::UpstreamIndex => 6,
            EthtoolPhyAttribute::UpstreamSfpName => 7,
            EthtoolPhyAttribute::DownstreamSfpName => 8,
            EthtoolPhyAttribute::UnrecognizedConst(i) => i,
        }
    }
}

impl vstd::std_specs::convert::FromSpecImpl<EthtoolPhyAttribute> for u16 {
    open spec fn obeys_from_spec() -> bool {
        true
    }

    open spec fn from_spec(enm: EthtoolPhyAttribute) -> u16 {
        enm.code()
    }
}


/// The bit of `COMPACT_BITSETS`.
pub const COMPACT_BITSETS: u32 = 1;

/// The bit of `OMIT_REPLY`.
pub const OMIT_REPLY: u32 = 2;

/// The bit of `STATS`.
pub const STATS: u32 = 4;

/// The bits of all three flags.
pub const ALL_FLAGS: u32 = 7;

/// The flags in the header of an ethtool request, as a set of bits.
#[derive(Debug, Clone, Copy, PartialEq, Eq, Structural)]
pub struct EthToolCommandHeaderFlags(pub u32);

impl EthToolCommandHeaderFlags {
    /// No flag.
    pub fn empty() -> (r: Self)
        ensures
            r.0 == 0,
    {
        EthToolCommandHeaderFlags(0)
    }

    /// All three flags.
    pub fn all() -> (r: Self)
        ensures
            r.0 == ALL_FLAGS,
    {
        EthToolCommandHeaderFlags(ALL_FLAGS)
    }

    /// The bits of the set.
    pub fn bits(&self) -> (r: u32)
        ensures
            r == self.0,
    {
        self.0
    }

    /// The set with the bits `bits`, where each of them is a flag.
    pub fn from_bits(bits: u32) -> (r: Option<Self>)
        ensures
            r == (if bits & !ALL_FLAGS == 0 {
                Some(EthToolCommandHeaderFlags(bits))
            } else {
                None
            }),
    {
        if bits & !ALL_FLAGS == 0 {
            Some(EthToolCommandHeaderFlags(bits))
        } else {
            None
        }
    }

    /// The set with those of the bits `bits` that are flags.
    pub fn from_bits_truncate(bits: u32) -> (r: Self)
        ensures
            r.0 == bits & ALL_FLAGS,
    {
        EthToolCommandHeaderFlags(bits & ALL_FLAGS)
    }

    /// Whether every bit of `other` is in the set.
    pub fn contains(&self, other: Self) -> (r: bool)
        ensures
            r == (self.0 & other.0 == other.0),
    {
        self.0 & other.0 == other.0
    }

    /// The bits of either set.
    pub fn union(self, other: Self) -> (r: Self)
        ensures
            r.0 == self.0 | other.0,
    {
        EthToolCommandHeaderFlags(self.0 | other.0)
    }

    /// A union holds both of its sets, truncation gives flags alone, and
    /// bits that are flags alone are kept as they are.
    pub proof fn law_flag_sets(a: u32, b: u32)
        ensures
            (a | b) & a == a,
            (a | b) & b == b,
            (a & ALL_FLAGS) & !ALL_FLAGS == 0,
            a & !ALL_FLAGS == 0 ==> a & ALL_FLAGS == a,
            a & !ALL_FLAGS == 0 <==> a <= ALL_FLAGS,
    {
        assert((a | b) & a == a) by (bit_vector);
        assert((a | b) & b == b) by (bit_vector);
        assert((a & 7u32) & !7u32 == 0) by (bit_vector);
        assert(a & !7u32 == 0 ==> a & 7u32 == a) by (bit_vector);
        assert(a & !7u32 == 0 <==> a <= 7u32) by (bit_vector);
    }
}

/// The header of an ethtool request.
#[derive(Debug, Clone)]
pub struct EthToolCommandHeader {
    pub dev_index: u32,
    pub dev_name: String,
    pub flags: EthToolCommandHeaderFlags,
    pub phy_index: u32,
}

} // verus!
