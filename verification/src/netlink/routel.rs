//! Links as the kernel's route netlink family reports them.

use crate::netlink::MacAddr;
use vstd::prelude::*;

verus! {

/// The 64-bit counters of a link.
#[derive(Debug, Clone)]
pub struct LinkStats64 {
    pub rx_packets: u64,
    pub tx_packets: u64,
    pub rx_bytes: u64,
    pub tx_bytes: u64,
    pub rx_errors: u64,
    pub tx_errors: u64,
    pub rx_dropped: u64,
    pub tx_dropped: u64,
    pub multicast: u64,
    pub collisions: u64,
    pub rx_length_errors: u64,
    pub rx_over_errors: u64,
    pub rx_crc_errors: u64,
    pub rx_frame_errors: u64,
    pub rx_fifo_errors: u64,
    pub rx_missed_errors: u64,
    pub tx_aborted_errors: u64,
    pub tx_carrier_errors: u64,
    pub tx_fifo_errors: u64,
    pub tx_heartbeat_errors: u64,
    pub tx_window_errors: u64,
    pub rx_compressed: u64,
    pub tx_compressed: u64,
    pub rx_nohandler: u64,
    pub rx_otherhost_dropped: u64,
}

/// The 32-bit counters of a link.
#[derive(Debug, Clone)]
pub struct LinkStats {
    pub rx_packets: u32,
    pub tx_packets: u32,
    pub rx_bytes: u32,
    pub tx_bytes: u32,
    pub rx_errors: u32,
    pub tx_errors: u32,
    pub rx_dropped: u32,
    pub tx_dropped: u32,
    pub multicast: u32,
    pub collisions: u32,
    pub rx_length_errors: u32,
    pub rx_over_errors: u32,
    pub rx_crc_errors: u32,
    pub rx_frame_errors: u32,
    pub rx_fifo_errors: u32,
    pub rx_missed_errors: u32,
    pub tx_aborted_errors: u32,
    pub tx_carrier_errors: u32,
    pub tx_fifo_errors: u32,
    pub tx_heartbeat_errors: u32,
    pub tx_window_errors: u32,
    pub rx_compressed: u32,
    pub tx_compressed: u32,
    pub rx_nohandler: u32,
}

/// An address family of multicast routing.
#[derive(Debug, Clone, Copy, PartialEq, Eq, Structural)]
pub enum RtLinkFamily {
    IPMR,
    IP6MR,
    /// A constant that has no variant of its own.
    UnrecognizedConst(u8),
}

impl RtLinkFamily {
    /// The variant that stands for the constant `code`.
    pub open spec fn of(code: u8) -> RtLinkFamily {
        if code == 128 {
            RtLinkFamily::IPMR
        } else if code == 129 {
            RtLinkFamily::IP6MR
        } else {
            RtLinkFamily::UnrecognizedConst(code)
        }
    }

    /// The constant that the variant stands for.
    pub open spec fn code(self) -> u8 {
        match self {
            RtLinkFamily::IPMR => 128,
            RtLinkFamily::IP6MR => 129,
            RtLinkFamily::UnrecognizedConst(code) => code,
        }
    }

    /// Whether the value is a constant without a variant of its own.
    pub fn is_unrecognized(&self) -> (r: bool)
        ensures
            r == (*self is UnrecognizedConst),
    {
        match *self {
            RtLinkFamily::UnrecognizedConst(_) => true,
            _ => false,
        }
    }

    /// Every constant comes back from its variant.
    pub proof fn law_code_round_trip(code: u8)
        ensures
            RtLinkFamily::of(code).code() == code,
    {
    }

    /// Every variant comes back from its constant, but a constant kept
    /// as unrecognized that has a variant of its own.
    pub proof fn law_variant_round_trip(v: RtLinkFamily)
        requires
            v matches RtLinkFamily::UnrecognizedConst(code) ==> RtLinkFamily::of(code) is UnrecognizedConst,
        ensures
            RtLinkFamily::of(v.code()) == v,
    {
    }
}

impl From<u8> for RtLinkFamily {
    fn from(cnst: u8) -> (r: RtLinkFamily) {
        if cnst == 128 {
            RtLinkFamily::IPMR
        } else if cnst == 129 {
            RtLinkFamily::IP6MR
        } else {
            RtLinkFamily::UnrecognizedConst(cnst)
        }
    }
}

impl vstd::std_specs::convert::FromSpecImpl<u8> for RtLinkFamily {
    open spec fn obeys_from_spec() -> bool {
        true
    }

    open spec fn from_spec(cnst: u8) -> RtLinkFamily {
        RtLinkFamily::of(cnst)
    }
}

impl From<RtLinkFamily> for u8 {
    fn from(enm: RtLinkFamily) -> (r: u8) {
        match enm {
            RtLinkFamily::IPMR => 128,
            RtLinkFamily::IP6MR => 129,
            RtLinkFamily::UnrecognizedConst(i) => i,
        }
    }
}

impl vstd::std_specs::convert::FromSpecImpl<RtLinkFamily> for u8 {
    open spec fn obeys_from_spec() -> bool {
        true
    }

    open spec fn from_spec(enm: RtLinkFamily) -> u8 {
        enm.code()
    }
}

/// The device mapping of a link.
#[derive(Debug, Clone)]
pub struct LinkIfMap {
    pub mem_start: u64,
    pub mem_end: u64,
    pub base_addr: u64,
    pub irq: u16,
    pub dma: u8,
    pub port: u8,
}

/// One link with the attributes that the kernel sent for it.
#[derive(Debug, Clone)]
pub struct LinkInfo {
    pub ifi_index: i32,
    pub address: MacAddr,
    pub broadcast: MacAddr,
    pub ifname: String,
    pub mtu: u32,
    pub qdisc: String,
    pub link: Option<u32>,
    pub stats: LinkStats,
    pub cost: Option<String>,
    pub priority: Option<String>,
    pub master: Option<u32>,
    pub txqlen: u32,
    pub map: LinkIfMap,
    pub weight: Option<u32>,
    pub operstate: u8,
    pub linkmode: u8,
    pub net_ns_pid: Option<u32>,
    pub ifalias: Option<String>,
    pub num_vf: Option<u32>,
    pub stats64: LinkStats64,
    pub group: u32,
    pub net_ns_fd: Option<u32>,
    pub promiscuity: u32,
    pub num_tx_queues: u32,
    pub num_rx_queues: u32,
    pub carrier: u8,
    pub carrier_changes: u32,
    pub link_netnsid: Option<i32>,
    pub phys_port_name: Option<String>,
    pub proto_down: u8,
    pub gso_max_segs: u32,
    pub gso_max_size: u32,
    pub event: Option<u32>,
    pub new_netnsid: Option<i32>,
    pub target_netnsid: Option<i32>,
    pub carrier_up_count: u32,
    pub carrier_down_count: u32,
    pub new_ifindex: Option<i32>,
    pub min_mtu: u32,
    pub max_mtu: u32,
    pub alt_ifname: Option<String>,
    pub perm_address: Option<MacAddr>,
    pub proto_down_reason: Option<String>,
    pub parent_dev_name: Option<String>,
    pub parent_dev_bus_name: Option<String>,
    pub gro_max_size: Option<u32>,
    pub tso_max_size: Option<u32>,
    pub tso_max_segs: Option<u32>,
    pub allmulti: Option<u32>,
    pub gso_ipv4_max_size: Option<u32>,
    pub gro_ipv4_max_size: Option<u32>,
}

} // verus!
