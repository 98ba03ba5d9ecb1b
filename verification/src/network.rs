//! The networks that the bar shows, with their transfer rates.

use crate::netlink::ethtool::EthtoolPhy;
use crate::netlink::nl80211::Nl80211Interface;
use crate::netlink::routel::LinkInfo;
use vstd::prelude::*;

verus! {

/// One network interface with its byte counters and rates.
#[derive(Debug, Clone)]
pub enum Network {
    Wifi {
        if_index: i32,
        if_name: String,
        ssid: Option<String>,
        up: u64,
        down: u64,
        up_rate: u64,
        down_rate: u64,
    },
    Network { if_index: i32, name: String, up: u64, down: u64, up_rate: u64, down_rate: u64 },
}

/// The networks that are sent to the bar's state.
pub type NetworkMessage = Vec<Network>;

impl Network {
    /// The index of the interface.
    pub open spec fn index(self) -> i32 {
        match self {
            Network::Wifi { if_index, .. } => if_index,
            Network::Network { if_index, .. } => if_index,
        }
    }

    /// The bytes sent and the bytes received.
    pub open spec fn counters(self) -> (u64, u64) {
        match self {
            Network::Wifi { up, down, .. } => (up, down),
            Network::Network { up, down, .. } => (up, down),
        }
    }
}

/// The counters of the first of `prev` with index `if_index`.
pub open spec fn earlier_counters(prev: Seq<Network>, if_index: i32) -> Option<(u64, u64)>
    decreases prev.len(),
{
    if prev.len() == 0 {
        None
    } else if prev[0].index() == if_index {
        Some(prev[0].counters())
    } else {
        earlier_counters(prev.skip(1), if_index)
    }
}

/// The network name of the first of `wifi` with index `if_index`, where
/// there is such an interface.
pub open spec fn wifi_ssid(wifi: Seq<Nl80211Interface>, if_index: i32) -> Option<Option<String>>
    decreases wifi.len(),
{
    if wifi.len() == 0 {
        None
    } else if wifi[0].if_index as i32 == if_index {
        Some(wifi[0].ssid)
    } else {
        wifi_ssid(wifi.skip(1), if_index)
    }
}

/// A rate over `secs` seconds from `now` and an earlier counter: the
/// growth, zero where the counter fell, over the seconds, rounding down;
/// zero where there is no earlier counter.
pub open spec fn rate(now: u64, earlier: Option<u64>, secs: u64) -> u64 {
    match earlier {
        Some(was) => (if now >= was {
            (now - was) / secs as int
        } else {
            0
        }) as u64,
        None => 0,
    }
}

/// The network shown for `link`.
///
/// Both rates are taken from the bytes sent: the rate up against the bytes
/// sent earlier, the rate down against the bytes received earlier.
pub open spec fn network_of(
    link: LinkInfo,
    wifi: Seq<Nl80211Interface>,
    prev: Seq<Network>,
    secs: u64,
) -> Network {
    let earlier = earlier_counters(prev, link.ifi_index);
    let up_rate = rate(
        link.stats64.tx_bytes,
        match earlier {
            Some(c) => Some(c.0),
            None => None,
        },
        secs,
    );
    let down_rate = rate(
        link.stats64.tx_bytes,
        match earlier {
            Some(c) => Some(c.1),
            None => None,
        },
        secs,
    );
    match wifi_ssid(wifi, link.ifi_index) {
        Some(ssid) => Network::Wifi {
            if_index: link.ifi_index,
            if_name: link.ifname,
            ssid,
            up: link.stats64.tx_bytes,
            down: link.stats64.rx_bytes,
            up_rate,
            down_rate,
        },
        None => Network::Network {
            if_index: link.ifi_index,
            name: link.ifname,
            up: link.stats64.tx_bytes,
            down: link.stats64.rx_bytes,
            up_rate,
            down_rate,
        },
    }
}

/// The counters of the first of `prev` with index `if_index`.
fn find_earlier(prev: &Vec<Network>, if_index: i32) -> (r: Option<(u64, u64)>)
    ensures
        r == earlier_counters(prev@, if_index),
{
    let mut i: usize = 0;
    proof {
        assert(prev@.skip(0) =~= prev@);
    }
    while i < prev.len()
        invariant
            i <= prev@.len(),
            earlier_counters(prev@, if_index) == earlier_counters(prev@.skip(i as int), if_index),
        decreases prev@.len() - i,
    {
        let found: Option<(u64, u64)> = match &prev[i] {
            Network::Wifi { if_index: idx, up, down, .. } => {
                if *idx == if_index {
                    Some((*up, *down))
                } else {
                    None
                }
            },
            Network::Network { if_index: idx, up, down, .. } => {
                if *idx == if_index {
                    Some((*up, *down))
                } else {
                    None
                }
            },
        };
        proof {
            assert(prev@.skip(i as int)[0] == prev@[i as int]);
            assert(prev@.skip(i as int).skip(1) =~= prev@.skip(i as int + 1));
        }
        if found.is_some() {
            return found;
        }
        i = i + 1;
    }
    None
}

/// The place in `wifi` of the first interface with index `if_index`.
fn find_wifi(wifi: &Vec<Nl80211Interface>, if_index: i32) -> (r: Option<usize>)
    ensures
        match r {
            Some(at) => at < wifi@.len() && wifi_ssid(wifi@, if_index) == Some(wifi@[at as int].ssid),
            None => wifi_ssid(wifi@, if_index).is_none(),
        },
{
    let mut i: usize = 0;
    proof {
        assert(wifi@.skip(0) =~= wifi@);
    }
    while i < wifi.len()
        invariant
            i <= wifi@.len(),
            wifi_ssid(wifi@, if_index) == wifi_ssid(wifi@.skip(i as int), if_index),
        decreases wifi@.len() - i,
    {
        proof {
            assert(wifi@.skip(i as int)[0] == wifi@[i as int]);
            assert(wifi@.skip(i as int).skip(1) =~= wifi@.skip(i as int + 1));
        }
        if #[verifier::truncate] (wifi[i].if_index as i32) == if_index {
            return Some(i);
        }
        i = i + 1;
    }
    None
}

/// A rate as `rate` defines it.
fn rate_of(now: u64, earlier: Option<u64>, secs: u64) -> (r: u64)
    requires
        secs > 0,
    ensures
        r == rate(now, earlier, secs),
{
    match earlier {
        Some(was) => {
            let grown: u64 = if now >= was {
                now - was
            } else {
                0
            };
            grown / secs
        },
        None => 0,
    }
}

impl Network {
    /// The networks shown for the links `link_info`, one for each link and
    /// in their order.
    ///
    /// A link is a wireless network, with the network name of the first of
    /// `wifi_interfaces` that has its index, where there is one; else a
    /// plain network. Its rates are taken against the first of
    /// `prev_link_info` that has its index, over `interval_secs` seconds,
    /// and are zero where there is none.
    pub fn from_linkinfo(
        link_info: Vec<LinkInfo>,
        wifi_interfaces: Vec<Nl80211Interface>,
        _ethtool_interfaces: Vec<EthtoolPhy>,
        prev_link_info: Vec<Network>,
        interval_secs: u64,
    ) -> (r: Vec<Network>)
        requires
            interval_secs > 0,
        ensures
            r@.len() == link_info@.len(),
            forall|i: int|
                0 <= i < r@.len() ==> #[trigger] r@[i] == network_of(
                    link_info@[i],
                    wifi_interfaces@,
                    prev_link_info@,
                    interval_secs,
                ),
    {
        let mut out: Vec<Network> = Vec::new();
        let mut i: usize = 0;
        while i < link_info.len()
            invariant
                i <= link_info@.len(),
                interval_secs > 0,
                out@.len() == i,
                forall|k: int|
                    0 <= k < i ==> #[trigger] out@[k] == network_of(
                        link_info@[k],
                        wifi_interfaces@,
                        prev_link_info@,
                        interval_secs,
                    ),
            decreases link_info@.len() - i,
        {
            let link = &link_info[i];
            let earlier = find_earlier(&prev_link_info, link.ifi_index);
            let up_rate: u64 = rate_of(
                link.stats64.tx_bytes,
                match earlier {
                    Some(c) => Some(c.0),
                    None => None,
                },
                interval_secs,
            );
            let down_rate: u64 = rate_of(
                link.stats64.tx_bytes,
                match earlier {
                    Some(c) => Some(c.1),
                    None => None,
                },
                interval_secs,
            );
            let network = match find_wifi(&wifi_interfaces, link.ifi_index) {
                Some(at) => Network::Wifi {
                    if_index: link.ifi_index,
                    if_name: link.ifname.clone(),
                    ssid: match &wifi_interfaces[at].ssid {
                        Some(name) => Some(name.clone()),
                        None => None,
                    },
                    up: link.stats64.tx_bytes,
                    down: link.stats64.rx_bytes,
                    up_rate,
                    down_rate,
                },
                None => Network::Network {
                    if_index: link.ifi_index,
                    name: link.ifname.clone(),
                    up: link.stats64.tx_bytes,
                    down: link.stats64.rx_bytes,
                    up_rate,
                    down_rate,
                },
            };
            out.push(network);
            i = i + 1;
        }
        out
    }
}

} // verus!
