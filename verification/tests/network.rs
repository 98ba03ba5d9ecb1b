use barcore::netlink::ethtool::EthtoolPhy;
use barcore::netlink::nl80211::{Nl80211IfType, Nl80211Interface, Nl80211TxqStats};
use barcore::netlink::routel::{LinkIfMap, LinkInfo, LinkStats, LinkStats64};
use barcore::netlink::MacAddr;
use barcore::network::Network;
use macaddr::MacAddr6;

fn stats64(tx_bytes: u64, rx_bytes: u64) -> LinkStats64 {
    LinkStats64 {
        rx_packets: 0,
        tx_packets: 0,
        rx_bytes,
        tx_bytes,
        rx_errors: 0,
        tx_errors: 0,
        rx_dropped: 0,
        tx_dropped: 0,
        multicast: 0,
        collisions: 0,
        rx_length_errors: 0,
        rx_over_errors: 0,
        rx_crc_errors: 0,
        rx_frame_errors: 0,
        rx_fifo_errors: 0,
        rx_missed_errors: 0,
        tx_aborted_errors: 0,
        tx_carrier_errors: 0,
        tx_fifo_errors: 0,
        tx_heartbeat_errors: 0,
        tx_window_errors: 0,
        rx_compressed: 0,
        tx_compressed: 0,
        rx_nohandler: 0,
        rx_otherhost_dropped: 0,
    }
}

fn stats() -> LinkStats {
    LinkStats {
        rx_packets: 0,
        tx_packets: 0,
        rx_bytes: 0,
        tx_bytes: 0,
        rx_errors: 0,
        tx_errors: 0,
        rx_dropped: 0,
        tx_dropped: 0,
        multicast: 0,
        collisions: 0,
        rx_length_errors: 0,
        rx_over_errors: 0,
        rx_crc_errors: 0,
        rx_frame_errors: 0,
        rx_fifo_errors: 0,
        rx_missed_errors: 0,
        tx_aborted_errors: 0,
        tx_carrier_errors: 0,
        tx_fifo_errors: 0,
        tx_heartbeat_errors: 0,
        tx_window_errors: 0,
        rx_compressed: 0,
        tx_compressed: 0,
        rx_nohandler: 0,
    }
}

fn mac() -> MacAddr {
    MacAddr::Mac6(MacAddr6::new(1, 2, 3, 4, 5, 6))
}

fn link(index: i32, name: &str, tx_bytes: u64, rx_bytes: u64) -> LinkInfo {
    LinkInfo {
        ifi_index: index,
        address: mac(),
        broadcast: mac(),
        ifname: name.to_string(),
        mtu: 1500,
        qdisc: "noqueue".to_string(),
        link: None,
        stats: stats(),
        cost: None,
        priority: None,
        master: None,
        txqlen: 1000,
        map: LinkIfMap { mem_start: 0, mem_end: 0, base_addr: 0, irq: 0, dma: 0, port: 0 },
        weight: None,
        operstate: 6,
        linkmode: 0,
        net_ns_pid: None,
        ifalias: None,
        num_vf: None,
        stats64: stats64(tx_bytes, rx_bytes),
        group: 0,
        net_ns_fd: None,
        promiscuity: 0,
        num_tx_queues: 1,
        num_rx_queues: 1,
        carrier: 1,
        carrier_changes: 0,
        link_netnsid: None,
        phys_port_name: None,
        proto_down: 0,
        gso_max_segs: 0,
        gso_max_size: 0,
        event: None,
        new_netnsid: None,
        target_netnsid: None,
        carrier_up_count: 0,
        carrier_down_count: 0,
        new_ifindex: None,
        min_mtu: 0,
        max_mtu: 0,
        alt_ifname: None,
        perm_address: None,
        proto_down_reason: None,
        parent_dev_name: None,
        parent_dev_bus_name: None,
        gro_max_size: None,
        tso_max_size: None,
        tso_max_segs: None,
        allmulti: None,
        gso_ipv4_max_size: None,
        gro_ipv4_max_size: None,
    }
}

fn wifi(index: u32, ssid: Option<&str>) -> Nl80211Interface {
    Nl80211Interface {
        if_name: "wlan".to_string(),
        if_type: Nl80211IfType::Station,
        if_index: index,
        wiphy: 0,
        wdev: 1,
        mac: mac(),
        generation: 1,
        txq_stats: Nl80211TxqStats {
            backlog_bytes: 0,
            backlog_packets: 0,
            flows: 0,
            drops: 0,
            ecn_marks: 0,
            overlimit: 0,
            overmemory: 0,
            collisions: 0,
            tx_bytes: 0,
            tx_packets: 0,
            max_flows: 0,
        },
        addr4: 0,
        vif_radio_mask: 0,
        wiphy_tx_power_level: None,
        ssid: ssid.map(|s| s.to_string()),
    }
}

fn phy() -> EthtoolPhy {
    EthtoolPhy {
        phy_index: 1,
        driver_name: "drv".to_string(),
        name: "phy".to_string(),
        upstream_type: 0,
        upstream_index: 0,
        upstream_sfp_name: None,
        downstream_sfp_name: None,
    }
}

fn parts(n: &Network) -> (bool, i32, String, Option<String>, u64, u64, u64, u64) {
    match n {
        Network::Wifi { if_index, if_name, ssid, up, down, up_rate, down_rate } => {
            (true, *if_index, if_name.clone(), ssid.clone(), *up, *down, *up_rate, *down_rate)
        }
        Network::Network { if_index, name, up, down, up_rate, down_rate } => {
            (false, *if_index, name.clone(), None, *up, *down, *up_rate, *down_rate)
        }
    }
}

#[test]
fn first_sight_of_a_link_has_no_rate() {
    let out = Network::from_linkinfo(
        vec![link(1, "lo", 500, 400), link(3, "wlan0", 9000, 7000)],
        vec![wifi(3, Some("home"))],
        vec![phy()],
        vec![],
        1,
    );
    assert_eq!(out.len(), 2);
    assert_eq!(parts(&out[0]), (false, 1, "lo".to_string(), None, 500, 400, 0, 0));
    assert_eq!(
        parts(&out[1]),
        (true, 3, "wlan0".to_string(), Some("home".to_string()), 9000, 7000, 0, 0)
    );
}

#[test]
fn rates_are_taken_against_the_earlier_counters() {
    let prev = vec![
        Network::Network {
            if_index: 2,
            name: "eth0".to_string(),
            up: 1000,
            down: 300,
            up_rate: 5,
            down_rate: 5,
        },
        Network::Wifi {
            if_index: 3,
            if_name: "wlan0".to_string(),
            ssid: None,
            up: 9000,
            down: 50000,
            up_rate: 0,
            down_rate: 0,
        },
        Network::Network {
            if_index: 2,
            name: "late".to_string(),
            up: 0,
            down: 0,
            up_rate: 0,
            down_rate: 0,
        },
    ];
    let out = Network::from_linkinfo(
        vec![link(2, "eth0", 4001, 800), link(3, "wlan0", 9500, 60000), link(4, "new", 10, 10)],
        vec![wifi(7, Some("far")), wifi(3, None), wifi(3, Some("second"))],
        vec![],
        prev,
        2,
    );
    assert_eq!(out.len(), 3);
    assert_eq!(parts(&out[0]), (false, 2, "eth0".to_string(), None, 4001, 800, 1500, 1850));
    assert_eq!(parts(&out[1]), (true, 3, "wlan0".to_string(), None, 9500, 60000, 250, 0));
    assert_eq!(parts(&out[2]), (false, 4, "new".to_string(), None, 10, 10, 0, 0));
}

#[test]
fn no_link_gives_no_network() {
    let out = Network::from_linkinfo(vec![], vec![wifi(1, None)], vec![], vec![], 1);
    assert!(out.is_empty());
}
