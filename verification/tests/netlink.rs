use barcore::netlink::ethtool::{
    EthToolCommandHeader, EthToolCommandHeaderFlags, EthtoolCommand, EthtoolPhyAttribute,
    EthtoolUpstreamType, ALL_FLAGS, COMPACT_BITSETS, OMIT_REPLY, STATS,
};
use barcore::netlink::nl80211::{Nl80211Command, Nl80211IfType, Nl80211InterfaceAttribute};
use barcore::netlink::routel::RtLinkFamily;
use barcore::netlink::{InvalidInput, MacAddr};
use macaddr::{MacAddr6, MacAddr8};

#[test]
fn six_bytes_are_a_short_address() {
    let bytes = [0xac, 0xde, 0x48, 0x23, 0x45, 0x67];
    match MacAddr::from_bytes(&bytes) {
        Ok(MacAddr::Mac6(addr)) => {
            assert_eq!(addr, MacAddr6::new(0xac, 0xde, 0x48, 0x23, 0x45, 0x67))
        }
        _ => panic!("expected an address of six bytes"),
    }
    assert_eq!(MacAddr::from_bytes(&bytes).unwrap().to_bytes(), bytes.to_vec());
}

#[test]
fn eight_bytes_or_more_are_a_long_address_of_the_first_eight() {
    let bytes = [1, 2, 3, 4, 5, 6, 7, 8, 9, 10];
    match MacAddr::from_bytes(&bytes[..8]) {
        Ok(MacAddr::Mac8(addr)) => assert_eq!(addr, MacAddr8::new(1, 2, 3, 4, 5, 6, 7, 8)),
        _ => panic!("expected an address of eight bytes"),
    }
    match MacAddr::from_bytes(&bytes) {
        Ok(MacAddr::Mac8(addr)) => assert_eq!(addr.into_array(), [1, 2, 3, 4, 5, 6, 7, 8]),
        _ => panic!("expected an address of eight bytes"),
    }
    assert_eq!(MacAddr::from_bytes(&bytes).unwrap().to_bytes(), bytes[..8].to_vec());
}

#[test]
fn other_lengths_are_refused_with_the_length() {
    for n in [0usize, 1, 5, 7] {
        let bytes = vec![9u8; n];
        match MacAddr::from_bytes(&bytes) {
            Err(e) => assert_eq!(e, InvalidInput { bytes_read: n }),
            Ok(_) => panic!("expected a refusal"),
        }
    }
}

#[test]
fn link_family_constants() {
    assert_eq!(RtLinkFamily::from(128u8), RtLinkFamily::IPMR);
    assert_eq!(RtLinkFamily::from(129u8), RtLinkFamily::IP6MR);
    assert_eq!(RtLinkFamily::from(3u8), RtLinkFamily::UnrecognizedConst(3));
    assert_eq!(u8::from(RtLinkFamily::IPMR), 128);
    assert_eq!(u8::from(RtLinkFamily::IP6MR), 129);
    assert_eq!(u8::from(RtLinkFamily::UnrecognizedConst(77)), 77);
    assert!(RtLinkFamily::UnrecognizedConst(3).is_unrecognized());
    assert!(!RtLinkFamily::IPMR.is_unrecognized());
}

#[test]
fn ethtool_constants() {
    assert_eq!(EthtoolCommand::from(45u8), EthtoolCommand::PhyGet);
    assert_eq!(EthtoolCommand::from(32u8), EthtoolCommand::StatsGet);
    assert_eq!(EthtoolCommand::from(0u8), EthtoolCommand::UnrecognizedConst(0));
    assert_eq!(u8::from(EthtoolCommand::PhyGet), 45);
    assert_eq!(u8::from(EthtoolCommand::StatsGet), 32);
    assert_eq!(EthtoolUpstreamType::from(0u32), EthtoolUpstreamType::Mac);
    assert_eq!(EthtoolUpstreamType::from(1u32), EthtoolUpstreamType::Phy);
    assert_eq!(EthtoolUpstreamType::from(2u32), EthtoolUpstreamType::UnrecognizedConst(2));
    assert_eq!(u32::from(EthtoolUpstreamType::Phy), 1);
    let attrs = [
        EthtoolPhyAttribute::Unspecified,
        EthtoolPhyAttribute::ReqHdr,
        EthtoolPhyAttribute::Index,
        EthtoolPhyAttribute::DrvName,
        EthtoolPhyAttribute::Name,
        EthtoolPhyAttribute::UpstreamType,
        EthtoolPhyAttribute::UpstreamIndex,
        EthtoolPhyAttribute::UpstreamSfpName,
        EthtoolPhyAttribute::DownstreamSfpName,
    ];
    for (code, attr) in attrs.iter().enumerate() {
        assert_eq!(EthtoolPhyAttribute::from(code as u16), *attr);
        assert_eq!(u16::from(*attr), code as u16);
        assert!(!attr.is_unrecognized());
    }
    assert_eq!(EthtoolPhyAttribute::from(9u16), EthtoolPhyAttribute::UnrecognizedConst(9));
}

#[test]
fn nl80211_constants() {
    let commands =
        [(0u8, Nl80211Command::Unspecified), (1, Nl80211Command::GetWiPhy), (5, Nl80211Command::GetInterface)];
    for (code, command) in commands {
        assert_eq!(Nl80211Command::from(code), command);
        assert_eq!(u8::from(command), code);
    }
    assert_eq!(Nl80211Command::from(2u8), Nl80211Command::UnrecognizedConst(2));
    let types = [
        (0u32, Nl80211IfType::Unspecified),
        (2, Nl80211IfType::Station),
        (3, Nl80211IfType::Ap),
        (6, Nl80211IfType::Monitor),
        (10, Nl80211IfType::P2pDevice),
    ];
    for (code, ty) in types {
        assert_eq!(Nl80211IfType::from(code), ty);
        assert_eq!(u32::from(ty), code);
    }
    assert_eq!(Nl80211IfType::from(1u32), Nl80211IfType::UnrecognizedConst(1));
    let attrs = [
        (0u16, Nl80211InterfaceAttribute::Unspecified),
        (1, Nl80211InterfaceAttribute::WiPhy),
        (3, Nl80211InterfaceAttribute::IfIndex),
        (4, Nl80211InterfaceAttribute::IfName),
        (5, Nl80211InterfaceAttribute::IfType),
        (6, Nl80211InterfaceAttribute::Mac),
        (46, Nl80211InterfaceAttribute::Generation),
        (52, Nl80211InterfaceAttribute::Ssid),
        (83, Nl80211InterfaceAttribute::Addr4),
        (98, Nl80211InterfaceAttribute::WiPhyTxPowerLevel),
        (153, Nl80211InterfaceAttribute::Wdev),
        (265, Nl80211InterfaceAttribute::TxqStats),
        (333, Nl80211InterfaceAttribute::VifRadioMask),
    ];
    for (code, attr) in attrs {
        assert_eq!(Nl80211InterfaceAttribute::from(code), attr);
        assert_eq!(u16::from(attr), code);
    }
    assert_eq!(
        Nl80211InterfaceAttribute::from(2u16),
        Nl80211InterfaceAttribute::UnrecognizedConst(2)
    );
    assert_eq!(u16::from(Nl80211InterfaceAttribute::UnrecognizedConst(4)), 4);
}

#[test]
fn header_flags_are_sets_of_bits() {
    assert_eq!((COMPACT_BITSETS, OMIT_REPLY, STATS, ALL_FLAGS), (1, 2, 4, 7));
    assert_eq!(EthToolCommandHeaderFlags::empty().bits(), 0);
    assert_eq!(EthToolCommandHeaderFlags::all().bits(), 7);
    assert_eq!(EthToolCommandHeaderFlags::from_bits(5), Some(EthToolCommandHeaderFlags(5)));
    assert_eq!(EthToolCommandHeaderFlags::from_bits(8), None);
    assert_eq!(EthToolCommandHeaderFlags::from_bits(9), None);
    assert_eq!(EthToolCommandHeaderFlags::from_bits_truncate(13).bits(), 5);
    let a = EthToolCommandHeaderFlags(COMPACT_BITSETS);
    let b = EthToolCommandHeaderFlags(STATS);
    let both = a.union(b);
    assert_eq!(both.bits(), 5);
    assert!(both.contains(a));
    assert!(both.contains(b));
    assert!(!a.contains(both));
    assert!(!both.contains(EthToolCommandHeaderFlags(OMIT_REPLY)));
    assert!(a.contains(EthToolCommandHeaderFlags::empty()));
    let header = EthToolCommandHeader {
        dev_index: 2,
        dev_name: "eth0".to_string(),
        flags: both,
        phy_index: 0,
    };
    assert_eq!(header.flags.bits(), 5);
}

#[test]
fn cloned_address_has_the_same_bytes() {
    let short = MacAddr::from_bytes(&[1, 2, 3, 4, 5, 6]).unwrap();
    assert_eq!(short.clone().to_bytes(), vec![1, 2, 3, 4, 5, 6]);
    let long = MacAddr::Mac8(MacAddr8::new(8, 7, 6, 5, 4, 3, 2, 1));
    assert_eq!(long.clone().to_bytes(), vec![8, 7, 6, 5, 4, 3, 2, 1]);
}
