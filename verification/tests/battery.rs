use barcore::battery::{supply_type, BatteryMessage, PowerSupply, PowerSupplyStatus, PowerSupplyType};

#[test]
fn every_kind_has_its_name() {
    let names = [
        ("Battery", PowerSupplyType::Battery),
        ("UPS", PowerSupplyType::UPS),
        ("Mains", PowerSupplyType::Mains),
        ("USB", PowerSupplyType::USB),
        ("USB_DCP", PowerSupplyType::UsbDcp),
        ("USB_CDP", PowerSupplyType::UsbCdp),
        ("USB_ACA", PowerSupplyType::UsbAca),
        ("USB_C", PowerSupplyType::UsbC),
        ("USB_PD", PowerSupplyType::UsbPd),
        ("USB_PD_DRP", PowerSupplyType::UsbPdDrp),
        ("BrickID", PowerSupplyType::BrickID),
        ("Wireless", PowerSupplyType::Wireless),
        ("", PowerSupplyType::Unknown),
        ("battery", PowerSupplyType::Unknown),
        ("Battery ", PowerSupplyType::Unknown),
    ];
    for (name, kind) in names {
        assert_eq!(PowerSupplyType::from_name(name), kind);
        assert_eq!(name.parse::<PowerSupplyType>(), Ok(kind));
    }
}

#[test]
fn every_status_has_its_name() {
    let names = [
        ("Charging", PowerSupplyStatus::Charging),
        ("Discharging", PowerSupplyStatus::Discharging),
        ("Not charging", PowerSupplyStatus::NotCharging),
        ("Full", PowerSupplyStatus::Full),
        ("Unknown", PowerSupplyStatus::Unknown),
        ("NotCharging", PowerSupplyStatus::Unknown),
        ("", PowerSupplyStatus::Unknown),
    ];
    for (name, status) in names {
        assert_eq!(PowerSupplyStatus::from_name(name), status);
        assert_eq!(name.parse::<PowerSupplyStatus>(), Ok(status));
    }
}

#[test]
fn file_contents_are_trimmed() {
    assert_eq!(supply_type("Mains\n"), PowerSupplyType::Mains);
    assert_eq!(supply_type("  USB_C \n"), PowerSupplyType::UsbC);
    assert_eq!(supply_type("Mains x"), PowerSupplyType::Unknown);
    assert_eq!(
        PowerSupply::battery("Not charging\n", 87),
        PowerSupply::Battery { status: PowerSupplyStatus::NotCharging, capacity: 87 }
    );
    assert_eq!(
        PowerSupply::battery("Full", 100),
        PowerSupply::Battery { status: PowerSupplyStatus::Full, capacity: 100 }
    );
}

#[test]
fn mains_is_online_over_zero() {
    assert_eq!(PowerSupply::mains(0), PowerSupply::Mains { online: false });
    assert_eq!(PowerSupply::mains(1), PowerSupply::Mains { online: true });
    assert_eq!(PowerSupply::mains(2), PowerSupply::Mains { online: true });
    let BatteryMessage::UpdatePowerSupplies(list) =
        BatteryMessage::UpdatePowerSupplies(vec![PowerSupply::mains(1)]);
    assert_eq!(list, vec![PowerSupply::Mains { online: true }]);
}
