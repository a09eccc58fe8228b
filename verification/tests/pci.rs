use instance_spec::error::ServerSpecBuilderError;
use instance_spec::pci::{PciPath, Slot, SlotType};
use instance_spec::synth::{pci_bridge_name, pci_path_to_nic_names, slot_to_pci_path};

#[test]
fn nic_slots_map_to_devices_8_to_15() {
    let mut seen = Vec::new();
    for slot in 0..8u8 {
        let path = slot_to_pci_path(Slot(slot), SlotType::Nic).unwrap();
        assert_eq!(path.bus(), 0);
        assert_eq!(path.device(), 0x08 + slot);
        assert_eq!(path.function(), 0);
        assert!(!seen.contains(&path));
        seen.push(path);
    }
    assert!(matches!(
        slot_to_pci_path(Slot(8), SlotType::Nic),
        Err(ServerSpecBuilderError::PciSlotInvalid(8, SlotType::Nic))
    ));
    assert!(slot_to_pci_path(Slot(255), SlotType::Nic).is_err());
}

#[test]
fn disk_slots_map_to_devices_16_to_23() {
    let mut seen = Vec::new();
    for slot in 0..8u8 {
        seen.push(slot_to_pci_path(Slot(slot), SlotType::Nic).unwrap());
    }
    for slot in 0..8u8 {
        let path = slot_to_pci_path(Slot(slot), SlotType::Disk).unwrap();
        assert_eq!(path.bus(), 0);
        assert_eq!(path.device(), 0x10 + slot);
        assert_eq!(path.function(), 0);
        assert!(!seen.contains(&path));
        seen.push(path);
    }
    assert!(matches!(
        slot_to_pci_path(Slot(8), SlotType::Disk),
        Err(ServerSpecBuilderError::PciSlotInvalid(8, SlotType::Disk))
    ));
}

#[test]
fn cloud_init_has_one_slot() {
    let path = slot_to_pci_path(Slot(0), SlotType::CloudInit).unwrap();
    assert_eq!((path.bus(), path.device(), path.function()), (0, 0x18, 0));
    for slot in 1..=255u8 {
        assert!(matches!(
            slot_to_pci_path(Slot(slot), SlotType::CloudInit),
            Err(ServerSpecBuilderError::PciSlotInvalid(s, SlotType::CloudInit)) if s == slot
        ));
    }
}

#[test]
fn path_numbers_must_be_in_range() {
    assert!(PciPath::new(255, 31, 7).is_some());
    assert!(PciPath::new(0, 32, 0).is_none());
    assert!(PciPath::new(0, 0, 8).is_none());
    let path = PciPath::new(3, 4, 5).unwrap();
    assert_eq!((path.bus(), path.device(), path.function()), (3, 4, 5));
    assert!(path.same(&PciPath::new(3, 4, 5).unwrap()));
    assert!(!path.same(&PciPath::new(3, 4, 6).unwrap()));
}

#[test]
fn path_text_is_three_decimals_joined_by_dots() {
    assert_eq!(PciPath::new(0, 16, 0).unwrap().to_string(), "0.16.0");
    assert_eq!(PciPath::new(255, 31, 7).unwrap().to_string(), "255.31.7");
    assert_eq!(PciPath::new(100, 9, 1).unwrap().to_string(), "100.9.1");
    assert_eq!(PciPath::new(10, 10, 0).unwrap().to_string(), "10.10.0");
}

#[test]
fn path_text_is_read_back() {
    assert_eq!(PciPath::from_str("0.16.0"), PciPath::new(0, 16, 0));
    assert_eq!(PciPath::from_str("255.31.7"), PciPath::new(255, 31, 7));
    assert_eq!(PciPath::from_str("+1.+2.+3"), PciPath::new(1, 2, 3));
    assert_eq!(PciPath::from_str("001.002.003"), PciPath::new(1, 2, 3));
    for bus in [0u8, 1, 9, 10, 99, 100, 255] {
        for device in 0..32u8 {
            for function in 0..8u8 {
                let path = PciPath::new(bus, device, function).unwrap();
                assert_eq!(PciPath::from_str(&path.to_string()), Some(path));
            }
        }
    }
}

#[test]
fn malformed_path_text_is_refused() {
    for text in [
        "", ".", "..", "0", "0.1", "0.1.2.3", "0.1.", ".1.2", "0..2", "a.b.c", "0.1.x", "0 .1.2",
        "256.0.0", "0.32.0", "0.0.8", "0.256.0", "-1.0.0", "+.0.0", "++1.0.0", "0,1,2", "0.1.2 ",
        "٠.١.٢", "99999999999999999999.0.0",
    ] {
        assert_eq!(PciPath::from_str(text), None, "{:?}", text);
    }
}

#[test]
fn nic_names_go_by_the_address() {
    let (device, backend) = pci_path_to_nic_names(PciPath::new(0, 8, 0).unwrap());
    assert_eq!(device, "vnic-0.8.0");
    assert_eq!(backend, "vnic-0.8.0-backend");
    let (device, backend) = pci_path_to_nic_names(PciPath::new(12, 31, 7).unwrap());
    assert_eq!(device, "vnic-12.31.7");
    assert_eq!(backend, "vnic-12.31.7-backend");
}

#[test]
fn bridge_names_go_by_the_downstream_bus() {
    assert_eq!(pci_bridge_name(0), "pci-bridge-0");
    assert_eq!(pci_bridge_name(7), "pci-bridge-7");
    assert_eq!(pci_bridge_name(42), "pci-bridge-42");
    assert_eq!(pci_bridge_name(255), "pci-bridge-255");
}
