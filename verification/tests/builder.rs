use instance_spec::assembly::SpecBuilderError;
use instance_spec::components::{
    BackendSpec, DeviceSpec, QemuPvpanic, SerialPortNumber,
};
use instance_spec::config::Config;
use instance_spec::error::ServerSpecBuilderError;
use instance_spec::pci::{PciPath, Slot};
use instance_spec::request::{DiskRequest, InstanceProperties, NetworkInterfaceRequest};
use instance_spec::server::{make_disk_from_request, ServerSpecBuilder};
use serde_json::Value;
use uuid::Uuid;

fn default_spec_builder() -> Result<ServerSpecBuilder, ServerSpecBuilderError> {
    ServerSpecBuilder::new(&InstanceProperties { memory: 512, vcpus: 4 }, &Config::default())
}

/// A request to construct a volume in a file, as a client sends it.
fn file_volume(path: &str) -> Value {
    let mut request = serde_json::Map::new();
    request.insert("type".to_string(), Value::String("file".to_string()));
    request.insert("id".to_string(), Value::String(Uuid::new_v4().to_string()));
    request.insert("block_size".to_string(), Value::from(512u64));
    request.insert("path".to_string(), Value::String(path.to_string()));
    Value::Object(request)
}

fn disk(name: &str, slot: u8, device: &str, path: &str) -> DiskRequest {
    DiskRequest {
        name: name.to_string(),
        slot: Slot(slot),
        read_only: true,
        device: device.to_string(),
        volume_construction_request: file_volume(path),
    }
}

fn path(bus: u8, device: u8, function: u8) -> PciPath {
    PciPath::new(bus, device, function).unwrap()
}

#[test]
fn make_default_builder() {
    assert!(default_spec_builder().is_ok());
}

#[test]
fn duplicate_pci_slot() {
    let mut builder = default_spec_builder().unwrap();

    // Adding the same disk device twice should fail.
    assert!(builder.add_disk_from_request(&disk("disk1", 0, "nvme", "disk1.img")).is_ok());
    assert!(matches!(
        builder.add_disk_from_request(&disk("disk2", 0, "virtio", "disk2.img")).err(),
        Some(ServerSpecBuilderError::InnerBuilderError(SpecBuilderError::PciPathInUse(_)))
    ));
}

#[test]
fn duplicate_serial_port() {
    let mut builder = default_spec_builder().unwrap();
    assert!(builder.add_serial_port(SerialPortNumber::Com1).is_ok());
    assert!(builder.add_serial_port(SerialPortNumber::Com2).is_ok());
    assert!(builder.add_serial_port(SerialPortNumber::Com3).is_ok());
    assert!(builder.add_serial_port(SerialPortNumber::Com4).is_ok());
    assert!(matches!(
        builder.add_serial_port(SerialPortNumber::Com1).err(),
        Some(ServerSpecBuilderError::InnerBuilderError(SpecBuilderError::SerialPortInUse(_)))
    ));
}

#[test]
fn unknown_storage_device_type() {
    let mut builder = default_spec_builder().unwrap();
    assert!(matches!(
        builder.add_disk_from_request(&disk("disk3", 0, "virtio-scsi", "disk3.img")).err(),
        Some(ServerSpecBuilderError::UnrecognizedStorageDevice(_))
    ));
}

#[test]
fn default_build_holds_only_the_panic_device() {
    let mut builder = default_spec_builder().unwrap();
    assert!(builder.add_devices_from_config(&Config::default()).is_ok());
    let spec = builder.finish();
    assert_eq!(spec.cpus, 4);
    assert_eq!(spec.memory_mb, 512);
    assert!(!spec.enable_pcie);
    assert_eq!(spec.pvpanic, Some(QemuPvpanic { enable_isa: true }));
    assert!(spec.devices.is_empty());
    assert!(spec.backends.is_empty());
    assert!(spec.serial_ports.is_empty());
    assert!(spec.softnpu_pci_port.is_none());
    assert!(spec.softnpu_ports.is_empty());
    assert!(spec.softnpu_p9.is_none());
    assert!(spec.p9fs.is_none());
}

#[test]
fn duplicate_pci_slot_names_the_address_and_keeps_the_first_disk() {
    let mut builder = default_spec_builder().unwrap();
    builder.add_disk_from_request(&disk("disk1", 0, "nvme", "disk1.img")).unwrap();
    match builder.add_disk_from_request(&disk("disk2", 0, "virtio", "disk2.img")) {
        Err(ServerSpecBuilderError::InnerBuilderError(SpecBuilderError::PciPathInUse(p))) => {
            assert_eq!(p, path(0, 0x10, 0));
        }
        other => panic!("unexpected outcome {:?}", other),
    }
    let spec = builder.finish();
    assert_eq!(spec.devices.len(), 1);
    assert_eq!(spec.backends.len(), 1);
    assert!(spec.devices.contains_key("disk1"));
    assert!(!spec.devices.contains_key("disk2"));
    assert!(!spec.backends.contains_key("disk2"));
}

#[test]
fn duplicate_serial_port_names_the_port() {
    let mut builder = default_spec_builder().unwrap();
    builder.add_serial_port(SerialPortNumber::Com3).unwrap();
    match builder.add_serial_port(SerialPortNumber::Com3) {
        Err(ServerSpecBuilderError::InnerBuilderError(SpecBuilderError::SerialPortInUse(p))) => {
            assert_eq!(p, SerialPortNumber::Com3);
        }
        other => panic!("unexpected outcome {:?}", other),
    }
    assert_eq!(builder.finish().serial_ports, vec![SerialPortNumber::Com3]);
}

#[test]
fn unknown_storage_device_type_names_the_interface() {
    let mut builder = default_spec_builder().unwrap();
    match builder.add_disk_from_request(&disk("disk3", 0, "virtio-scsi", "disk3.img")) {
        Err(ServerSpecBuilderError::UnrecognizedStorageDevice(s)) => assert_eq!(s, "virtio-scsi"),
        other => panic!("unexpected outcome {:?}", other),
    }
    let spec = builder.finish();
    assert!(spec.devices.is_empty());
    assert!(spec.backends.is_empty());
}

#[test]
fn nic_request_is_named_by_its_address() {
    let mut builder = default_spec_builder().unwrap();
    let nic = NetworkInterfaceRequest { name: "vnic7".to_string(), slot: Slot(2) };
    builder.add_nic_from_request(&nic).unwrap();
    let spec = builder.finish();
    assert_eq!(
        spec.devices.get("vnic-0.10.0"),
        Some(&DeviceSpec::VirtioNic {
            pci_path: path(0, 10, 0),
            backend_name: "vnic-0.10.0-backend".to_string(),
        })
    );
    assert_eq!(
        spec.backends.get("vnic-0.10.0-backend"),
        Some(&BackendSpec::VirtioNetwork { vnic_name: "vnic7".to_string() })
    );
    assert_eq!(spec.devices.len(), 1);
    assert_eq!(spec.backends.len(), 1);
}

#[test]
fn nic_request_in_slot_eight_is_refused() {
    let mut builder = default_spec_builder().unwrap();
    let nic = NetworkInterfaceRequest { name: "vnic0".to_string(), slot: Slot(8) };
    match builder.add_nic_from_request(&nic) {
        Err(ServerSpecBuilderError::PciSlotInvalid(slot, ty)) => {
            assert_eq!(slot, 8);
            assert_eq!(ty, instance_spec::pci::SlotType::Nic);
        }
        other => panic!("unexpected outcome {:?}", other),
    }
}

#[test]
fn nic_and_disk_share_a_slot_number_without_colliding() {
    let mut builder = default_spec_builder().unwrap();
    let nic = NetworkInterfaceRequest { name: "vnic0".to_string(), slot: Slot(0) };
    builder.add_nic_from_request(&nic).unwrap();
    builder.add_disk_from_request(&disk("disk0", 0, "virtio", "disk0.img")).unwrap();
    builder.add_cloud_init_from_request("c2VlZA==".to_string()).unwrap();
    let spec = builder.finish();
    assert_eq!(spec.devices.len(), 3);
}

#[test]
fn disk_request_carries_the_serialized_volume() {
    let mut request = serde_json::Map::new();
    request.insert("path".to_string(), Value::String("disk1.img".to_string()));
    let mut builder = default_spec_builder().unwrap();
    builder
        .add_disk_from_request(&DiskRequest {
            name: "disk1".to_string(),
            slot: Slot(5),
            read_only: false,
            device: "virtio".to_string(),
            volume_construction_request: Value::Object(request),
        })
        .unwrap();
    let spec = builder.finish();
    assert_eq!(
        spec.devices.get("disk1"),
        Some(&DeviceSpec::VirtioDisk {
            pci_path: path(0, 0x15, 0),
            backend_name: "disk1".to_string(),
        })
    );
    assert_eq!(
        spec.backends.get("disk1"),
        Some(&BackendSpec::Crucible {
            request_json: "{\"path\":\"disk1.img\"}".to_string(),
            readonly: false,
        })
    );
}

#[test]
fn nvme_disk_request_makes_an_nvme_device() {
    let mut builder = default_spec_builder().unwrap();
    builder.add_disk_from_request(&disk("fast", 7, "nvme", "fast.img")).unwrap();
    let spec = builder.finish();
    assert_eq!(
        spec.devices.get("fast"),
        Some(&DeviceSpec::NvmeDisk { pci_path: path(0, 0x17, 0), backend_name: "fast".to_string() })
    );
    assert!(matches!(
        spec.backends.get("fast"),
        Some(BackendSpec::Crucible { readonly: true, .. })
    ));
}

#[test]
fn disk_slot_is_checked_before_the_interface() {
    let mut builder = default_spec_builder().unwrap();
    assert!(matches!(
        builder.add_disk_from_request(&disk("disk9", 8, "virtio-scsi", "disk9.img")),
        Err(ServerSpecBuilderError::PciSlotInvalid(8, instance_spec::pci::SlotType::Disk))
    ));
}

#[test]
fn failed_serialization_names_the_disk() {
    let failure = serde_json::from_str::<Value>("{").unwrap_err();
    match make_disk_from_request("disk1", Slot(0), false, "virtio", Err(failure)) {
        Err(ServerSpecBuilderError::SerializationError(name, _)) => assert_eq!(name, "disk1"),
        other => panic!("unexpected outcome {:?}", other),
    }
    let failure = serde_json::from_str::<Value>("{").unwrap_err();
    assert!(matches!(
        make_disk_from_request("disk1", Slot(9), false, "virtio", Err(failure)),
        Err(ServerSpecBuilderError::PciSlotInvalid(9, _))
    ));
}

#[test]
fn disk_is_made_from_the_serialized_volume() {
    let made = make_disk_from_request("d", Slot(1), true, "nvme", Ok("{}".to_string())).unwrap();
    assert_eq!(
        made.0,
        DeviceSpec::NvmeDisk { pci_path: path(0, 0x11, 0), backend_name: "d".to_string() }
    );
    assert_eq!(made.1, BackendSpec::Crucible { request_json: "{}".to_string(), readonly: true });
}

#[test]
fn cloud_init_is_a_read_only_blob_behind_a_virtio_disk() {
    let mut builder = default_spec_builder().unwrap();
    builder.add_cloud_init_from_request("c2VlZA==".to_string()).unwrap();
    assert!(matches!(
        builder.add_cloud_init_from_request("b3RoZXI=".to_string()),
        Err(ServerSpecBuilderError::InnerBuilderError(SpecBuilderError::PciPathInUse(_)))
    ));
    let spec = builder.finish();
    assert_eq!(
        spec.devices.get("cloud-init"),
        Some(&DeviceSpec::VirtioDisk {
            pci_path: path(0, 0x18, 0),
            backend_name: "cloud-init".to_string(),
        })
    );
    assert_eq!(
        spec.backends.get("cloud-init"),
        Some(&BackendSpec::Blob { base64: "c2VlZA==".to_string(), readonly: true })
    );
}

#[test]
fn every_backend_that_a_device_names_is_there() {
    let mut builder = default_spec_builder().unwrap();
    for slot in 0..8u8 {
        let nic = NetworkInterfaceRequest { name: format!("net{}", slot), slot: Slot(slot) };
        builder.add_nic_from_request(&nic).unwrap();
        builder
            .add_disk_from_request(&disk(&format!("disk{}", slot), slot, "nvme", "d.img"))
            .unwrap();
    }
    let spec = builder.finish();
    assert_eq!(spec.devices.len(), 16);
    let mut seen: Vec<PciPath> = Vec::new();
    for i in 0..spec.devices.len() {
        let device = spec.devices.value_at(i);
        let backend_name = match device {
            DeviceSpec::VirtioDisk { backend_name, .. } => backend_name,
            DeviceSpec::NvmeDisk { backend_name, .. } => backend_name,
            DeviceSpec::VirtioNic { backend_name, .. } => backend_name,
            DeviceSpec::PciPciBridge { .. } => unreachable!(),
        };
        assert!(spec.backends.contains_key(backend_name));
        assert!(!seen.contains(&device.pci_path()));
        seen.push(device.pci_path());
    }
}
