use instance_spec::assembly::{SpecBuilder, SpecBuilderError};
use instance_spec::components::{
    BackendSpec, DeviceSpec, P9fs, QemuPvpanic, SerialPortNumber, SoftNpuPort,
};
use instance_spec::pci::PciPath;

fn path(bus: u8, device: u8, function: u8) -> PciPath {
    PciPath::new(bus, device, function).unwrap()
}

fn disk(at: PciPath, backend: &str) -> DeviceSpec {
    DeviceSpec::VirtioDisk { pci_path: at, backend_name: backend.to_string() }
}

fn file(path: &str) -> BackendSpec {
    BackendSpec::File { path: path.to_string(), readonly: false }
}

#[test]
fn new_builder_holds_the_board_and_nothing_else() {
    let spec = SpecBuilder::new(8, 2048, true).finish();
    assert_eq!(spec.cpus, 8);
    assert_eq!(spec.memory_mb, 2048);
    assert!(spec.enable_pcie);
    assert_eq!(spec.pvpanic, None);
    assert!(spec.devices.is_empty());
    assert!(spec.backends.is_empty());
    assert!(spec.serial_ports.is_empty());
}

#[test]
fn device_at_a_taken_address_is_refused_and_nothing_changes() {
    let mut builder = SpecBuilder::new(1, 1, false);
    builder.add_device("a".to_string(), disk(path(0, 4, 0), "sa"), "sa".to_string(), file("a"))
        .unwrap();
    assert_eq!(
        builder.add_device("b".to_string(), disk(path(0, 4, 0), "sb"), "sb".to_string(), file("b")),
        Err(SpecBuilderError::PciPathInUse(path(0, 4, 0)))
    );
    assert_eq!(
        builder.add_pci_bridge("bridge".to_string(), 1, path(0, 4, 0)),
        Err(SpecBuilderError::PciPathInUse(path(0, 4, 0)))
    );
    let spec = builder.finish();
    assert_eq!(spec.devices.len(), 1);
    assert_eq!(spec.backends.len(), 1);
    assert_eq!(spec.devices.get("a"), Some(&disk(path(0, 4, 0), "sa")));
    assert_eq!(spec.backends.get("sa"), Some(&file("a")));
    assert_eq!(spec.backends.get("sb"), None);
}

#[test]
fn a_name_that_is_used_again_gets_the_new_part() {
    let mut builder = SpecBuilder::new(1, 1, false);
    builder.add_device("a".to_string(), disk(path(0, 4, 0), "s"), "s".to_string(), file("one"))
        .unwrap();
    builder.add_device("a".to_string(), disk(path(0, 5, 0), "s"), "s".to_string(), file("two"))
        .unwrap();
    // The address of the device that was replaced stays taken.
    assert_eq!(
        builder.add_pci_bridge("bridge".to_string(), 1, path(0, 4, 0)),
        Err(SpecBuilderError::PciPathInUse(path(0, 4, 0)))
    );
    let spec = builder.finish();
    assert_eq!(spec.devices.len(), 1);
    assert_eq!(spec.devices.get("a"), Some(&disk(path(0, 5, 0), "s")));
    assert_eq!(spec.backends.get("s"), Some(&file("two")));
}

#[test]
fn bridges_share_the_addresses_with_the_devices() {
    let mut builder = SpecBuilder::new(1, 1, false);
    builder.add_pci_bridge("pci-bridge-1".to_string(), 1, path(0, 6, 0)).unwrap();
    assert_eq!(
        builder.add_device("a".to_string(), disk(path(0, 6, 0), "s"), "s".to_string(), file("a")),
        Err(SpecBuilderError::PciPathInUse(path(0, 6, 0)))
    );
    let spec = builder.finish();
    assert_eq!(
        spec.devices.get("pci-bridge-1"),
        Some(&DeviceSpec::PciPciBridge { pci_path: path(0, 6, 0), downstream_bus: 1 })
    );
    assert!(spec.backends.is_empty());
}

#[test]
fn serial_ports_are_added_once() {
    let mut builder = SpecBuilder::new(1, 1, false);
    assert_eq!(builder.add_serial_port(SerialPortNumber::Com2), Ok(()));
    assert_eq!(builder.add_serial_port(SerialPortNumber::Com1), Ok(()));
    assert_eq!(
        builder.add_serial_port(SerialPortNumber::Com2),
        Err(SpecBuilderError::SerialPortInUse(SerialPortNumber::Com2))
    );
    assert_eq!(
        builder.finish().serial_ports,
        vec![SerialPortNumber::Com2, SerialPortNumber::Com1]
    );
}

#[test]
fn panic_device_is_set() {
    let mut builder = SpecBuilder::new(1, 1, false);
    builder.add_pvpanic_device(QemuPvpanic { enable_isa: false });
    builder.add_pvpanic_device(QemuPvpanic { enable_isa: true });
    assert_eq!(builder.finish().pvpanic, Some(QemuPvpanic { enable_isa: true }));
}

#[test]
fn accelerator_parts_take_addresses_too() {
    let mut builder = SpecBuilder::new(1, 1, false);
    builder.set_softnpu_pci_port(path(0, 7, 0)).unwrap();
    assert_eq!(
        builder.set_softnpu_p9(path(0, 7, 0)),
        Err(SpecBuilderError::PciPathInUse(path(0, 7, 0)))
    );
    builder.set_softnpu_p9(path(0, 8, 0)).unwrap();
    let fs = P9fs {
        source: "/host".to_string(),
        target: "/guest".to_string(),
        chunk_size: 512,
        pci_path: path(0, 8, 0),
    };
    assert_eq!(builder.set_p9fs(fs), Err(SpecBuilderError::PciPathInUse(path(0, 8, 0))));
    let fs = P9fs {
        source: "/host".to_string(),
        target: "/guest".to_string(),
        chunk_size: 512,
        pci_path: path(0, 9, 0),
    };
    builder.set_p9fs(fs.clone()).unwrap();
    builder.add_softnpu_port(
        "p0".to_string(),
        SoftNpuPort { name: "p0".to_string(), backend_name: "v0".to_string() },
    );
    let spec = builder.finish();
    assert_eq!(spec.softnpu_pci_port, Some(path(0, 7, 0)));
    assert_eq!(spec.softnpu_p9, Some(path(0, 8, 0)));
    assert_eq!(spec.p9fs, Some(fs));
    assert_eq!(spec.softnpu_ports.len(), 1);
}
