//! The builder with which a server assembles the specification of an
//! instance from what a client requests and what its own configuration holds.

use crate::assembly::{BuilderModel, InstanceSpecV0, SpecBuilder};
use crate::components::{BackendSpec, DeviceSpec, P9fs, QemuPvpanic, SerialPortNumber, SoftNpuPort};
use crate::config::{block_device_models, BlockDevice, Config, Device, PciBridge};
use crate::error::{config_error, unit_result_model, ServerErrorModel, ServerSpecBuilderError};
use crate::name_map::NameMap;
use crate::outcome::{
    add_elements, add_requested, bridge_outcome, bridges_outcome, config_outcome, device_outcome,
    devices_outcome, done, initial_builder, p9fs_outcome, serial_port_outcome,
    softnpu_p9_outcome, softnpu_pci_port_outcome, softnpu_port_outcome, state_wf,
    storage_elements_from_config, Outcome, DEFAULT_CHUNK_SIZE,
};
use crate::pci::{PciPath, Slot, SlotType};
use crate::request::{
    serialize_volume_request, volume_request_json, DiskRequest, InstanceProperties,
    NetworkInterfaceRequest,
};
use crate::synth::{
    cloud_init_elements, disk_elements, make_storage_backend_from_config,
    make_storage_device_from_config, network_elements_from_config, nic_elements, pci_bridge_name,
    pci_path_to_nic_names, slot_to_pci_path, Elements,
};
use crate::text::str_eq;
use vstd::prelude::*;
use vstd::string::*;

verus! {

/// The error that says that the chipset's PCI Express flag is no flag, given
/// the TOML text of the value that stands in its place.
pub fn invalid_pcie_error(value_text: &str) -> (error: ServerSpecBuilderError)
    ensures
        error@ == ServerErrorModel::ConfigTomlError(
            "Invalid value "@ + value_text@ + " for enable-pcie flag in chipset"@,
        ),
{
    let mut message = String::from_str("Invalid value ");
    message.append(value_text);
    message.append(" for enable-pcie flag in chipset");
    ServerSpecBuilderError::ConfigTomlError(message)
}

/// A helper for building instance specifications out of component parts.
pub struct ServerSpecBuilder {
    builder: SpecBuilder,
    accelerator_plane: bool,
}

impl View for ServerSpecBuilder {
    type V = BuilderModel;

    closed spec fn view(&self) -> BuilderModel {
        self.builder@
    }
}

impl ServerSpecBuilder {
    /// Whether the builder knows the devices of the network accelerator.
    pub closed spec fn accelerator_plane(&self) -> bool {
        self.accelerator_plane
    }

    /// Whether no table of the specification so far holds a name twice, and
    /// no serial port is listed twice.
    pub closed spec fn tables_distinct(&self) -> bool {
        self.builder.tables_distinct()
    }

    /// Whether the builder is consistent.
    pub open spec fn wf(&self) -> bool {
        state_wf(self@) && self.tables_distinct()
    }

    /// Creates a builder from an instance's properties and the server's
    /// configuration. The builder does not know the devices of the network
    /// accelerator.
    pub fn new(properties: &InstanceProperties, config: &Config) -> (result: Result<
        ServerSpecBuilder,
        ServerSpecBuilderError,
    >)
        ensures
            match result {
                Ok(builder) => {
                    &&& initial_builder(properties.vcpus, properties.memory, config@.chipset) == Ok::<
                        BuilderModel,
                        ServerErrorModel,
                    >(builder@)
                    &&& builder.wf()
                    &&& !builder.accelerator_plane()
                },
                Err(e) => initial_builder(properties.vcpus, properties.memory, config@.chipset)
                    == Err::<BuilderModel, ServerErrorModel>(e@),
            },
    {
        let enable_pcie = match config.chipset.options.get("enable-pcie") {
            None => false,
            Some(value) => match value.as_flag() {
                Some(flag) => flag,
                None => {
                    return Err(invalid_pcie_error(value.text().as_str()));
                },
            },
        };
        let mut builder = SpecBuilder::new(properties.vcpus, properties.memory, enable_pcie);
        builder.add_pvpanic_device(QemuPvpanic { enable_isa: true });
        Ok(ServerSpecBuilder { builder, accelerator_plane: false })
    }

    /// Lets the builder know the devices of the network accelerator, which
    /// only deployments with a software network accelerator have.
    pub fn enable_accelerator_plane(&mut self)
        ensures
            final(self)@ == old(self)@,
            final(self).tables_distinct() == old(self).tables_distinct(),
            final(self).accelerator_plane(),
    {
        self.accelerator_plane = true;
    }

    /// Hands a device and its backend to the inner builder.
    fn add_pair(
        &mut self,
        device_name: String,
        device: DeviceSpec,
        backend_name: String,
        backend: BackendSpec,
    ) -> (result: Result<(), ServerSpecBuilderError>)
        requires
            old(self).wf(),
            device@.backend_name() == Some(backend_name@),
        ensures
            final(self).wf(),
            final(self).accelerator_plane() == old(self).accelerator_plane(),
            (Outcome { state: final(self)@, result: unit_result_model(result) }) == add_elements(
                old(self)@,
                Elements {
                    device_name: device_name@,
                    device: device@,
                    backend_name: backend_name@,
                    backend: backend@,
                },
            ),
    {
        match self.builder.add_device(device_name, device, backend_name, backend) {
            Ok(()) => Ok(()),
            Err(e) => Err(ServerSpecBuilderError::from(e)),
        }
    }

    /// Converts a request to add a network interface to an instance into a
    /// device and a backend of the specification under construction.
    pub fn add_nic_from_request(&mut self, nic: &NetworkInterfaceRequest) -> (result: Result<
        (),
        ServerSpecBuilderError,
    >)
        requires
            old(self).wf(),
        ensures
            final(self).wf(),
            final(self).accelerator_plane() == old(self).accelerator_plane(),
            (Outcome { state: final(self)@, result: unit_result_model(result) }) == add_requested(
                old(self)@,
                nic_elements(nic.slot.0, nic.name@),
            ),
    {
        let pci_path = match slot_to_pci_path(nic.slot, SlotType::Nic) {
            Ok(pci_path) => pci_path,
            Err(e) => {
                return Err(e);
            },
        };
        let (device_name, backend_name) = pci_path_to_nic_names(pci_path);
        let device_spec = DeviceSpec::VirtioNic { pci_path, backend_name: backend_name.clone() };
        let backend_spec = BackendSpec::VirtioNetwork { vnic_name: nic.name.clone() };
        self.add_pair(device_name, device_spec, backend_name, backend_spec)
    }

    /// Converts a request to add a disk to an instance into a device and a
    /// backend of the specification under construction.
    pub fn add_disk_from_request(&mut self, disk: &DiskRequest) -> (result: Result<
        (),
        ServerSpecBuilderError,
    >)
        requires
            old(self).wf(),
        ensures
            final(self).wf(),
            final(self).accelerator_plane() == old(self).accelerator_plane(),
            (Outcome { state: final(self)@, result: unit_result_model(result) }) == add_requested(
                old(self)@,
                disk_elements(
                    disk.name@,
                    disk.slot.0,
                    disk.read_only,
                    disk.device@,
                    volume_request_json(disk.volume_construction_request),
                ),
            ),
    {
        let request_json = serialize_volume_request(&disk.volume_construction_request);
        match make_disk_from_request(
            disk.name.as_str(),
            disk.slot,
            disk.read_only,
            disk.device.as_str(),
            request_json,
        ) {
            Err(e) => Err(e),
            Ok((device_spec, backend_spec)) => self.add_pair(
                disk.name.clone(),
                device_spec,
                disk.name.clone(),
                backend_spec,
            ),
        }
    }

    /// Converts a request to add a cloud-init disk to an instance into a
    /// device and a backend of the specification under construction.
    pub fn add_cloud_init_from_request(&mut self, base64: String) -> (result: Result<
        (),
        ServerSpecBuilderError,
    >)
        requires
            old(self).wf(),
        ensures
            final(self).wf(),
            final(self).accelerator_plane() == old(self).accelerator_plane(),
            (Outcome { state: final(self)@, result: unit_result_model(result) }) == add_elements(
                old(self)@,
                cloud_init_elements(base64@),
            ),
    {
        let name = "cloud-init";
        let pci_path = match slot_to_pci_path(Slot(0), SlotType::CloudInit) {
            Ok(pci_path) => pci_path,
            Err(e) => {
                return Err(e);
            },
        };
        let backend_spec = BackendSpec::Blob { base64, readonly: true };
        let device_spec = DeviceSpec::VirtioDisk { pci_path, backend_name: String::from_str(name) };
        self.add_pair(String::from_str(name), device_spec, String::from_str(name), backend_spec)
    }

    /// Adds the disk that an entry of the device table describes, with the
    /// backend to which it refers.
    fn add_storage_device_from_config(
        &mut self,
        name: &String,
        device: &Device,
        block_devs: &NameMap<BlockDevice>,
    ) -> (result: Result<(), ServerSpecBuilderError>)
        requires
            old(self).wf(),
        ensures
            final(self).wf(),
            final(self).accelerator_plane() == old(self).accelerator_plane(),
            (Outcome { state: final(self)@, result: unit_result_model(result) }) == add_requested(
                old(self)@,
                storage_elements_from_config(
                    name@,
                    device@,
                    block_device_models(block_devs@),
                ),
            ),
    {
        let device_spec = match make_storage_device_from_config(name.as_str(), device) {
            Ok(device_spec) => device_spec,
            Err(e) => {
                return Err(e);
            },
        };
        let backend_name = match &device_spec {
            DeviceSpec::VirtioDisk { backend_name, .. } => backend_name.clone(),
            DeviceSpec::NvmeDisk { backend_name, .. } => backend_name.clone(),
            _ => unreached(),
        };
        let backend_config = match block_devs.get(backend_name.as_str()) {
            Some(backend_config) => backend_config,
            None => {
                return Err(
                    ServerSpecBuilderError::DeviceMissingBackend(name.clone(), backend_name),
                );
            },
        };
        let backend_spec = match make_storage_backend_from_config(
            backend_name.as_str(),
            backend_config,
        ) {
            Ok(backend_spec) => backend_spec,
            Err(e) => {
                return Err(e);
            },
        };
        self.add_pair(name.clone(), device_spec, backend_name, backend_spec)
    }

    /// Adds the network interface that an entry of the device table describes.
    fn add_network_device_from_config(&mut self, name: &str, device: &Device) -> (result: Result<
        (),
        ServerSpecBuilderError,
    >)
        requires
            old(self).wf(),
        ensures
            final(self).wf(),
            final(self).accelerator_plane() == old(self).accelerator_plane(),
            (Outcome { state: final(self)@, result: unit_result_model(result) }) == add_requested(
                old(self)@,
                network_elements_from_config(name@, device@),
            ),
    {
        let vnic_name = match device.get_string("vnic") {
            Some(vnic_name) => vnic_name,
            None => {
                return Err(config_error("Failed to get vNIC name for device ", name));
            },
        };
        let pci_path = match device.get_pci_path("pci-path") {
            Some(pci_path) => pci_path,
            None => {
                return Err(config_error("Failed to get PCI path for network device ", name));
            },
        };
        let (device_name, backend_name) = pci_path_to_nic_names(pci_path);
        let backend_spec = BackendSpec::VirtioNetwork { vnic_name: String::from_str(vnic_name) };
        let device_spec = DeviceSpec::VirtioNic { pci_path, backend_name: backend_name.clone() };
        self.add_pair(device_name, device_spec, backend_name, backend_spec)
    }

    /// Adds a bridge that the configuration describes.
    fn add_pci_bridge_from_config(&mut self, bridge: &PciBridge) -> (result: Result<
        (),
        ServerSpecBuilderError,
    >)
        requires
            old(self).wf(),
        ensures
            final(self).wf(),
            final(self).accelerator_plane() == old(self).accelerator_plane(),
            (Outcome { state: final(self)@, result: unit_result_model(result) }) == bridge_outcome(
                old(self)@,
                bridge@,
            ),
    {
        let name = pci_bridge_name(bridge.downstream_bus);
        let pci_path = match PciPath::from_str(bridge.pci_path.as_str()) {
            Some(pci_path) => pci_path,
            None => {
                return Err(ServerSpecBuilderError::PciPathNotParseable(bridge.pci_path.clone()));
            },
        };
        match self.builder.add_pci_bridge(name, bridge.downstream_bus, pci_path) {
            Ok(()) => Ok(()),
            Err(e) => Err(ServerSpecBuilderError::from(e)),
        }
    }

    /// Sets the network accelerator's 9P device as an entry of the device
    /// table describes it.
    fn add_softnpu_p9_from_config(&mut self, name: &str, device: &Device) -> (result: Result<
        (),
        ServerSpecBuilderError,
    >)
        requires
            old(self).wf(),
        ensures
            final(self).wf(),
            final(self).accelerator_plane() == old(self).accelerator_plane(),
            (Outcome { state: final(self)@, result: unit_result_model(result) })
                == softnpu_p9_outcome(old(self)@, name@, device@),
    {
        let pci_path = match device.get_pci_path("pci-path") {
            Some(pci_path) => pci_path,
            None => {
                return Err(config_error("Failed to get PCI path for storage device ", name));
            },
        };
        match self.builder.set_softnpu_p9(pci_path) {
            Ok(()) => Ok(()),
            Err(e) => Err(ServerSpecBuilderError::from(e)),
        }
    }

    /// Sets the network accelerator's PCI port as an entry of the device
    /// table describes it.
    fn add_softnpu_pci_port_from_config(&mut self, name: &str, device: &Device) -> (result: Result<
        (),
        ServerSpecBuilderError,
    >)
        requires
            old(self).wf(),
        ensures
            final(self).wf(),
            final(self).accelerator_plane() == old(self).accelerator_plane(),
            (Outcome { state: final(self)@, result: unit_result_model(result) })
                == softnpu_pci_port_outcome(old(self)@, name@, device@),
    {
        let pci_path = match device.get_pci_path("pci-path") {
            Some(pci_path) => pci_path,
            None => {
                return Err(config_error("Failed to get PCI path for network device ", name));
            },
        };
        match self.builder.set_softnpu_pci_port(pci_path) {
            Ok(()) => Ok(()),
            Err(e) => Err(ServerSpecBuilderError::from(e)),
        }
    }

    /// Adds the port of the network accelerator that an entry of the device
    /// table describes.
    fn add_softnpu_device_from_config(&mut self, name: &str, device: &Device) -> (result: Result<
        (),
        ServerSpecBuilderError,
    >)
        requires
            old(self).wf(),
        ensures
            final(self).wf(),
            final(self).accelerator_plane() == old(self).accelerator_plane(),
            (Outcome { state: final(self)@, result: unit_result_model(result) })
                == softnpu_port_outcome(old(self)@, name@, device@),
    {
        let vnic_name = match device.get_string("vnic") {
            Some(vnic_name) => vnic_name,
            None => {
                return Err(config_error("Failed to parse vNIC name for device ", name));
            },
        };
        self.builder.add_softnpu_port(
            String::from_str(name),
            SoftNpuPort { name: String::from_str(name), backend_name: String::from_str(vnic_name) },
        );
        Ok(())
    }

    /// Sets the 9P filesystem device as an entry of the device table
    /// describes it.
    fn add_p9fs_from_config(&mut self, name: &str, device: &Device) -> (result: Result<
        (),
        ServerSpecBuilderError,
    >)
        requires
            old(self).wf(),
        ensures
            final(self).wf(),
            final(self).accelerator_plane() == old(self).accelerator_plane(),
            (Outcome { state: final(self)@, result: unit_result_model(result) }) == p9fs_outcome(
                old(self)@,
                name@,
                device@,
            ),
    {
        let source = match device.get_string("source") {
            Some(source) => String::from_str(source),
            None => {
                return Err(config_error("Failed to get source for p9 device ", name));
            },
        };
        let target = match device.get_string("target") {
            Some(target) => String::from_str(target),
            None => {
                return Err(config_error("Failed to get target for p9 device ", name));
            },
        };
        let chunk_size = match device.get_u32("chunk_size") {
            Some(chunk_size) => chunk_size,
            None => DEFAULT_CHUNK_SIZE,
        };
        let pci_path = match device.get_pci_path("pci-path") {
            Some(pci_path) => pci_path,
            None => {
                return Err(config_error("Failed to get PCI path for p9 device ", name));
            },
        };
        match self.builder.set_p9fs(P9fs { source, target, chunk_size, pci_path }) {
            Ok(()) => Ok(()),
            Err(e) => Err(ServerSpecBuilderError::from(e)),
        }
    }

    /// Adds what one entry of the device table describes.
    fn add_device_from_config(
        &mut self,
        name: &String,
        device: &Device,
        block_devs: &NameMap<BlockDevice>,
    ) -> (result: Result<(), ServerSpecBuilderError>)
        requires
            old(self).wf(),
        ensures
            final(self).wf(),
            final(self).accelerator_plane() == old(self).accelerator_plane(),
            (Outcome { state: final(self)@, result: unit_result_model(result) }) == device_outcome(
                old(self)@,
                old(self).accelerator_plane(),
                name@,
                device@,
                block_device_models(block_devs@),
            ),
    {
        let driver = device.driver.as_str();
        if str_eq(driver, "pci-virtio-block") || str_eq(driver, "pci-nvme") {
            // A storage device names its backend in its "block_dev" option.
            self.add_storage_device_from_config(name, device, block_devs)
        } else if str_eq(driver, "pci-virtio-viona") {
            self.add_network_device_from_config(name.as_str(), device)
        } else if self.accelerator_plane && str_eq(driver, "softnpu-pci-port") {
            self.add_softnpu_pci_port_from_config(name.as_str(), device)
        } else if self.accelerator_plane && str_eq(driver, "softnpu-port") {
            self.add_softnpu_device_from_config(name.as_str(), device)
        } else if self.accelerator_plane && str_eq(driver, "softnpu-p9") {
            self.add_softnpu_p9_from_config(name.as_str(), device)
        } else if self.accelerator_plane && str_eq(driver, "pci-virtio-9p") {
            self.add_p9fs_from_config(name.as_str(), device)
        } else {
            Err(config_error("Unrecognized device type ", driver))
        }
    }

    /// Adds all the devices and backends that the configuration describes to
    /// the specification under construction. Where an entry fails, what the
    /// entries before it described stays added.
    pub fn add_devices_from_config(&mut self, config: &Config) -> (result: Result<
        (),
        ServerSpecBuilderError,
    >)
        requires
            old(self).wf(),
        ensures
            final(self).wf(),
            final(self).accelerator_plane() == old(self).accelerator_plane(),
            (Outcome { state: final(self)@, result: unit_result_model(result) }) == config_outcome(
                old(self)@,
                old(self).accelerator_plane(),
                config@,
            ),
    {
        let ghost start = self@;
        let ghost accelerator_plane = self.accelerator_plane();
        let ghost devices = config@.devices;
        let ghost block_devs = config@.block_devs;
        assert(devices.skip(0) =~= devices);
        let mut i: usize = 0;
        while i < config.devices.len()
            invariant
                i <= config.devices.entries().len(),
                start == old(self)@,
                accelerator_plane == old(self).accelerator_plane(),
                devices == config@.devices,
                block_devs == config@.block_devs,
                self.wf(),
                self.accelerator_plane() == accelerator_plane,
                devices_outcome(start, accelerator_plane, devices, block_devs) == devices_outcome(
                    self@,
                    accelerator_plane,
                    devices.skip(i as int),
                    block_devs,
                ),
            decreases config.devices.entries().len() - i,
        {
            let name = config.devices.name_at(i);
            let device = config.devices.value_at(i);
            proof {
                assert(devices.skip(i as int).drop_first() =~= devices.skip(i + 1));
            }
            match self.add_device_from_config(name, device, &config.block_devs) {
                Ok(()) => {},
                Err(e) => {
                    return Err(e);
                },
            }
            i += 1;
        }
        let ghost middle = self@;
        let ghost bridges = config@.pci_bridges;
        assert(bridges.skip(0) =~= bridges);
        let mut j: usize = 0;
        while j < config.pci_bridges.len()
            invariant
                j <= config.pci_bridges@.len(),
                start == old(self)@,
                accelerator_plane == old(self).accelerator_plane(),
                bridges == config@.pci_bridges,
                devices_outcome(start, accelerator_plane, config@.devices, config@.block_devs)
                    == done(middle),
                self.wf(),
                self.accelerator_plane() == accelerator_plane,
                bridges_outcome(middle, bridges) == bridges_outcome(self@, bridges.skip(j as int)),
            decreases config.pci_bridges@.len() - j,
        {
            let bridge = &config.pci_bridges[j];
            proof {
                assert(bridges.skip(j as int).drop_first() =~= bridges.skip(j + 1));
            }
            match self.add_pci_bridge_from_config(bridge) {
                Ok(()) => {},
                Err(e) => {
                    return Err(e);
                },
            }
            j += 1;
        }
        Ok(())
    }

    /// Adds a serial port to the specification under construction.
    pub fn add_serial_port(&mut self, port: SerialPortNumber) -> (result: Result<
        (),
        ServerSpecBuilderError,
    >)
        requires
            old(self).wf(),
        ensures
            final(self).wf(),
            final(self).accelerator_plane() == old(self).accelerator_plane(),
            (Outcome { state: final(self)@, result: unit_result_model(result) })
                == serial_port_outcome(old(self)@, port),
    {
        match self.builder.add_serial_port(port) {
            Ok(()) => Ok(()),
            Err(e) => Err(ServerSpecBuilderError::from(e)),
        }
    }

    /// Yields the finished specification. The builder is used up.
    pub fn finish(self) -> (spec: InstanceSpecV0)
        ensures
            spec@ == self@.spec,
            self.wf() ==> spec@.addresses_unique() && spec@.backends_present()
                && spec.tables_distinct(),
    {
        self.builder.finish()
    }
}

/// Makes the device and the backend that a request for a disk asks for,
/// given the outcome of serializing its volume construction request.
pub fn make_disk_from_request(
    name: &str,
    slot: Slot,
    read_only: bool,
    interface: &str,
    request_json: Result<String, serde_json::Error>,
) -> (result: Result<(DeviceSpec, BackendSpec), ServerSpecBuilderError>)
    ensures
        match (
            result,
            disk_elements(
                name@,
                slot.0,
                read_only,
                interface@,
                match request_json {
                    Ok(json) => Some(json@),
                    Err(_) => None,
                },
            ),
        ) {
            (Ok((device, backend)), Ok(elements)) => {
                &&& device@ == elements.device
                &&& backend@ == elements.backend
                &&& elements.device_name == name@
                &&& elements.backend_name == name@
            },
            (Err(e), Err(error)) => e@ == error,
            _ => false,
        },
{
    let pci_path = match slot_to_pci_path(slot, SlotType::Disk) {
        Ok(pci_path) => pci_path,
        Err(e) => {
            return Err(e);
        },
    };
    let backend_spec = match request_json {
        Ok(request_json) => BackendSpec::Crucible { request_json, readonly: read_only },
        Err(e) => {
            return Err(ServerSpecBuilderError::SerializationError(String::from_str(name), e));
        },
    };
    let device_spec = if str_eq(interface, "virtio") {
        DeviceSpec::VirtioDisk { pci_path, backend_name: String::from_str(name) }
    } else if str_eq(interface, "nvme") {
        DeviceSpec::NvmeDisk { pci_path, backend_name: String::from_str(name) }
    } else {
        return Err(ServerSpecBuilderError::UnrecognizedStorageDevice(String::from_str(interface)));
    };
    Ok((device_spec, backend_spec))
}

} // verus!
