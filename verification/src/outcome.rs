//! What each operation of the builder comes to: the state in which it leaves
//! the builder and the result that it hands back, as functions of the state
//! before and of what was asked for.

use crate::assembly::{BuilderModel, SpecBuilderErrorModel};
use crate::components::{DeviceModel, P9fsModel, QemuPvpanic, SerialPortNumber, SoftNpuPortModel};
use crate::config::{
    pci_path_option, string_option, u32_option, BlockDeviceModel, ConfigModel, ConfigValueModel,
    DeviceConfigModel, PciBridgeModel,
};
use crate::error::ServerErrorModel;
use crate::pci::Bdf;
use crate::synth::{
    bridge_address, bridge_name, config_failure, network_elements_from_config,
    storage_backend_from_config, storage_device_from_config, Elements,
};
use vstd::prelude::*;

verus! {

/// The size in which a 9P filesystem device moves data where the
/// configuration names none.
pub const DEFAULT_CHUNK_SIZE: u32 = 65536;

/// How an operation on the builder ends: the builder after it, and the
/// result that the caller gets.
pub struct Outcome {
    pub state: BuilderModel,
    pub result: Result<(), ServerErrorModel>,
}

/// The operation failed and left the builder as it was.
pub open spec fn failed(state: BuilderModel, error: ServerErrorModel) -> Outcome {
    Outcome { state, result: Err(error) }
}

/// The operation succeeded and left the builder in state `state`.
pub open spec fn done(state: BuilderModel) -> Outcome {
    Outcome { state, result: Ok(()) }
}

/// Claiming the address `path` for a part: refused where the address was
/// given out before, else the builder goes to `next`.
pub open spec fn occupy(state: BuilderModel, path: Bdf, next: BuilderModel) -> Outcome {
    if state.pci_paths.contains(path) {
        failed(state, ServerErrorModel::InnerBuilderError(SpecBuilderErrorModel::PciPathInUse(path)))
    } else {
        done(next)
    }
}

/// Adding a device and its backend.
pub open spec fn add_elements(state: BuilderModel, e: Elements) -> Outcome {
    occupy(
        state,
        e.device.pci_path(),
        state.with_device(e.device_name, e.device, e.backend_name, e.backend),
    )
}

/// Adding what a request or a configuration entry asks for, if it asks for
/// something that can be made.
pub open spec fn add_requested(state: BuilderModel, elements: Result<Elements, ServerErrorModel>) -> Outcome {
    match elements {
        Ok(e) => add_elements(state, e),
        Err(error) => failed(state, error),
    }
}

/// Adding a serial port.
pub open spec fn serial_port_outcome(state: BuilderModel, port: SerialPortNumber) -> Outcome {
    if state.spec.serial_ports.contains(port) {
        failed(
            state,
            ServerErrorModel::InnerBuilderError(SpecBuilderErrorModel::SerialPortInUse(port)),
        )
    } else {
        done(state.with_serial_port(port))
    }
}

/// The message that says that the chipset's PCI Express flag is no flag.
pub open spec fn invalid_pcie_message(value: ConfigValueModel) -> Seq<char> {
    "Invalid value "@ + value.text() + " for enable-pcie flag in chipset"@
}

/// Whether the chipset offers PCI Express: what the option `enable-pcie`
/// says, which is a boolean or one of the strings `true` and `false`; no,
/// where the option is absent.
pub open spec fn pcie_enabled(chipset: Map<Seq<char>, ConfigValueModel>) -> Result<
    bool,
    ServerErrorModel,
> {
    if !chipset.contains_key("enable-pcie"@) {
        Ok(false)
    } else {
        match chipset["enable-pcie"@].as_flag() {
            Some(flag) => Ok(flag),
            None => Err(
                ServerErrorModel::ConfigTomlError(invalid_pcie_message(chipset["enable-pcie"@])),
            ),
        }
    }
}

/// The builder with which the assembly of an instance starts: the board as
/// the properties and the chipset options give it, and the
/// panic-notification device, reachable over ISA, as the one thing attached.
pub open spec fn initial_builder(vcpus: u8, memory: u64, chipset: Map<Seq<char>, ConfigValueModel>) -> Result<
    BuilderModel,
    ServerErrorModel,
> {
    match pcie_enabled(chipset) {
        Ok(enable_pcie) => Ok(
            BuilderModel::bare(vcpus, memory, enable_pcie).with_pvpanic(
                QemuPvpanic { enable_isa: true },
            ),
        ),
        Err(e) => Err(e),
    }
}

/// What an entry of the device table asks for that describes a disk: the
/// device as the entry describes it, and the backend that the entry of the
/// block-device table describes to which the device refers.
pub open spec fn storage_elements_from_config(
    name: Seq<char>,
    device: DeviceConfigModel,
    block_devs: Map<Seq<char>, BlockDeviceModel>,
) -> Result<Elements, ServerErrorModel> {
    match storage_device_from_config(name, device) {
        Err(e) => Err(e),
        Ok(disk) => {
            let backend_name = disk.backend_name()->0;
            if !block_devs.contains_key(backend_name) {
                Err(ServerErrorModel::DeviceMissingBackend(name, backend_name))
            } else {
                match storage_backend_from_config(backend_name, block_devs[backend_name]) {
                    Err(e) => Err(e),
                    Ok(backend) => Ok(
                        Elements { device_name: name, device: disk, backend_name, backend },
                    ),
                }
            }
        },
    }
}

/// Setting the network accelerator's PCI port from an entry of the device table.
pub open spec fn softnpu_pci_port_outcome(
    state: BuilderModel,
    name: Seq<char>,
    device: DeviceConfigModel,
) -> Outcome {
    match pci_path_option(device.options, "pci-path"@) {
        None => failed(state, config_failure("Failed to get PCI path for network device "@, name)),
        Some(path) => occupy(state, path, state.with_softnpu_pci_port(path)),
    }
}

/// Adding a port of the network accelerator from an entry of the device table.
pub open spec fn softnpu_port_outcome(
    state: BuilderModel,
    name: Seq<char>,
    device: DeviceConfigModel,
) -> Outcome {
    match string_option(device.options, "vnic"@) {
        None => failed(state, config_failure("Failed to parse vNIC name for device "@, name)),
        Some(vnic_name) => done(
            state.with_softnpu_port(name, SoftNpuPortModel { name, backend_name: vnic_name }),
        ),
    }
}

/// Setting the network accelerator's 9P device from an entry of the device table.
pub open spec fn softnpu_p9_outcome(state: BuilderModel, name: Seq<char>, device: DeviceConfigModel) -> Outcome {
    match pci_path_option(device.options, "pci-path"@) {
        None => failed(state, config_failure("Failed to get PCI path for storage device "@, name)),
        Some(path) => occupy(state, path, state.with_softnpu_p9(path)),
    }
}

/// The size in which the 9P filesystem device of an entry moves data.
pub open spec fn chunk_size_option(options: Map<Seq<char>, ConfigValueModel>) -> u32 {
    match u32_option(options, "chunk_size"@) {
        Some(size) => size,
        None => DEFAULT_CHUNK_SIZE,
    }
}

/// Setting the 9P filesystem device from an entry of the device table.
pub open spec fn p9fs_outcome(state: BuilderModel, name: Seq<char>, device: DeviceConfigModel) -> Outcome {
    match string_option(device.options, "source"@) {
        None => failed(state, config_failure("Failed to get source for p9 device "@, name)),
        Some(source) => match string_option(device.options, "target"@) {
            None => failed(state, config_failure("Failed to get target for p9 device "@, name)),
            Some(target) => match pci_path_option(device.options, "pci-path"@) {
                None => failed(
                    state,
                    config_failure("Failed to get PCI path for p9 device "@, name),
                ),
                Some(pci_path) => occupy(
                    state,
                    pci_path,
                    state.with_p9fs(
                        P9fsModel {
                            source,
                            target,
                            chunk_size: chunk_size_option(device.options),
                            pci_path,
                        },
                    ),
                ),
            },
        },
    }
}

/// Whether `driver` is the driver of a disk.
pub open spec fn is_storage_driver(driver: Seq<char>) -> bool {
    driver == "pci-virtio-block"@ || driver == "pci-nvme"@
}

/// Adding what one entry of the device table describes. The drivers of the
/// network accelerator's devices are known only to a builder that has the
/// accelerator plane enabled.
pub open spec fn device_outcome(
    state: BuilderModel,
    accelerator_plane: bool,
    name: Seq<char>,
    device: DeviceConfigModel,
    block_devs: Map<Seq<char>, BlockDeviceModel>,
) -> Outcome {
    if is_storage_driver(device.driver) {
        add_requested(state, storage_elements_from_config(name, device, block_devs))
    } else if device.driver == "pci-virtio-viona"@ {
        add_requested(state, network_elements_from_config(name, device))
    } else if accelerator_plane && device.driver == "softnpu-pci-port"@ {
        softnpu_pci_port_outcome(state, name, device)
    } else if accelerator_plane && device.driver == "softnpu-port"@ {
        softnpu_port_outcome(state, name, device)
    } else if accelerator_plane && device.driver == "softnpu-p9"@ {
        softnpu_p9_outcome(state, name, device)
    } else if accelerator_plane && device.driver == "pci-virtio-9p"@ {
        p9fs_outcome(state, name, device)
    } else {
        failed(state, config_failure("Unrecognized device type "@, device.driver))
    }
}

/// Adding what the entries of the device table describe, one after the
/// other, up to the first that fails.
pub open spec fn devices_outcome(
    state: BuilderModel,
    accelerator_plane: bool,
    devices: Seq<(Seq<char>, DeviceConfigModel)>,
    block_devs: Map<Seq<char>, BlockDeviceModel>,
) -> Outcome
    decreases devices.len(),
{
    if devices.len() == 0 {
        done(state)
    } else {
        let first = device_outcome(state, accelerator_plane, devices[0].0, devices[0].1, block_devs);
        if first.result is Err {
            first
        } else {
            devices_outcome(first.state, accelerator_plane, devices.drop_first(), block_devs)
        }
    }
}

/// Adding a bridge that the configuration describes.
pub open spec fn bridge_outcome(state: BuilderModel, bridge: PciBridgeModel) -> Outcome {
    match bridge_address(bridge) {
        Err(e) => failed(state, e),
        Ok(pci_path) => occupy(
            state,
            pci_path,
            state.with_bridge(
                bridge_name(bridge.downstream_bus),
                DeviceModel::PciPciBridge { pci_path, downstream_bus: bridge.downstream_bus },
            ),
        ),
    }
}

/// Adding the bridges that the configuration describes, one after the
/// other, up to the first that fails.
pub open spec fn bridges_outcome(state: BuilderModel, bridges: Seq<PciBridgeModel>) -> Outcome
    decreases bridges.len(),
{
    if bridges.len() == 0 {
        done(state)
    } else {
        let first = bridge_outcome(state, bridges[0]);
        if first.result is Err {
            first
        } else {
            bridges_outcome(first.state, bridges.drop_first())
        }
    }
}

/// Adding everything that a configuration describes: the devices first, the
/// bridges once all devices are in.
pub open spec fn config_outcome(state: BuilderModel, accelerator_plane: bool, config: ConfigModel) -> Outcome {
    let devices = devices_outcome(state, accelerator_plane, config.devices, config.block_devs);
    if devices.result is Err {
        devices
    } else {
        bridges_outcome(devices.state, config.pci_bridges)
    }
}

/// Whether a builder in state `state` is consistent: no two parts share an
/// address, every address of a part was given out, and every device that
/// names a backend names one that is there.
pub open spec fn state_wf(state: BuilderModel) -> bool {
    state.wf() && state.spec.backends_present()
}

} // verus!
