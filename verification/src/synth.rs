//! From a request or a configuration entry to the device and the backend
//! that it asks for: the address, the names and the kinds, or the error.

use crate::components::{BackendModel, BackendSpec, DeviceModel, DeviceSpec};
use crate::config::{
    flag_option, get_flag, pci_path_option, string_option, BlockDevice,
    BlockDeviceModel, Device, DeviceConfigModel, PciBridgeModel,
};
use crate::error::{config_error, ServerErrorModel, ServerSpecBuilderError};
use crate::pci::{slot_bdf, slot_valid, Bdf, PciPath, Slot, SlotType};
use crate::text::{decimal, push_decimal, str_eq};
use vstd::prelude::*;
use vstd::string::*;

verus! {

/// The name under which the device goes that is a network interface at `path`.
pub open spec fn nic_device_name(path: Bdf) -> Seq<char> {
    "vnic-"@ + path.text()
}

/// The name under which the backend of the network interface at `path` goes.
pub open spec fn nic_backend_name(path: Bdf) -> Seq<char> {
    "vnic-"@ + path.text() + "-backend"@
}

/// The name under which the bridge to the bus `downstream_bus` goes.
pub open spec fn bridge_name(downstream_bus: u8) -> Seq<char> {
    "pci-bridge-"@ + decimal(downstream_bus as nat)
}

/// The name under which the cloud-init disk and its backend go.
pub open spec fn cloud_init_name() -> Seq<char> {
    "cloud-init"@
}

/// A device and the backend that it is wired to, each with its name.
pub struct Elements {
    pub device_name: Seq<char>,
    pub device: DeviceModel,
    pub backend_name: Seq<char>,
    pub backend: BackendModel,
}

/// The address of a slot, or the error that the class has no such slot.
pub open spec fn slot_address(slot: u8, ty: SlotType) -> Result<Bdf, ServerErrorModel> {
    if slot_valid(slot, ty) {
        Ok(slot_bdf(slot, ty))
    } else {
        Err(ServerErrorModel::PciSlotInvalid(slot, ty))
    }
}

/// What a request for a network interface asks for.
pub open spec fn nic_elements(slot: u8, vnic_name: Seq<char>) -> Result<Elements, ServerErrorModel> {
    match slot_address(slot, SlotType::Nic) {
        Ok(path) => Ok(
            Elements {
                device_name: nic_device_name(path),
                device: DeviceModel::VirtioNic {
                    pci_path: path,
                    backend_name: nic_backend_name(path),
                },
                backend_name: nic_backend_name(path),
                backend: BackendModel::VirtioNetwork { vnic_name },
            },
        ),
        Err(e) => Err(e),
    }
}

/// The disk that the interface string asks for, or the error that it names none.
pub open spec fn disk_device(interface: Seq<char>, path: Bdf, backend_name: Seq<char>) -> Result<
    DeviceModel,
    ServerErrorModel,
> {
    if interface == "virtio"@ {
        Ok(DeviceModel::VirtioDisk { pci_path: path, backend_name })
    } else if interface == "nvme"@ {
        Ok(DeviceModel::NvmeDisk { pci_path: path, backend_name })
    } else {
        Err(ServerErrorModel::UnrecognizedStorageDevice(interface))
    }
}

/// What a request for a disk asks for, given the outcome of serializing its
/// volume construction request. The slot is looked at first, then the
/// serialization, then the interface.
pub open spec fn disk_elements(
    name: Seq<char>,
    slot: u8,
    read_only: bool,
    interface: Seq<char>,
    request_json: Option<Seq<char>>,
) -> Result<Elements, ServerErrorModel> {
    match slot_address(slot, SlotType::Disk) {
        Err(e) => Err(e),
        Ok(path) => match request_json {
            None => Err(ServerErrorModel::SerializationError(name)),
            Some(json) => match disk_device(interface, path, name) {
                Err(e) => Err(e),
                Ok(device) => Ok(
                    Elements {
                        device_name: name,
                        device,
                        backend_name: name,
                        backend: BackendModel::Crucible { request_json: json, readonly: read_only },
                    },
                ),
            },
        },
    }
}

/// What a cloud-init payload asks for: a read-only blob behind a virtio
/// disk in the one slot of its class.
pub open spec fn cloud_init_elements(base64: Seq<char>) -> Elements {
    Elements {
        device_name: cloud_init_name(),
        device: DeviceModel::VirtioDisk {
            pci_path: slot_bdf(0, SlotType::CloudInit),
            backend_name: cloud_init_name(),
        },
        backend_name: cloud_init_name(),
        backend: BackendModel::Blob { base64, readonly: true },
    }
}

/// The error that says, with `about` and `name`, what the configuration lacks.
pub open spec fn config_failure(about: Seq<char>, name: Seq<char>) -> ServerErrorModel {
    ServerErrorModel::ConfigTomlError(about + name)
}

/// The storage backend that an entry of the block-device table describes.
/// Only backends in files are known. A `readonly` option that is neither a
/// boolean nor one of the strings `true` and `false` counts as absent.
pub open spec fn storage_backend_from_config(name: Seq<char>, backend: BlockDeviceModel) -> Result<
    BackendModel,
    ServerErrorModel,
> {
    if backend.bdtype == "file"@ {
        if !backend.options.contains_key("path"@) {
            Err(config_failure("Couldn't get path for file backend "@, name))
        } else {
            match string_option(backend.options, "path"@) {
                None => Err(config_failure("Couldn't parse path for file backend "@, name)),
                Some(path) => Ok(
                    BackendModel::File {
                        path,
                        readonly: match flag_option(backend.options, "readonly"@) {
                            Some(readonly) => readonly,
                            None => false,
                        },
                    },
                ),
            }
        }
    } else {
        Err(ServerErrorModel::UnrecognizedStorageBackend(backend.bdtype))
    }
}

/// The message that says that a storage device has a driver that is none of a disk's.
pub open spec fn invalid_driver_message(name: Seq<char>, driver: Seq<char>) -> Seq<char> {
    "storage device "@ + name + " has invalid driver "@ + driver
}

/// The storage device that an entry of the device table describes.
pub open spec fn storage_device_from_config(name: Seq<char>, device: DeviceConfigModel) -> Result<
    DeviceModel,
    ServerErrorModel,
> {
    if device.driver != "pci-virtio-block"@ && device.driver != "pci-nvme"@ {
        Err(ServerErrorModel::ConfigTomlError(invalid_driver_message(name, device.driver)))
    } else if !device.options.contains_key("block_dev"@) {
        Err(config_failure("Couldn't get block_dev for storage device "@, name))
    } else {
        match string_option(device.options, "block_dev"@) {
            None => Err(config_failure("Couldn't parse block_dev for storage device "@, name)),
            Some(backend_name) => match pci_path_option(device.options, "pci-path"@) {
                None => Err(config_failure("Failed to get PCI path for storage device "@, name)),
                Some(pci_path) => Ok(
                    if device.driver == "pci-virtio-block"@ {
                        DeviceModel::VirtioDisk { pci_path, backend_name }
                    } else {
                        DeviceModel::NvmeDisk { pci_path, backend_name }
                    },
                ),
            },
        }
    }
}

/// What an entry of the device table asks for that describes a network
/// interface. The names go by the address, as for a requested interface.
pub open spec fn network_elements_from_config(name: Seq<char>, device: DeviceConfigModel) -> Result<
    Elements,
    ServerErrorModel,
> {
    match string_option(device.options, "vnic"@) {
        None => Err(config_failure("Failed to get vNIC name for device "@, name)),
        Some(vnic_name) => match pci_path_option(device.options, "pci-path"@) {
            None => Err(config_failure("Failed to get PCI path for network device "@, name)),
            Some(path) => Ok(
                Elements {
                    device_name: nic_device_name(path),
                    device: DeviceModel::VirtioNic {
                        pci_path: path,
                        backend_name: nic_backend_name(path),
                    },
                    backend_name: nic_backend_name(path),
                    backend: BackendModel::VirtioNetwork { vnic_name },
                },
            ),
        },
    }
}

/// The address of a bridge that the configuration describes.
pub open spec fn bridge_address(bridge: PciBridgeModel) -> Result<Bdf, ServerErrorModel> {
    match Bdf::parse(bridge.pci_path) {
        Some(path) => Ok(path),
        None => Err(ServerErrorModel::PciPathNotParseable(bridge.pci_path)),
    }
}

/// The model of the outcome of making a device or a backend.
pub open spec fn part_model<T: View>(result: Result<T, ServerSpecBuilderError>) -> Result<
    T::V,
    ServerErrorModel,
> {
    match result {
        Ok(part) => Ok(part@),
        Err(e) => Err(e@),
    }
}

/// Translates a device class and a slot, as a request names them, into the
/// address that the slot has.
pub fn slot_to_pci_path(slot: Slot, ty: SlotType) -> (result: Result<
    PciPath,
    ServerSpecBuilderError,
>)
    ensures
        part_model(result) == slot_address(slot.0, ty),
{
    let made = match ty {
        // Slots for NICs: 0x08 -> 0x0F
        SlotType::Nic if slot.0 <= 7 => PciPath::new(0, slot.0 + 0x8, 0),
        // Slots for disks: 0x10 -> 0x17
        SlotType::Disk if slot.0 <= 7 => PciPath::new(0, slot.0 + 0x10, 0),
        // Slot for cloud-init
        SlotType::CloudInit if slot.0 == 0 => PciPath::new(0, slot.0 + 0x18, 0),
        _ => None,
    };
    match made {
        Some(path) => Ok(path),
        None => Err(ServerSpecBuilderError::PciSlotInvalid(slot.0, ty)),
    }
}

/// Makes the names of a network interface's device and backend from its
/// address. The name in a request is that of the host's interface, which
/// may change from one incarnation of an instance to the next; the address
/// is the interface's own and stays, so the names go by it.
pub fn pci_path_to_nic_names(path: PciPath) -> (names: (String, String))
    ensures
        names.0@ == nic_device_name(path@),
        names.1@ == nic_backend_name(path@),
{
    let text = path.to_string();
    let mut device_name = String::from_str("vnic-");
    device_name.append(text.as_str());
    let mut backend_name = String::from_str("vnic-");
    backend_name.append(text.as_str());
    backend_name.append("-backend");
    (device_name, backend_name)
}

/// Makes the name of the bridge to the bus `downstream_bus`.
pub fn pci_bridge_name(downstream_bus: u8) -> (name: String)
    ensures
        name@ == bridge_name(downstream_bus),
{
    let mut name = String::from_str("pci-bridge-");
    push_decimal(&mut name, downstream_bus);
    name
}

/// Makes the storage backend that an entry of the block-device table describes.
pub fn make_storage_backend_from_config(name: &str, backend: &BlockDevice) -> (result: Result<
    BackendSpec,
    ServerSpecBuilderError,
>)
    ensures
        part_model(result) == storage_backend_from_config(name@, backend@),
{
    if !str_eq(backend.bdtype.as_str(), "file") {
        return Err(ServerSpecBuilderError::UnrecognizedStorageBackend(backend.bdtype.clone()));
    }
    let path = match backend.options.get("path") {
        None => {
            return Err(config_error("Couldn't get path for file backend ", name));
        },
        Some(value) => match value.as_str() {
            None => {
                return Err(config_error("Couldn't parse path for file backend ", name));
            },
            Some(path) => path,
        },
    };
    let readonly = match get_flag(&backend.options, "readonly") {
        Some(readonly) => readonly,
        None => false,
    };
    Ok(BackendSpec::File { path: String::from_str(path), readonly })
}

/// Makes the storage device that an entry of the device table describes.
pub fn make_storage_device_from_config(name: &str, device: &Device) -> (result: Result<
    DeviceSpec,
    ServerSpecBuilderError,
>)
    ensures
        part_model(result) == storage_device_from_config(name@, device@),
{
    let virtio = str_eq(device.driver.as_str(), "pci-virtio-block");
    if !virtio && !str_eq(device.driver.as_str(), "pci-nvme") {
        let mut message = String::from_str("storage device ");
        message.append(name);
        message.append(" has invalid driver ");
        message.append(device.driver.as_str());
        return Err(ServerSpecBuilderError::ConfigTomlError(message));
    }
    let backend_name = match device.options.get("block_dev") {
        None => {
            return Err(config_error("Couldn't get block_dev for storage device ", name));
        },
        Some(value) => match value.as_str() {
            None => {
                return Err(config_error("Couldn't parse block_dev for storage device ", name));
            },
            Some(backend_name) => String::from_str(backend_name),
        },
    };
    let pci_path = match device.get_pci_path("pci-path") {
        None => {
            return Err(config_error("Failed to get PCI path for storage device ", name));
        },
        Some(pci_path) => pci_path,
    };
    Ok(
        if virtio {
            DeviceSpec::VirtioDisk { pci_path, backend_name }
        } else {
            DeviceSpec::NvmeDisk { pci_path, backend_name }
        },
    )
}

} // verus!
