//! The parts that an instance specification is made of: the devices that a
//! guest sees and the backends that those devices are wired to.

use crate::pci::{Bdf, PciPath};
use vstd::prelude::*;
use vstd::string::*;

verus! {

/// One of the four standard serial ports.
#[derive(Clone, Copy, Debug, PartialEq, Eq, Structural)]
pub enum SerialPortNumber {
    Com1,
    Com2,
    Com3,
    Com4,
}

/// The device through which a guest reports a kernel panic to its host.
#[derive(Clone, Copy, Debug, PartialEq, Eq, Structural)]
pub struct QemuPvpanic {
    /// Whether the device is reachable as an ISA device.
    pub enable_isa: bool,
}

/// A virtual device that is exposed to the guest.
#[derive(Clone, Debug, PartialEq, Eq)]
pub enum DeviceSpec {
    /// A disk with a virtio-block interface.
    VirtioDisk { pci_path: PciPath, backend_name: String },
    /// A disk with an NVMe interface.
    NvmeDisk { pci_path: PciPath, backend_name: String },
    /// A network interface with a virtio interface.
    VirtioNic { pci_path: PciPath, backend_name: String },
    /// A PCI-to-PCI bridge, which has a downstream bus in place of a backend.
    PciPciBridge { pci_path: PciPath, downstream_bus: u8 },
}

/// The mathematical model of a [`DeviceSpec`].
pub enum DeviceModel {
    VirtioDisk { pci_path: Bdf, backend_name: Seq<char> },
    NvmeDisk { pci_path: Bdf, backend_name: Seq<char> },
    VirtioNic { pci_path: Bdf, backend_name: Seq<char> },
    PciPciBridge { pci_path: Bdf, downstream_bus: u8 },
}

impl DeviceModel {
    /// The address that the device occupies.
    pub open spec fn pci_path(self) -> Bdf {
        match self {
            DeviceModel::VirtioDisk { pci_path, .. } => pci_path,
            DeviceModel::NvmeDisk { pci_path, .. } => pci_path,
            DeviceModel::VirtioNic { pci_path, .. } => pci_path,
            DeviceModel::PciPciBridge { pci_path, .. } => pci_path,
        }
    }

    /// The name of the backend that the device is wired to, if it has one.
    pub open spec fn backend_name(self) -> Option<Seq<char>> {
        match self {
            DeviceModel::VirtioDisk { backend_name, .. } => Some(backend_name),
            DeviceModel::NvmeDisk { backend_name, .. } => Some(backend_name),
            DeviceModel::VirtioNic { backend_name, .. } => Some(backend_name),
            DeviceModel::PciPciBridge { .. } => None,
        }
    }
}

impl View for DeviceSpec {
    type V = DeviceModel;

    open spec fn view(&self) -> DeviceModel {
        match self {
            DeviceSpec::VirtioDisk { pci_path, backend_name } => DeviceModel::VirtioDisk {
                pci_path: pci_path@,
                backend_name: backend_name@,
            },
            DeviceSpec::NvmeDisk { pci_path, backend_name } => DeviceModel::NvmeDisk {
                pci_path: pci_path@,
                backend_name: backend_name@,
            },
            DeviceSpec::VirtioNic { pci_path, backend_name } => DeviceModel::VirtioNic {
                pci_path: pci_path@,
                backend_name: backend_name@,
            },
            DeviceSpec::PciPciBridge { pci_path, downstream_bus } => DeviceModel::PciPciBridge {
                pci_path: pci_path@,
                downstream_bus: *downstream_bus,
            },
        }
    }
}

impl DeviceSpec {
    /// The address that the device occupies.
    pub fn pci_path(&self) -> (path: PciPath)
        ensures
            path@ == self@.pci_path(),
    {
        match self {
            DeviceSpec::VirtioDisk { pci_path, .. } => *pci_path,
            DeviceSpec::NvmeDisk { pci_path, .. } => *pci_path,
            DeviceSpec::VirtioNic { pci_path, .. } => *pci_path,
            DeviceSpec::PciPciBridge { pci_path, .. } => *pci_path,
        }
    }
}

/// The implementation behind a device.
#[derive(Clone, Debug, PartialEq, Eq)]
pub enum BackendSpec {
    /// Distributed block storage, described by a serialized request to
    /// construct the volume.
    Crucible { request_json: String, readonly: bool },
    /// Block storage in a file.
    File { path: String, readonly: bool },
    /// Block storage in a blob that the specification itself carries, in base64.
    Blob { base64: String, readonly: bool },
    /// A virtual network interface of the host.
    VirtioNetwork { vnic_name: String },
}

/// The mathematical model of a [`BackendSpec`].
pub enum BackendModel {
    Crucible { request_json: Seq<char>, readonly: bool },
    File { path: Seq<char>, readonly: bool },
    Blob { base64: Seq<char>, readonly: bool },
    VirtioNetwork { vnic_name: Seq<char> },
}

impl View for BackendSpec {
    type V = BackendModel;

    open spec fn view(&self) -> BackendModel {
        match self {
            BackendSpec::Crucible { request_json, readonly } => BackendModel::Crucible {
                request_json: request_json@,
                readonly: *readonly,
            },
            BackendSpec::File { path, readonly } => BackendModel::File {
                path: path@,
                readonly: *readonly,
            },
            BackendSpec::Blob { base64, readonly } => BackendModel::Blob {
                base64: base64@,
                readonly: *readonly,
            },
            BackendSpec::VirtioNetwork { vnic_name } => BackendModel::VirtioNetwork {
                vnic_name: vnic_name@,
            },
        }
    }
}

/// A port of the network accelerator, attached to a virtual network interface of the host.
#[derive(Clone, Debug, PartialEq, Eq)]
pub struct SoftNpuPort {
    pub name: String,
    pub backend_name: String,
}

/// The mathematical model of a [`SoftNpuPort`].
pub struct SoftNpuPortModel {
    pub name: Seq<char>,
    pub backend_name: Seq<char>,
}

impl View for SoftNpuPort {
    type V = SoftNpuPortModel;

    open spec fn view(&self) -> SoftNpuPortModel {
        SoftNpuPortModel { name: self.name@, backend_name: self.backend_name@ }
    }
}

/// A filesystem of the host that is shared with the guest over the 9P protocol.
#[derive(Clone, Debug, PartialEq, Eq)]
pub struct P9fs {
    pub source: String,
    pub target: String,
    pub chunk_size: u32,
    pub pci_path: PciPath,
}

/// The mathematical model of a [`P9fs`].
pub struct P9fsModel {
    pub source: Seq<char>,
    pub target: Seq<char>,
    pub chunk_size: u32,
    pub pci_path: Bdf,
}

impl View for P9fs {
    type V = P9fsModel;

    open spec fn view(&self) -> P9fsModel {
        P9fsModel {
            source: self.source@,
            target: self.target@,
            chunk_size: self.chunk_size,
            pci_path: self.pci_path@,
        }
    }
}

} // verus!
