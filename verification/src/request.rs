//! What a client sends to have an instance made: the properties of the
//! machine and the requests for its network interfaces and disks.

use crate::pci::Slot;
use vstd::prelude::*;
use vstd::string::*;

verus! {

/// A JSON document. Nothing is known of what it holds.
#[verifier::external_type_specification]
#[verifier::external_body]
pub struct ExJsonValue(serde_json::Value);

/// The properties of an instance that bear on its hardware.
#[derive(Clone, Copy, Debug)]
pub struct InstanceProperties {
    /// The number of virtual CPUs.
    pub vcpus: u8,
    /// The size of guest memory, in MiB.
    pub memory: u64,
}

/// A request to attach a network interface.
#[derive(Debug)]
pub struct NetworkInterfaceRequest {
    /// The name of the host's virtual network interface to bind to.
    pub name: String,
    /// The slot among the network interfaces.
    pub slot: Slot,
}

/// A request to attach a disk on distributed block storage.
#[derive(Debug)]
pub struct DiskRequest {
    /// The name of the disk, under which its device and its backend go.
    pub name: String,
    /// The slot among the disks.
    pub slot: Slot,
    /// Whether the guest may only read the disk.
    pub read_only: bool,
    /// The interface that the guest sees: `virtio` or `nvme`.
    pub device: String,
    /// The request to construct the disk's volume, which the builder passes
    /// on in serialized form without looking into it.
    pub volume_construction_request: serde_json::Value,
}

/// The JSON text of a volume construction request, or nothing where it
/// cannot be serialized.
pub uninterp spec fn volume_request_json(request: serde_json::Value) -> Option<Seq<char>>;

/// Serializes a volume construction request with `serde_json::to_string`.
/// The outcome is a function of the document alone: the contract gives it a
/// name and claims nothing else of it.
#[verifier::external_body]
pub(crate) fn serialize_volume_request(request: &serde_json::Value) -> (json: Result<
    String,
    serde_json::Error,
>)
    ensures
        match json {
            Ok(text) => volume_request_json(*request) == Some(text@),
            Err(_) => volume_request_json(*request) is None,
        },
{
    serde_json::to_string(request)
}

} // verus!
