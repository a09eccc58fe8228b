//! The one error type through which every failure of building an instance
//! specification reaches the caller.

use crate::assembly::{SpecBuilderError, SpecBuilderErrorModel};
use crate::pci::SlotType;
use vstd::prelude::*;
use vstd::std_specs::convert::FromSpecImpl;
use vstd::string::*;

verus! {

/// The error with which `serde_json` reports that a value could not be
/// serialized. Nothing is known of what it holds.
#[verifier::external_type_specification]
#[verifier::external_body]
pub struct ExJsonError(serde_json::Error);

/// Errors that can occur while building an instance specification from its parts.
#[derive(Debug)]
pub enum ServerSpecBuilderError {
    /// The builder refused the part.
    InnerBuilderError(SpecBuilderError),
    /// The string could not be read as a PCI path.
    PciPathNotParseable(String),
    /// The device class has no such slot.
    PciSlotInvalid(u8, SlotType),
    /// The string names no storage device interface.
    UnrecognizedStorageDevice(String),
    /// The string names no type of storage backend.
    UnrecognizedStorageBackend(String),
    /// The device (first) asks for a backend (second) that the configuration does not have.
    DeviceMissingBackend(String, String),
    /// The configuration lacks an option or holds one of the wrong shape.
    ConfigTomlError(String),
    /// The volume of the named disk could not be serialized.
    SerializationError(String, serde_json::Error),
}

/// The mathematical model of a [`ServerSpecBuilderError`]. Of a
/// serialization error it keeps the disk's name alone.
pub enum ServerErrorModel {
    InnerBuilderError(SpecBuilderErrorModel),
    PciPathNotParseable(Seq<char>),
    PciSlotInvalid(u8, SlotType),
    UnrecognizedStorageDevice(Seq<char>),
    UnrecognizedStorageBackend(Seq<char>),
    DeviceMissingBackend(Seq<char>, Seq<char>),
    ConfigTomlError(Seq<char>),
    SerializationError(Seq<char>),
}

impl View for ServerSpecBuilderError {
    type V = ServerErrorModel;

    open spec fn view(&self) -> ServerErrorModel {
        match self {
            ServerSpecBuilderError::InnerBuilderError(e) => ServerErrorModel::InnerBuilderError(e@),
            ServerSpecBuilderError::PciPathNotParseable(s) => ServerErrorModel::PciPathNotParseable(
                s@,
            ),
            ServerSpecBuilderError::PciSlotInvalid(slot, ty) => ServerErrorModel::PciSlotInvalid(
                *slot,
                *ty,
            ),
            ServerSpecBuilderError::UnrecognizedStorageDevice(s) => {
                ServerErrorModel::UnrecognizedStorageDevice(s@)
            },
            ServerSpecBuilderError::UnrecognizedStorageBackend(s) => {
                ServerErrorModel::UnrecognizedStorageBackend(s@)
            },
            ServerSpecBuilderError::DeviceMissingBackend(device, backend) => {
                ServerErrorModel::DeviceMissingBackend(device@, backend@)
            },
            ServerSpecBuilderError::ConfigTomlError(message) => ServerErrorModel::ConfigTomlError(
                message@,
            ),
            ServerSpecBuilderError::SerializationError(name, _) => {
                ServerErrorModel::SerializationError(name@)
            },
        }
    }
}

impl From<SpecBuilderError> for ServerSpecBuilderError {
    fn from(e: SpecBuilderError) -> (error: ServerSpecBuilderError) {
        ServerSpecBuilderError::InnerBuilderError(e)
    }
}

impl FromSpecImpl<SpecBuilderError> for ServerSpecBuilderError {
    open spec fn obeys_from_spec() -> bool {
        true
    }

    open spec fn from_spec(e: SpecBuilderError) -> ServerSpecBuilderError {
        ServerSpecBuilderError::InnerBuilderError(e)
    }
}

/// The model of the outcome of an operation that yields nothing.
pub open spec fn unit_result_model(result: Result<(), ServerSpecBuilderError>) -> Result<
    (),
    ServerErrorModel,
> {
    match result {
        Ok(()) => Ok(()),
        Err(e) => Err(e@),
    }
}

/// The error that says that an option is missing or malformed: its message
/// is `about` followed by `name`.
pub fn config_error(about: &str, name: &str) -> (error: ServerSpecBuilderError)
    ensures
        error@ == ServerErrorModel::ConfigTomlError(about@ + name@),
{
    let mut message = String::from_str(about);
    message.append(name);
    ServerSpecBuilderError::ConfigTomlError(message)
}

} // verus!
