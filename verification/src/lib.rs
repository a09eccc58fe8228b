//! Assembly of virtual-machine instance specifications.

pub mod assembly;
pub mod components;
pub mod config;
pub mod error;
pub mod laws;
pub mod name_map;
pub mod outcome;
pub mod pci;
pub mod request;
pub mod server;
pub mod synth;
pub mod text;
