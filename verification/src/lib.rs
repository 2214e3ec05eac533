//! A file server for an enclave's file system, backed by a directory tree of
//! the host. Each entry of the tree has a companion `.meta` file that holds
//! the enclave's own (encrypted) metadata of the entry.
//!
//! The host is reached only through the actions this library asks for: a
//! request is served by a task that names each host operation it needs and
//! decides, from each reply, what to do next.
pub mod abi;

pub mod paths;
pub mod flags;
pub mod host;
pub mod entry;
pub mod search;
pub mod script;
pub mod fs;
pub mod request;
pub mod platform;
pub mod laws;
pub mod sidecar;
pub mod conversions;
