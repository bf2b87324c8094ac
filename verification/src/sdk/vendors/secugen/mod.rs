//! SecuGen backends: the Windows IPC bridge client and the in-process
//! Linux/macOS client share the decision logic kept here.
pub mod constants;
pub mod error_map;
pub mod ffi_types;
pub mod session;
pub mod library_path;
pub mod bridge_client;
