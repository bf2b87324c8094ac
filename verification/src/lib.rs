//! Verified core of a vendor-agnostic fingerprint scanner SDK: the IPC
//! protocol between the host and the SecuGen bridge, the decision logic of the
//! scanner backends, and the self-updater's release checks.
pub mod text;
pub mod outside;
pub mod protocol;
pub mod bridge;
pub mod sdk;
pub mod updater;
