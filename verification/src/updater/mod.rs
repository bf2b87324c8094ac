//! The self-updater's decisions: release asset names, which release is
//! offered, checksum and signature checks, the limits on extracting a release
//! archive, and the order in which files are replaced and restored. Network
//! and file-system work is done by the program around the library, which
//! hands each outcome to these functions.
pub mod version;
pub mod github;
pub mod assets;
pub mod digest;
pub mod apply;
pub mod release;
pub mod flow;
pub mod moves;
