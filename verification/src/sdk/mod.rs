//! The scanner SDK: error and data types, the vendor registry and the
//! per-vendor decision logic.
pub mod errors;
pub mod types;
pub mod traits;
pub mod api;
pub mod vendors;
pub mod update_check;
