//! The contract every vendor implementation fulfils.
use vstd::prelude::*;
use crate::sdk::errors::FingerprintError;
use crate::sdk::types::{DeviceInfo, MatchResult, ScanResult, Template};

verus! {

/// A fingerprint scanner of some vendor. Implementations drive hardware, so
/// their outcomes are whatever the device reports; the trait states no more.
pub trait FingerprintScanner {
    fn init(&self) -> Result<DeviceInfo, FingerprintError>;

    fn capture(&self, timeout_ms: u32, min_quality: u8) -> Result<ScanResult, FingerprintError>;

    fn enroll(&self, user_id: &str, samples: u8) -> Result<Template, FingerprintError>;

    fn verify(&self, user_id: &str, template: &Template) -> Result<MatchResult, FingerprintError>;

    fn identify(&self, templates: &[Template]) -> Result<MatchResult, FingerprintError>;

    fn get_quality(&self, image: &[u8]) -> Result<u8, FingerprintError>;

    fn disconnect(&self) -> Result<(), FingerprintError>;
}

} // verus!
