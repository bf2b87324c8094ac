//! Data exchanged with scanner callers.
use vstd::prelude::*;

verus! {

#[derive(Debug, Clone)]
pub struct DeviceInfo {
    pub vendor: String,
    pub model: String,
    pub serial: String,
    pub firmware: String,
    pub image_width: u32,
    pub image_height: u32,
    pub dpi: u32,
}

#[derive(Debug, Clone)]
pub struct ScanResult {
    pub image: Vec<u8>,
    pub quality: u8,
    pub template: Vec<u8>,
    pub timestamp: i64,
}

#[derive(Debug, Clone)]
pub struct MatchResult {
    pub matched: bool,
    pub score: u32,
    pub user_id: Option<String>,
}

#[derive(Debug, Clone)]
pub struct Template {
    pub user_id: String,
    pub data: Vec<u8>,
    pub created_at: i64,
}

#[derive(Debug, Clone)]
pub struct CaptureOptions {
    pub timeout_ms: Option<u32>,
    pub min_quality: Option<u8>,
    pub auto_capture: Option<bool>,
}

impl Default for CaptureOptions {
    fn default() -> (opts: Self)
        ensures
            opts.timeout_ms is None,
            opts.min_quality is None,
            opts.auto_capture is None,
    {
        CaptureOptions { timeout_ms: None, min_quality: None, auto_capture: None }
    }
}

#[derive(Debug, Clone, Copy, PartialEq, Eq)]
pub enum ScannerStatus {
    Connected,
    Disconnected,
    Capturing,
    Error,
}

#[derive(Debug, Clone)]
pub struct ScannerStatusInfo {
    pub status: String,
    pub vendor: Option<String>,
    pub model: Option<String>,
}

} // verus!
