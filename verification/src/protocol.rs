//! Messages exchanged between the 64-bit host and the 32-bit SecuGen bridge,
//! one JSON object per line. The JSON encoding itself belongs to the program
//! around the library; these are the message values.
use vstd::prelude::*;

verus! {

/// Command sent from the host to the bridge.
#[derive(Debug, Clone, PartialEq, Eq)]
pub enum BridgeCommand {
    Init,
    Capture { timeout_ms: u32, min_quality: u8 },
    Enroll { user_id: String, samples: u8 },
    Verify { user_id: String, template_data: Vec<u8> },
    Identify { templates: Vec<TemplateEntry> },
    GetQuality { image: Vec<u8> },
    Disconnect,
}

/// One stored template offered for a 1:N search.
#[derive(Debug, Clone, PartialEq, Eq)]
pub struct TemplateEntry {
    pub user_id: String,
    pub data: Vec<u8>,
}

/// Response sent from the bridge back to the host. `Success` is the variant
/// that the wire format tags as `"status": "ok"`.
#[derive(Debug, Clone, PartialEq, Eq)]
pub enum BridgeResponse {
    Success { data: ResponseData },
    Error { code: String, message: String },
}

/// Payload of a successful response.
#[derive(Debug, Clone, PartialEq, Eq)]
pub enum ResponseData {
    DeviceInfo {
        vendor: String,
        model: String,
        serial: String,
        firmware: String,
        image_width: u32,
        image_height: u32,
        dpi: u32,
    },
    ScanResult { image: Vec<u8>, quality: u8, template: Vec<u8>, timestamp: i64 },
    Template { user_id: String, data: Vec<u8>, created_at: i64 },
    MatchResult { matched: bool, score: u32, user_id: Option<String> },
    Quality { score: u8 },
    Void,
}

} // verus!
