//! Defaults shared by the capture, enrolment and verification paths.
use vstd::prelude::*;

verus! {

/// Capture timeout used when the caller gives none.
pub const DEFAULT_TIMEOUT_MS: u32 = 10000u32;

/// Minimum image quality used when the caller gives none.
pub const DEFAULT_MIN_QUALITY: u8 = 60u8;

/// Number of samples an enrolment captures when the caller asks for zero.
pub const DEFAULT_ENROLL_SAMPLES: u8 = 3u8;

} // verus!
