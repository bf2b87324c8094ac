//! SGFPLIB return codes and device constants (identical on every platform).
use vstd::prelude::*;

verus! {

pub const SGFDX_ERROR_NONE: i64 = 0i64;
pub const SGFDX_ERROR_DLLLOAD_FAILED_DRV: i64 = 6i64;
pub const SGFDX_ERROR_TIME_OUT: i64 = 54i64;
pub const SGFDX_ERROR_DEVICE_NOT_FOUND: i64 = 55i64;

pub const SG_DEV_AUTO: i64 = 255i64;
pub const SG_SECURITY_NORMAL: i64 = 5i64;

} // verus!
