//! Scalar type names and status codes shared across the platform
//! interface.

use vstd::prelude::*;

verus! {

pub type UINT8 = u8;
pub type UINT16 = u16;
pub type UINT32 = u32;
pub type UINT64 = u64;

/// Status code returned by every platform entry point. Zero and positive
/// values report success; negative values report failure.
pub type HRESULT = i32;

/// The platform completed the request.
pub const S_OK: HRESULT = 0;

/// The platform rejected an argument of the request (0x80070057).
pub const E_INVALIDARG: HRESULT = -2147024809;

} // verus!
