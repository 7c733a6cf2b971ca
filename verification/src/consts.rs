//! Extension identifiers and raw outcome codes fixed by the hypercall ABI.

use vstd::prelude::*;

verus! {

/// Extension ID of the legacy put-char call.
pub const EXT_PUT_CHAR: u64 = 0x01;
/// Extension ID of the base extension.
pub const EXT_BASE: u64 = 0x10;
/// Extension ID of the hart state management extension.
pub const EXT_HART_STATE: u64 = 0x48534D;
/// Extension ID of the performance monitoring unit extension.
pub const EXT_PMU: u64 = 0x504D55;
/// Extension ID of the system reset extension.
pub const EXT_RESET: u64 = 0x53525354;
/// Extension ID of the debug console extension.
pub const EXT_DBCN: u64 = 0x4442434E;
/// Extension ID of the attestation extension.
pub const EXT_ATTESTATION: u64 = 0x41545354;
/// Extension ID of the nested virtualization acceleration extension.
pub const EXT_NACL: u64 = 0x4E41434C;
/// Extension ID of the confidential-computing host extension.
pub const EXT_COVE_HOST: u64 = 0x434F5648;
/// Extension ID of the confidential-computing interrupt extension.
pub const EXT_COVE_INTERRUPT: u64 = 0x434F5649;
/// Extension ID of the confidential-computing guest extension.
pub const EXT_COVE_GUEST: u64 = 0x434F5647;

/// First extension ID reserved for vendor-specific extensions.
pub const EXT_VENDOR_RANGE_START: u64 = 0x09000000;
/// Last extension ID reserved for vendor-specific extensions.
pub const EXT_VENDOR_RANGE_END: u64 = 0x09FFFFFF;

/// Raw outcome code of a successful call.
pub const SBI_SUCCESS: i64 = 0;
/// Raw outcome code of a generic failure.
pub const SBI_ERR_FAILED: i64 = -1;
/// Raw outcome code of an unsupported call.
pub const SBI_ERR_NOT_SUPPORTED: i64 = -2;
/// Raw outcome code of a parameter outside its legal domain.
pub const SBI_ERR_INVALID_PARAM: i64 = -3;
/// Raw outcome code of an operation rejected by policy.
pub const SBI_ERR_DENIED: i64 = -4;
/// Raw outcome code of an address or length failing alignment or ownership
/// requirements.
pub const SBI_ERR_INVALID_ADDRESS: i64 = -5;

} // verus!
