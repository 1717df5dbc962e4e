//! Status codes exchanged with the block-device framework.
//!
//! Only the position of a code relative to [`PENDING`] matters when child
//! completions are aggregated: anything below it fails the parent request.

use vstd::prelude::*;

verus! {

/// The device ran out of memory.
pub const NOMEM: i32 = -4;

/// The device reported a SCSI protocol error.
pub const SCSI_ERROR: i32 = -3;

/// The device reported an NVMe error.
pub const NVME_ERROR: i32 = -2;

/// The request failed for an unspecified reason.
pub const FAILED: i32 = -1;

/// No child has decided the outcome yet.
pub const PENDING: i32 = 0;

/// The request succeeded.
pub const SUCCESS: i32 = 1;

/// Whether `status` fails a request: it lies strictly below [`PENDING`].
pub open spec fn spec_is_failure(status: i32) -> bool {
    status < PENDING
}

/// Whether `status` fails a request.
#[verifier::when_used_as_spec(spec_is_failure)]
pub fn is_failure(status: i32) -> (r: bool)
    ensures
        r == spec_is_failure(status),
{
    status < PENDING
}

} // verus!
