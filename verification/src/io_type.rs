//! Operation kinds of a block-device request, as the framework numbers them.
//!
//! Kinds outside this list can be carried by a request; they are handed
//! through unchanged and never interpreted.

use vstd::prelude::*;

verus! {

/// Read blocks from the device.
pub const READ: u32 = 1;

/// Write blocks to the device.
pub const WRITE: u32 = 2;

/// Discard a range of blocks.
pub const UNMAP: u32 = 3;

/// Flush volatile caches to stable storage.
pub const FLUSH: u32 = 4;

/// Reset the device.
pub const RESET: u32 = 5;

} // verus!
