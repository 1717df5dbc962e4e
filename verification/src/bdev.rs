//! The block device a request targets, as far as request handling reads it.

use vstd::prelude::*;
use vstd::string::StringExecFns;

verus! {

/// The product name that a nexus device declares.
pub const NEXUS_PRODUCT_ID: &'static str = "Nexus CAS Driver v0.0.1";

/// A block device.
#[derive(Debug, PartialEq, Eq)]
pub struct Bdev {
    /// the product name that the device declares
    pub product_name: String,
    /// bytes per block
    pub blocklen: u32,
    /// the per-device context, opaque to everyone but the device's driver
    pub ctxt: usize,
}

/// The per-device context of a device that has declared itself a nexus.
#[derive(Clone, Copy, Debug, PartialEq, Eq, Structural)]
pub struct NexusRef {
    /// the context that the nexus driver registered with the device
    pub ctxt: usize,
}

impl Bdev {
    /// Whether the device declares itself a nexus.
    pub open spec fn spec_is_nexus(&self) -> bool {
        self.product_name@ == NEXUS_PRODUCT_ID@
    }

    /// Whether the device declares itself a nexus.
    #[verifier::when_used_as_spec(spec_is_nexus)]
    pub fn is_nexus(&self) -> (r: bool)
        ensures
            r == self.spec_is_nexus(),
    {
        let nexus = String::from_str(NEXUS_PRODUCT_ID);
        self.product_name == nexus
    }
}

} // verus!
