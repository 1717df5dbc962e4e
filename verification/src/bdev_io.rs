//! The request object that the framework's pool owns, as plain values.

use vstd::prelude::*;

use crate::bdev::Bdev;
use crate::error::BioError;
use crate::nio_ctx::NioCtx;

verus! {

/// One entry of an I/O vector.
#[derive(Clone, Copy, Debug, PartialEq, Eq, Structural)]
pub struct IoVec {
    /// address of the buffer; zero when no buffer has been set
    pub iov_base: usize,
    /// length of the buffer in bytes
    pub iov_len: usize,
}

/// Where on the device a request operates, and on which buffers.
///
/// The declared entry count always equals the length of the I/O vector.
#[derive(Debug, PartialEq, Eq)]
pub struct IoGeometry {
    iovs: Vec<IoVec>,
    iovcnt: i32,
    offset_blocks: u64,
    num_blocks: u64,
}

/// What an [`IoGeometry`] holds.
pub struct IoGeometryView {
    /// the I/O vector
    pub iovs: Seq<IoVec>,
    /// first block of the range
    pub offset_blocks: u64,
    /// number of blocks in the range
    pub num_blocks: u64,
}

impl View for IoGeometry {
    type V = IoGeometryView;

    closed spec fn view(&self) -> IoGeometryView {
        IoGeometryView {
            iovs: self.iovs@,
            offset_blocks: self.offset_blocks,
            num_blocks: self.num_blocks,
        }
    }
}

impl IoGeometry {
    #[verifier::type_invariant]
    spec fn count_matches(self) -> bool {
        0 <= self.iovcnt && self.iovs@.len() == self.iovcnt
    }

    /// Whether `iovcnt` is the number of entries that `iovs` holds.
    pub open spec fn consistent(iovs: Seq<IoVec>, iovcnt: i32) -> bool {
        0 <= iovcnt && iovs.len() == iovcnt
    }

    /// The geometry of a request of `num_blocks` blocks from block
    /// `offset_blocks` on, whose data is in `iovs`. It is refused where
    /// `iovcnt` is not the number of entries of `iovs`.
    pub fn new(iovs: Vec<IoVec>, iovcnt: i32, offset_blocks: u64, num_blocks: u64) -> (made: Result<
        IoGeometry,
        BioError,
    >)
        ensures
            made is Ok <==> Self::consistent(iovs@, iovcnt),
            made matches Ok(g) ==> g@ == (IoGeometryView { iovs: iovs@, offset_blocks, num_blocks }),
            made matches Err(e) ==> e == BioError::IovCountMismatch,
    {
        if iovcnt < 0 || iovs.len() > i32::MAX as usize || iovs.len() as i32 != iovcnt {
            return Err(BioError::IovCountMismatch);
        }
        Ok(IoGeometry { iovs, iovcnt, offset_blocks, num_blocks })
    }

    /// The I/O vector.
    pub fn iovs(&self) -> (v: &Vec<IoVec>)
        ensures
            v@ == self@.iovs,
    {
        &self.iovs
    }

    /// Number of entries of the I/O vector.
    pub fn iov_count(&self) -> (n: i32)
        ensures
            n == self@.iovs.len(),
    {
        proof {
            use_type_invariant(self);
        }
        self.iovcnt
    }

    /// First block of the range.
    pub fn offset_blocks(&self) -> (b: u64)
        ensures
            b == self@.offset_blocks,
    {
        self.offset_blocks
    }

    /// Number of blocks in the range.
    pub fn num_blocks(&self) -> (n: u64)
        ensures
            n == self@.num_blocks,
    {
        self.num_blocks
    }
}

/// A request as the framework hands it to a device driver.
#[derive(Debug, PartialEq, Eq)]
pub struct BdevIo {
    /// the operation kind, see [`crate::io_type`]
    pub type_: u32,
    /// the device the request targets
    pub bdev: Bdev,
    /// where the request operates
    pub geometry: IoGeometry,
    /// the driver's own context for the request
    pub driver_ctx: NioCtx,
}

} // verus!
