//! The handle through which the nexus reads and completes a request.

use vstd::prelude::*;
use vstd::string::StringExecFns;

use crate::bdev::{Bdev, NexusRef};
use crate::bdev_io::{BdevIo, IoVec};
use crate::decimal::{decimal, push_decimal};
use crate::error::BioError;
use crate::nio_ctx::{Completion, NioCtx};

verus! {

/// A request of the nexus: either the parent request that an initiator
/// waits for, or one of the children it was fanned out to.
///
/// The handle decides; it does not act. Where a method says that the request
/// is to be completed, it hands back the [`Completion`] that the caller owes
/// the framework. The framework takes the request back with it, so the
/// caller drops the handle once the completion is issued.
#[derive(PartialEq, Eq)]
pub struct Bio {
    /// the request
    pub io: BdevIo,
}

impl From<BdevIo> for Bio {
    /// The handle of a request that is known to be there.
    fn from(io: BdevIo) -> (bio: Bio) {
        Bio { io }
    }
}

impl vstd::std_specs::convert::FromSpecImpl<BdevIo> for Bio {
    open spec fn obeys_from_spec() -> bool {
        true
    }

    open spec fn from_spec(io: BdevIo) -> Bio {
        Bio { io }
    }
}

impl TryFrom<Option<BdevIo>> for Bio {
    type Error = BioError;

    /// The handle of a request that may be absent. An absent one is refused
    /// with [`BioError::NullHandle`].
    fn try_from(io: Option<BdevIo>) -> (made: Result<Bio, BioError>) {
        match io {
            Some(io) => Ok(Bio { io }),
            None => Err(BioError::NullHandle),
        }
    }
}

impl vstd::std_specs::convert::TryFromSpecImpl<Option<BdevIo>> for Bio {
    open spec fn obeys_try_from_spec() -> bool {
        true
    }

    open spec fn try_from_spec(io: Option<BdevIo>) -> Result<Bio, BioError> {
        match io {
            Some(io) => Ok(Bio { io }),
            None => Err(BioError::NullHandle),
        }
    }
}

impl Bio {
    /// The nexus that owns the request, by the context of its device, or
    /// [`BioError::TypeMismatch`] where the device is no nexus.
    pub open spec fn spec_nexus_as_ref(&self) -> Result<NexusRef, BioError> {
        if self.io.bdev.spec_is_nexus() {
            Ok(NexusRef { ctxt: self.io.bdev.ctxt })
        } else {
            Err(BioError::TypeMismatch)
        }
    }

    /// The line that describes the request in a trace.
    pub open spec fn spec_fmt(&self) -> Seq<char> {
        "offset: "@ + decimal(self.io.geometry@.offset_blocks as nat) + ", bytes: "@ + decimal(
            self.io.geometry@.num_blocks as nat,
        ) + ", type: "@ + decimal(self.io.type_ as nat) + " \n"@
    }

    /// obtain the Bdev this IO is associated with
    pub fn bdev_as_ref(&self) -> (bdev: &Bdev)
        ensures
            *bdev == self.io.bdev,
    {
        &self.io.bdev
    }

    /// complete an IO for the nexus. The completion says whether a child IO
    /// had failed and whether child IOs were still outstanding at this
    /// moment; neither stops it. The context is left as it was.
    pub fn ok(&mut self) -> (done: Completion)
        ensures
            *final(self) == *old(self),
            done == old(self).io.driver_ctx.spec_ok(),
    {
        self.io_ctx_as_mut_ref().ok()
    }

    /// mark the IO as failed, whatever its context holds. The context is left
    /// as it was.
    pub fn fail(&mut self) -> (done: Completion)
        ensures
            *final(self) == *old(self),
            done == Completion::Failure,
    {
        self.io_ctx_as_mut_ref().fail()
    }

    /// asses the IO if we need to mark it failed or ok: one more child has
    /// come back, and the last one to do so decides. See [`NioCtx::asses`].
    /// Nothing but the context of the request changes.
    pub fn asses(&mut self) -> (due: Result<Option<Completion>, BioError>)
        ensures
            *final(self) == (Bio {
                io: BdevIo {
                    driver_ctx: old(self).io.driver_ctx.spec_after_child(),
                    ..old(self).io
                },
            }),
            due == old(self).io.driver_ctx.spec_verdict(),
    {
        self.io_ctx_as_mut_ref().asses()
    }

    /// obtain the nexus embedded within the bdev, by the context that its
    /// driver registered with the device. A device that does not declare the
    /// product name of a nexus is refused with [`BioError::TypeMismatch`].
    pub fn nexus_as_ref(&self) -> (nexus: Result<NexusRef, BioError>)
        ensures
            nexus == self.spec_nexus_as_ref(),
    {
        let bdev = self.bdev_as_ref();
        if bdev.is_nexus() {
            Ok(NexusRef { ctxt: bdev.ctxt })
        } else {
            Err(BioError::TypeMismatch)
        }
    }

    /// get the context of the given IO, which is used to determine the overall
    /// state of the IO.
    pub fn io_ctx_as_mut_ref(&mut self) -> (ctx: &mut NioCtx)
        ensures
            *ctx == old(self).io.driver_ctx,
            *final(self) == (Bio { io: BdevIo { driver_ctx: *final(ctx), ..old(self).io } }),
    {
        &mut self.io.driver_ctx
    }

    /// the buffers of this IO
    pub fn iovs(&self) -> (iovs: &Vec<IoVec>)
        ensures
            iovs@ == self.io.geometry@.iovs,
    {
        self.io.geometry.iovs()
    }

    /// number of iovs that are part of this IO
    pub fn iov_count(&self) -> (n: i32)
        ensures
            n == self.io.geometry@.iovs.len(),
    {
        self.io.geometry.iov_count()
    }

    /// offset where we do the IO on the device
    pub fn offset(&self) -> (blocks: u64)
        ensures
            blocks == self.io.geometry@.offset_blocks,
    {
        self.io.geometry.offset_blocks()
    }

    /// num of blocks this IO will read/write/unmap
    pub fn num_blocks(&self) -> (blocks: u64)
        ensures
            blocks == self.io.geometry@.num_blocks,
    {
        self.io.geometry.num_blocks()
    }

    /// determine the type of this IO: the tag that the request carries, or
    /// nothing where there is no request.
    pub fn io_type(io: Option<&BdevIo>) -> (kind: Option<u32>)
        ensures
            kind == match io {
                Some(io) => Some(io.type_),
                None => None,
            },
    {
        match io {
            Some(io) => Some(io.type_),
            None => None,
        }
    }

    /// get the block length of this IO, in bytes
    pub fn block_len(&self) -> (bytes: u64)
        ensures
            bytes == self.io.bdev.blocklen,
    {
        self.io.bdev.blocklen as u64
    }

    /// determine if the IO needs an indirect buffer this can happen for example
    /// when we do a 512 write to a 4k device. It does when its first buffer
    /// is unset; the buffers after the first are not looked at.
    pub fn need_buf(&self) -> (need: bool)
        requires
            self.io.geometry@.iovs.len() > 0,
        ensures
            need == (self.io.geometry@.iovs[0].iov_base == 0),
    {
        self.iovs()[0].iov_base == 0
    }

    /// The line that describes the request in a trace: where it starts, how
    /// many blocks it spans and what kind it is, each in decimal.
    pub fn fmt(&self) -> (line: String)
        ensures
            line@ == self.spec_fmt(),
    {
        let mut line = String::from_str("offset: ");
        push_decimal(&mut line, self.offset());
        line.append(", bytes: ");
        push_decimal(&mut line, self.num_blocks());
        line.append(", type: ");
        push_decimal(&mut line, self.io.type_ as u64);
        line.append(" \n");
        line
    }
}

} // verus!
