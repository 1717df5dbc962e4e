//! The per-request context and the aggregation of child completions.

use vstd::prelude::*;

use crate::error::BioError;
use crate::io_status;

verus! {

/// NioCtx provides context on a per IO basis
///
/// All children of one parent request share the context of the parent. The
/// fan-out logic sets the counter to the number of children it issues and
/// writes the status as children report; the library counts the children
/// down and reads the status when the last one has come back.
#[derive(Clone, Copy, Debug, PartialEq, Eq, Structural)]
pub struct NioCtx {
    /// number of child IOs that have not come back yet
    pub in_flight: i8,
    /// status of the IO
    pub status: i32,
}

/// A terminal completion of a parent request, to be issued to the framework.
#[must_use]
#[derive(Clone, Copy, Debug, PartialEq, Eq, Structural)]
pub enum Completion {
    /// Complete the request with [`io_status::SUCCESS`]. The two flags record
    /// what was found wrong with the context when success was reported.
    Success {
        /// the aggregate status was negative: a child IO had failed
        child_failed: bool,
        /// child IOs had not all come back
        children_outstanding: bool,
    },
    /// Complete the request with [`io_status::FAILED`].
    Failure,
}

impl Completion {
    /// The status code that the framework is to be given.
    pub open spec fn spec_status(self) -> i32 {
        match self {
            Completion::Success { .. } => io_status::SUCCESS,
            Completion::Failure => io_status::FAILED,
        }
    }

    /// The status code that the framework is to be given.
    #[verifier::when_used_as_spec(spec_status)]
    pub fn status(self) -> (code: i32)
        ensures
            code == self.spec_status(),
    {
        match self {
            Completion::Success { .. } => io_status::SUCCESS,
            Completion::Failure => io_status::FAILED,
        }
    }

    /// A success that was reported with nothing amiss.
    pub open spec fn clean_success() -> Completion {
        Completion::Success { child_failed: false, children_outstanding: false }
    }
}

impl NioCtx {
    /// The completion that reporting success on this context issues.
    pub open spec fn spec_ok(self) -> Completion {
        Completion::Success {
            child_failed: io_status::spec_is_failure(self.status),
            children_outstanding: self.in_flight != 0,
        }
    }

    /// The context after one more child completion has been recorded.
    ///
    /// The counter goes down by one, but never below -1.
    pub open spec fn spec_after_child(self) -> NioCtx {
        NioCtx {
            in_flight: if self.in_flight >= 0 {
                (self.in_flight - 1) as i8
            } else {
                self.in_flight
            },
            status: self.status,
        }
    }

    /// What recording one more child completion on this context decides.
    ///
    /// With no child outstanding the completion is one too many. With more
    /// than one outstanding nothing is due yet. The last child decides: a
    /// status below [`io_status::PENDING`] fails the request, any other
    /// completes it.
    pub open spec fn spec_verdict(self) -> Result<Option<Completion>, BioError> {
        if self.in_flight <= 0 {
            Err(BioError::DoubleCompletion)
        } else if self.in_flight > 1 {
            Ok(None)
        } else if io_status::spec_is_failure(self.status) {
            Ok(Some(Completion::Failure))
        } else {
            Ok(Some(Completion::clean_success()))
        }
    }

    /// Report success. The completion says what was wrong with the context
    /// at that moment, if anything; success is reported all the same.
    pub fn ok(&self) -> (done: Completion)
        ensures
            done == self.spec_ok(),
    {
        Completion::Success {
            child_failed: io_status::is_failure(self.status),
            children_outstanding: self.in_flight != 0,
        }
    }

    /// Report failure, whatever the counter says.
    pub fn fail(&self) -> (done: Completion)
        ensures
            done == Completion::Failure,
    {
        Completion::Failure
    }

    /// Record that one child has come back and decide what is due.
    ///
    /// `Ok(None)` says that children are still outstanding, `Ok(Some(..))`
    /// that this was the last one and which completion the parent request
    /// gets. A completion that finds no child outstanding is refused with
    /// [`BioError::DoubleCompletion`]; the counter then stops at -1.
    pub fn asses(&mut self) -> (due: Result<Option<Completion>, BioError>)
        ensures
            *final(self) == old(self).spec_after_child(),
            due == old(self).spec_verdict(),
    {
        if self.in_flight < 0 {
            return Err(BioError::DoubleCompletion);
        }
        self.in_flight = self.in_flight - 1;
        if self.in_flight < 0 {
            Err(BioError::DoubleCompletion)
        } else if self.in_flight > 0 {
            Ok(None)
        } else if io_status::is_failure(self.status) {
            Ok(Some(self.fail()))
        } else {
            Ok(Some(self.ok()))
        }
    }
}

} // verus!
