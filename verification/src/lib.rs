//! Completion aggregation for a mirrored block device.
//!
//! A front-end request is fanned out to several replicas. Every child that
//! comes back is recorded against the shared per-request context; the last
//! one decides, once, whether the parent request succeeded or failed.
//!
//! The library holds the decisions and nothing else. It works on requests as
//! plain values and hands back what is to be done; issuing a completion to
//! the framework that owns the request is the caller's part.

pub mod bdev;
pub mod bdev_io;
pub mod bio;
pub mod decimal;
pub mod error;
pub mod io_status;
pub mod io_type;
pub mod laws;
pub mod nio_ctx;

pub use bio::Bio;
pub use error::BioError;
pub use nio_ctx::{Completion, NioCtx};
