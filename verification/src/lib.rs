//! The decision core of a one-shot file read through a kernel submission /
//! completion ring.
//!
//! Nothing in this crate touches the kernel. It fixes the parameters of the
//! read, describes the request and encodes it as a submission entry over a
//! buffer that is long enough, interprets the signed result code of a
//! completion, and sequences the steps of one read as a state machine whose
//! driver performs the system calls.

pub mod completion;
pub mod encode;
pub mod error;
pub mod request;
pub mod session;
pub mod trace;
