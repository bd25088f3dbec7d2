use vstd::prelude::*;

verus! {

/// Why a read ended without a byte count.
///
/// The three failures that the driver reports carry the code that the
/// operating system gave for them, where it gave one. The failure of the read
/// itself carries the error number that the library took from the completion.
#[derive(Clone, Copy, Debug, PartialEq, Eq)]
pub enum ReadError {
    /// The target path could not be opened.
    FileOpen { os_code: Option<i32> },
    /// The kernel refused to set up the ring.
    RingCreation { os_code: Option<i32> },
    /// The submission queue had no free slot for the request.
    QueueFull,
    /// Notifying the kernel, or waiting for it, failed.
    SubmissionSyscall { os_code: Option<i32> },
    /// The wait returned but the completion queue was empty.
    NoCompletion,
    /// The read itself failed; `errno` is the native error number.
    ReadOperation { errno: u32 },
}

impl ReadError {
    /// A defect is a failure that a correct driver of a single request can
    /// never meet: it is to be signalled loudly, not handed to the caller as
    /// an ordinary error.
    pub open spec fn defect(&self) -> bool {
        self is QueueFull || self is NoCompletion
    }

    #[verifier::when_used_as_spec(defect)]
    pub fn is_defect(&self) -> (b: bool)
        ensures
            b == self.defect(),
    {
        match self {
            ReadError::QueueFull => true,
            ReadError::NoCompletion => true,
            _ => false,
        }
    }
}

} // verus!
