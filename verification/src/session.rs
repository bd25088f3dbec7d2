use vstd::prelude::*;
use crate::completion::{interpret, outcome_of, CompletionResult};
use crate::error::ReadError;
use crate::request::{ReadRequest, MIN_COMPLETIONS, RING_CAPACITY};

verus! {

/// Where one read stands.
#[derive(Clone, Copy, Debug, PartialEq, Eq)]
pub enum Phase {
    /// Nothing has been asked of the driver yet.
    Idle,
    /// The driver was asked to open the file.
    Opening,
    /// The file is open as `fd`; the driver was asked for a ring.
    RingSetup { fd: i32 },
    /// The request exists; the driver was asked to enqueue it.
    Built { request: ReadRequest },
    /// The request sits in the submission queue: from here until the read
    /// is over the kernel may write the buffer.
    Enqueued { request: ReadRequest },
    /// The kernel was notified and the wait has returned.
    Submitted { request: ReadRequest },
    /// The read is over.
    Completed { outcome: Result<usize, ReadError> },
}

/// What the driver reports back after carrying out an [`Action`].
#[derive(Clone, Copy, Debug, PartialEq, Eq)]
pub enum Event {
    /// The caller wants the read to begin.
    Start,
    /// The file is open under the raw descriptor `fd`.
    FileOpened { fd: i32 },
    /// The file could not be opened.
    FileOpenFailed { os_code: Option<i32> },
    /// The ring exists.
    RingCreated,
    /// The kernel refused the ring.
    RingCreationFailed { os_code: Option<i32> },
    /// The request was written into the submission queue.
    Pushed,
    /// The submission queue had no free slot.
    QueueFull,
    /// The kernel was notified and the wait returned.
    Driven,
    /// Notifying the kernel, or the wait, failed.
    DriveFailed { os_code: Option<i32> },
    /// The oldest completion, taken from the completion queue.
    Completion { result: CompletionResult },
    /// The completion queue was empty.
    NoCompletion,
}

/// What the driver is to do next.
#[derive(Clone, Copy, Debug, PartialEq, Eq)]
pub enum Action {
    /// Open the file and report its descriptor.
    OpenFile,
    /// Set up a ring with room for `capacity` entries.
    CreateRing { capacity: u32 },
    /// Encode `request` over a buffer and push it into the submission queue.
    Enqueue { request: ReadRequest },
    /// Notify the kernel and block until `min_completions` results are there.
    Drive { min_completions: usize },
    /// Take the oldest completion from the completion queue.
    TakeCompletion,
    /// Release ring and file, and hand `outcome` to the caller.
    Finish { outcome: Result<usize, ReadError> },
}

/// The end of a read with `outcome`: the phase it leaves and the action that
/// reports it.
pub open spec fn finish(outcome: Result<usize, ReadError>) -> (Phase, Action) {
    (Phase::Completed { outcome }, Action::Finish { outcome })
}

/// The transition relation: the phase and action that follow `event` in
/// `phase`, or `None` where the event has no place in that phase.
pub open spec fn step(phase: Phase, event: Event) -> Option<(Phase, Action)> {
    match (phase, event) {
        (Phase::Idle, Event::Start) => Some((Phase::Opening, Action::OpenFile)),
        (Phase::Opening, Event::FileOpened { fd }) => Some(
            (Phase::RingSetup { fd }, Action::CreateRing { capacity: RING_CAPACITY }),
        ),
        (Phase::Opening, Event::FileOpenFailed { os_code }) => Some(
            finish(Err(ReadError::FileOpen { os_code })),
        ),
        (Phase::RingSetup { fd }, Event::RingCreated) => Some(
            (
                Phase::Built { request: ReadRequest::standard_spec(fd) },
                Action::Enqueue { request: ReadRequest::standard_spec(fd) },
            ),
        ),
        (Phase::RingSetup { .. }, Event::RingCreationFailed { os_code }) => Some(
            finish(Err(ReadError::RingCreation { os_code })),
        ),
        (Phase::Built { request }, Event::Pushed) => Some(
            (Phase::Enqueued { request }, Action::Drive { min_completions: MIN_COMPLETIONS }),
        ),
        (Phase::Built { .. }, Event::QueueFull) => Some(finish(Err(ReadError::QueueFull))),
        (Phase::Enqueued { request }, Event::Driven) => Some(
            (Phase::Submitted { request }, Action::TakeCompletion),
        ),
        (Phase::Enqueued { .. }, Event::DriveFailed { os_code }) => Some(
            finish(Err(ReadError::SubmissionSyscall { os_code })),
        ),
        (Phase::Submitted { .. }, Event::Completion { result }) => Some(
            finish(outcome_of(result.code)),
        ),
        (Phase::Submitted { .. }, Event::NoCompletion) => Some(
            finish(Err(ReadError::NoCompletion)),
        ),
        _ => None,
    }
}

impl Phase {
    /// The place of a phase in the order of a read.
    pub open spec fn rank(self) -> nat {
        match self {
            Phase::Idle => 0,
            Phase::Opening => 1,
            Phase::RingSetup { .. } => 2,
            Phase::Built { .. } => 3,
            Phase::Enqueued { .. } => 4,
            Phase::Submitted { .. } => 5,
            Phase::Completed { .. } => 6,
        }
    }

    /// The request that the phase carries, if it has one.
    pub open spec fn request(self) -> Option<ReadRequest> {
        match self {
            Phase::Built { request } => Some(request),
            Phase::Enqueued { request } => Some(request),
            Phase::Submitted { request } => Some(request),
            _ => None,
        }
    }

    /// Whether the kernel may write the destination buffer: from the moment
    /// the request is enqueued until the read is over.
    pub open spec fn kernel_holds_buffer(self) -> bool {
        self is Enqueued || self is Submitted
    }

    /// A phase is well formed when the request it carries is the one that a
    /// session issues for its file.
    pub open spec fn wf(self) -> bool {
        self.request() matches Some(r) ==> r == ReadRequest::standard_spec(r.fd)
    }
}

impl Event {
    /// Whether the event reports that the driver's step failed.
    pub open spec fn is_failure(self) -> bool {
        self is FileOpenFailed || self is RingCreationFailed || self is QueueFull
            || self is DriveFailed || self is NoCompletion
    }
}

/// One read from start to end, driven from outside: the driver hands in what
/// happened, and is told what to do next.
#[derive(Clone, Copy, Debug, PartialEq, Eq)]
pub struct Session {
    phase: Phase,
}

impl Session {
    /// The phase the session is in.
    pub closed spec fn view(&self) -> Phase {
        self.phase
    }

    /// Every session carries a well-formed phase.
    #[verifier::type_invariant]
    spec fn well_formed(self) -> bool {
        self.phase.wf()
    }

    /// A session on which nothing has happened.
    pub fn new() -> (session: Session)
        ensures
            session@ == Phase::Idle,
    {
        Session { phase: Phase::Idle }
    }

    /// The phase the session is in.
    pub fn phase(&self) -> (phase: Phase)
        ensures
            phase == self@,
            phase.wf(),
    {
        proof {
            use_type_invariant(self);
        }
        self.phase
    }

    /// Whether the read is over, and with what.
    pub fn outcome(&self) -> (outcome: Option<Result<usize, ReadError>>)
        ensures
            outcome == (match self@ {
                Phase::Completed { outcome } => Some(outcome),
                _ => None,
            }),
    {
        match self.phase {
            Phase::Completed { outcome } => Some(outcome),
            _ => None,
        }
    }

    /// Whether the destination buffer is lent to the kernel.
    pub fn buffer_leased(&self) -> (leased: bool)
        ensures
            leased == self@.kernel_holds_buffer(),
    {
        match self.phase {
            Phase::Enqueued { .. } => true,
            Phase::Submitted { .. } => true,
            _ => false,
        }
    }

    /// Takes `event` and says what the driver is to do next. An event that
    /// has no place in the current phase is refused with `None` and leaves
    /// the session as it was.
    pub fn advance(&mut self, event: Event) -> (action: Option<Action>)
        ensures
            match step(old(self)@, event) {
                Some((next, todo)) => final(self)@ == next && action == Some(todo),
                None => final(self)@ == old(self)@ && action is None,
            },
            final(self)@.wf(),
    {
        proof {
            use_type_invariant(&*self);
        }
        let outcome: Result<usize, ReadError> = match (self.phase, event) {
            (Phase::Idle, Event::Start) => {
                self.phase = Phase::Opening;
                return Some(Action::OpenFile);
            },
            (Phase::Opening, Event::FileOpened { fd }) => {
                self.phase = Phase::RingSetup { fd };
                return Some(Action::CreateRing { capacity: RING_CAPACITY });
            },
            (Phase::RingSetup { fd }, Event::RingCreated) => {
                let request = ReadRequest::standard(fd);
                self.phase = Phase::Built { request };
                return Some(Action::Enqueue { request });
            },
            (Phase::Built { request }, Event::Pushed) => {
                self.phase = Phase::Enqueued { request };
                return Some(Action::Drive { min_completions: MIN_COMPLETIONS });
            },
            (Phase::Enqueued { request }, Event::Driven) => {
                self.phase = Phase::Submitted { request };
                return Some(Action::TakeCompletion);
            },
            (Phase::Opening, Event::FileOpenFailed { os_code }) => Err(
                ReadError::FileOpen { os_code },
            ),
            (Phase::RingSetup { .. }, Event::RingCreationFailed { os_code }) => Err(
                ReadError::RingCreation { os_code },
            ),
            (Phase::Built { .. }, Event::QueueFull) => Err(ReadError::QueueFull),
            (Phase::Enqueued { .. }, Event::DriveFailed { os_code }) => Err(
                ReadError::SubmissionSyscall { os_code },
            ),
            (Phase::Submitted { .. }, Event::Completion { result }) => interpret(result.code),
            (Phase::Submitted { .. }, Event::NoCompletion) => Err(ReadError::NoCompletion),
            _ => {
                return None;
            },
        };
        self.phase = Phase::Completed { outcome };
        Some(Action::Finish { outcome })
    }
}

} // verus!
