use vstd::prelude::*;

verus! {

/// Slots in the ring. One request is in flight at a time; the rest is headroom.
pub const RING_CAPACITY: u32 = 8;

/// Bytes in the destination buffer, and so the most that one read returns.
pub const BUFFER_SIZE: u32 = 4096;

/// Where in the file the read begins.
pub const READ_OFFSET: u64 = 0;

/// The correlation tag that the one request carries.
pub const REQUEST_TAG: u64 = 0xdead_beef;

/// How many completions the driver waits for.
pub const MIN_COMPLETIONS: usize = 1;

/// A read descriptor: which file, how many bytes, from where, under which tag.
/// The destination region itself is the driver's; the descriptor only says
/// how long it is.
#[derive(Clone, Copy, Debug, PartialEq, Eq, Structural)]
pub struct ReadRequest {
    pub fd: i32,
    pub len: u32,
    pub offset: u64,
    pub tag: u64,
}

impl ReadRequest {
    /// The request that a session issues for the file `fd`.
    pub open spec fn standard_spec(fd: i32) -> ReadRequest {
        ReadRequest { fd, len: BUFFER_SIZE, offset: READ_OFFSET, tag: REQUEST_TAG }
    }

    /// Whether the region that the request names lies inside a buffer of
    /// `buffer_len` bytes.
    pub open spec fn fits(self, buffer_len: nat) -> bool {
        self.len as nat <= buffer_len
    }

    /// A read of `len` bytes from the start of `fd`, with tag 0.
    pub fn new(fd: i32, len: u32) -> (request: ReadRequest)
        ensures
            request == (ReadRequest { fd, len, offset: 0, tag: 0 }),
    {
        ReadRequest { fd, len, offset: 0, tag: 0 }
    }

    /// The same request, reading from `offset`.
    pub fn offset(self, offset: u64) -> (request: ReadRequest)
        ensures
            request == (ReadRequest { offset, ..self }),
    {
        ReadRequest { fd: self.fd, len: self.len, offset, tag: self.tag }
    }

    /// The same request, carrying `tag`.
    pub fn user_data(self, tag: u64) -> (request: ReadRequest)
        ensures
            request == (ReadRequest { tag, ..self }),
    {
        ReadRequest { fd: self.fd, len: self.len, offset: self.offset, tag }
    }

    /// A read that fills a whole buffer of `buffer_len` bytes from the start
    /// of `fd`. The length of a request is a 32-bit count: a longer buffer is
    /// refused.
    pub fn for_buffer(fd: i32, buffer_len: usize) -> (request: Option<ReadRequest>)
        ensures
            buffer_len <= u32::MAX <==> request is Some,
            request matches Some(r) ==> r == (ReadRequest {
                fd,
                len: buffer_len as u32,
                offset: 0,
                tag: 0,
            }) && r.fits(buffer_len as nat),
    {
        if buffer_len <= 0xffff_ffff {
            Some(ReadRequest { fd, len: buffer_len as u32, offset: 0, tag: 0 })
        } else {
            None
        }
    }

    #[verifier::when_used_as_spec(standard_spec)]
    pub fn standard(fd: i32) -> (request: ReadRequest)
        ensures
            request == ReadRequest::standard_spec(fd),
    {
        ReadRequest::new(fd, BUFFER_SIZE).offset(READ_OFFSET).user_data(REQUEST_TAG)
    }
}

} // verus!
