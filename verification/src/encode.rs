use vstd::prelude::*;
use crate::request::ReadRequest;

verus! {

/// The ring's submission entry: the form in which the kernel takes a
/// request. The proofs see of it only the four fields named below.
#[verifier::external_type_specification]
#[verifier::external_body]
pub struct ExSubmissionEntry(io_uring::squeue::Entry);

/// The file descriptor that the entry names: its field `fd`, as
/// `io_uring::opcode::Read::build` sets it.
pub uninterp spec fn entry_fd(entry: io_uring::squeue::Entry) -> i32;

/// The number of bytes that the entry asks for: its field `len`, as
/// `io_uring::opcode::Read::build` sets it.
pub uninterp spec fn entry_len(entry: io_uring::squeue::Entry) -> u32;

/// The place in the file where the entry's read begins: its field `off`, as
/// `io_uring::opcode::Read::build` sets it.
pub uninterp spec fn entry_offset(entry: io_uring::squeue::Entry) -> u64;

/// The correlation tag of the entry: its field `user_data`, as
/// `io_uring::squeue::Entry::user_data` sets it and
/// `io_uring::squeue::Entry::get_user_data` reads it back.
pub uninterp spec fn entry_tag(entry: io_uring::squeue::Entry) -> u64;

/// Whether `entry` carries the descriptor, length, offset and tag of
/// `request`.
pub open spec fn encodes(entry: io_uring::squeue::Entry, request: ReadRequest) -> bool {
    &&& entry_fd(entry) == request.fd
    &&& entry_len(entry) == request.len
    &&& entry_offset(entry) == request.offset
    &&& entry_tag(entry) == request.tag
}

/// A destination buffer of `len` bytes, all zero.
pub open spec fn zeroed(len: nat) -> Seq<u8> {
    Seq::new(len, |i: int| 0u8)
}

/// Calls `io_uring::opcode::Read::new` on the descriptor, the start of
/// `buffer` and `len`, sets the offset with `Read::offset`, freezes the
/// request with `Read::build` and tags it with `squeue::Entry::user_data`.
///
/// Trusted: that the entry holds the descriptor, the length, the offset and
/// the tag that were handed in, each in its own field, and that building the
/// entry leaves the bytes of `buffer` as they were. The entry only records
/// where the buffer starts; nothing is written before the entry is pushed
/// and the kernel is notified. Nothing is claimed of the address or of the
/// operation code in the entry. The precondition is the library's own: the
/// region handed to the kernel lies inside the buffer.
#[verifier::external_body]
fn read_entry(fd: i32, buffer: &mut Vec<u8>, len: u32, offset: u64, tag: u64) -> (entry:
    io_uring::squeue::Entry)
    requires
        len <= old(buffer)@.len(),
    ensures
        entry_fd(entry) == fd,
        entry_len(entry) == len,
        entry_offset(entry) == offset,
        entry_tag(entry) == tag,
        final(buffer)@ == old(buffer)@,
{
    io_uring::opcode::Read::new(io_uring::types::Fd(fd), buffer.as_mut_ptr(), len)
        .offset(offset)
        .build()
        .user_data(tag)
}

impl ReadRequest {
    /// Encodes the request as a submission entry whose destination is the
    /// start of `buffer`. A buffer shorter than the request's length is
    /// refused: the kernel would write past its end.
    ///
    /// The entry points into `buffer`. From the moment it is pushed until its
    /// completion is taken, the buffer must not be read, written, resized or
    /// dropped.
    pub fn encode(&self, buffer: &mut Vec<u8>) -> (entry: Option<io_uring::squeue::Entry>)
        ensures
            entry is Some <==> self.fits(old(buffer)@.len()),
            entry matches Some(e) ==> encodes(e, *self),
            final(buffer)@ == old(buffer)@,
    {
        if self.len as usize <= buffer.len() {
            Some(read_entry(self.fd, buffer, self.len, self.offset, self.tag))
        } else {
            None
        }
    }

    /// Allocates the destination buffer for the request, exactly as long as
    /// the request and filled with zeros, and encodes the request over it.
    pub fn prepare(&self) -> (prepared: (Vec<u8>, io_uring::squeue::Entry))
        ensures
            prepared.0@ == zeroed(self.len as nat),
            self.fits(prepared.0@.len()),
            encodes(prepared.1, *self),
    {
        let mut buffer: Vec<u8> = vec![0u8; self.len as usize];
        assert(buffer@ =~= zeroed(self.len as nat));
        let entry = read_entry(self.fd, &mut buffer, self.len, self.offset, self.tag);
        (buffer, entry)
    }
}

} // verus!
