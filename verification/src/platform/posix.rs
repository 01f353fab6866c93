//! Descriptors, and the arithmetic around the system calls that use them.

use crate::error::Error;
use vstd::prelude::*;

verus! {

/// One raw handle of the operating system, known to be valid: it is never
/// negative.
#[derive(Debug)]
pub struct Fd(i32);

impl View for Fd {
    type V = int;

    /// The number of the descriptor.
    closed spec fn view(&self) -> int {
        self.0 as int
    }
}

impl Fd {
    #[verifier::type_invariant]
    spec fn valid(self) -> bool {
        self.0 >= 0
    }

    /// Takes a handle that a system call returned. A negative number is the
    /// mark of a failed call, not a handle.
    pub fn new(fd: i32) -> (r: Result<Fd, Error>)
        ensures
            fd < 0 ==> r == Err::<Fd, Error>(Error::InvalidDescriptor),
            fd >= 0 ==> r is Ok && r->Ok_0@ == fd,
    {
        if fd < 0 {
            return Err(Error::InvalidDescriptor);
        }
        Ok(Fd(fd))
    }

    /// The number of the descriptor, for the system calls that take one.
    pub fn as_raw_fd(&self) -> (fd: i32)
        ensures
            fd == self@,
            fd >= 0,
    {
        proof {
            use_type_invariant(self);
        }
        self.0
    }

    /// The status flags to store so that the descriptor is, or is no longer,
    /// in non-blocking mode: `mask`, the platform's non-blocking bit, is set
    /// in or taken out of the flags that the descriptor has now.
    pub fn nonblocking_flags(now: i32, mask: i32, nonblocking: bool) -> (flags: i32)
        ensures
            flags == with_nonblocking(now, mask, nonblocking),
    {
        if nonblocking {
            now | mask
        } else {
            now & !mask
        }
    }
}

/// Status flags with the bits of `mask` set or cleared.
pub open spec fn with_nonblocking(flags: i32, mask: i32, nonblocking: bool) -> i32 {
    if nonblocking {
        flags | mask
    } else {
        flags & !mask
    }
}

/// Switching the mode touches the bits of the mask and no other, leaves them
/// all set or all clear, and doing it twice is doing it once.
pub proof fn lemma_with_nonblocking(flags: i32, mask: i32, nonblocking: bool)
    ensures
        with_nonblocking(flags, mask, nonblocking) & !mask == flags & !mask,
        nonblocking ==> with_nonblocking(flags, mask, nonblocking) & mask == mask,
        !nonblocking ==> with_nonblocking(flags, mask, nonblocking) & mask == 0,
        with_nonblocking(with_nonblocking(flags, mask, nonblocking), mask, nonblocking)
            == with_nonblocking(flags, mask, nonblocking),
{
    assert((flags | mask) & !mask == flags & !mask) by (bit_vector);
    assert((flags & !mask) & !mask == flags & !mask) by (bit_vector);
    assert((flags | mask) & mask == mask) by (bit_vector);
    assert((flags & !mask) & mask == 0) by (bit_vector);
    assert((flags | mask) | mask == flags | mask) by (bit_vector);
}

/// What a read or a write transferred, from the number that the system call
/// returned: a negative return is a failure, for which the caller asks the
/// platform for its last error; anything else is the count of bytes.
pub fn transferred(ret: isize) -> (n: Option<usize>)
    ensures
        ret < 0 ==> n is None,
        ret >= 0 ==> n == Some(ret as usize),
{
    if ret < 0 {
        None
    } else {
        Some(ret as usize)
    }
}

/// The number of buffers to pass to a vectored call: all of them, up to the
/// most that the call's signed count can express.
pub fn iov_count(buffers: usize) -> (n: i32)
    ensures
        n == if buffers <= i32::MAX { buffers as int } else { i32::MAX as int },
{
    if buffers <= 0x7fff_ffff {
        buffers as i32
    } else {
        0x7fff_ffff
    }
}

} // verus!
