//! The abstraction boundary of the crate: a byte source that can deliver an
//! exact number of bytes or fail, and a byte sink that can accept a whole
//! block or fail.  Every typed operation of this crate is built on these two
//! primitives alone.

use vstd::prelude::*;

verus! {

/// The one kind of failure this layer surfaces: the underlying exact
/// transfer could not move every requested byte.
#[derive(Clone, Copy, Debug, PartialEq, Eq, Structural)]
pub enum IoError {
    /// The source or sink ended before the full block could be transferred.
    UnexpectedEnd,
    /// The underlying resource failed mid-transfer.
    Broken,
}

/// A byte source that supports "read exactly `n` bytes or fail".
///
/// `avail()` is the ghost sequence of bytes the source can still deliver, in
/// order.  A source may fail for reasons of its own even when bytes are
/// available; one whose `reliable()` holds promises to deliver whatever is
/// available without failing.
pub trait ByteSource: Sized {
    /// The bytes still available from this source, in delivery order.
    spec fn avail(&self) -> Seq<u8>;

    /// Whether this source delivers available bytes without failing.
    spec fn reliable(&self) -> bool;

    /// Reads exactly `n` bytes, or fails without returning any.
    ///
    /// On success the returned block is exactly the next `n` available bytes
    /// and exactly those are consumed; the remainder is left for subsequent
    /// reads.  On failure no block is returned and the read position is
    /// whatever the source left it at.  A request for zero bytes always
    /// succeeds, and a request for more bytes than are available always
    /// fails.
    fn read_exact(&mut self, n: usize) -> (r: Result<Vec<u8>, IoError>)
        ensures
            final(self).reliable() == old(self).reliable(),
            (match r {
                Ok(bytes) => {
                    &&& n <= old(self).avail().len()
                    &&& bytes@ == old(self).avail().take(n as int)
                    &&& final(self).avail() == old(self).avail().skip(n as int)
                },
                Err(_) => true,
            }),
            n > old(self).avail().len() ==> r is Err,
            n == 0 ==> r is Ok,
            old(self).reliable() && n <= old(self).avail().len() ==> r is Ok,
    ;
}

/// A byte sink that supports "write this whole block or fail".
///
/// `accepted()` is the ghost sequence of every byte the sink has accepted so
/// far.  A sink may refuse a block even when it has room; one whose
/// `reliable()` holds promises to accept every block.
pub trait ByteSink: Sized {
    /// All bytes this sink has accepted so far, in order.
    spec fn accepted(&self) -> Seq<u8>;

    /// Whether this sink accepts every block without failing.
    spec fn reliable(&self) -> bool;

    /// Writes every byte of `buf`, or fails.
    ///
    /// On success the sink has accepted exactly the bytes of `buf`, in order,
    /// after everything it had accepted before.  On failure some prefix of
    /// `buf` may remain accepted, as the underlying primitive left it.
    fn write_all(&mut self, buf: &Vec<u8>) -> (r: Result<(), IoError>)
        ensures
            final(self).reliable() == old(self).reliable(),
            r is Ok ==> final(self).accepted() == old(self).accepted() + buf@,
            r is Err ==> exists|k: int|
                0 <= k <= buf@.len() && final(self).accepted() == old(self).accepted()
                    + buf@.take(k),
            old(self).reliable() ==> r is Ok,
    ;
}

} // verus!
