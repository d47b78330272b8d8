//! In-memory byte sources and sinks: a reader over an owned byte block, a
//! growable sink, a bounded sink that fills up, and a reader that fails
//! mid-transfer the way a broken resource would.

use vstd::prelude::*;
use crate::stream::ByteSink;
use crate::stream::ByteSource;
use crate::stream::IoError;

verus! {

/// Copies `n` bytes of `data` starting at `start` into a fresh block.
fn copy_range(data: &Vec<u8>, start: usize, n: usize) -> (out: Vec<u8>)
    requires
        start + n <= data@.len(),
    ensures
        out@ == data@.subrange(start as int, start + n),
{
    let len: usize = data.len();
    let mut out: Vec<u8> = Vec::new();
    let mut i: usize = 0;
    while i < n
        invariant
            i <= n,
            len == data@.len(),
            start + n <= len,
            out@.len() == i,
            forall|j: int| 0 <= j < i ==> out@[j] == data@[start + j],
        decreases n - i,
    {
        out.push(data[start + i]);
        i = i + 1;
    }
    proof {
        assert(out@ =~= data@.subrange(start as int, start + n));
    }
    out
}

/// A byte source reading an owned block from front to back.  It delivers
/// every byte it holds and never fails early.
pub struct SliceReader {
    data: Vec<u8>,
    pos: usize,
}

impl ByteSource for SliceReader {
    closed spec fn avail(&self) -> Seq<u8> {
        self.data@.skip(self.pos as int)
    }

    closed spec fn reliable(&self) -> bool {
        self.pos <= self.data@.len()
    }

    fn read_exact(&mut self, n: usize) -> (r: Result<Vec<u8>, IoError>) {
        if n == 0 {
            return Ok(Vec::new());
        }
        if self.pos <= self.data.len() && n <= self.data.len() - self.pos {
            let out: Vec<u8> = copy_range(&self.data, self.pos, n);
            self.pos = self.pos + n;
            proof {
                assert(out@ =~= old(self).avail().take(n as int));
                assert(self.avail() =~= old(self).avail().skip(n as int));
            }
            Ok(out)
        } else {
            Err(IoError::UnexpectedEnd)
        }
    }
}

impl SliceReader {
    /// Makes a source that will deliver exactly the bytes of `data`.
    pub fn new(data: Vec<u8>) -> (r: SliceReader)
        ensures
            r.avail() == data@,
            r.reliable(),
    {
        let r = SliceReader { data, pos: 0 };
        proof {
            assert(r.avail() =~= r.data@);
        }
        r
    }

    /// How many bytes are still available.
    pub fn remaining(&self) -> (n: usize)
        requires
            self.reliable(),
        ensures
            n == self.avail().len(),
    {
        self.data.len() - self.pos
    }
}

/// A byte source that delivers at most `good` bytes and then fails, the way
/// a broken resource would: bytes look available, yet a transfer that needs
/// any byte past the limit fails as a whole.
pub struct FailingReader {
    data: Vec<u8>,
    pos: usize,
    good: usize,
}

impl ByteSource for FailingReader {
    closed spec fn avail(&self) -> Seq<u8> {
        self.data@.skip(self.pos as int)
    }

    closed spec fn reliable(&self) -> bool {
        false
    }

    fn read_exact(&mut self, n: usize) -> (r: Result<Vec<u8>, IoError>) {
        if n == 0 {
            return Ok(Vec::new());
        }
        if self.pos <= self.data.len() && n <= self.data.len() - self.pos && self.pos <= self.good
            && n <= self.good - self.pos {
            let out: Vec<u8> = copy_range(&self.data, self.pos, n);
            self.pos = self.pos + n;
            proof {
                assert(out@ =~= old(self).avail().take(n as int));
                assert(self.avail() =~= old(self).avail().skip(n as int));
            }
            Ok(out)
        } else {
            Err(IoError::Broken)
        }
    }
}

impl FailingReader {
    /// Makes a source holding `data` that fails once a read would cross the
    /// first `good` bytes.
    pub fn new(data: Vec<u8>, good: usize) -> (r: FailingReader)
        ensures
            r.avail() == data@,
            !r.reliable(),
    {
        let r = FailingReader { data, pos: 0, good };
        proof {
            assert(r.avail() =~= r.data@);
        }
        r
    }
}

/// A growable byte sink that accepts every block.
pub struct VecWriter {
    data: Vec<u8>,
}

impl ByteSink for VecWriter {
    closed spec fn accepted(&self) -> Seq<u8> {
        self.data@
    }

    closed spec fn reliable(&self) -> bool {
        true
    }

    fn write_all(&mut self, buf: &Vec<u8>) -> (r: Result<(), IoError>) {
        let n: usize = buf.len();
        let mut i: usize = 0;
        while i < n
            invariant
                i <= n,
                n == buf@.len(),
                self.data@ == old(self).data@ + buf@.take(i as int),
            decreases n - i,
        {
            proof {
                assert(buf@.take(i + 1) =~= buf@.take(i as int).push(buf@[i as int]));
            }
            self.data.push(buf[i]);
            i = i + 1;
        }
        proof {
            assert(buf@.take(n as int) =~= buf@);
        }
        Ok(())
    }
}

impl VecWriter {
    /// Makes an empty sink.
    pub fn new() -> (r: VecWriter)
        ensures
            r.accepted() == Seq::<u8>::empty(),
            r.reliable(),
    {
        let r = VecWriter { data: Vec::new() };
        proof {
            assert(r.accepted() =~= Seq::<u8>::empty());
        }
        r
    }

    /// The bytes accepted so far.
    pub fn bytes(&self) -> (r: &Vec<u8>)
        ensures
            r@ == self.accepted(),
    {
        &self.data
    }

    /// Hands the accepted bytes back to the caller.
    pub fn into_bytes(self) -> (r: Vec<u8>)
        ensures
            r@ == self.accepted(),
    {
        self.data
    }
}

/// A byte sink with fixed room: it accepts bytes until `cap` is reached and
/// fails on a block it cannot take whole, keeping the prefix that fit.
pub struct BoundedWriter {
    data: Vec<u8>,
    cap: usize,
}

impl ByteSink for BoundedWriter {
    closed spec fn accepted(&self) -> Seq<u8> {
        self.data@
    }

    closed spec fn reliable(&self) -> bool {
        false
    }

    fn write_all(&mut self, buf: &Vec<u8>) -> (r: Result<(), IoError>) {
        let room: usize = if self.data.len() <= self.cap {
            self.cap - self.data.len()
        } else {
            0
        };
        let n: usize = if buf.len() <= room {
            buf.len()
        } else {
            room
        };
        let mut i: usize = 0;
        while i < n
            invariant
                i <= n,
                n <= buf@.len(),
                self.data@ == old(self).data@ + buf@.take(i as int),
            decreases n - i,
        {
            proof {
                assert(buf@.take(i + 1) =~= buf@.take(i as int).push(buf@[i as int]));
            }
            self.data.push(buf[i]);
            i = i + 1;
        }
        if n == buf.len() {
            proof {
                assert(buf@.take(n as int) =~= buf@);
            }
            Ok(())
        } else {
            proof {
                let k: int = n as int;
                assert(0 <= k <= buf@.len() && self.accepted() == old(self).accepted()
                    + buf@.take(k));
            }
            Err(IoError::UnexpectedEnd)
        }
    }
}

impl BoundedWriter {
    /// Makes an empty sink with room for `cap` bytes.
    pub fn new(cap: usize) -> (r: BoundedWriter)
        ensures
            r.accepted() == Seq::<u8>::empty(),
            !r.reliable(),
    {
        let r = BoundedWriter { data: Vec::new(), cap };
        proof {
            assert(r.accepted() =~= Seq::<u8>::empty());
        }
        r
    }

    /// The bytes accepted so far.
    pub fn bytes(&self) -> (r: &Vec<u8>)
        ensures
            r@ == self.accepted(),
    {
        &self.data
    }

    /// Hands the accepted bytes back to the caller.
    pub fn into_bytes(self) -> (r: Vec<u8>)
        ensures
            r@ == self.accepted(),
    {
        self.data
    }
}

} // verus!
