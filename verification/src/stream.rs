//! The byte source decoders consume: a forward-only cursor over a buffer.

use vstd::prelude::*;
use vstd::slice::{slice_subrange, slice_to_vec};

verus! {

/// Why a decode produced no value.
#[derive(Clone, Copy, Debug, PartialEq, Eq, Structural)]
pub enum DecodeError {
    /// The stream held fewer bytes than the decoded type needs.
    EndOfInput,
}

/// A sequential, forward-only reader over a byte buffer. Bytes once consumed
/// are gone: the cursor only advances.
pub struct ByteStream {
    data: Vec<u8>,
    pos: usize,
}

impl ByteStream {
    /// Every byte the stream was created over, consumed or not.
    pub closed spec fn bytes(self) -> Seq<u8> {
        self.data@
    }

    /// How many bytes have been consumed so far.
    pub closed spec fn position(self) -> nat {
        self.pos as nat
    }

    /// The cursor never passes the end of the buffer.
    pub open spec fn wf(self) -> bool {
        self.position() <= self.bytes().len()
    }

    /// The bytes not yet consumed.
    pub open spec fn remaining(self) -> Seq<u8> {
        self.bytes().skip(self.position() as int)
    }

    /// A fresh stream over `data`, positioned at its first byte.
    pub fn new(data: Vec<u8>) -> (s: ByteStream)
        ensures
            s.wf(),
            s.bytes() == data@,
            s.position() == 0,
    {
        ByteStream { data, pos: 0 }
    }

    /// How many bytes are left to read.
    pub fn remaining_len(&self) -> (n: usize)
        requires
            self.wf(),
        ensures
            n == self.remaining().len(),
    {
        self.data.len() - self.pos
    }

    /// Consumes the next `n` bytes and hands them out, or reports the end of
    /// the input, leaving the stream where it was, when fewer than `n` remain.
    pub fn take(&mut self, n: usize) -> (r: Result<Vec<u8>, DecodeError>)
        requires
            old(self).wf(),
        ensures
            final(self).wf(),
            final(self).bytes() == old(self).bytes(),
            r is Ok <==> n <= old(self).remaining().len(),
            (r matches Ok(taken) ==> {
                &&& taken@ == old(self).remaining().take(n as int)
                &&& final(self).position() == old(self).position() + n
            }),
            (r matches Err(e) ==> {
                &&& e == DecodeError::EndOfInput
                &&& *final(self) == *old(self)
            }),
    {
        if n > self.data.len() - self.pos {
            return Err(DecodeError::EndOfInput);
        }
        let taken = slice_to_vec(slice_subrange(self.data.as_slice(), self.pos, self.pos + n));
        self.pos = self.pos + n;
        proof {
            assert(taken@ =~= old(self).remaining().take(n as int));
        }
        Ok(taken)
    }
}

} // verus!
