//! A forward-only cursor over the bytes of one TEX input. The container is
//! parsed strictly front to back, so the only state is the unread suffix;
//! every contract in the decoder speaks of `remaining()`.

use vstd::bytes::{spec_u32_from_le_bytes, u32_from_le_bytes};
use vstd::prelude::*;
use vstd::slice::{slice_subrange, slice_to_vec};

use crate::error::TexError;

verus! {

/// A cursor over an in-memory byte stream. Reads only move forward.
pub struct TexReader<'a> {
    data: &'a [u8],
    pos: usize,
}

impl<'a> TexReader<'a> {
    /// The cursor never stands past the end of the stream.
    pub closed spec fn wf(self) -> bool {
        self.pos <= self.data@.len()
    }

    /// The bytes not yet consumed.
    pub closed spec fn remaining(self) -> Seq<u8> {
        self.data@.skip(self.pos as int)
    }

    /// A cursor at the start of `data`.
    pub fn new(data: &'a [u8]) -> (r: TexReader<'a>)
        ensures
            r.wf(),
            r.remaining() == data@,
    {
        let r = TexReader { data, pos: 0 };
        proof {
            assert(r.remaining() =~= data@);
        }
        r
    }

    /// How many bytes are left to read.
    pub fn remaining_len(&self) -> (n: usize)
        requires
            self.wf(),
        ensures
            n == self.remaining().len(),
    {
        self.data.len() - self.pos
    }

    /// Reads one little-endian `u32`, or reports a truncated stream and
    /// leaves the cursor where it stood.
    pub fn read_u32_le(&mut self) -> (r: Result<u32, TexError>)
        requires
            old(self).wf(),
        ensures
            final(self).wf(),
            match r {
                Ok(v) => old(self).remaining().len() >= 4
                    && v == spec_u32_from_le_bytes(old(self).remaining().take(4))
                    && final(self).remaining() == old(self).remaining().skip(4),
                Err(e) => old(self).remaining().len() < 4
                    && e == TexError::TruncatedOrMalformedStream
                    && *final(self) == *old(self),
            },
    {
        if self.data.len() - self.pos < 4 {
            return Err(TexError::TruncatedOrMalformedStream);
        }
        let word = slice_subrange(self.data, self.pos, self.pos + 4);
        let v = u32_from_le_bytes(word);
        proof {
            assert(word@ =~= old(self).remaining().take(4));
        }
        self.pos = self.pos + 4;
        proof {
            assert(self.remaining() =~= old(self).remaining().skip(4));
        }
        Ok(v)
    }

    /// Discards `n` bytes (a reserved region), or reports a truncated stream
    /// and leaves the cursor where it stood.
    pub fn skip_bytes(&mut self, n: usize) -> (r: Result<(), TexError>)
        requires
            old(self).wf(),
        ensures
            final(self).wf(),
            match r {
                Ok(_) => old(self).remaining().len() >= n
                    && final(self).remaining() == old(self).remaining().skip(n as int),
                Err(e) => old(self).remaining().len() < n
                    && e == TexError::TruncatedOrMalformedStream
                    && *final(self) == *old(self),
            },
    {
        if self.data.len() - self.pos < n {
            return Err(TexError::TruncatedOrMalformedStream);
        }
        self.pos = self.pos + n;
        proof {
            assert(self.remaining() =~= old(self).remaining().skip(n as int));
        }
        Ok(())
    }

    /// Reads exactly `n` bytes into a fresh vector, or reports a truncated
    /// stream and leaves the cursor where it stood.
    pub fn read_bytes(&mut self, n: usize) -> (r: Result<Vec<u8>, TexError>)
        requires
            old(self).wf(),
        ensures
            final(self).wf(),
            match r {
                Ok(v) => old(self).remaining().len() >= n
                    && v@ == old(self).remaining().take(n as int)
                    && final(self).remaining() == old(self).remaining().skip(n as int),
                Err(e) => old(self).remaining().len() < n
                    && e == TexError::TruncatedOrMalformedStream
                    && *final(self) == *old(self),
            },
    {
        if self.data.len() - self.pos < n {
            return Err(TexError::TruncatedOrMalformedStream);
        }
        let part = slice_subrange(self.data, self.pos, self.pos + n);
        let v = slice_to_vec(part);
        proof {
            assert(v@ =~= old(self).remaining().take(n as int));
        }
        self.pos = self.pos + n;
        proof {
            assert(self.remaining() =~= old(self).remaining().skip(n as int));
        }
        Ok(v)
    }
}

} // verus!
