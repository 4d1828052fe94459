//! A sequential reader over bytes held in memory.

use crate::endian::{decode_u16, decode_u32, u16_from, u32_from, Endianness};
use crate::error::{Error, IoFault};
use vstd::prelude::*;
use vstd::slice::slice_subrange;

verus! {

/// The 16-bit value that starts `off` bytes into `b`, read in the given byte order.
pub open spec fn half(b: Seq<u8>, off: int, order: Endianness) -> u16 {
    u16_from(b.skip(off), order)
}

/// The 32-bit word that starts `off` bytes into `b`, read in the given byte order.
pub open spec fn word(b: Seq<u8>, off: int, order: Endianness) -> u32 {
    u32_from(b.skip(off), order)
}

/// A position in a byte buffer, from which fixed-width fields are read one after another.
///
/// A read either takes exactly the bytes it asks for, or fails and takes none.
#[derive(Clone, Copy)]
pub struct ByteReader<'a> {
    data: &'a [u8],
    pos: usize,
}

impl<'a> ByteReader<'a> {
    #[verifier::type_invariant]
    spec fn in_bounds(self) -> bool {
        self.pos <= self.data@.len()
    }

    /// The bytes that have not been read yet.
    pub closed spec fn rest(self) -> Seq<u8> {
        self.data@.skip(self.pos as int)
    }

    /// The number of bytes read so far.
    pub closed spec fn consumed(self) -> nat {
        self.pos as nat
    }

    /// A reader at the start of `data`.
    pub fn new(data: &'a [u8]) -> (r: Self)
        ensures
            r.rest() == data@,
            r.consumed() == 0,
    {
        ByteReader { data, pos: 0 }
    }

    /// The number of bytes read so far.
    pub fn position(&self) -> (r: usize)
        ensures
            r == self.consumed(),
    {
        self.pos
    }

    /// The number of bytes left to read.
    pub fn remaining(&self) -> (r: usize)
        ensures
            r == self.rest().len(),
    {
        proof {
            use_type_invariant(self);
        }
        self.data.len() - self.pos
    }

    /// Reads a 16-bit unsigned integer stored in the given byte order.
    pub fn read_u16(&mut self, order: Endianness) -> (r: Result<u16, Error>)
        ensures
            old(self).rest().len() >= 2 ==> r == Ok::<u16, Error>(u16_from(old(self).rest(), order))
                && final(self).rest() == old(self).rest().skip(2) && final(self).consumed()
                == old(self).consumed() + 2,
            old(self).rest().len() < 2 ==> r == Err::<u16, Error>(Error::Io(IoFault::UnexpectedEof))
                && *final(self) == *old(self),
    {
        proof {
            use_type_invariant(&*self);
        }
        if self.data.len() - self.pos < 2 {
            return Err(Error::Io(IoFault::UnexpectedEof));
        }
        let field = slice_subrange(self.data, self.pos, self.pos + 2);
        let value = decode_u16(field, order);
        self.pos = self.pos + 2;
        Ok(value)
    }

    /// Reads a 32-bit unsigned integer stored in the given byte order.
    pub fn read_u32(&mut self, order: Endianness) -> (r: Result<u32, Error>)
        ensures
            old(self).rest().len() >= 4 ==> r == Ok::<u32, Error>(u32_from(old(self).rest(), order))
                && final(self).rest() == old(self).rest().skip(4) && final(self).consumed()
                == old(self).consumed() + 4,
            old(self).rest().len() < 4 ==> r == Err::<u32, Error>(Error::Io(IoFault::UnexpectedEof))
                && *final(self) == *old(self),
    {
        proof {
            use_type_invariant(&*self);
        }
        if self.data.len() - self.pos < 4 {
            return Err(Error::Io(IoFault::UnexpectedEof));
        }
        let field = slice_subrange(self.data, self.pos, self.pos + 4);
        let value = decode_u32(field, order);
        self.pos = self.pos + 4;
        Ok(value)
    }

    /// Reads the next `N` bytes.
    pub fn read_array<const N: usize>(&mut self) -> (r: Result<[u8; N], Error>)
        ensures
            old(self).rest().len() >= N ==> r is Ok && r->Ok_0@ == old(self).rest().take(N as int)
                && final(self).rest() == old(self).rest().skip(N as int)
                && final(self).consumed() == old(self).consumed() + N,
            old(self).rest().len() < N ==> r == Err::<[u8; N], Error>(
                Error::Io(IoFault::UnexpectedEof),
            ) && *final(self) == *old(self),
    {
        proof {
            use_type_invariant(&*self);
        }
        if self.data.len() - self.pos < N {
            return Err(Error::Io(IoFault::UnexpectedEof));
        }
        let mut out = [0u8; N];
        let mut i: usize = 0;
        while i < N
            invariant
                i <= N,
                self.pos + N <= self.data.len(),
                forall|k: int| 0 <= k < i ==> out@[k] == self.data@[self.pos + k],
            decreases N - i,
        {
            out[i] = self.data[self.pos + i];
            i = i + 1;
        }
        self.pos = self.pos + N;
        assert(out@ =~= old(self).rest().take(N as int));
        Ok(out)
    }

    /// Passes over the next `n` bytes.
    pub fn skip(&mut self, n: usize) -> (r: Result<(), Error>)
        ensures
            old(self).rest().len() >= n ==> r == Ok::<(), Error>(()) && final(self).rest() == old(
                self,
            ).rest().skip(n as int) && final(self).consumed() == old(self).consumed() + n,
            old(self).rest().len() < n ==> r == Err::<(), Error>(Error::Io(IoFault::UnexpectedEof))
                && *final(self) == *old(self),
    {
        proof {
            use_type_invariant(&*self);
        }
        if self.data.len() - self.pos < n {
            return Err(Error::Io(IoFault::UnexpectedEof));
        }
        self.pos = self.pos + n;
        Ok(())
    }

    /// Reads the 16-bit value that lies `off` bytes into `b`, where the reader has come
    /// that far in `b`.
    pub(crate) fn next_half(
        &mut self,
        order: Endianness,
        Ghost(b): Ghost<Seq<u8>>,
        Ghost(off): Ghost<int>,
    ) -> (r: Result<u16, Error>)
        requires
            0 <= off <= b.len(),
            old(self).rest() == b.skip(off),
        ensures
            off + 2 <= b.len() ==> r == Ok::<u16, Error>(half(b, off, order))
                && final(self).rest() == b.skip(off + 2) && final(self).consumed() == old(
                self,
            ).consumed() + 2,
            off + 2 > b.len() ==> r == Err::<u16, Error>(Error::Io(IoFault::UnexpectedEof))
                && *final(self) == *old(self),
    {
        let r = self.read_u16(order);
        assert(off + 2 <= b.len() ==> b.skip(off).skip(2) =~= b.skip(off + 2));
        r
    }

    /// Reads the 32-bit word that lies `off` bytes into `b`, where the reader has come
    /// that far in `b`.
    pub(crate) fn next_word(
        &mut self,
        order: Endianness,
        Ghost(b): Ghost<Seq<u8>>,
        Ghost(off): Ghost<int>,
    ) -> (r: Result<u32, Error>)
        requires
            0 <= off <= b.len(),
            old(self).rest() == b.skip(off),
        ensures
            off + 4 <= b.len() ==> r == Ok::<u32, Error>(word(b, off, order))
                && final(self).rest() == b.skip(off + 4) && final(self).consumed() == old(
                self,
            ).consumed() + 4,
            off + 4 > b.len() ==> r == Err::<u32, Error>(Error::Io(IoFault::UnexpectedEof))
                && *final(self) == *old(self),
    {
        let r = self.read_u32(order);
        assert(off + 4 <= b.len() ==> b.skip(off).skip(4) =~= b.skip(off + 4));
        r
    }
}

} // verus!
