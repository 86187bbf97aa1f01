//! A read position over a borrowed byte buffer.

use vstd::prelude::*;
use vstd::slice::slice_subrange;

verus! {

/// The mathematical value of a [`Cursor`]: the whole buffer and how many of
/// its bytes have been consumed.
pub struct CursorView {
    pub buffer: Seq<u8>,
    pub pos: nat,
}

impl CursorView {
    /// The number of bytes not yet consumed.
    pub open spec fn remaining(self) -> int {
        self.buffer.len() - self.pos
    }

    /// The bytes not yet consumed.
    pub open spec fn rest(self) -> Seq<u8> {
        self.buffer.subrange(self.pos as int, self.buffer.len() as int)
    }

    /// The next `count` bytes.
    pub open spec fn window(self, count: nat) -> Seq<u8>
        recommends
            count <= self.remaining(),
    {
        self.buffer.subrange(self.pos as int, (self.pos + count) as int)
    }

    /// Whether the bytes not yet consumed begin with `bytes`.
    pub open spec fn starts_with(self, bytes: Seq<u8>) -> bool {
        bytes.len() <= self.remaining() && self.window(bytes.len()) == bytes
    }

    /// The same buffer with `count` more bytes consumed.
    pub open spec fn advanced(self, count: nat) -> CursorView {
        CursorView { buffer: self.buffer, pos: self.pos + count }
    }
}

/// A cursor over an immutable byte buffer. It starts at the first byte and
/// only moves forward, never past the end of the buffer.
pub struct Cursor<'a> {
    data: &'a [u8],
    pos: usize,
}

impl<'a> View for Cursor<'a> {
    type V = CursorView;

    closed spec fn view(&self) -> CursorView {
        CursorView { buffer: self.data@, pos: self.pos as nat }
    }
}

impl<'a> Cursor<'a> {
    /// The position never lies beyond the end of the buffer.
    #[verifier::type_invariant]
    pub open spec fn in_bounds(self) -> bool {
        self@.pos <= self@.buffer.len()
    }

    /// A cursor at the start of `data`.
    pub fn new(data: &'a [u8]) -> (cursor: Self)
        ensures
            cursor@ == (CursorView { buffer: data@, pos: 0 }),
    {
        Cursor { data, pos: 0 }
    }

    /// The number of bytes consumed so far, which never exceeds the length of
    /// the buffer.
    pub fn position(&self) -> (pos: u64)
        ensures
            pos == self@.pos,
            self@.pos <= self@.buffer.len(),
    {
        proof {
            use_type_invariant(self);
        }
        self.pos as u64
    }

    /// The number of bytes left to read.
    pub fn remaining(&self) -> (count: usize)
        ensures
            count == self@.remaining(),
            self@.pos <= self@.buffer.len(),
    {
        proof {
            use_type_invariant(self);
        }
        self.data.len() - self.pos
    }

    /// Consumes the next `count` bytes and returns them, or consumes nothing
    /// and returns `None` when fewer than `count` bytes remain.
    pub fn take(&mut self, count: usize) -> (taken: Option<&'a [u8]>)
        ensures
            match taken {
                Some(bytes) => {
                    &&& count <= old(self)@.remaining()
                    &&& bytes@ == old(self)@.window(count as nat)
                    &&& final(self)@ == old(self)@.advanced(count as nat)
                },
                None => {
                    &&& count > old(self)@.remaining()
                    &&& final(self)@ == old(self)@
                },
            },
    {
        proof {
            use_type_invariant(&*self);
        }
        if count > self.data.len() - self.pos {
            return None;
        }
        let start: usize = self.pos;
        let end: usize = start + count;
        let data: &'a [u8] = self.data;
        self.pos = end;
        Some(slice_subrange(data, start, end))
    }
}

} // verus!
