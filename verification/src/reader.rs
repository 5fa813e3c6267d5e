use vstd::prelude::*;
use vstd::slice::{slice_index_get, slice_subrange, slice_to_vec};
use crate::errors::ErrorKind;

verus! {

/// The little-endian 16-bit word encoded at position `i` of `s`.
pub open spec fn le16_at(s: Seq<u8>, i: int) -> u16 {
    (s[i] as u16) | (s[i + 1] as u16) << 8
}

/// The little-endian 32-bit word encoded at position `i` of `s`.
pub open spec fn le32_at(s: Seq<u8>, i: int) -> u32 {
    (s[i] as u32) | (s[i + 1] as u32) << 8 | (s[i + 2] as u32) << 16 | (s[i + 3] as u32) << 24
}

/// The little-endian 64-bit word encoded at position `i` of `s`.
pub open spec fn le64_at(s: Seq<u8>, i: int) -> u64 {
    (s[i] as u64) | (s[i + 1] as u64) << 8 | (s[i + 2] as u64) << 16 | (s[i + 3] as u64) << 24
        | (s[i + 4] as u64) << 32 | (s[i + 5] as u64) << 40 | (s[i + 6] as u64) << 48
        | (s[i + 7] as u64) << 56
}

/// A forward cursor over a contiguous byte slice.
///
/// All primitive reads are little-endian.  An over-read fails with
/// `ErrorKind::UnexpectedEof` and leaves the cursor where it was.
/// The reader borrows the buffer for the lifetime of parsing.
#[derive(Clone, Copy)]
pub struct Reader<'a> {
    pub data: &'a [u8],
    pub pos: usize,
}

impl<'a> Reader<'a> {
    /// The cursor never stands past the end of the buffer.
    pub open spec fn wf(self) -> bool {
        self.pos <= self.data@.len()
    }

    /// The whole underlying buffer.
    pub open spec fn bytes(self) -> Seq<u8> {
        self.data@
    }

    /// The current cursor position.
    pub open spec fn spec_pos(self) -> int {
        self.pos as int
    }

    /// How many bytes are left to read.
    pub open spec fn spec_remaining(self) -> int {
        self.data@.len() - self.pos
    }

    pub fn new(data: &'a [u8]) -> (r: Reader<'a>)
        ensures
            r.wf(),
            r.bytes() == data@,
            r.spec_pos() == 0,
    {
        Reader { data, pos: 0 }
    }

    pub fn position(&self) -> (r: usize)
        ensures
            r == self.spec_pos(),
    {
        self.pos
    }

    pub fn remaining(&self) -> (r: usize)
        requires
            self.wf(),
        ensures
            r == self.spec_remaining(),
    {
        self.data.len() - self.pos
    }

    /// Read one byte and advance.
    pub fn get_u8(&mut self) -> (r: Result<u8, ErrorKind>)
        requires
            old(self).wf(),
        ensures
            final(self).wf(),
            final(self).bytes() == old(self).bytes(),
            match r {
                Ok(b) => {
                    &&& old(self).spec_remaining() >= 1
                    &&& b == old(self).bytes()[old(self).spec_pos()]
                    &&& final(self).spec_pos() == old(self).spec_pos() + 1
                },
                Err(e) => {
                    &&& old(self).spec_remaining() < 1
                    &&& e == ErrorKind::UnexpectedEof
                    &&& final(self).spec_pos() == old(self).spec_pos()
                },
            },
    {
        if self.pos < self.data.len() {
            let b = *slice_index_get(self.data, self.pos);
            self.pos = self.pos + 1;
            Ok(b)
        } else {
            Err(ErrorKind::UnexpectedEof)
        }
    }

    /// Read a little-endian 16-bit integer and advance.
    pub fn get_u16(&mut self) -> (r: Result<u16, ErrorKind>)
        requires
            old(self).wf(),
        ensures
            final(self).wf(),
            final(self).bytes() == old(self).bytes(),
            match r {
                Ok(w) => {
                    &&& old(self).spec_remaining() >= 2
                    &&& w == le16_at(old(self).bytes(), old(self).spec_pos())
                    &&& final(self).spec_pos() == old(self).spec_pos() + 2
                },
                Err(e) => {
                    &&& old(self).spec_remaining() < 2
                    &&& e == ErrorKind::UnexpectedEof
                    &&& final(self).spec_pos() == old(self).spec_pos()
                },
            },
    {
        if self.data.len() - self.pos >= 2 {
            let b0 = *slice_index_get(self.data, self.pos);
            let b1 = *slice_index_get(self.data, self.pos + 1);
            self.pos = self.pos + 2;
            Ok((b0 as u16) | (b1 as u16) << 8)
        } else {
            Err(ErrorKind::UnexpectedEof)
        }
    }

    /// Read a little-endian 32-bit integer and advance.
    pub fn get_u32(&mut self) -> (r: Result<u32, ErrorKind>)
        requires
            old(self).wf(),
        ensures
            final(self).wf(),
            final(self).bytes() == old(self).bytes(),
            match r {
                Ok(w) => {
                    &&& old(self).spec_remaining() >= 4
                    &&& w == le32_at(old(self).bytes(), old(self).spec_pos())
                    &&& final(self).spec_pos() == old(self).spec_pos() + 4
                },
                Err(e) => {
                    &&& old(self).spec_remaining() < 4
                    &&& e == ErrorKind::UnexpectedEof
                    &&& final(self).spec_pos() == old(self).spec_pos()
                },
            },
    {
        if self.data.len() - self.pos >= 4 {
            let b0 = *slice_index_get(self.data, self.pos);
            let b1 = *slice_index_get(self.data, self.pos + 1);
            let b2 = *slice_index_get(self.data, self.pos + 2);
            let b3 = *slice_index_get(self.data, self.pos + 3);
            self.pos = self.pos + 4;
            Ok((b0 as u32) | (b1 as u32) << 8 | (b2 as u32) << 16 | (b3 as u32) << 24)
        } else {
            Err(ErrorKind::UnexpectedEof)
        }
    }

    /// Read a little-endian 64-bit integer and advance.
    pub fn get_u64(&mut self) -> (r: Result<u64, ErrorKind>)
        requires
            old(self).wf(),
        ensures
            final(self).wf(),
            final(self).bytes() == old(self).bytes(),
            match r {
                Ok(w) => {
                    &&& old(self).spec_remaining() >= 8
                    &&& w == le64_at(old(self).bytes(), old(self).spec_pos())
                    &&& final(self).spec_pos() == old(self).spec_pos() + 8
                },
                Err(e) => {
                    &&& old(self).spec_remaining() < 8
                    &&& e == ErrorKind::UnexpectedEof
                    &&& final(self).spec_pos() == old(self).spec_pos()
                },
            },
    {
        if self.data.len() - self.pos >= 8 {
            let b0 = *slice_index_get(self.data, self.pos);
            let b1 = *slice_index_get(self.data, self.pos + 1);
            let b2 = *slice_index_get(self.data, self.pos + 2);
            let b3 = *slice_index_get(self.data, self.pos + 3);
            let b4 = *slice_index_get(self.data, self.pos + 4);
            let b5 = *slice_index_get(self.data, self.pos + 5);
            let b6 = *slice_index_get(self.data, self.pos + 6);
            let b7 = *slice_index_get(self.data, self.pos + 7);
            self.pos = self.pos + 8;
            Ok((b0 as u64) | (b1 as u64) << 8 | (b2 as u64) << 16 | (b3 as u64) << 24
                | (b4 as u64) << 32 | (b5 as u64) << 40 | (b6 as u64) << 48 | (b7 as u64) << 56)
        } else {
            Err(ErrorKind::UnexpectedEof)
        }
    }

    /// Read `n` bytes into an owned vector and advance.
    pub fn read(&mut self, n: usize) -> (r: Result<Vec<u8>, ErrorKind>)
        requires
            old(self).wf(),
        ensures
            final(self).wf(),
            final(self).bytes() == old(self).bytes(),
            match r {
                Ok(v) => {
                    &&& old(self).spec_remaining() >= n
                    &&& v@ == old(self).bytes().subrange(
                        old(self).spec_pos(), old(self).spec_pos() + n)
                    &&& final(self).spec_pos() == old(self).spec_pos() + n
                },
                Err(e) => {
                    &&& old(self).spec_remaining() < n
                    &&& e == ErrorKind::UnexpectedEof
                    &&& final(self).spec_pos() == old(self).spec_pos()
                },
            },
    {
        if n <= self.data.len() - self.pos {
            let v = slice_to_vec(slice_subrange(self.data, self.pos, self.pos + n));
            self.pos = self.pos + n;
            Ok(v)
        } else {
            Err(ErrorKind::UnexpectedEof)
        }
    }

    /// Skip `n` bytes without reading them.
    pub fn skip(&mut self, n: usize) -> (r: Result<(), ErrorKind>)
        requires
            old(self).wf(),
        ensures
            final(self).wf(),
            final(self).bytes() == old(self).bytes(),
            match r {
                Ok(u) => {
                    &&& old(self).spec_remaining() >= n
                    &&& final(self).spec_pos() == old(self).spec_pos() + n
                },
                Err(e) => {
                    &&& old(self).spec_remaining() < n
                    &&& e == ErrorKind::UnexpectedEof
                    &&& final(self).spec_pos() == old(self).spec_pos()
                },
            },
    {
        if n <= self.data.len() - self.pos {
            self.pos = self.pos + n;
            Ok(())
        } else {
            Err(ErrorKind::UnexpectedEof)
        }
    }
}

} // verus!
