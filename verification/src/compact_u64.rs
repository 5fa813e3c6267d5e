use vstd::prelude::*;
use crate::errors::ErrorKind;
use crate::reader::{le64_at, Reader};

verus! {

/// How many bytes the compact 64-bit integer starting with tag byte `b`
/// occupies on the wire, counting the tag byte.  The width is selected by
/// the lowest set bit of the tag byte; every byte value selects a width.
pub open spec fn cu64_size(b: u8) -> int {
    if b == 0 {
        1
    } else if b & 0x01 == 0x01 {
        1
    } else if b & 0x03 == 0x02 {
        2
    } else if b & 0x07 == 0x04 {
        3
    } else if b & 0x0f == 0x08 {
        4
    } else if b & 0x1f == 0x10 {
        5
    } else if b & 0x3f == 0x20 {
        6
    } else if b & 0x7f == 0x40 {
        7
    } else {
        9
    }
}

/// The value of the compact 64-bit integer encoded at position `i` of `s`.
pub open spec fn spec_cu64_at(s: Seq<u8>, i: int) -> u64 {
    let b = s[i];
    if b == 0 {
        0
    } else if b & 0x01 == 0x01 {
        (b >> 1) as u64
    } else if b & 0x03 == 0x02 {
        ((b as u64) | (s[i + 1] as u64) << 8) >> 2
    } else if b & 0x07 == 0x04 {
        ((b as u64) | (s[i + 1] as u64) << 8 | (s[i + 2] as u64) << 16) >> 3
    } else if b & 0x0f == 0x08 {
        ((b as u64) | (s[i + 1] as u64) << 8 | (s[i + 2] as u64) << 16
            | (s[i + 3] as u64) << 24) >> 4
    } else if b & 0x1f == 0x10 {
        ((b as u64) | (s[i + 1] as u64) << 8 | (s[i + 2] as u64) << 16
            | (s[i + 3] as u64) << 24 | (s[i + 4] as u64) << 32) >> 5
    } else if b & 0x3f == 0x20 {
        ((b as u64) | (s[i + 1] as u64) << 8 | (s[i + 2] as u64) << 16
            | (s[i + 3] as u64) << 24 | (s[i + 4] as u64) << 32
            | (s[i + 5] as u64) << 40) >> 6
    } else if b & 0x7f == 0x40 {
        ((b as u64) | (s[i + 1] as u64) << 8 | (s[i + 2] as u64) << 16
            | (s[i + 3] as u64) << 24 | (s[i + 4] as u64) << 32
            | (s[i + 5] as u64) << 40 | (s[i + 6] as u64) << 48) >> 7
    } else {
        le64_at(s, i + 1)
    }
}

/// Read a variable-width unsigned 64-bit integer.  The low bits of the
/// first byte select one of nine widths: a zero byte stands for zero, a
/// set bit `k` (counting from the lowest) announces `k` additional bytes
/// holding the value shifted left by `k + 1` bits, and the bare high bit
/// announces a full little-endian 64-bit word.
pub fn parse_compact_u64(reader: &mut Reader) -> (r: Result<u64, ErrorKind>)
    requires
        old(reader).wf(),
    ensures
        final(reader).wf(),
        final(reader).bytes() == old(reader).bytes(),
        final(reader).spec_pos() >= old(reader).spec_pos(),
        match r {
            Ok(v) => {
                &&& old(reader).spec_remaining() >= 1
                &&& old(reader).spec_remaining() >= cu64_size(
                    old(reader).bytes()[old(reader).spec_pos()])
                &&& v == spec_cu64_at(old(reader).bytes(), old(reader).spec_pos())
                &&& final(reader).spec_pos() == old(reader).spec_pos() + cu64_size(
                    old(reader).bytes()[old(reader).spec_pos()])
            },
            Err(e) => {
                &&& e == ErrorKind::UnexpectedEof
                &&& old(reader).spec_remaining() < 1 || old(reader).spec_remaining() < cu64_size(
                    old(reader).bytes()[old(reader).spec_pos()])
            },
        },
{
    let b = match reader.get_u8() {
        Ok(v) => v,
        Err(e) => { return Err(e); },
    };
    if b == 0 {
        Ok(0)
    } else if b & 0x01 == 0x01 {
        Ok((b >> 1) as u64)
    } else if b & 0x03 == 0x02 {
        let b1 = match reader.get_u8() { Ok(v) => v, Err(e) => { return Err(e); } };
        Ok(((b as u64) | (b1 as u64) << 8) >> 2)
    } else if b & 0x07 == 0x04 {
        let b1 = match reader.get_u8() { Ok(v) => v, Err(e) => { return Err(e); } };
        let b2 = match reader.get_u8() { Ok(v) => v, Err(e) => { return Err(e); } };
        Ok(((b as u64) | (b1 as u64) << 8 | (b2 as u64) << 16) >> 3)
    } else if b & 0x0f == 0x08 {
        let b1 = match reader.get_u8() { Ok(v) => v, Err(e) => { return Err(e); } };
        let b2 = match reader.get_u8() { Ok(v) => v, Err(e) => { return Err(e); } };
        let b3 = match reader.get_u8() { Ok(v) => v, Err(e) => { return Err(e); } };
        Ok(((b as u64) | (b1 as u64) << 8 | (b2 as u64) << 16 | (b3 as u64) << 24) >> 4)
    } else if b & 0x1f == 0x10 {
        let b1 = match reader.get_u8() { Ok(v) => v, Err(e) => { return Err(e); } };
        let b2 = match reader.get_u8() { Ok(v) => v, Err(e) => { return Err(e); } };
        let b3 = match reader.get_u8() { Ok(v) => v, Err(e) => { return Err(e); } };
        let b4 = match reader.get_u8() { Ok(v) => v, Err(e) => { return Err(e); } };
        Ok(((b as u64) | (b1 as u64) << 8 | (b2 as u64) << 16 | (b3 as u64) << 24
            | (b4 as u64) << 32) >> 5)
    } else if b & 0x3f == 0x20 {
        let b1 = match reader.get_u8() { Ok(v) => v, Err(e) => { return Err(e); } };
        let b2 = match reader.get_u8() { Ok(v) => v, Err(e) => { return Err(e); } };
        let b3 = match reader.get_u8() { Ok(v) => v, Err(e) => { return Err(e); } };
        let b4 = match reader.get_u8() { Ok(v) => v, Err(e) => { return Err(e); } };
        let b5 = match reader.get_u8() { Ok(v) => v, Err(e) => { return Err(e); } };
        Ok(((b as u64) | (b1 as u64) << 8 | (b2 as u64) << 16 | (b3 as u64) << 24
            | (b4 as u64) << 32 | (b5 as u64) << 40) >> 6)
    } else if b & 0x7f == 0x40 {
        let b1 = match reader.get_u8() { Ok(v) => v, Err(e) => { return Err(e); } };
        let b2 = match reader.get_u8() { Ok(v) => v, Err(e) => { return Err(e); } };
        let b3 = match reader.get_u8() { Ok(v) => v, Err(e) => { return Err(e); } };
        let b4 = match reader.get_u8() { Ok(v) => v, Err(e) => { return Err(e); } };
        let b5 = match reader.get_u8() { Ok(v) => v, Err(e) => { return Err(e); } };
        let b6 = match reader.get_u8() { Ok(v) => v, Err(e) => { return Err(e); } };
        Ok(((b as u64) | (b1 as u64) << 8 | (b2 as u64) << 16 | (b3 as u64) << 24
            | (b4 as u64) << 32 | (b5 as u64) << 40 | (b6 as u64) << 48) >> 7)
    } else {
        match reader.get_u64() {
            Ok(v) => Ok(v),
            Err(e) => Err(e),
        }
    }
}

} // verus!
