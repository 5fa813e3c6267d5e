use vstd::prelude::*;
use crate::errors::ErrorKind;
use crate::reader::{le16_at, le32_at, le64_at, Reader};

verus! {

/// A 128-bit globally unique identifier, parsed little-endian in its
/// canonical field layout: a 32-bit word, two 16-bit words, and the final
/// eight bytes (held here as one little-endian 64-bit word).
#[derive(Debug, Clone, Copy, PartialEq, Eq, Structural, Hash)]
pub struct Guid {
    pub data1: u32,
    pub data2: u16,
    pub data3: u16,
    pub data4: u64,
}

/// The GUID encoded at position `i` of `s` (16 bytes).
pub open spec fn spec_guid_at(s: Seq<u8>, i: int) -> Guid {
    Guid {
        data1: le32_at(s, i),
        data2: le16_at(s, i + 4),
        data3: le16_at(s, i + 6),
        data4: le64_at(s, i + 8),
    }
}

impl Guid {
    /// The all-zero GUID.
    pub fn nil() -> (r: Guid)
        ensures
            r == Guid::spec_nil(),
    {
        Guid { data1: 0, data2: 0, data3: 0, data4: 0 }
    }

    pub open spec fn spec_nil() -> Guid {
        Guid { data1: 0, data2: 0, data3: 0, data4: 0 }
    }

    /// Read the 16-byte wire form of a GUID.
    pub fn parse(reader: &mut Reader) -> (r: Result<Guid, ErrorKind>)
        requires
            old(reader).wf(),
        ensures
            final(reader).wf(),
            final(reader).bytes() == old(reader).bytes(),
            final(reader).spec_pos() >= old(reader).spec_pos(),
            match r {
                Ok(g) => {
                    &&& old(reader).spec_remaining() >= 16
                    &&& g == spec_guid_at(old(reader).bytes(), old(reader).spec_pos())
                    &&& final(reader).spec_pos() == old(reader).spec_pos() + 16
                },
                Err(e) => {
                    &&& old(reader).spec_remaining() < 16
                    &&& e == ErrorKind::UnexpectedEof
                },
            },
    {
        if reader.remaining() < 16 {
            return Err(ErrorKind::UnexpectedEof);
        }
        let data1 = match reader.get_u32() {
            Ok(v) => v,
            Err(e) => { return Err(e); },
        };
        let data2 = match reader.get_u16() {
            Ok(v) => v,
            Err(e) => { return Err(e); },
        };
        let data3 = match reader.get_u16() {
            Ok(v) => v,
            Err(e) => { return Err(e); },
        };
        let data4 = match reader.get_u64() {
            Ok(v) => v,
            Err(e) => { return Err(e); },
        };
        Ok(Guid { data1, data2, data3, data4 })
    }
}

} // verus!
