use vstd::prelude::*;
use crate::errors::ErrorKind;
use crate::guid::{spec_guid_at, Guid};
use crate::reader::{le16_at, le32_at, Reader};

verus! {

/// An extended GUID: the primary object identity of the packaging layer.
#[derive(Debug, Clone, Copy, PartialEq, Eq, Structural, Hash)]
pub struct ExGuid {
    pub guid: Guid,
    pub value: u32,
}

/// How many bytes the extended GUID starting with tag byte `b` occupies on
/// the wire, counting the tag byte; `-1` when the tag selects no form.
/// The form is selected by the lowest set bit of the tag byte: a zero byte
/// is the null identity, and the other forms carry a 5, 10, 17 or 32 bit
/// value followed by the full 16-byte GUID.
pub open spec fn exguid_size(b: u8) -> int {
    if b == 0 {
        1
    } else if b & 0x07 == 0x04 {
        17
    } else if b & 0x3f == 0x20 {
        18
    } else if b & 0x7f == 0x40 {
        19
    } else if b == 0x80 {
        21
    } else {
        -1
    }
}

/// The extended GUID encoded at position `i` of `s`.
pub open spec fn spec_exguid_at(s: Seq<u8>, i: int) -> ExGuid {
    let b = s[i];
    if b == 0 {
        ExGuid { guid: Guid::spec_nil(), value: 0 }
    } else if b & 0x07 == 0x04 {
        ExGuid { guid: spec_guid_at(s, i + 1), value: (b >> 3) as u32 }
    } else if b & 0x3f == 0x20 {
        ExGuid {
            guid: spec_guid_at(s, i + 2),
            value: (le16_at(s, i) >> 6) as u32,
        }
    } else if b & 0x7f == 0x40 {
        ExGuid {
            guid: spec_guid_at(s, i + 3),
            value: ((b as u32) | (s[i + 1] as u32) << 8 | (s[i + 2] as u32) << 16) >> 7,
        }
    } else {
        ExGuid {
            guid: spec_guid_at(s, i + 5),
            value: le32_at(s, i + 1),
        }
    }
}

impl ExGuid {
    /// The null identity: the all-zero GUID with value zero.
    pub fn fallback() -> (r: ExGuid)
        ensures
            r == (ExGuid { guid: Guid::spec_nil(), value: 0 }),
    {
        ExGuid { guid: Guid::nil(), value: 0 }
    }

    /// Read the variable-width wire form of an extended GUID.
    pub fn parse(reader: &mut Reader) -> (r: Result<ExGuid, ErrorKind>)
        requires
            old(reader).wf(),
        ensures
            final(reader).wf(),
            final(reader).bytes() == old(reader).bytes(),
            final(reader).spec_pos() >= old(reader).spec_pos(),
            match r {
                Ok(eg) => {
                    &&& old(reader).spec_remaining() >= 1
                    &&& exguid_size(old(reader).bytes()[old(reader).spec_pos()]) >= 1
                    &&& old(reader).spec_remaining() >= exguid_size(
                        old(reader).bytes()[old(reader).spec_pos()])
                    &&& eg == spec_exguid_at(old(reader).bytes(), old(reader).spec_pos())
                    &&& final(reader).spec_pos() == old(reader).spec_pos() + exguid_size(
                        old(reader).bytes()[old(reader).spec_pos()])
                },
                Err(e) => {
                    if old(reader).spec_remaining() < 1 {
                        e == ErrorKind::UnexpectedEof
                    } else if exguid_size(old(reader).bytes()[old(reader).spec_pos()]) == -1 {
                        e == ErrorKind::MalformedFssHttpBData("unexpected extended guid tag")
                    } else {
                        &&& old(reader).spec_remaining() < exguid_size(
                            old(reader).bytes()[old(reader).spec_pos()])
                        &&& e == ErrorKind::UnexpectedEof
                    }
                },
            },
    {
        let b = match reader.get_u8() {
            Ok(v) => v,
            Err(e) => { return Err(e); },
        };
        if b == 0 {
            Ok(ExGuid::fallback())
        } else if b & 0x07 == 0x04 {
            let guid = match Guid::parse(reader) {
                Ok(g) => g,
                Err(e) => { return Err(e); },
            };
            Ok(ExGuid { guid, value: (b >> 3) as u32 })
        } else if b & 0x3f == 0x20 {
            let b1 = match reader.get_u8() {
                Ok(v) => v,
                Err(e) => { return Err(e); },
            };
            let w: u16 = (b as u16) | (b1 as u16) << 8;
            let guid = match Guid::parse(reader) {
                Ok(g) => g,
                Err(e) => { return Err(e); },
            };
            Ok(ExGuid { guid, value: (w >> 6) as u32 })
        } else if b & 0x7f == 0x40 {
            let b1 = match reader.get_u8() {
                Ok(v) => v,
                Err(e) => { return Err(e); },
            };
            let b2 = match reader.get_u8() {
                Ok(v) => v,
                Err(e) => { return Err(e); },
            };
            let w: u32 = (b as u32) | (b1 as u32) << 8 | (b2 as u32) << 16;
            let guid = match Guid::parse(reader) {
                Ok(g) => g,
                Err(e) => { return Err(e); },
            };
            Ok(ExGuid { guid, value: w >> 7 })
        } else if b == 0x80 {
            let value = match reader.get_u32() {
                Ok(v) => v,
                Err(e) => { return Err(e); },
            };
            let guid = match Guid::parse(reader) {
                Ok(g) => g,
                Err(e) => { return Err(e); },
            };
            Ok(ExGuid { guid, value })
        } else {
            Err(ErrorKind::MalformedFssHttpBData("unexpected extended guid tag"))
        }
    }
}

} // verus!
