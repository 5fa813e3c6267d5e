use vstd::prelude::*;
use crate::errors::ErrorKind;
use crate::reader::{le16_at, le32_at, Reader};

verus! {

// The stream-object type codes used by this parser: a closed enumeration
// in the file format; only the codes the parser touches are named here.
pub const OBJECT_TYPE_DATA_ELEMENT: u32 = 0x01;
pub const OBJECT_TYPE_DATA_ELEMENT_PACKAGE: u32 = 0x15;
pub const OBJECT_TYPE_OBJECT_GROUP_OBJECT_DATA: u32 = 0x16;
pub const OBJECT_TYPE_OBJECT_GROUP_OBJECT_DECLARE: u32 = 0x18;
pub const OBJECT_TYPE_OBJECT_GROUP_DECLARATIONS: u32 = 0x1d;
pub const OBJECT_TYPE_OBJECT_GROUP_DATA: u32 = 0x1e;
pub const OBJECT_TYPE_ONENOTE_PACKAGING: u32 = 0x7a;

/// A self-describing frame surrounding every nested record of the
/// packaging layer: a type code, a declared body length, and whether the
/// frame is compound (terminated later by an end marker of the same type).
#[derive(Debug, Clone, Copy, PartialEq, Eq, Structural)]
pub struct ObjectHeader {
    pub compound: bool,
    pub object_type: u32,
    pub length: u32,
}

/// A parsed header: either the start of a stream object or an end marker
/// carrying the type code of the compound object it terminates.
#[derive(Debug, Clone, Copy, PartialEq, Eq, Structural)]
pub enum ParsedHeader {
    Start(ObjectHeader),
    End(u32),
}

/// The 16-bit start header encoded at position `i` of `s`:
/// bits 0-1 the tag, bits 2-7 the type, bits 8-14 the length,
/// bit 15 the compound flag.
pub open spec fn spec_header16_at(s: Seq<u8>, i: int) -> ObjectHeader {
    let w = le16_at(s, i);
    ObjectHeader {
        compound: (w >> 15) & 1 == 1,
        object_type: ((w >> 2) & 0x3f) as u32,
        length: ((w >> 8) & 0x7f) as u32,
    }
}

/// The type code of the 16-bit end marker encoded at position `i` of `s`:
/// bits 2-15.
pub open spec fn spec_end16_type_at(s: Seq<u8>, i: int) -> u32 {
    (le16_at(s, i) >> 2) as u32
}

/// The 32-bit start header encoded at position `i` of `s`:
/// bits 0-1 the tag, bits 2-15 the type, bits 16-30 the length,
/// bit 31 the compound flag.
pub open spec fn spec_header32_at(s: Seq<u8>, i: int) -> ObjectHeader {
    let w = le32_at(s, i);
    ObjectHeader {
        compound: (w >> 31) & 1 == 1,
        object_type: (w >> 2) & 0x3fff,
        length: (w >> 16) & 0x7fff,
    }
}

/// The tag in the two lowest bits of the word at position `i`:
/// 1 starts a 16-bit header, 3 is a 16-bit end marker, 0 starts a
/// 32-bit header, 2 belongs to no frame.
pub open spec fn spec_header_tag_at(s: Seq<u8>, i: int) -> u16 {
    le16_at(s, i) & 3
}

impl ObjectHeader {
    /// Read any header: a 16-bit start, a 16-bit end marker, or a 32-bit
    /// start, selected by the tag in the two lowest bits.
    pub fn parse(reader: &mut Reader) -> (r: Result<ParsedHeader, ErrorKind>)
        requires
            old(reader).wf(),
        ensures
            final(reader).wf(),
            final(reader).bytes() == old(reader).bytes(),
            final(reader).spec_pos() >= old(reader).spec_pos(),
            match r {
                Ok(h) => {
                    &&& old(reader).spec_remaining() >= 2
                    &&& match h {
                        ParsedHeader::Start(hdr) => {
                            if spec_header_tag_at(old(reader).bytes(), old(reader).spec_pos())
                                == 1 {
                                &&& hdr == spec_header16_at(
                                    old(reader).bytes(), old(reader).spec_pos())
                                &&& final(reader).spec_pos() == old(reader).spec_pos() + 2
                            } else {
                                &&& spec_header_tag_at(
                                    old(reader).bytes(), old(reader).spec_pos()) == 0
                                &&& old(reader).spec_remaining() >= 4
                                &&& hdr == spec_header32_at(
                                    old(reader).bytes(), old(reader).spec_pos())
                                &&& final(reader).spec_pos() == old(reader).spec_pos() + 4
                            }
                        },
                        ParsedHeader::End(t) => {
                            &&& spec_header_tag_at(old(reader).bytes(), old(reader).spec_pos())
                                == 3
                            &&& t == spec_end16_type_at(old(reader).bytes(), old(reader).spec_pos())
                            &&& final(reader).spec_pos() == old(reader).spec_pos() + 2
                        },
                    }
                },
                Err(e) => {
                    if old(reader).spec_remaining() < 2 {
                        e == ErrorKind::UnexpectedEof
                    } else if spec_header_tag_at(old(reader).bytes(), old(reader).spec_pos())
                        == 2 {
                        e == ErrorKind::MalformedFssHttpBData("unexpected stream object header tag")
                    } else {
                        &&& spec_header_tag_at(old(reader).bytes(), old(reader).spec_pos()) == 0
                        &&& old(reader).spec_remaining() < 4
                        &&& e == ErrorKind::UnexpectedEof
                    }
                },
            },
    {
        let w = match reader.get_u16() {
            Ok(v) => v,
            Err(e) => { return Err(e); },
        };
        let tag = w & 3;
        if tag == 3 {
            Ok(ParsedHeader::End((w >> 2) as u32))
        } else if tag == 1 {
            Ok(ParsedHeader::Start(ObjectHeader {
                compound: (w >> 15) & 1 == 1,
                object_type: ((w >> 2) & 0x3f) as u32,
                length: ((w >> 8) & 0x7f) as u32,
            }))
        } else if tag == 0 {
            let hi = match reader.get_u16() {
                Ok(v) => v,
                Err(e) => { return Err(e); },
            };
            let w32: u32 = (w as u32) | (hi as u32) << 16;
            proof {
                let s = old(reader).bytes();
                let i = old(reader).spec_pos();
                let b0 = s[i];
                let b1 = s[i + 1];
                let b2 = s[i + 2];
                let b3 = s[i + 3];
                assert(w32 == ((b0 as u32) | (b1 as u32) << 8 | (b2 as u32) << 16
                    | (b3 as u32) << 24)) by (bit_vector)
                    requires
                        w == ((b0 as u16) | (b1 as u16) << 8),
                        hi == ((b2 as u16) | (b3 as u16) << 8),
                        w32 == ((w as u32) | (hi as u32) << 16),
                ;
            }
            Ok(ParsedHeader::Start(ObjectHeader {
                compound: (w32 >> 31) & 1 == 1,
                object_type: (w32 >> 2) & 0x3fff,
                length: (w32 >> 16) & 0x7fff,
            }))
        } else {
            proof {
                assert(w & 3 == 2) by (bit_vector)
                    requires
                        w & 3 != 3 && w & 3 != 1 && w & 3 != 0,
                ;
            }
            Err(ErrorKind::MalformedFssHttpBData("unexpected stream object header tag"))
        }
    }

    /// Read a 16-bit start header and check it announces `expected_type`.
    pub fn try_parse_16(reader: &mut Reader, expected_type: u32) -> (r: Result<
        ObjectHeader,
        ErrorKind,
    >)
        requires
            old(reader).wf(),
        ensures
            final(reader).wf(),
            final(reader).bytes() == old(reader).bytes(),
            final(reader).spec_pos() >= old(reader).spec_pos(),
            match r {
                Ok(h) => {
                    &&& old(reader).spec_remaining() >= 2
                    &&& spec_header_tag_at(old(reader).bytes(), old(reader).spec_pos()) == 1
                    &&& h == spec_header16_at(old(reader).bytes(), old(reader).spec_pos())
                    &&& h.object_type == expected_type
                    &&& final(reader).spec_pos() == old(reader).spec_pos() + 2
                },
                Err(e) => {
                    if old(reader).spec_remaining() < 2 {
                        e == ErrorKind::UnexpectedEof
                    } else if spec_header_tag_at(old(reader).bytes(), old(reader).spec_pos())
                        != 1 {
                        e == ErrorKind::MalformedFssHttpBData("unexpected stream object header")
                    } else {
                        &&& spec_header16_at(old(reader).bytes(),
                            old(reader).spec_pos()).object_type != expected_type
                        &&& e == ErrorKind::MalformedFssHttpBData("unexpected stream object type")
                    }
                },
            },
    {
        let w = match reader.get_u16() {
            Ok(v) => v,
            Err(e) => { return Err(e); },
        };
        if w & 3 != 1 {
            return Err(ErrorKind::MalformedFssHttpBData("unexpected stream object header"));
        }
        let h = ObjectHeader {
            compound: (w >> 15) & 1 == 1,
            object_type: ((w >> 2) & 0x3f) as u32,
            length: ((w >> 8) & 0x7f) as u32,
        };
        if h.object_type != expected_type {
            return Err(ErrorKind::MalformedFssHttpBData("unexpected stream object type"));
        }
        Ok(h)
    }

    /// Read a 32-bit start header and check it announces `expected_type`.
    pub fn try_parse_32(reader: &mut Reader, expected_type: u32) -> (r: Result<
        ObjectHeader,
        ErrorKind,
    >)
        requires
            old(reader).wf(),
        ensures
            final(reader).wf(),
            final(reader).bytes() == old(reader).bytes(),
            final(reader).spec_pos() >= old(reader).spec_pos(),
            match r {
                Ok(h) => {
                    &&& old(reader).spec_remaining() >= 4
                    &&& le32_at(old(reader).bytes(), old(reader).spec_pos()) & 3 == 0
                    &&& h == spec_header32_at(old(reader).bytes(), old(reader).spec_pos())
                    &&& h.object_type == expected_type
                    &&& final(reader).spec_pos() == old(reader).spec_pos() + 4
                },
                Err(e) => {
                    if old(reader).spec_remaining() < 4 {
                        e == ErrorKind::UnexpectedEof
                    } else if le32_at(old(reader).bytes(), old(reader).spec_pos()) & 3 != 0 {
                        e == ErrorKind::MalformedFssHttpBData("unexpected stream object header")
                    } else {
                        &&& spec_header32_at(old(reader).bytes(),
                            old(reader).spec_pos()).object_type != expected_type
                        &&& e == ErrorKind::MalformedFssHttpBData("unexpected stream object type")
                    }
                },
            },
    {
        let w = match reader.get_u32() {
            Ok(v) => v,
            Err(e) => { return Err(e); },
        };
        if w & 3 != 0 {
            return Err(ErrorKind::MalformedFssHttpBData("unexpected stream object header"));
        }
        let h = ObjectHeader {
            compound: (w >> 31) & 1 == 1,
            object_type: (w >> 2) & 0x3fff,
            length: (w >> 16) & 0x7fff,
        };
        if h.object_type != expected_type {
            return Err(ErrorKind::MalformedFssHttpBData("unexpected stream object type"));
        }
        Ok(h)
    }

    /// Read a 16-bit end marker and check it terminates `expected_type`.
    pub fn try_parse_end_16(reader: &mut Reader, expected_type: u32) -> (r: Result<
        (),
        ErrorKind,
    >)
        requires
            old(reader).wf(),
        ensures
            final(reader).wf(),
            final(reader).bytes() == old(reader).bytes(),
            final(reader).spec_pos() >= old(reader).spec_pos(),
            match r {
                Ok(u) => {
                    &&& old(reader).spec_remaining() >= 2
                    &&& spec_header_tag_at(old(reader).bytes(), old(reader).spec_pos()) == 3
                    &&& spec_end16_type_at(old(reader).bytes(), old(reader).spec_pos())
                        == expected_type
                    &&& final(reader).spec_pos() == old(reader).spec_pos() + 2
                },
                Err(e) => {
                    if old(reader).spec_remaining() < 2 {
                        e == ErrorKind::UnexpectedEof
                    } else if spec_header_tag_at(old(reader).bytes(), old(reader).spec_pos())
                        != 3 {
                        e == ErrorKind::MalformedFssHttpBData("expected an end marker")
                    } else {
                        &&& spec_end16_type_at(old(reader).bytes(), old(reader).spec_pos())
                            != expected_type
                        &&& e == ErrorKind::MalformedFssHttpBData("mismatched end marker type")
                    }
                },
            },
    {
        let w = match reader.get_u16() {
            Ok(v) => v,
            Err(e) => { return Err(e); },
        };
        if w & 3 != 3 {
            return Err(ErrorKind::MalformedFssHttpBData("expected an end marker"));
        }
        if (w >> 2) as u32 != expected_type {
            return Err(ErrorKind::MalformedFssHttpBData("mismatched end marker type"));
        }
        Ok(())
    }
}

} // verus!
