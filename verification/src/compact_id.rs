use vstd::prelude::*;
use crate::errors::ErrorKind;
use crate::reader::{le32_at, Reader};

verus! {

/// A packed 64-bit on-wire abbreviation of an extended GUID: a 32-bit
/// value together with a 32-bit index into a surrounding GUID table.
#[derive(Debug, Clone, Copy, PartialEq, Eq, Structural, Hash)]
pub struct CompactId {
    pub value: u32,
    pub guid_index: u32,
}

/// The compact identifier encoded at position `i` of `s` (8 bytes): the
/// value in the low word, the GUID-table index in the high word.
pub open spec fn spec_compact_id_at(s: Seq<u8>, i: int) -> CompactId {
    CompactId { value: le32_at(s, i), guid_index: le32_at(s, i + 4) }
}

impl CompactId {
    /// Read the packed 64-bit wire form of a compact identifier.
    pub fn parse(reader: &mut Reader) -> (r: Result<CompactId, ErrorKind>)
        requires
            old(reader).wf(),
        ensures
            final(reader).wf(),
            final(reader).bytes() == old(reader).bytes(),
            final(reader).spec_pos() >= old(reader).spec_pos(),
            match r {
                Ok(id) => {
                    &&& old(reader).spec_remaining() >= 8
                    &&& id == spec_compact_id_at(old(reader).bytes(), old(reader).spec_pos())
                    &&& final(reader).spec_pos() == old(reader).spec_pos() + 8
                },
                Err(e) => {
                    &&& old(reader).spec_remaining() < 8
                    &&& e == ErrorKind::UnexpectedEof
                },
            },
    {
        if reader.remaining() < 8 {
            return Err(ErrorKind::UnexpectedEof);
        }
        let value = match reader.get_u32() {
            Ok(v) => v,
            Err(e) => { return Err(e); },
        };
        let guid_index = match reader.get_u32() {
            Ok(v) => v,
            Err(e) => { return Err(e); },
        };
        Ok(CompactId { value, guid_index })
    }
}

} // verus!
