use vstd::prelude::*;
use crate::errors::ErrorKind;
use crate::prop_set::{spec_get, PropertySet, PropertyValue};
use crate::simple;

verus! {

/// A layout-alignment word, unpacked from its 32-bit wire form:
/// the horizontal alignment in the three lowest bits, its margin flag
/// in bit 3, the vertical alignment in bits 16-18, its margin flag in
/// bit 19.  A set highest bit discards the whole word.
#[derive(Debug, Clone, Copy, PartialEq, Eq, Structural)]
pub struct LayoutAlignment {
    pub alignment_horizontal: u8,
    pub alignment_margin_horizontal: bool,
    pub alignment_vertical: u8,
    pub alignment_margin_vertical: bool,
}

/// The alignment encoded by word `w`, or nothing when the discard bit
/// (the highest) is set.
pub open spec fn spec_layout_alignment(w: u32) -> Option<LayoutAlignment> {
    if (w >> 31) & 1 == 1 {
        None
    } else {
        Some(LayoutAlignment {
            alignment_horizontal: (w & 0x7) as u8,
            alignment_margin_horizontal: (w >> 3) & 1 == 1,
            alignment_vertical: ((w >> 16) & 0x7) as u8,
            alignment_margin_vertical: (w >> 19) & 1 == 1,
        })
    }
}

impl LayoutAlignment {
    /// Read a layout-alignment property.  A word with the discard bit
    /// set counts as no alignment at all.
    pub fn parse(prop_type: u32, props: &PropertySet) -> (r: Result<
        Option<LayoutAlignment>,
        ErrorKind,
    >)
        ensures
            match spec_get(props.values@, prop_type) {
                None => r == Ok::<Option<LayoutAlignment>, ErrorKind>(None),
                Some(v) => {
                    &&& (v matches PropertyValue::U32(w) ==> r == Ok::<
                        Option<LayoutAlignment>,
                        ErrorKind,
                    >(spec_layout_alignment(w)))
                    &&& (!(v matches PropertyValue::U32(_)) ==> r == Err::<
                        Option<LayoutAlignment>,
                        ErrorKind,
                    >(ErrorKind::MalformedOneNoteFileData("u32 property is not a u32")))
                },
            },
    {
        let w = match simple::parse_u32(prop_type, props) {
            Ok(Some(v)) => v,
            Ok(None) => { return Ok(None); },
            Err(e) => { return Err(e); },
        };
        if (w >> 31) & 1 == 1 {
            return Ok(None);
        }
        Ok(Some(LayoutAlignment {
            alignment_horizontal: (w & 0x7) as u8,
            alignment_margin_horizontal: (w >> 3) & 1 == 1,
            alignment_vertical: ((w >> 16) & 0x7) as u8,
            alignment_margin_vertical: (w >> 19) & 1 == 1,
        }))
    }
}

} // verus!
