use vstd::prelude::*;
use crate::errors::ErrorKind;
use crate::prop_set::{spec_get, PropertySet, PropertyValue};
use crate::simple;

verus! {

/// A paragraph's text alignment.  Codes outside the assignment are kept
/// as `Unknown` rather than rejected.
#[derive(Debug, Clone, Copy, PartialEq, Eq, Structural, Hash)]
pub enum ParagraphAlignment {
    Unknown,
    Left,
    Center,
    Right,
}

/// The alignment a code byte names; unassigned codes are `Unknown`.
pub open spec fn spec_paragraph_alignment(b: u8) -> ParagraphAlignment {
    if b == 0 {
        ParagraphAlignment::Left
    } else if b == 1 {
        ParagraphAlignment::Center
    } else if b == 2 {
        ParagraphAlignment::Right
    } else {
        ParagraphAlignment::Unknown
    }
}

impl ParagraphAlignment {
    /// Read a paragraph-alignment property.
    pub fn parse(prop_type: u32, props: &PropertySet) -> (r: Result<
        Option<ParagraphAlignment>,
        ErrorKind,
    >)
        ensures
            match spec_get(props.values@, prop_type) {
                None => r == Ok::<Option<ParagraphAlignment>, ErrorKind>(None),
                Some(v) => {
                    &&& (v matches PropertyValue::U8(b) ==> r == Ok::<
                        Option<ParagraphAlignment>,
                        ErrorKind,
                    >(Some(spec_paragraph_alignment(b))))
                    &&& (!(v matches PropertyValue::U8(_)) ==> r == Err::<
                        Option<ParagraphAlignment>,
                        ErrorKind,
                    >(ErrorKind::MalformedOneNoteFileData("u8 property is not a u8")))
                },
            },
    {
        let b = match simple::parse_u8(prop_type, props) {
            Ok(Some(v)) => v,
            Ok(None) => { return Ok(None); },
            Err(e) => { return Err(e); },
        };
        let pa = if b == 0 {
            ParagraphAlignment::Left
        } else if b == 1 {
            ParagraphAlignment::Center
        } else if b == 2 {
            ParagraphAlignment::Right
        } else {
            ParagraphAlignment::Unknown
        };
        Ok(Some(pa))
    }
}

} // verus!
