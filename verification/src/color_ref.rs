use vstd::prelude::*;
use crate::errors::ErrorKind;
use crate::prop_set::{spec_get, PropertySet, PropertyValue};
use crate::simple;

verus! {

/// A color reference: either the application's automatic color or an
/// explicit red/green/blue triple (one byte each, lowest byte red).
#[derive(Debug, Clone, Copy, PartialEq, Eq, Structural)]
pub enum ColorRef {
    Auto,
    Manual { r: u8, g: u8, b: u8 },
}

/// The color encoded by word `w`: `0xff000000` is the automatic color,
/// anything else carries the three channels in its low bytes.
pub open spec fn spec_color_ref(w: u32) -> ColorRef {
    if w == 0xff000000 {
        ColorRef::Auto
    } else {
        ColorRef::Manual {
            r: (w & 0xff) as u8,
            g: ((w >> 8) & 0xff) as u8,
            b: ((w >> 16) & 0xff) as u8,
        }
    }
}

impl ColorRef {
    /// Read a color-reference property.
    pub fn parse(prop_type: u32, props: &PropertySet) -> (r: Result<Option<ColorRef>, ErrorKind>)
        ensures
            match spec_get(props.values@, prop_type) {
                None => r == Ok::<Option<ColorRef>, ErrorKind>(None),
                Some(v) => {
                    &&& (v matches PropertyValue::U32(w) ==> r == Ok::<
                        Option<ColorRef>,
                        ErrorKind,
                    >(Some(spec_color_ref(w))))
                    &&& (!(v matches PropertyValue::U32(_)) ==> r == Err::<
                        Option<ColorRef>,
                        ErrorKind,
                    >(ErrorKind::MalformedOneNoteFileData("u32 property is not a u32")))
                },
            },
    {
        let w = match simple::parse_u32(prop_type, props) {
            Ok(Some(v)) => v,
            Ok(None) => { return Ok(None); },
            Err(e) => { return Err(e); },
        };
        if w == 0xff000000 {
            Ok(Some(ColorRef::Auto))
        } else {
            Ok(Some(ColorRef::Manual {
                r: (w & 0xff) as u8,
                g: ((w >> 8) & 0xff) as u8,
                b: ((w >> 16) & 0xff) as u8,
            }))
        }
    }
}

} // verus!
