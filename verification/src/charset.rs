use vstd::prelude::*;
use crate::errors::ErrorKind;
use crate::prop_set::{spec_get, PropertySet, PropertyValue};
use crate::simple;

verus! {

/// A text charset, as the single-byte charset codes of the format name it.
#[derive(Debug, Clone, Copy, PartialEq, Eq, Structural, Hash)]
pub enum Charset {
    Ansi,
    Default,
    Symbol,
    Mac,
    ShiftJis,
    Hangul,
    Johab,
    Gb2312,
    ChineseBig5,
    Greek,
    Turkish,
    Vietnamese,
    Hebrew,
    Arabic,
    Baltic,
    Russian,
    Thai,
    EastEurope,
    Oem,
}

/// The charset a code byte names, or nothing for an unassigned code.
pub open spec fn spec_charset(b: u8) -> Option<Charset> {
    if b == 0 {
        Some(Charset::Ansi)
    } else if b == 1 {
        Some(Charset::Default)
    } else if b == 2 {
        Some(Charset::Symbol)
    } else if b == 77 {
        Some(Charset::Mac)
    } else if b == 128 {
        Some(Charset::ShiftJis)
    } else if b == 129 {
        Some(Charset::Hangul)
    } else if b == 130 {
        Some(Charset::Johab)
    } else if b == 134 {
        Some(Charset::Gb2312)
    } else if b == 136 {
        Some(Charset::ChineseBig5)
    } else if b == 161 {
        Some(Charset::Greek)
    } else if b == 162 {
        Some(Charset::Turkish)
    } else if b == 163 {
        Some(Charset::Vietnamese)
    } else if b == 177 {
        Some(Charset::Hebrew)
    } else if b == 178 {
        Some(Charset::Arabic)
    } else if b == 186 {
        Some(Charset::Baltic)
    } else if b == 204 {
        Some(Charset::Russian)
    } else if b == 222 {
        Some(Charset::Thai)
    } else if b == 238 {
        Some(Charset::EastEurope)
    } else if b == 255 {
        Some(Charset::Oem)
    } else {
        None
    }
}

/// The rejection a charset read of `prop_type` produces, if any: a
/// wrong shape, or a code outside the assignment.
pub open spec fn spec_charset_err(vals: Seq<(u32, PropertyValue)>, prop_type: u32) -> Option<
    ErrorKind,
> {
    match spec_get(vals, prop_type) {
        None => None,
        Some(v) => match v {
            PropertyValue::U8(b) => if spec_charset(b) is Some {
                None
            } else {
                Some(ErrorKind::MalformedOneNoteFileData("invalid charset"))
            },
            _ => Some(ErrorKind::MalformedOneNoteFileData("u8 property is not a u8")),
        },
    }
}

impl Charset {
    /// Read a charset property; a code outside the assignment is an error.
    pub fn parse(prop_type: u32, props: &PropertySet) -> (r: Result<Option<Charset>, ErrorKind>)
        ensures
            match spec_get(props.values@, prop_type) {
                None => r == Ok::<Option<Charset>, ErrorKind>(None),
                Some(v) => {
                    &&& (v matches PropertyValue::U8(b) ==> match spec_charset(b) {
                        Some(cs) => r == Ok::<Option<Charset>, ErrorKind>(Some(cs)),
                        None => r == Err::<Option<Charset>, ErrorKind>(
                            ErrorKind::MalformedOneNoteFileData("invalid charset")),
                    })
                    &&& (!(v matches PropertyValue::U8(_)) ==> r == Err::<
                        Option<Charset>,
                        ErrorKind,
                    >(ErrorKind::MalformedOneNoteFileData("u8 property is not a u8")))
                },
            },
    {
        let b = match simple::parse_u8(prop_type, props) {
            Ok(Some(v)) => v,
            Ok(None) => { return Ok(None); },
            Err(e) => { return Err(e); },
        };
        let cs = if b == 0 {
            Charset::Ansi
        } else if b == 1 {
            Charset::Default
        } else if b == 2 {
            Charset::Symbol
        } else if b == 77 {
            Charset::Mac
        } else if b == 128 {
            Charset::ShiftJis
        } else if b == 129 {
            Charset::Hangul
        } else if b == 130 {
            Charset::Johab
        } else if b == 134 {
            Charset::Gb2312
        } else if b == 136 {
            Charset::ChineseBig5
        } else if b == 161 {
            Charset::Greek
        } else if b == 162 {
            Charset::Turkish
        } else if b == 163 {
            Charset::Vietnamese
        } else if b == 177 {
            Charset::Hebrew
        } else if b == 178 {
            Charset::Arabic
        } else if b == 186 {
            Charset::Baltic
        } else if b == 204 {
            Charset::Russian
        } else if b == 222 {
            Charset::Thai
        } else if b == 238 {
            Charset::EastEurope
        } else if b == 255 {
            Charset::Oem
        } else {
            return Err(ErrorKind::MalformedOneNoteFileData("invalid charset"));
        };
        Ok(Some(cs))
    }
}

} // verus!
