use vstd::prelude::*;
use vstd::slice::slice_to_vec;
use crate::errors::ErrorKind;
use crate::guid::{spec_guid_at, Guid};
use crate::prop_set::{spec_get, PropertySet, PropertyValue};
use crate::reader::{le16_at, le32_at, Reader};

verus! {

/// Read a boolean property: absent is `None`, any other shape is an error.
pub fn parse_bool(prop_type: u32, props: &PropertySet) -> (r: Result<Option<bool>, ErrorKind>)
    ensures
        match spec_get(props.values@, prop_type) {
            None => r == Ok::<Option<bool>, ErrorKind>(None),
            Some(v) => {
                &&& (v matches PropertyValue::Bool(b) ==> r == Ok::<Option<bool>, ErrorKind>(
                    Some(b)))
                &&& (!(v matches PropertyValue::Bool(_)) ==> r == Err::<Option<bool>, ErrorKind>(
                    ErrorKind::MalformedOneNoteFileData("bool property is not a bool")))
            },
        },
{
    match props.get(prop_type) {
        None => Ok(None),
        Some(PropertyValue::Bool(b)) => Ok(Some(*b)),
        Some(_) => Err(ErrorKind::MalformedOneNoteFileData("bool property is not a bool")),
    }
}

/// Read an 8-bit property.
pub fn parse_u8(prop_type: u32, props: &PropertySet) -> (r: Result<Option<u8>, ErrorKind>)
    ensures
        match spec_get(props.values@, prop_type) {
            None => r == Ok::<Option<u8>, ErrorKind>(None),
            Some(v) => {
                &&& (v matches PropertyValue::U8(b) ==> r == Ok::<Option<u8>, ErrorKind>(
                    Some(b)))
                &&& (!(v matches PropertyValue::U8(_)) ==> r == Err::<Option<u8>, ErrorKind>(
                    ErrorKind::MalformedOneNoteFileData("u8 property is not a u8")))
            },
        },
{
    match props.get(prop_type) {
        None => Ok(None),
        Some(PropertyValue::U8(b)) => Ok(Some(*b)),
        Some(_) => Err(ErrorKind::MalformedOneNoteFileData("u8 property is not a u8")),
    }
}

/// Read a 16-bit property.
pub fn parse_u16(prop_type: u32, props: &PropertySet) -> (r: Result<Option<u16>, ErrorKind>)
    ensures
        match spec_get(props.values@, prop_type) {
            None => r == Ok::<Option<u16>, ErrorKind>(None),
            Some(v) => {
                &&& (v matches PropertyValue::U16(b) ==> r == Ok::<Option<u16>, ErrorKind>(
                    Some(b)))
                &&& (!(v matches PropertyValue::U16(_)) ==> r == Err::<Option<u16>, ErrorKind>(
                    ErrorKind::MalformedOneNoteFileData("u16 property is not a u16")))
            },
        },
{
    match props.get(prop_type) {
        None => Ok(None),
        Some(PropertyValue::U16(b)) => Ok(Some(*b)),
        Some(_) => Err(ErrorKind::MalformedOneNoteFileData("u16 property is not a u16")),
    }
}

/// Read a 32-bit property.  Four-byte floating-point properties travel
/// in the same shape; their raw bit pattern is what this returns.
pub fn parse_u32(prop_type: u32, props: &PropertySet) -> (r: Result<Option<u32>, ErrorKind>)
    ensures
        match spec_get(props.values@, prop_type) {
            None => r == Ok::<Option<u32>, ErrorKind>(None),
            Some(v) => {
                &&& (v matches PropertyValue::U32(b) ==> r == Ok::<Option<u32>, ErrorKind>(
                    Some(b)))
                &&& (!(v matches PropertyValue::U32(_)) ==> r == Err::<Option<u32>, ErrorKind>(
                    ErrorKind::MalformedOneNoteFileData("u32 property is not a u32")))
            },
        },
{
    match props.get(prop_type) {
        None => Ok(None),
        Some(PropertyValue::U32(b)) => Ok(Some(*b)),
        Some(_) => Err(ErrorKind::MalformedOneNoteFileData("u32 property is not a u32")),
    }
}

/// Read a 64-bit property.
pub fn parse_u64(prop_type: u32, props: &PropertySet) -> (r: Result<Option<u64>, ErrorKind>)
    ensures
        match spec_get(props.values@, prop_type) {
            None => r == Ok::<Option<u64>, ErrorKind>(None),
            Some(v) => {
                &&& (v matches PropertyValue::U64(b) ==> r == Ok::<Option<u64>, ErrorKind>(
                    Some(b)))
                &&& (!(v matches PropertyValue::U64(_)) ==> r == Err::<Option<u64>, ErrorKind>(
                    ErrorKind::MalformedOneNoteFileData("u64 property is not a u64")))
            },
        },
{
    match props.get(prop_type) {
        None => Ok(None),
        Some(PropertyValue::U64(b)) => Ok(Some(*b)),
        Some(_) => Err(ErrorKind::MalformedOneNoteFileData("u64 property is not a u64")),
    }
}

/// Read a raw length-prefixed data property as an owned byte vector.
pub fn parse_vec(prop_type: u32, props: &PropertySet) -> (r: Result<Option<Vec<u8>>, ErrorKind>)
    ensures
        match spec_get(props.values@, prop_type) {
            None => r == Ok::<Option<Vec<u8>>, ErrorKind>(None),
            Some(v) => {
                &&& (v matches PropertyValue::Vec(data) ==> r matches Ok(res)
                    && res matches Some(out) && out@ == data@)
                &&& (!(v matches PropertyValue::Vec(_)) ==> r == Err::<Option<Vec<u8>>, ErrorKind>(
                    ErrorKind::MalformedOneNoteFileData("data property is not raw data")))
            },
        },
{
    match props.get(prop_type) {
        None => Ok(None),
        Some(PropertyValue::Vec(data)) => Ok(Some(slice_to_vec(data.as_slice()))),
        Some(_) => Err(ErrorKind::MalformedOneNoteFileData("data property is not raw data")),
    }
}

/// The UTF-16 code units packed little-endian in `data`, two bytes each.
pub open spec fn spec_utf16_units(data: Seq<u8>) -> Seq<u16> {
    Seq::new(data.len() / 2, |j: int| le16_at(data, 2 * j))
}

/// Read a string property.  Strings travel as length-prefixed UTF-16
/// little-endian data; the result is the sequence of code units.  Data
/// of odd length is rejected.
pub fn parse_string(prop_type: u32, props: &PropertySet) -> (r: Result<Option<Vec<u16>>, ErrorKind>)
    ensures
        match spec_get(props.values@, prop_type) {
            None => r == Ok::<Option<Vec<u16>>, ErrorKind>(None),
            Some(v) => {
                &&& (v matches PropertyValue::Vec(data) ==> if data@.len() % 2 == 0 {
                    r matches Ok(res) && res matches Some(out) && out@ == spec_utf16_units(data@)
                } else {
                    r == Err::<Option<Vec<u16>>, ErrorKind>(ErrorKind::MalformedOneNoteFileData(
                        "string property has odd length"))
                })
                &&& (!(v matches PropertyValue::Vec(_)) ==> r == Err::<
                    Option<Vec<u16>>,
                    ErrorKind,
                >(ErrorKind::MalformedOneNoteFileData("string property is not raw data")))
            },
        },
{
    let data = match props.get(prop_type) {
        None => { return Ok(None); },
        Some(PropertyValue::Vec(data)) => data,
        Some(_) => {
            return Err(ErrorKind::MalformedOneNoteFileData("string property is not raw data"));
        },
    };
    if data.len() % 2 != 0 {
        return Err(ErrorKind::MalformedOneNoteFileData("string property has odd length"));
    }
    let half: usize = data.len() / 2;
    let mut out: Vec<u16> = Vec::new();
    let mut j: usize = 0;
    while j < half
        invariant
            2 * half <= data@.len(),
            data@.len() <= usize::MAX,
            j <= half,
            out@.len() == j,
            forall|m: int| 0 <= m < j ==> out@[m] == le16_at(data@, 2 * m),
        decreases half - j,
    {
        let lo = data[2 * j];
        let hi = data[2 * j + 1];
        out.push((lo as u16) | (hi as u16) << 8);
        j = j + 1;
    }
    proof {
        assert(out@ =~= spec_utf16_units(data@));
    }
    Ok(Some(out))
}

/// The 32-bit words packed little-endian in `data`, four bytes each.
pub open spec fn spec_u32_items(data: Seq<u8>) -> Seq<u32> {
    Seq::new(data.len() / 4, |j: int| le32_at(data, 4 * j))
}

/// Read an array property of little-endian 32-bit words.  Data whose
/// length is not a multiple of four is rejected.
pub fn parse_u32_array(prop_type: u32, props: &PropertySet) -> (r: Result<
    Option<Vec<u32>>,
    ErrorKind,
>)
    ensures
        match spec_get(props.values@, prop_type) {
            None => r == Ok::<Option<Vec<u32>>, ErrorKind>(None),
            Some(v) => {
                &&& (v matches PropertyValue::Vec(data) ==> if data@.len() % 4 == 0 {
                    r matches Ok(res) && res matches Some(out) && out@ == spec_u32_items(data@)
                } else {
                    r == Err::<Option<Vec<u32>>, ErrorKind>(ErrorKind::MalformedOneNoteFileData(
                        "u32 array property has wrong length"))
                })
                &&& (!(v matches PropertyValue::Vec(_)) ==> r == Err::<
                    Option<Vec<u32>>,
                    ErrorKind,
                >(ErrorKind::MalformedOneNoteFileData("u32 array property is not raw data")))
            },
        },
{
    let data = match props.get(prop_type) {
        None => { return Ok(None); },
        Some(PropertyValue::Vec(data)) => data,
        Some(_) => {
            return Err(ErrorKind::MalformedOneNoteFileData(
                "u32 array property is not raw data"));
        },
    };
    if data.len() % 4 != 0 {
        return Err(ErrorKind::MalformedOneNoteFileData("u32 array property has wrong length"));
    }
    let quarter: usize = data.len() / 4;
    let mut out: Vec<u32> = Vec::new();
    let mut j: usize = 0;
    while j < quarter
        invariant
            4 * quarter <= data@.len(),
            data@.len() <= usize::MAX,
            j <= quarter,
            out@.len() == j,
            forall|m: int| 0 <= m < j ==> out@[m] == le32_at(data@, 4 * m),
        decreases quarter - j,
    {
        let b0 = data[4 * j];
        let b1 = data[4 * j + 1];
        let b2 = data[4 * j + 2];
        let b3 = data[4 * j + 3];
        out.push((b0 as u32) | (b1 as u32) << 8 | (b2 as u32) << 16 | (b3 as u32) << 24);
        j = j + 1;
    }
    proof {
        assert(out@ =~= spec_u32_items(data@));
    }
    Ok(Some(out))
}


/// The rejection a boolean read of `prop_type` produces, if any.
pub open spec fn spec_bool_err(vals: Seq<(u32, PropertyValue)>, prop_type: u32) -> Option<
    ErrorKind,
> {
    match spec_get(vals, prop_type) {
        None => None,
        Some(v) => if v matches PropertyValue::Bool(_) {
            None
        } else {
            Some(ErrorKind::MalformedOneNoteFileData("bool property is not a bool"))
        },
    }
}

/// The rejection an 8-bit read of `prop_type` produces, if any.
pub open spec fn spec_u8_err(vals: Seq<(u32, PropertyValue)>, prop_type: u32) -> Option<
    ErrorKind,
> {
    match spec_get(vals, prop_type) {
        None => None,
        Some(v) => if v matches PropertyValue::U8(_) {
            None
        } else {
            Some(ErrorKind::MalformedOneNoteFileData("u8 property is not a u8"))
        },
    }
}

/// The rejection a 16-bit read of `prop_type` produces, if any.
pub open spec fn spec_u16_err(vals: Seq<(u32, PropertyValue)>, prop_type: u32) -> Option<
    ErrorKind,
> {
    match spec_get(vals, prop_type) {
        None => None,
        Some(v) => if v matches PropertyValue::U16(_) {
            None
        } else {
            Some(ErrorKind::MalformedOneNoteFileData("u16 property is not a u16"))
        },
    }
}

/// The rejection a 32-bit read of `prop_type` produces, if any.
pub open spec fn spec_u32_err(vals: Seq<(u32, PropertyValue)>, prop_type: u32) -> Option<
    ErrorKind,
> {
    match spec_get(vals, prop_type) {
        None => None,
        Some(v) => if v matches PropertyValue::U32(_) {
            None
        } else {
            Some(ErrorKind::MalformedOneNoteFileData("u32 property is not a u32"))
        },
    }
}

/// The rejection a 64-bit read of `prop_type` produces, if any.
pub open spec fn spec_u64_err(vals: Seq<(u32, PropertyValue)>, prop_type: u32) -> Option<
    ErrorKind,
> {
    match spec_get(vals, prop_type) {
        None => None,
        Some(v) => if v matches PropertyValue::U64(_) {
            None
        } else {
            Some(ErrorKind::MalformedOneNoteFileData("u64 property is not a u64"))
        },
    }
}

/// The rejection a string read of `prop_type` produces, if any.
pub open spec fn spec_string_err(vals: Seq<(u32, PropertyValue)>, prop_type: u32) -> Option<
    ErrorKind,
> {
    match spec_get(vals, prop_type) {
        None => None,
        Some(v) => match v {
            PropertyValue::Vec(d) => if d@.len() % 2 == 0 {
                None
            } else {
                Some(ErrorKind::MalformedOneNoteFileData("string property has odd length"))
            },
            _ => Some(ErrorKind::MalformedOneNoteFileData("string property is not raw data")),
        },
    }
}

/// The rejection a 32-bit-array read of `prop_type` produces, if any.
pub open spec fn spec_u32_array_err(vals: Seq<(u32, PropertyValue)>, prop_type: u32) -> Option<
    ErrorKind,
> {
    match spec_get(vals, prop_type) {
        None => None,
        Some(v) => match v {
            PropertyValue::Vec(d) => if d@.len() % 4 == 0 {
                None
            } else {
                Some(ErrorKind::MalformedOneNoteFileData("u32 array property has wrong length"))
            },
            _ => Some(ErrorKind::MalformedOneNoteFileData(
                "u32 array property is not raw data")),
        },
    }
}

/// The rejection a GUID read of `prop_type` produces, if any.
pub open spec fn spec_guid_err(vals: Seq<(u32, PropertyValue)>, prop_type: u32) -> Option<
    ErrorKind,
> {
    match spec_get(vals, prop_type) {
        None => None,
        Some(v) => match v {
            PropertyValue::Vec(d) => if d@.len() == 16 {
                None
            } else {
                Some(ErrorKind::MalformedOneNoteFileData("guid property has wrong length"))
            },
            _ => Some(ErrorKind::MalformedOneNoteFileData("guid property is not raw data")),
        },
    }
}

/// Read a GUID property: 16 bytes of raw data.
pub fn parse_guid(prop_type: u32, props: &PropertySet) -> (r: Result<Option<Guid>, ErrorKind>)
    ensures
        match spec_get(props.values@, prop_type) {
            None => r == Ok::<Option<Guid>, ErrorKind>(None),
            Some(v) => {
                &&& (v matches PropertyValue::Vec(data) ==> if data@.len() == 16 {
                    r == Ok::<Option<Guid>, ErrorKind>(Some(spec_guid_at(data@, 0)))
                } else {
                    r == Err::<Option<Guid>, ErrorKind>(ErrorKind::MalformedOneNoteFileData(
                        "guid property has wrong length"))
                })
                &&& (!(v matches PropertyValue::Vec(_)) ==> r == Err::<Option<Guid>, ErrorKind>(
                    ErrorKind::MalformedOneNoteFileData("guid property is not raw data")))
            },
        },
{
    let data = match props.get(prop_type) {
        None => { return Ok(None); },
        Some(PropertyValue::Vec(data)) => data,
        Some(_) => {
            return Err(ErrorKind::MalformedOneNoteFileData("guid property is not raw data"));
        },
    };
    if data.len() != 16 {
        return Err(ErrorKind::MalformedOneNoteFileData("guid property has wrong length"));
    }
    let mut reader = Reader::new(data.as_slice());
    match Guid::parse(&mut reader) {
        Ok(g) => Ok(Some(g)),
        Err(e) => Err(e),
    }
}

} // verus!
