use vstd::prelude::*;
use crate::errors::ErrorKind;
use crate::prop_set::{spec_get, PropertySet, PropertyValue};
use crate::simple;

verus! {

/// A coarse timestamp: whole minutes since the start of 1601 (UTC),
/// as the format stores it in a 32-bit word.
#[derive(Debug, Clone, Copy, PartialEq, Eq, Structural, Hash)]
pub struct Time(pub u32);

/// A fine timestamp: 100-nanosecond intervals since the start of 1601
/// (UTC), as the format stores it in a 64-bit word.
#[derive(Debug, Clone, Copy, PartialEq, Eq, Structural, Hash)]
pub struct Timestamp(pub u64);

impl Time {
    /// Read a coarse time property.
    pub fn parse(prop_type: u32, props: &PropertySet) -> (r: Result<Option<Time>, ErrorKind>)
        ensures
            match spec_get(props.values@, prop_type) {
                None => r == Ok::<Option<Time>, ErrorKind>(None),
                Some(v) => {
                    &&& (v matches PropertyValue::U32(b) ==> r == Ok::<Option<Time>, ErrorKind>(
                        Some(Time(b))))
                    &&& (!(v matches PropertyValue::U32(_)) ==> r == Err::<
                        Option<Time>,
                        ErrorKind,
                    >(ErrorKind::MalformedOneNoteFileData("u32 property is not a u32")))
                },
            },
    {
        match simple::parse_u32(prop_type, props) {
            Ok(Some(v)) => Ok(Some(Time(v))),
            Ok(None) => Ok(None),
            Err(e) => Err(e),
        }
    }
}

impl Timestamp {
    /// Read a fine timestamp property.
    pub fn parse(prop_type: u32, props: &PropertySet) -> (r: Result<Option<Timestamp>, ErrorKind>)
        ensures
            match spec_get(props.values@, prop_type) {
                None => r == Ok::<Option<Timestamp>, ErrorKind>(None),
                Some(v) => {
                    &&& (v matches PropertyValue::U64(b) ==> r == Ok::<
                        Option<Timestamp>,
                        ErrorKind,
                    >(Some(Timestamp(b))))
                    &&& (!(v matches PropertyValue::U64(_)) ==> r == Err::<
                        Option<Timestamp>,
                        ErrorKind,
                    >(ErrorKind::MalformedOneNoteFileData("u64 property is not a u64")))
                },
            },
    {
        match simple::parse_u64(prop_type, props) {
            Ok(Some(v)) => Ok(Some(Timestamp(v))),
            Ok(None) => Ok(None),
            Err(e) => Err(e),
        }
    }
}

} // verus!
