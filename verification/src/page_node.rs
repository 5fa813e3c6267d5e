use vstd::prelude::*;
use crate::errors::ErrorKind;
use crate::object::{JcId, Object};
use crate::property_ids::{CACHED_TITLE_STRING, PAGE_HEIGHT, PAGE_LEVEL, PAGE_WIDTH};
use crate::property_set_ids::PROPERTY_SET_PAGE_NODE;
use crate::prop_set::{spec_get, PropertyValue};
use crate::simple;
use crate::simple::{spec_string_err, spec_u32_err, spec_utf16_units};

verus! {

/// A page node: its cached title and its dimensions.  The dimensions
/// are four-byte floating-point words in the format and are kept as
/// their raw bit patterns.
#[derive(Debug)]
pub struct Data {
    pub title: Option<Vec<u16>>,
    pub page_width: Option<u32>,
    pub page_height: Option<u32>,
    pub page_level: Option<u32>,
}

/// The rejection interpreting a page-node object produces, if any, in
/// the order the checks run: the schema identifier, then each property
/// shape.  `parse` fails exactly on these.
pub open spec fn spec_page_verdict(object: Object) -> Option<ErrorKind> {
    let vals = object.props.properties.values@;
    if object.jc_id != JcId(PROPERTY_SET_PAGE_NODE) {
        Some(ErrorKind::MalformedOneNoteFileData("unexpected object type"))
    } else if spec_string_err(vals, CACHED_TITLE_STRING) is Some {
        spec_string_err(vals, CACHED_TITLE_STRING)
    } else if spec_u32_err(vals, PAGE_WIDTH) is Some {
        spec_u32_err(vals, PAGE_WIDTH)
    } else if spec_u32_err(vals, PAGE_HEIGHT) is Some {
        spec_u32_err(vals, PAGE_HEIGHT)
    } else if spec_u32_err(vals, PAGE_LEVEL) is Some {
        spec_u32_err(vals, PAGE_LEVEL)
    } else {
        None
    }
}

/// Interpret a page-node object.  The interpretation fails exactly when
/// `spec_page_verdict` names a rejection, with that error.
pub fn parse(object: &Object) -> (r: Result<Data, ErrorKind>)
    ensures
        ({
            let vals = object.props.properties.values@;
            match r {
                Ok(data) => {
                    &&& spec_page_verdict(*object) is None
                    &&& object.jc_id == JcId(PROPERTY_SET_PAGE_NODE)
                    &&& (match spec_get(vals, CACHED_TITLE_STRING) {
                        None => data.title is None,
                        Some(v) => v matches PropertyValue::Vec(d) && (d@.len() % 2 == 0 && (
                            data.title matches Some(t) && t@ == spec_utf16_units(d@))),
                    })
                    &&& (match spec_get(vals, PAGE_WIDTH) {
                        None => data.page_width is None,
                        Some(v) => v matches PropertyValue::U32(w) && data.page_width == Some(w),
                    })
                    &&& (match spec_get(vals, PAGE_HEIGHT) {
                        None => data.page_height is None,
                        Some(v) => v matches PropertyValue::U32(w) && data.page_height == Some(w),
                    })
                    &&& (match spec_get(vals, PAGE_LEVEL) {
                        None => data.page_level is None,
                        Some(v) => v matches PropertyValue::U32(w) && data.page_level == Some(w),
                    })
                },
                Err(e) => spec_page_verdict(*object) == Some(e),
            }
        }),
{
    if object.id().0 != PROPERTY_SET_PAGE_NODE {
        return Err(ErrorKind::MalformedOneNoteFileData("unexpected object type"));
    }
    let props = &object.props.properties;
    let title = match simple::parse_string(CACHED_TITLE_STRING, props) {
        Ok(v) => v,
        Err(e) => { return Err(e); },
    };
    let page_width = match simple::parse_u32(PAGE_WIDTH, props) {
        Ok(v) => v,
        Err(e) => { return Err(e); },
    };
    let page_height = match simple::parse_u32(PAGE_HEIGHT, props) {
        Ok(v) => v,
        Err(e) => { return Err(e); },
    };
    let page_level = match simple::parse_u32(PAGE_LEVEL, props) {
        Ok(v) => v,
        Err(e) => { return Err(e); },
    };
    Ok(Data { title, page_width, page_height, page_level })
}

} // verus!
