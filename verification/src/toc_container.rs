use vstd::prelude::*;
use crate::errors::ErrorKind;
use crate::exguid::ExGuid;
use crate::object::{JcId, Object};
use crate::object_reference::{spec_vec_ref, spec_vec_ref_err, ObjectReference};
use crate::property_ids::{FOLDER_CHILD_FILENAME, NOTEBOOK_ELEMENT_ORDERING_ID, TOC_CHILDREN};
use crate::property_set_ids::PROPERTY_SET_TOC_CONTAINER;
use crate::prop_set::{spec_get, PropertyValue};
use crate::simple::{spec_string_err, spec_u32_err, spec_utf16_units, parse_string, parse_u32};

verus! {

/// The filename substitution of table-of-contents entries: every
/// occurrence of the two code units `^M` becomes `+`, and `^J` becomes
/// `,`, scanning left to right.
pub open spec fn spec_substitute(s: Seq<u16>) -> Seq<u16>
    decreases s.len(),
{
    if s.len() == 0 {
        Seq::empty()
    } else if s.len() >= 2 && s[0] == 0x5e && s[1] == 0x4d {
        seq![0x2bu16] + spec_substitute(s.skip(2))
    } else if s.len() >= 2 && s[0] == 0x5e && s[1] == 0x4a {
        seq![0x2cu16] + spec_substitute(s.skip(2))
    } else {
        seq![s[0]] + spec_substitute(s.skip(1))
    }
}

/// Apply the table-of-contents filename substitution.
pub fn substitute_filename(input: &Vec<u16>) -> (out: Vec<u16>)
    ensures
        out@ == spec_substitute(input@),
{
    let mut out: Vec<u16> = Vec::new();
    let mut k: usize = 0;
    let len = input.len();
    proof {
        assert(input@.skip(0) =~= input@);
    }
    while k < len
        invariant
            len == input@.len(),
            k <= len,
            spec_substitute(input@) == out@ + spec_substitute(input@.skip(k as int)),
        decreases len - k,
    {
        proof {
            assert(input@.skip(k as int)[0] == input@[k as int]);
            if k + 1 < len {
                assert(input@.skip(k as int)[1] == input@[k as int + 1]);
                assert(input@.skip(k as int).skip(2) =~= input@.skip(k as int + 2));
            }
            assert(input@.skip(k as int).skip(1) =~= input@.skip(k as int + 1));
        }
        if k + 1 < len && input[k] == 0x5e && input[k + 1] == 0x4d {
            out.push(0x2b);
            k = k + 2;
        } else if k + 1 < len && input[k] == 0x5e && input[k + 1] == 0x4a {
            out.push(0x2c);
            k = k + 2;
        } else {
            out.push(input[k]);
            k = k + 1;
        }
    }
    proof {
        assert(input@.skip(len as int) =~= Seq::<u16>::empty());
    }
    out
}

/// A table-of-contents container: its children, its on-disk filename
/// (after substitution), and its ordering key.
#[derive(Debug)]
pub struct Data {
    pub children: Vec<ExGuid>,
    pub filename: Option<Vec<u16>>,
    pub ordering_id: Option<u32>,
}

/// The rejection interpreting a table-of-contents container produces,
/// if any, in the order the checks run.  `parse` fails exactly on these.
pub open spec fn spec_toc_verdict(object: Object) -> Option<ErrorKind> {
    let vals = object.props.properties.values@;
    if object.jc_id != JcId(PROPERTY_SET_TOC_CONTAINER) {
        Some(ErrorKind::MalformedOneNoteFileData("unexpected object type"))
    } else if spec_vec_ref_err(object, TOC_CHILDREN) is Some {
        spec_vec_ref_err(object, TOC_CHILDREN)
    } else if spec_string_err(vals, FOLDER_CHILD_FILENAME) is Some {
        spec_string_err(vals, FOLDER_CHILD_FILENAME)
    } else if spec_u32_err(vals, NOTEBOOK_ELEMENT_ORDERING_ID) is Some {
        spec_u32_err(vals, NOTEBOOK_ELEMENT_ORDERING_ID)
    } else {
        None
    }
}

/// Interpret a table-of-contents container object.  The interpretation
/// fails exactly when `spec_toc_verdict` names a rejection, with that
/// error.
pub fn parse(object: &Object) -> (r: Result<Data, ErrorKind>)
    ensures
        ({
            let vals = object.props.properties.values@;
            match r {
                Ok(data) => {
                    &&& spec_toc_verdict(*object) is None
                    &&& object.jc_id == JcId(PROPERTY_SET_TOC_CONTAINER)
                    &&& data.children@ == (match spec_vec_ref(*object, TOC_CHILDREN) {
                        Some(s) => s,
                        None => Seq::<ExGuid>::empty(),
                    })
                    &&& (match spec_get(vals, FOLDER_CHILD_FILENAME) {
                        None => data.filename is None,
                        Some(v) => v matches PropertyValue::Vec(d) && (d@.len() % 2 == 0
                            && (data.filename matches Some(f)
                            && f@ == spec_substitute(spec_utf16_units(d@)))),
                    })
                    &&& (match spec_get(vals, NOTEBOOK_ELEMENT_ORDERING_ID) {
                        None => data.ordering_id is None,
                        Some(v) => v matches PropertyValue::U32(w)
                            && data.ordering_id == Some(w),
                    })
                },
                Err(e) => spec_toc_verdict(*object) == Some(e),
            }
        }),
{
    if object.id().0 != PROPERTY_SET_TOC_CONTAINER {
        return Err(ErrorKind::MalformedOneNoteFileData("unexpected object type"));
    }
    let children = match ObjectReference::parse_vec(TOC_CHILDREN, object) {
        Ok(Some(v)) => v,
        Ok(None) => Vec::new(),
        Err(e) => { return Err(e); },
    };
    let filename = match parse_string(FOLDER_CHILD_FILENAME, &object.props.properties) {
        Ok(Some(units)) => Some(substitute_filename(&units)),
        Ok(None) => None,
        Err(e) => { return Err(e); },
    };
    let ordering_id = match parse_u32(NOTEBOOK_ELEMENT_ORDERING_ID, &object.props.properties) {
        Ok(v) => v,
        Err(e) => { return Err(e); },
    };
    Ok(Data { children, filename, ordering_id })
}

} // verus!
