use vstd::prelude::*;
use crate::errors::ErrorKind;
use crate::exguid::ExGuid;
use crate::guid::{spec_guid_at, Guid};
use crate::object::{JcId, Object};
use crate::object_reference::{spec_vec_ref, spec_vec_ref_err, ObjectReference};
use crate::property_ids::{ELEMENT_CHILD_NODES, NOTEBOOK_MANAGEMENT_ENTITY_GUID,
    TOPOLOGY_CREATION_TIME_STAMP};
use crate::property_set_ids::PROPERTY_SET_SECTION_NODE;
use crate::prop_set::{spec_get, PropertyValue};
use crate::simple::{spec_guid_err, spec_u64_err};
use crate::time::Timestamp;

verus! {

/// A section node: the entity GUID of the section, the page series it
/// holds, and when its topology was created.
#[derive(Debug)]
pub struct Data {
    pub context_id: ExGuid,
    pub entity_guid: Guid,
    pub page_series: Vec<ExGuid>,
    pub created_at: Timestamp,
}

/// The rejection interpreting a section-node object produces, if any,
/// in the order the checks run.  `parse` fails exactly on these.
pub open spec fn spec_section_verdict(object: Object) -> Option<ErrorKind> {
    let vals = object.props.properties.values@;
    if object.jc_id != JcId(PROPERTY_SET_SECTION_NODE) {
        Some(ErrorKind::MalformedOneNoteFileData("unexpected object type"))
    } else if spec_guid_err(vals, NOTEBOOK_MANAGEMENT_ENTITY_GUID) is Some {
        spec_guid_err(vals, NOTEBOOK_MANAGEMENT_ENTITY_GUID)
    } else if spec_get(vals, NOTEBOOK_MANAGEMENT_ENTITY_GUID) is None {
        Some(ErrorKind::MalformedOneNoteFileData("section has no guid"))
    } else if spec_vec_ref_err(object, ELEMENT_CHILD_NODES) is Some {
        spec_vec_ref_err(object, ELEMENT_CHILD_NODES)
    } else if spec_u64_err(vals, TOPOLOGY_CREATION_TIME_STAMP) is Some {
        spec_u64_err(vals, TOPOLOGY_CREATION_TIME_STAMP)
    } else if spec_get(vals, TOPOLOGY_CREATION_TIME_STAMP) is None {
        Some(ErrorKind::MalformedOneNoteFileData("section has no creation timestamp"))
    } else {
        None
    }
}

/// Interpret a section-node object.  The interpretation fails exactly
/// when `spec_section_verdict` names a rejection, with that error: the
/// schema identifier must be the section-node identifier, the entity
/// GUID and the creation timestamp are required, and the page series
/// defaults to empty when absent.
pub fn parse(object: &Object) -> (r: Result<Data, ErrorKind>)
    ensures
        ({
            let vals = object.props.properties.values@;
            match r {
                Ok(data) => {
                    &&& spec_section_verdict(*object) is None
                    &&& object.jc_id == JcId(PROPERTY_SET_SECTION_NODE)
                    &&& data.context_id == object.context_id
                    &&& spec_get(vals, NOTEBOOK_MANAGEMENT_ENTITY_GUID) matches Some(v)
                        && v matches PropertyValue::Vec(d) && d@.len() == 16
                        && data.entity_guid == spec_guid_at(d@, 0)
                    &&& data.page_series@ == (match spec_vec_ref(*object, ELEMENT_CHILD_NODES) {
                        Some(s) => s,
                        None => Seq::<ExGuid>::empty(),
                    })
                    &&& spec_get(vals, TOPOLOGY_CREATION_TIME_STAMP) matches Some(v)
                        && v matches PropertyValue::U64(t) && data.created_at == Timestamp(t)
                },
                Err(e) => spec_section_verdict(*object) == Some(e),
            }
        }),
{
    if object.id().0 != PROPERTY_SET_SECTION_NODE {
        return Err(ErrorKind::MalformedOneNoteFileData("unexpected object type"));
    }
    let context_id = object.context_id;

    let entity_guid = match crate::simple::parse_guid(
        NOTEBOOK_MANAGEMENT_ENTITY_GUID, &object.props.properties) {
        Ok(Some(g)) => g,
        Ok(None) => {
            return Err(ErrorKind::MalformedOneNoteFileData("section has no guid"));
        },
        Err(e) => { return Err(e); },
    };
    let page_series = match ObjectReference::parse_vec(ELEMENT_CHILD_NODES, object) {
        Ok(Some(v)) => v,
        Ok(None) => Vec::new(),
        Err(e) => { return Err(e); },
    };
    let created_at = match Timestamp::parse(TOPOLOGY_CREATION_TIME_STAMP,
        &object.props.properties) {
        Ok(Some(t)) => t,
        Ok(None) => {
            return Err(ErrorKind::MalformedOneNoteFileData(
                "section has no creation timestamp"));
        },
        Err(e) => { return Err(e); },
    };

    Ok(Data { context_id, entity_guid, page_series, created_at })
}

} // verus!
