use vstd::prelude::*;
use vstd::slice::{slice_subrange, slice_index_get};
use crate::compact_id::CompactId;
use crate::errors::ErrorKind;
use crate::exguid::ExGuid;
use crate::object::{spec_resolve, Object};
use crate::prop_set::PropertyValue;
use crate::references::{
    find_property_index, ref_count_slice, spec_first_index, spec_ref_count_list, RefKind,
};

verus! {

/// The extended GUIDs that the identifiers of `ids` name under table
/// `m`, in order, those that do not resolve left out.
pub open spec fn spec_resolve_window(
    m: crate::object::MappingTable,
    ids: Seq<CompactId>,
) -> Seq<ExGuid>
    decreases ids.len(),
{
    if ids.len() == 0 {
        Seq::empty()
    } else {
        spec_resolve_window(m, ids.drop_last()) + match spec_resolve(m, ids.last()) {
            Some(eg) => seq![eg],
            None => Seq::empty(),
        }
    }
}

/// The extended GUID that the single object reference held by property
/// `prop_type` of `object` names, or nothing when the property is absent,
/// out of range, or unresolved.  `ObjectReference::parse` returns exactly
/// this on success.
pub open spec fn spec_single_ref(object: Object, prop_type: u32) -> Option<ExGuid> {
    let vals = object.props.properties.values@;
    let idx = spec_first_index(vals, prop_type);
    if idx == -1 {
        None
    } else {
        let off = spec_ref_count_list(RefKind::Object, vals.take(idx));
        let ids = object.props.object_ids@;
        if 0 <= off < ids.len() {
            spec_resolve(object.mapping, ids[off])
        } else {
            None
        }
    }
}

/// The extended GUIDs that the object-reference array held by property
/// `prop_type` of `object` names, or nothing when the property is
/// absent.  `ObjectReference::parse_vec` returns exactly this on success.
pub open spec fn spec_vec_ref(object: Object, prop_type: u32) -> Option<Seq<ExGuid>> {
    let vals = object.props.properties.values@;
    let idx = spec_first_index(vals, prop_type);
    if idx == -1 {
        None
    } else {
        let off = spec_ref_count_list(RefKind::Object, vals.take(idx));
        let ids = object.props.object_ids@;
        match vals[idx].1 {
            PropertyValue::ObjectIds(c) => {
                let start = if off > ids.len() { ids.len() as int } else { off };
                let end = if off + c > ids.len() { ids.len() as int } else { off + c };
                Some(spec_resolve_window(object.mapping, ids.subrange(start, end)))
            },
            _ => None,
        }
    }
}

/// The rejection resolving the single reference held by `prop_type`
/// produces, if any: a present property of the wrong shape, an offset
/// beyond what a machine word holds, or an offset past the identifier
/// array.  `ObjectReference::parse` fails exactly on these.
pub open spec fn spec_single_ref_err(object: Object, prop_type: u32) -> Option<ErrorKind> {
    let vals = object.props.properties.values@;
    let idx = spec_first_index(vals, prop_type);
    if idx == -1 {
        None
    } else {
        let off = spec_ref_count_list(RefKind::Object, vals.take(idx));
        if object.props.properties.values@[idx].1 != PropertyValue::ObjectId {
            Some(ErrorKind::MalformedOneNoteFileData("object reference is not a object id"))
        } else if off > usize::MAX {
            Some(ErrorKind::MalformedOneStoreData("reference count overflow"))
        } else if off >= object.props.object_ids@.len() {
            Some(ErrorKind::MalformedOneNoteFileData("object id index corrupt"))
        } else {
            None
        }
    }
}

/// The rejection resolving the reference array held by `prop_type`
/// produces, if any.  `ObjectReference::parse_vec` fails exactly on
/// these.
pub open spec fn spec_vec_ref_err(object: Object, prop_type: u32) -> Option<ErrorKind> {
    let vals = object.props.properties.values@;
    let idx = spec_first_index(vals, prop_type);
    if idx == -1 {
        None
    } else if !(vals[idx].1 matches PropertyValue::ObjectIds(_)) {
        Some(ErrorKind::MalformedOneNoteFileData(
            "object reference array is not a object id array"))
    } else if spec_ref_count_list(RefKind::Object, vals.take(idx)) > usize::MAX {
        Some(ErrorKind::MalformedOneStoreData("reference count overflow"))
    } else {
        None
    }
}

/// A generic object reference.
///
/// Reference-shaped properties do not carry their targets; they announce
/// a count, and the compact identifiers live in the object's parallel
/// `object_ids` array, in property order.  The offset of a property's
/// first identifier is the number of identifiers consumed by every
/// property standing before it, counted recursively through nested
/// property sets.  The first occurrence of a property keys the offsets;
/// duplicate keys are not expected in a well-formed set.
pub struct ObjectReference;

impl ObjectReference {
    /// Resolve a single object reference held by property `prop_type`.
    ///
    /// An absent property is no reference (`Ok(None)`); a present one
    /// must have the single-reference shape, its offset must fall inside
    /// the object-ID array, and the named identifier resolves through
    /// the space's GUID table (or is absent there, again `Ok(None)`).
    pub fn parse(prop_type: u32, object: &Object) -> (r: Result<Option<ExGuid>, ErrorKind>)
        ensures
            ({
                let vals = object.props.properties.values@;
                let idx = spec_first_index(vals, prop_type);
                let off = spec_ref_count_list(RefKind::Object, vals.take(idx));
                let ids = object.props.object_ids@;
                match r {
                    Ok(res) => if idx == -1 {
                        res is None
                    } else {
                        &&& vals[idx].1 == PropertyValue::ObjectId
                        &&& 0 <= off <= usize::MAX
                        &&& off < ids.len()
                        &&& res == spec_resolve(object.mapping, ids[off])
                    },
                    Err(e) => {
                        &&& idx >= 0
                        &&& if vals[idx].1 != PropertyValue::ObjectId {
                            e == ErrorKind::MalformedOneNoteFileData(
                                "object reference is not a object id")
                        } else if off > usize::MAX {
                            e == ErrorKind::MalformedOneStoreData("reference count overflow")
                        } else {
                            &&& off >= ids.len()
                            &&& e == ErrorKind::MalformedOneNoteFileData(
                                "object id index corrupt")
                        }
                    },
                }
            }),
    {
        let props = &object.props.properties;
        let idx = match find_property_index(props, prop_type) {
            Some(k) => k,
            None => { return Ok(None); },
        };
        match &props.values[idx].1 {
            PropertyValue::ObjectId => {},
            _ => {
                return Err(ErrorKind::MalformedOneNoteFileData(
                    "object reference is not a object id"));
            },
        }
        let index = match Self::get_offset(prop_type, object) {
            Ok(n) => n,
            Err(e) => { return Err(e); },
        };
        if index >= object.props.object_ids.len() {
            return Err(ErrorKind::MalformedOneNoteFileData("object id index corrupt"));
        }
        let id = object.props.object_ids[index];
        Ok(Self::resolve_id(index, &id, object))
    }

    /// Resolve an array of object references held by property
    /// `prop_type`: the announced number of identifiers starting at the
    /// property's offset, each resolved through the GUID table, the
    /// unresolved ones left out.
    pub fn parse_vec(prop_type: u32, object: &Object) -> (r: Result<
        Option<Vec<ExGuid>>,
        ErrorKind,
    >)
        ensures
            ({
                let vals = object.props.properties.values@;
                let idx = spec_first_index(vals, prop_type);
                let off = spec_ref_count_list(RefKind::Object, vals.take(idx));
                let ids = object.props.object_ids@;
                match r {
                    Ok(res) => if idx == -1 {
                        res is None
                    } else {
                        &&& 0 <= off <= usize::MAX
                        &&& vals[idx].1 matches PropertyValue::ObjectIds(c) && (
                        res matches Some(v) && ({
                            let start = if off > ids.len() { ids.len() as int } else { off };
                            let end = if off + c > ids.len() { ids.len() as int } else {
                                off + c
                            };
                            v@ == spec_resolve_window(object.mapping, ids.subrange(start, end))
                        }))
                    },
                    Err(e) => {
                        &&& idx >= 0
                        &&& if !(vals[idx].1 matches PropertyValue::ObjectIds(_)) {
                            e == ErrorKind::MalformedOneNoteFileData(
                                "object reference array is not a object id array")
                        } else {
                            &&& off > usize::MAX
                            &&& e == ErrorKind::MalformedOneStoreData("reference count overflow")
                        }
                    },
                }
            }),
    {
        let props = &object.props.properties;
        let idx = match find_property_index(props, prop_type) {
            Some(k) => k,
            None => { return Ok(None); },
        };
        let count: u32 = match &props.values[idx].1 {
            PropertyValue::ObjectIds(c) => *c,
            _ => {
                return Err(ErrorKind::MalformedOneNoteFileData(
                    "object reference array is not a object id array"));
            },
        };
        let offset = match Self::get_offset(prop_type, object) {
            Ok(n) => n,
            Err(e) => { return Err(e); },
        };
        let len = object.props.object_ids.len();
        let start: usize = if offset > len { len } else { offset };
        let take_n: usize = if (count as u64) > ((len - start) as u64) {
            len - start
        } else {
            count as usize
        };
        let ghost ids = object.props.object_ids@;
        assert(start <= len && take_n <= len - start);
        let mut out: Vec<ExGuid> = Vec::new();
        let mut k: usize = 0;
        proof {
            assert(ids.subrange(start as int, start as int) =~= Seq::<CompactId>::empty());
        }
        while k < take_n
            invariant
                start + take_n <= ids.len(),
                start + take_n <= usize::MAX,
                k <= take_n,
                ids == object.props.object_ids@,
                out@ == spec_resolve_window(object.mapping, ids.subrange(
                    start as int, start as int + k)),
            decreases take_n - k,
        {
            proof {
                assert(ids.subrange(start as int, start as int + k + 1).drop_last()
                    =~= ids.subrange(start as int, start as int + k));
                assert(ids.subrange(start as int, start as int + k + 1).last()
                    == ids[start as int + k]);
            }
            let id = object.props.object_ids[start + k];
            match Self::resolve_id(start + k, &id, object) {
                Some(eg) => { out.push(eg); },
                None => {},
            }
            k = k + 1;
        }
        Ok(Some(out))
    }

    /// The offset of property `prop_type`'s first identifier in the
    /// object-ID array: the identifiers consumed by every property
    /// standing before it, counted recursively.
    pub fn get_offset(prop_type: u32, object: &Object) -> (r: Result<usize, ErrorKind>)
        ensures
            ({
                let vals = object.props.properties.values@;
                let idx = spec_first_index(vals, prop_type);
                match r {
                    Ok(n) => {
                        &&& idx >= 0
                        &&& n == spec_ref_count_list(RefKind::Object, vals.take(idx))
                    },
                    Err(e) => if idx == -1 {
                        e == ErrorKind::MalformedOneNoteFileData("property not found")
                    } else {
                        &&& spec_ref_count_list(RefKind::Object, vals.take(idx)) > usize::MAX
                        &&& e == ErrorKind::MalformedOneStoreData("reference count overflow")
                    },
                }
            }),
    {
        let props = &object.props.properties;
        let idx = match find_property_index(props, prop_type) {
            Some(k) => k,
            None => {
                return Err(ErrorKind::MalformedOneNoteFileData("property not found"));
            },
        };
        Self::count_references(slice_subrange(props.values.as_slice(), 0, idx))
    }

    /// The identifiers consumed from the object-ID array by the values
    /// of `values`, in order, counted recursively through nested sets.
    pub fn count_references(values: &[(u32, PropertyValue)]) -> (r: Result<usize, ErrorKind>)
        ensures
            match r {
                Ok(n) => n == spec_ref_count_list(RefKind::Object, values@),
                Err(e) => {
                    &&& spec_ref_count_list(RefKind::Object, values@) > usize::MAX
                    &&& e == ErrorKind::MalformedOneStoreData("reference count overflow")
                },
            },
    {
        ref_count_slice(RefKind::Object, values)
    }

    /// Resolve one compact identifier through the object's GUID table.
    /// The position of the identifier in its array is accepted for
    /// interface parity but takes no part in the resolution.
    pub fn resolve_id(index: usize, id: &CompactId, object: &Object) -> (r: Option<ExGuid>)
        ensures
            r == spec_resolve(object.mapping, *id),
    {
        object.mapping.get_object(index, *id)
    }
}

} // verus!
