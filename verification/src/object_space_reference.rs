use vstd::prelude::*;
use vstd::slice::slice_subrange;
use crate::errors::ErrorKind;
use crate::object::Object;
use crate::prop_set::PropertyValue;
use crate::references::{
    find_property_index, ref_count_slice, spec_first_index, spec_ref_count_list, RefKind,
};

verus! {

/// A generic object-space reference: the counterpart of
/// `ObjectReference` for the parallel `object_space_ids` array.
pub struct ObjectSpaceReference;

impl ObjectSpaceReference {
    /// The offset of property `prop_type`'s first identifier in the
    /// object-space-ID array: the space identifiers consumed by every
    /// property standing before it, counted recursively.
    pub fn get_offset(prop_type: u32, object: &Object) -> (r: Result<usize, ErrorKind>)
        ensures
            ({
                let vals = object.props.properties.values@;
                let idx = spec_first_index(vals, prop_type);
                match r {
                    Ok(n) => {
                        &&& idx >= 0
                        &&& n == spec_ref_count_list(RefKind::Space, vals.take(idx))
                    },
                    Err(e) => if idx == -1 {
                        e == ErrorKind::MalformedOneNoteFileData("property not found")
                    } else {
                        &&& spec_ref_count_list(RefKind::Space, vals.take(idx)) > usize::MAX
                        &&& e == ErrorKind::MalformedOneStoreData("reference count overflow")
                    },
                }
            }),
    {
        let props = &object.props.properties;
        let idx = match find_property_index(props, prop_type) {
            Some(k) => k,
            None => {
                return Err(ErrorKind::MalformedOneNoteFileData("property not found"));
            },
        };
        Self::count_references(slice_subrange(props.values.as_slice(), 0, idx))
    }

    /// The identifiers consumed from the object-space-ID array by the
    /// values of `values`, in order, counted recursively.
    pub fn count_references(values: &[(u32, PropertyValue)]) -> (r: Result<usize, ErrorKind>)
        ensures
            match r {
                Ok(n) => n == spec_ref_count_list(RefKind::Space, values@),
                Err(e) => {
                    &&& spec_ref_count_list(RefKind::Space, values@) > usize::MAX
                    &&& e == ErrorKind::MalformedOneStoreData("reference count overflow")
                },
            },
    {
        ref_count_slice(RefKind::Space, values)
    }
}

} // verus!
