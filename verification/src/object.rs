use vstd::prelude::*;
use vstd::slice::slice_to_vec;
use crate::compact_id::CompactId;
use crate::exguid::ExGuid;
use crate::guid::Guid;
use crate::prop_set::PropertySet;

verus! {

/// The 32-bit identifier classifying an object's schema; interpretation
/// of an object requires it to equal the expected property-set ID.
#[derive(Debug, Clone, Copy, PartialEq, Eq, Structural, Hash)]
pub struct JcId(pub u32);

/// The GUID-index table of an object space, shared by value across the
/// objects of the space.  A compact identifier resolves against it.
#[derive(Debug)]
pub struct MappingTable {
    pub guids: Vec<Guid>,
}

/// The extended GUID that `id` names under table `m`: the GUID picked by
/// the identifier's GUID index, carrying the identifier's value; nothing
/// when the index points outside the table.
pub open spec fn spec_resolve(m: MappingTable, id: CompactId) -> Option<ExGuid> {
    if id.guid_index < m.guids@.len() {
        Some(ExGuid { guid: m.guids@[id.guid_index as int], value: id.value })
    } else {
        None
    }
}

impl MappingTable {
    /// Resolve a compact identifier.  The position of the identifier in
    /// its array is accepted for interface parity but takes no part in
    /// the resolution.
    pub fn get_object(&self, position: usize, id: CompactId) -> (r: Option<ExGuid>)
        ensures
            r == spec_resolve(*self, id),
    {
        let _ = position;
        if (id.guid_index as usize) < self.guids.len() {
            Some(ExGuid { guid: self.guids[id.guid_index as usize], value: id.value })
        } else {
            None
        }
    }

    /// An owned copy of the table, for objects synthesised from nested
    /// property sets.
    pub fn duplicate(&self) -> (r: MappingTable)
        ensures
            r.guids@ == self.guids@,
    {
        MappingTable { guids: slice_to_vec(self.guids.as_slice()) }
    }
}

/// A raw object's payload: three ordered compact-identifier arrays and
/// the decoded property set.  Reference-shaped properties consume
/// entries of the arrays in property order.
#[derive(Debug)]
pub struct ObjectPropSet {
    pub object_ids: Vec<CompactId>,
    pub object_space_ids: Vec<CompactId>,
    pub context_ids: Vec<CompactId>,
    pub properties: PropertySet,
}

/// A resolved object: its schema identifier, the context it lives in,
/// its payload, an optional embedded-file blob, and the GUID table of
/// the enclosing object space.
#[derive(Debug)]
pub struct Object {
    pub jc_id: JcId,
    pub context_id: ExGuid,
    pub props: ObjectPropSet,
    pub file_data: Option<Vec<u8>>,
    pub mapping: MappingTable,
}

impl Object {
    /// The schema identifier of the object.
    pub fn id(&self) -> (r: JcId)
        ensures
            r == self.jc_id,
    {
        self.jc_id
    }
}

} // verus!
