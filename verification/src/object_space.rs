use vstd::prelude::*;
use crate::data_element::ObjectGroup;
use crate::exguid::ExGuid;
use crate::guid::Guid;
use crate::object::{MappingTable, Object};

verus! {

/// The object stored under `id` in `objs`, the first binding winning.
pub open spec fn spec_space_get(objs: Seq<(ExGuid, Object)>, id: ExGuid) -> Option<Object>
    decreases objs.len(),
{
    if objs.len() == 0 {
        None
    } else if objs[0].0 == id {
        Some(objs[0].1)
    } else {
        spec_space_get(objs.drop_first(), id)
    }
}

/// A self-contained namespace of objects keyed by extended GUID: the
/// root of content navigation.  The graph may reach itself, so objects
/// never own their references; every edge is an extended GUID resolved
/// through the space.
#[derive(Debug)]
pub struct ObjectSpace {
    pub objects: Vec<(ExGuid, Object)>,
}

impl ObjectSpace {
    /// Assemble an object space from a parsed object group: one object
    /// per declared identity, every object carrying the space's GUID
    /// table so its compact identifiers can later be resolved.
    pub fn from_object_group(group: ObjectGroup, guids: Vec<Guid>, context_id: ExGuid) -> (r:
        ObjectSpace)
        ensures
            r.objects@.len() == group.objects@.len(),
            forall|k: int| 0 <= k < group.objects@.len() ==> {
                &&& (#[trigger] r.objects@[k]).0 == group.objects@[k].id
                &&& r.objects@[k].1.jc_id == group.objects@[k].jc_id
                &&& r.objects@[k].1.context_id == context_id
                &&& r.objects@[k].1.props == group.objects@[k].props
                &&& r.objects@[k].1.file_data is None
                &&& r.objects@[k].1.mapping.guids@ == guids@
            },
    {
        let table = MappingTable { guids };
        let mut rest = group.objects;
        let ghost orig = rest@;
        let mut objects: Vec<(ExGuid, Object)> = Vec::new();
        let n = rest.len();
        let mut k: usize = 0;
        while k < n
            invariant
                k <= n,
                n == orig.len(),
                rest@ =~= orig.skip(k as int),
                objects@.len() == k,
                table.guids@ == guids@,
                forall|j: int| 0 <= j < k ==> {
                    &&& (#[trigger] objects@[j]).0 == orig[j].id
                    &&& objects@[j].1.jc_id == orig[j].jc_id
                    &&& objects@[j].1.context_id == context_id
                    &&& objects@[j].1.props == orig[j].props
                    &&& objects@[j].1.file_data is None
                    &&& objects@[j].1.mapping.guids@ == table.guids@
                },
            decreases n - k,
        {
            let entry = rest.remove(0);
            let object = Object {
                jc_id: entry.jc_id,
                context_id,
                props: entry.props,
                file_data: None,
                mapping: table.duplicate(),
            };
            objects.push((entry.id, object));
            k = k + 1;
        }
        ObjectSpace { objects }
    }

    /// The primary lookup: the object an extended GUID names, if any.
    pub fn get_object(&self, id: ExGuid) -> (r: Option<&Object>)
        ensures
            match r {
                Some(o) => spec_space_get(self.objects@, id) == Some(*o),
                None => spec_space_get(self.objects@, id) is None,
            },
    {
        let mut k: usize = 0;
        proof {
            assert(self.objects@.skip(0) =~= self.objects@);
        }
        while k < self.objects.len()
            invariant
                k <= self.objects@.len(),
                spec_space_get(self.objects@, id) == spec_space_get(
                    self.objects@.skip(k as int), id),
            decreases self.objects@.len() - k,
        {
            proof {
                assert(self.objects@.skip(k as int)[0] == self.objects@[k as int]);
                assert(self.objects@.skip(k as int).drop_first() =~= self.objects@.skip(
                    k as int + 1));
            }
            if self.objects[k].0 == id {
                return Some(&self.objects[k].1);
            }
            k = k + 1;
        }
        None
    }
}

} // verus!
