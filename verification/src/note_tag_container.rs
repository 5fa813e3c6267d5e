use vstd::prelude::*;
use vstd::slice::slice_subrange;
use crate::errors::ErrorKind;
use crate::exguid::ExGuid;
use crate::note_tag::{spec_action_item_status, ActionItemStatus};
use crate::object::{spec_resolve, Object};
use crate::object_reference::ObjectReference;
use crate::property_ids::{
    ACTION_ITEM_STATUS, NOTE_TAGS, NOTE_TAG_COMPLETED, NOTE_TAG_CREATED, NOTE_TAG_DEFINITION_OID,
};
use crate::prop_set::{spec_get, PropertySet, PropertyValue};
use crate::references::{
    find_property_index, lemma_get_some_finds_first, lemma_ref_count_list_nonneg,
    ref_count_slice, spec_first_index, spec_ref_count_list, spec_ref_count_sets, RefKind,
};
use crate::simple::{spec_u16_err, spec_u32_err};
use crate::time::Time;

verus! {

/// One note tag: its shared definition (if resolved), when it was
/// created and completed, and its action-item status.
#[derive(Debug)]
pub struct Data {
    pub definition: Option<ExGuid>,
    pub created_at: Time,
    pub completed_at: Option<Time>,
    pub item_status: ActionItemStatus,
}

/// Where the `k`-th nested note-tag set's identifier window starts in
/// the parent's object-ID array: the offset of the note-tag property
/// itself plus everything the earlier nested sets consumed.
pub open spec fn spec_window_start(object: Object, sets: Seq<PropertySet>, k: int) -> int {
    let vals = object.props.properties.values@;
    let idx = spec_first_index(vals, NOTE_TAGS);
    spec_ref_count_list(RefKind::Object, vals.take(idx)) + spec_ref_count_sets(
        RefKind::Object, sets.take(k))
}

/// What interpreting the `k`-th nested note-tag set must yield.  The
/// set reads its object references out of the parent's object-ID array,
/// through the window its predecessors left it.
pub open spec fn spec_note_tag_ok(object: Object, sets: Seq<PropertySet>, k: int, d: Data) -> bool {
    let inner = sets[k].values@;
    let ids = object.props.object_ids@;
    let start = spec_window_start(object, sets, k);
    let win_start = if start > ids.len() { ids.len() as int } else { start };
    let count_k = spec_ref_count_list(RefKind::Object, inner);
    let win_end = if start + count_k > ids.len() { ids.len() as int } else { start + count_k };
    let idx = spec_first_index(inner, NOTE_TAG_DEFINITION_OID);
    &&& (idx == -1 ==> d.definition is None)
    &&& (idx >= 0 ==> {
        let off = spec_ref_count_list(RefKind::Object, inner.take(idx));
        &&& inner[idx].1 == PropertyValue::ObjectId
        &&& 0 <= off < win_end - win_start
        &&& d.definition == spec_resolve(object.mapping, ids[win_start + off])
    })
    &&& spec_get(inner, NOTE_TAG_CREATED) matches Some(v) && (v matches PropertyValue::U32(t)
        && d.created_at == Time(t))
    &&& (match spec_get(inner, NOTE_TAG_COMPLETED) {
        None => d.completed_at is None,
        Some(v) => v matches PropertyValue::U32(t) && d.completed_at == Some(Time(t)),
    })
    &&& spec_get(inner, ACTION_ITEM_STATUS) matches Some(v) && (v matches PropertyValue::U16(w)
        && d.item_status == spec_action_item_status(w))
}

/// The rejection interpreting the `k`-th nested note-tag set produces,
/// if any, in the order the checks run: the set's own reference count,
/// the window arithmetic, the definition reference, then the required
/// time and status properties.
pub open spec fn spec_note_tag_set_verdict(
    object: Object,
    sets: Seq<PropertySet>,
    k: int,
) -> Option<ErrorKind> {
    let inner = sets[k].values@;
    let ids = object.props.object_ids@;
    let cnt = spec_ref_count_list(RefKind::Object, inner);
    let start = spec_window_start(object, sets, k);
    let win_start = if start > ids.len() { ids.len() as int } else { start };
    let win_end = if start + cnt > ids.len() { ids.len() as int } else { start + cnt };
    let idx = spec_first_index(inner, NOTE_TAG_DEFINITION_OID);
    let off = spec_ref_count_list(RefKind::Object, inner.take(idx));
    if cnt > usize::MAX {
        Some(ErrorKind::MalformedOneStoreData("reference count overflow"))
    } else if start + cnt > usize::MAX {
        Some(ErrorKind::MalformedOneStoreData("reference count overflow"))
    } else if idx >= 0 && inner[idx].1 != PropertyValue::ObjectId {
        Some(ErrorKind::MalformedOneNoteFileData("object reference is not a object id"))
    } else if idx >= 0 && off > usize::MAX {
        Some(ErrorKind::MalformedOneStoreData("reference count overflow"))
    } else if idx >= 0 && off >= win_end - win_start {
        Some(ErrorKind::MalformedOneNoteFileData("object id index corrupt"))
    } else if spec_u32_err(inner, NOTE_TAG_CREATED) is Some {
        spec_u32_err(inner, NOTE_TAG_CREATED)
    } else if spec_get(inner, NOTE_TAG_CREATED) is None {
        Some(ErrorKind::MalformedOneNoteFileData("note tag has no created at time"))
    } else if spec_u32_err(inner, NOTE_TAG_COMPLETED) is Some {
        spec_u32_err(inner, NOTE_TAG_COMPLETED)
    } else if spec_u16_err(inner, ACTION_ITEM_STATUS) is Some {
        spec_u16_err(inner, ACTION_ITEM_STATUS)
    } else if spec_get(inner, ACTION_ITEM_STATUS) is None {
        Some(ErrorKind::MalformedOneNoteFileData("note tag container has no item status"))
    } else {
        None
    }
}

/// The first rejection among the nested sets from position `k` on.
pub open spec fn spec_sets_verdict_from(
    object: Object,
    sets: Seq<PropertySet>,
    k: int,
) -> Option<ErrorKind>
    decreases sets.len() - k,
{
    if k < 0 || k >= sets.len() {
        None
    } else if spec_note_tag_set_verdict(object, sets, k) is Some {
        spec_note_tag_set_verdict(object, sets, k)
    } else {
        spec_sets_verdict_from(object, sets, k + 1)
    }
}

/// The rejection interpreting an object's note tags produces, if any:
/// a note-tag property of the wrong shape, an offset beyond what a
/// machine word holds, or the first rejection among the nested sets.
/// `Data::parse` fails exactly on these.
pub open spec fn spec_note_tags_verdict(object: Object) -> Option<ErrorKind> {
    let vals = object.props.properties.values@;
    match spec_get(vals, NOTE_TAGS) {
        None => None,
        Some(v) => match v {
            PropertyValue::PropertyValues(id, sets) => {
                let idx = spec_first_index(vals, NOTE_TAGS);
                if spec_ref_count_list(RefKind::Object, vals.take(idx)) > usize::MAX {
                    Some(ErrorKind::MalformedOneStoreData("reference count overflow"))
                } else {
                    spec_sets_verdict_from(object, sets@, 0)
                }
            },
            _ => Some(ErrorKind::MalformedOneNoteFileData(
                "note tag state is not a property values list")),
        },
    }
}

/// What a whole note-tag interpretation must yield: nothing read for an
/// object without the property, one entry per nested set otherwise.
pub open spec fn spec_note_tags_ok(object: Object, tags: Seq<Data>) -> bool {
    match spec_get(object.props.properties.values@, NOTE_TAGS) {
        None => tags.len() == 0,
        Some(v) => v matches PropertyValue::PropertyValues(id, sets) && (tags.len()
            == sets@.len() && forall|k: int| 0 <= k < sets@.len()
                ==> #[trigger] spec_note_tag_ok(object, sets@, k, tags[k])),
    }
}

impl Data {
    /// Interpret the note tags of an object.
    ///
    /// The note-tag property is an array of nested property sets; each
    /// is read as one note tag, consuming its own slice of the parent's
    /// object-ID array.  An object without the property has no note
    /// tags at all; an empty array yields an empty vector.
    #[verifier::loop_isolation(false)]
    pub fn parse(object: &Object) -> (r: Result<Option<Vec<Data>>, ErrorKind>)
        ensures
            ({
                let vals = object.props.properties.values@;
                match r {
                    Ok(res) => spec_note_tags_verdict(*object) is None && match spec_get(
                        vals, NOTE_TAGS) {
                        None => res is None,
                        Some(v) => v matches PropertyValue::PropertyValues(id, sets) && (
                        res matches Some(out) && (out@.len() == sets@.len()
                            && forall|k: int| 0 <= k < sets@.len()
                                ==> #[trigger] spec_note_tag_ok(*object, sets@, k, out@[k]))),
                    },
                    Err(e) => spec_note_tags_verdict(*object) == Some(e),
                }
            }),
    {
        let props = &object.props.properties;
        let sets: &Vec<PropertySet> = match props.get(NOTE_TAGS) {
            None => { return Ok(None); },
            Some(PropertyValue::PropertyValues(_, sets)) => sets,
            Some(_) => {
                return Err(ErrorKind::MalformedOneNoteFileData(
                    "note tag state is not a property values list"));
            },
        };
        proof {
            lemma_get_some_finds_first(object.props.properties.values@, NOTE_TAGS);
        }
        let base = match ObjectReference::get_offset(NOTE_TAGS, object) {
            Ok(n) => n,
            Err(e) => { return Err(e); },
        };
        let ids_len = object.props.object_ids.len();
        let mut out: Vec<Data> = Vec::new();
        let mut cum: usize = base;
        let mut k: usize = 0;
        proof {
            assert(sets@.take(0) =~= Seq::<PropertySet>::empty());
        }
        while k < sets.len()
            invariant
                k <= sets@.len(),
                out@.len() == k,
                ids_len == object.props.object_ids@.len(),
                cum == spec_window_start(*object, sets@, k as int),
                spec_sets_verdict_from(*object, sets@, 0) == spec_sets_verdict_from(
                    *object, sets@, k as int),
                forall|j: int| 0 <= j < k ==> #[trigger] spec_note_tag_ok(
                    *object, sets@, j, out@[j]),
            decreases sets@.len() - k,
        {
            let inner = &sets[k];
            let count_k = match ref_count_slice(RefKind::Object, inner.values.as_slice()) {
                Ok(n) => n,
                Err(e) => { return Err(e); },
            };
            if count_k > usize::MAX - cum {
                return Err(ErrorKind::MalformedOneStoreData("reference count overflow"));
            }
            let win_start = if cum > ids_len { ids_len } else { cum };
            let win_end = if cum + count_k > ids_len { ids_len } else { cum + count_k };

            let definition: Option<ExGuid> = match find_property_index(
                inner, NOTE_TAG_DEFINITION_OID) {
                None => None,
                Some(idx) => {
                    match &inner.values[idx].1 {
                        PropertyValue::ObjectId => {},
                        _ => {
                            return Err(ErrorKind::MalformedOneNoteFileData(
                                "object reference is not a object id"));
                        },
                    }
                    let off = match ref_count_slice(RefKind::Object,
                        slice_subrange(inner.values.as_slice(), 0, idx)) {
                        Ok(n) => n,
                        Err(e) => { return Err(e); },
                    };
                    if off >= win_end - win_start {
                        return Err(ErrorKind::MalformedOneNoteFileData(
                            "object id index corrupt"));
                    }
                    let id = object.props.object_ids[win_start + off];
                    object.mapping.get_object(win_start + off, id)
                },
            };
            let created_at = match Time::parse(NOTE_TAG_CREATED, inner) {
                Ok(Some(t)) => t,
                Ok(None) => {
                    return Err(ErrorKind::MalformedOneNoteFileData(
                        "note tag has no created at time"));
                },
                Err(e) => { return Err(e); },
            };
            let completed_at = match Time::parse(NOTE_TAG_COMPLETED, inner) {
                Ok(t) => t,
                Err(e) => { return Err(e); },
            };
            let item_status = match ActionItemStatus::parse(inner) {
                Ok(Some(s)) => s,
                Ok(None) => {
                    return Err(ErrorKind::MalformedOneNoteFileData(
                        "note tag container has no item status"));
                },
                Err(e) => { return Err(e); },
            };
            out.push(Data { definition, created_at, completed_at, item_status });
            proof {
                assert(sets@.take(k as int + 1).drop_last() =~= sets@.take(k as int));
                assert(sets@.take(k as int + 1).last() == sets@[k as int]);
                lemma_ref_count_list_nonneg(RefKind::Object, sets@[k as int].values@);
            }
            cum = cum + count_k;
            k = k + 1;
        }
        Ok(Some(out))
    }
}

} // verus!
