use vstd::prelude::*;
use crate::errors::ErrorKind;
use crate::property_ids::ACTION_ITEM_STATUS;
use crate::prop_set::{spec_get, PropertySet, PropertyValue};
use crate::simple;

verus! {

/// The status word of a note tag's action item, unpacked from its
/// 16-bit wire form: completion in the lowest bit, the disabled flag in
/// bit 1, the task-tag flag in bit 2.
#[derive(Debug, Clone, Copy, PartialEq, Eq, Structural)]
pub struct ActionItemStatus {
    pub completed: bool,
    pub disabled: bool,
    pub task_tag: bool,
}

/// The status encoded by word `w`.
pub open spec fn spec_action_item_status(w: u16) -> ActionItemStatus {
    ActionItemStatus {
        completed: w & 1 == 1,
        disabled: (w >> 1) & 1 == 1,
        task_tag: (w >> 2) & 1 == 1,
    }
}

impl ActionItemStatus {
    /// Read the action-item status of a note-tag object.
    pub fn parse(props: &PropertySet) -> (r: Result<Option<ActionItemStatus>, ErrorKind>)
        ensures
            match spec_get(props.values@, ACTION_ITEM_STATUS) {
                None => r == Ok::<Option<ActionItemStatus>, ErrorKind>(None),
                Some(v) => {
                    &&& (v matches PropertyValue::U16(w) ==> r == Ok::<
                        Option<ActionItemStatus>,
                        ErrorKind,
                    >(Some(spec_action_item_status(w))))
                    &&& (!(v matches PropertyValue::U16(_)) ==> r == Err::<
                        Option<ActionItemStatus>,
                        ErrorKind,
                    >(ErrorKind::MalformedOneNoteFileData("u16 property is not a u16")))
                },
            },
    {
        let w = match simple::parse_u16(ACTION_ITEM_STATUS, props) {
            Ok(Some(v)) => v,
            Ok(None) => { return Ok(None); },
            Err(e) => { return Err(e); },
        };
        Ok(Some(ActionItemStatus {
            completed: w & 1 == 1,
            disabled: (w >> 1) & 1 == 1,
            task_tag: (w >> 2) & 1 == 1,
        }))
    }
}

} // verus!
