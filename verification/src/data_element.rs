use vstd::prelude::*;
use crate::compact_id::{spec_compact_id_at, CompactId};
use crate::compact_u64::{cu64_size, parse_compact_u64, spec_cu64_at};
use crate::errors::ErrorKind;
use crate::exguid::{exguid_size, spec_exguid_at, ExGuid};
use crate::guid::{spec_guid_at, Guid};
use crate::object::{JcId, ObjectPropSet};
use crate::prop_set::{prop_key, shape_class, PropertySet};
use crate::reader::{le16_at, le32_at, Reader};
use crate::stream_object::{
    spec_end16_type_at, spec_header16_at, spec_header_tag_at, ObjectHeader, ParsedHeader,
    OBJECT_TYPE_DATA_ELEMENT, OBJECT_TYPE_DATA_ELEMENT_PACKAGE, OBJECT_TYPE_OBJECT_GROUP_DATA,
    OBJECT_TYPE_OBJECT_GROUP_DECLARATIONS, OBJECT_TYPE_OBJECT_GROUP_OBJECT_DATA,
    OBJECT_TYPE_OBJECT_GROUP_OBJECT_DECLARE,
};

verus! {

// The data-element type codes of the packaging layer.
pub const ELEMENT_TYPE_STORAGE_INDEX: u64 = 0x01;
pub const ELEMENT_TYPE_STORAGE_MANIFEST: u64 = 0x02;
pub const ELEMENT_TYPE_CELL_MANIFEST: u64 = 0x03;
pub const ELEMENT_TYPE_REVISION_MANIFEST: u64 = 0x04;
pub const ELEMENT_TYPE_OBJECT_GROUP: u64 = 0x05;
pub const ELEMENT_TYPE_OBJECT_DATA_BLOB: u64 = 0x0a;

/// One object of an object group: its declared identity and metadata,
/// its schema identifier, and its payload.
#[derive(Debug)]
pub struct GroupObject {
    pub id: ExGuid,
    pub partition_id: u64,
    pub data_size: u64,
    pub jc_id: JcId,
    pub props: ObjectPropSet,
}

/// An object group: a declaration list zipped with a parallel data
/// list, one object per declaration.
#[derive(Debug)]
pub struct ObjectGroup {
    pub objects: Vec<GroupObject>,
}

/// A data element of the package.  Object groups are parsed in full;
/// the other element kinds are recognised, their frames walked over by
/// declared length, and their contents left aside.
#[derive(Debug)]
pub struct DataElement {
    pub id: ExGuid,
    pub serial_guid: Guid,
    pub serial: u64,
    pub element_type: u64,
    pub body: DataElementBody,
}

#[derive(Debug)]
pub enum DataElementBody {
    ObjectGroup(ObjectGroup),
    Unsupported,
}

/// The packaging body: the sequence of data elements between the
/// package header and its end marker.
#[derive(Debug)]
pub struct DataElementPackage {
    pub elements: Vec<DataElement>,
}

impl ObjectPropSet {
    /// Parse an object's payload: a compact count and that many packed
    /// identifiers for each of the three parallel arrays, then the
    /// property set.
    pub fn parse(reader: &mut Reader) -> (r: Result<ObjectPropSet, ErrorKind>)
        requires
            old(reader).wf(),
        ensures
            final(reader).wf(),
            final(reader).bytes() == old(reader).bytes(),
            final(reader).spec_pos() >= old(reader).spec_pos(),
            match r {
                Ok(ps) => {
                    let s = old(reader).bytes();
                    let p1 = old(reader).spec_pos();
                    let p2 = spec_id_array_end(s, p1);
                    let p3 = spec_id_array_end(s, p2);
                    let p4 = spec_id_array_end(s, p3);
                    let count = le16_at(s, p4) as int;
                    &&& ps.object_ids@.len() == spec_count_at(s, p1)
                    &&& forall|k: int| 0 <= k < ps.object_ids@.len()
                        ==> #[trigger] ps.object_ids@[k] == spec_compact_id_at(
                        s, p1 + crate::compact_u64::cu64_size(s[p1]) + 8 * k)
                    &&& ps.object_space_ids@.len() == spec_count_at(s, p2)
                    &&& forall|k: int| 0 <= k < ps.object_space_ids@.len()
                        ==> #[trigger] ps.object_space_ids@[k] == spec_compact_id_at(
                        s, p2 + crate::compact_u64::cu64_size(s[p2]) + 8 * k)
                    &&& ps.context_ids@.len() == spec_count_at(s, p3)
                    &&& forall|k: int| 0 <= k < ps.context_ids@.len()
                        ==> #[trigger] ps.context_ids@[k] == spec_compact_id_at(
                        s, p3 + crate::compact_u64::cu64_size(s[p3]) + 8 * k)
                    &&& ps.properties.values@.len() == count
                    &&& forall|k: int| 0 <= k < count ==> {
                        let raw = le32_at(s, p4 + 2 + 4 * k);
                        &&& (#[trigger] ps.properties.values@[k]).0 == prop_key(raw)
                        &&& shape_class(raw, ps.properties.values@[k].1)
                    }
                    &&& final(reader).spec_pos() >= p4 + 2 + 4 * count
                },
                Err(e) => true,
            },
    {
        let object_ids = match Self::parse_id_array(reader) {
            Ok(v) => v,
            Err(e) => { return Err(e); },
        };
        let object_space_ids = match Self::parse_id_array(reader) {
            Ok(v) => v,
            Err(e) => { return Err(e); },
        };
        let context_ids = match Self::parse_id_array(reader) {
            Ok(v) => v,
            Err(e) => { return Err(e); },
        };
        let properties = match PropertySet::parse(reader) {
            Ok(v) => v,
            Err(e) => { return Err(e); },
        };
        Ok(ObjectPropSet { object_ids, object_space_ids, context_ids, properties })
    }

    /// Parse one identifier array: a compact count, then that many
    /// packed identifiers.
    fn parse_id_array(reader: &mut Reader) -> (r: Result<Vec<CompactId>, ErrorKind>)
        requires
            old(reader).wf(),
        ensures
            final(reader).wf(),
            final(reader).bytes() == old(reader).bytes(),
            final(reader).spec_pos() >= old(reader).spec_pos(),
            match r {
                Ok(v) => {
                    let s = old(reader).bytes();
                    let i = old(reader).spec_pos();
                    let body = i + crate::compact_u64::cu64_size(s[i]);
                    &&& v@.len() == spec_count_at(s, i)
                    &&& forall|k: int| 0 <= k < v@.len()
                        ==> #[trigger] v@[k] == spec_compact_id_at(s, body + 8 * k)
                    &&& final(reader).spec_pos() == body + 8 * (spec_count_at(s, i) as int)
                },
                Err(e) => true,
            },
    {
        let count = match parse_compact_u64(reader) {
            Ok(v) => v,
            Err(e) => { return Err(e); },
        };
        if (count as u64) > (usize::MAX as u64) {
            return Err(ErrorKind::UnexpectedEof);
        }
        let n = count as usize;
        let ghost body = old(reader).spec_pos() + crate::compact_u64::cu64_size(
            old(reader).bytes()[old(reader).spec_pos()]);
        let mut out: Vec<CompactId> = Vec::new();
        let mut k: usize = 0;
        while k < n
            invariant
                k <= n,
                out@.len() == k,
                reader.wf(),
                reader.bytes() == old(reader).bytes(),
                body == old(reader).spec_pos() + crate::compact_u64::cu64_size(
                    old(reader).bytes()[old(reader).spec_pos()]),
                reader.spec_pos() == body + 8 * k,
                n == spec_count_at(old(reader).bytes(), old(reader).spec_pos()),
                forall|j: int| 0 <= j < k ==> #[trigger] out@[j] == spec_compact_id_at(
                    old(reader).bytes(), body + 8 * j),
            decreases n - k,
        {
            let id = match CompactId::parse(reader) {
                Ok(v) => v,
                Err(e) => { return Err(e); },
            };
            out.push(id);
            k = k + 1;
        }
        Ok(out)
    }
}

/// The identifier count announced by the compact integer at position
/// `i` of `s`.
pub open spec fn spec_count_at(s: Seq<u8>, i: int) -> u64 {
    crate::compact_u64::spec_cu64_at(s, i)
}

/// Where the identifier array starting at position `i` ends: past its
/// compact count and the announced number of packed identifiers.
pub open spec fn spec_id_array_end(s: Seq<u8>, i: int) -> int {
    i + crate::compact_u64::cu64_size(s[i]) + 8 * (spec_count_at(s, i) as int)
}

impl ObjectGroup {
    /// Parse an object group body: a compound frame of declarations,
    /// then a compound frame of data entries, zipped pairwise.  A group
    /// whose lists differ in length is rejected.
    pub fn parse(reader: &mut Reader) -> (r: Result<ObjectGroup, ErrorKind>)
        requires
            old(reader).wf(),
        ensures
            final(reader).wf(),
            final(reader).bytes() == old(reader).bytes(),
            final(reader).spec_pos() >= old(reader).spec_pos(),
            ({
                let s = old(reader).bytes();
                let i = old(reader).spec_pos();
                r is Ok ==> {
                    &&& old(reader).spec_remaining() >= 2
                    &&& spec_header_tag_at(s, i) == 1
                    &&& spec_header16_at(s, i).object_type
                        == OBJECT_TYPE_OBJECT_GROUP_DECLARATIONS
                    &&& final(reader).spec_pos() >= i + 4
                    &&& spec_header_tag_at(s, final(reader).spec_pos() - 2) == 3
                    &&& spec_end16_type_at(s, final(reader).spec_pos() - 2)
                        == OBJECT_TYPE_OBJECT_GROUP_DATA
                }
            }),
        decreases old(reader).spec_remaining(),
    {
        match ObjectHeader::try_parse_16(reader, OBJECT_TYPE_OBJECT_GROUP_DECLARATIONS) {
            Ok(_) => {},
            Err(e) => { return Err(e); },
        }
        let mut declarations: Vec<(ExGuid, u64, u64)> = Vec::new();
        loop
            invariant
                reader.wf(),
                reader.bytes() == old(reader).bytes(),
                reader.spec_pos() >= old(reader).spec_pos() + 2,
            decreases reader.spec_remaining(),
        {
            match ObjectHeader::parse(reader) {
                Ok(ParsedHeader::End(t)) => {
                    if t != OBJECT_TYPE_OBJECT_GROUP_DECLARATIONS {
                        return Err(ErrorKind::MalformedFssHttpBData("mismatched end marker type"));
                    }
                    break;
                },
                Ok(ParsedHeader::Start(h)) => {
                    if h.object_type != OBJECT_TYPE_OBJECT_GROUP_OBJECT_DECLARE {
                        return Err(ErrorKind::MalformedFssHttpBData(
                            "unexpected stream object type"));
                    }
                    let object_id = match ExGuid::parse(reader) {
                        Ok(v) => v,
                        Err(e) => { return Err(e); },
                    };
                    let partition_id = match parse_compact_u64(reader) {
                        Ok(v) => v,
                        Err(e) => { return Err(e); },
                    };
                    let data_size = match parse_compact_u64(reader) {
                        Ok(v) => v,
                        Err(e) => { return Err(e); },
                    };
                    declarations.push((object_id, partition_id, data_size));
                },
                Err(e) => { return Err(e); },
            }
        }
        match ObjectHeader::try_parse_16(reader, OBJECT_TYPE_OBJECT_GROUP_DATA) {
            Ok(_) => {},
            Err(e) => { return Err(e); },
        }
        let mut entries: Vec<(JcId, ObjectPropSet)> = Vec::new();
        loop
            invariant
                reader.wf(),
                reader.bytes() == old(reader).bytes(),
                reader.spec_pos() >= old(reader).spec_pos() + 4,
            ensures
                reader.wf(),
                reader.bytes() == old(reader).bytes(),
                reader.spec_pos() >= old(reader).spec_pos() + 4,
                spec_header_tag_at(old(reader).bytes(), reader.spec_pos() - 2) == 3,
                spec_end16_type_at(old(reader).bytes(), reader.spec_pos() - 2)
                    == OBJECT_TYPE_OBJECT_GROUP_DATA,
            decreases reader.spec_remaining(),
        {
            match ObjectHeader::parse(reader) {
                Ok(ParsedHeader::End(t)) => {
                    if t != OBJECT_TYPE_OBJECT_GROUP_DATA {
                        return Err(ErrorKind::MalformedFssHttpBData("mismatched end marker type"));
                    }
                    break;
                },
                Ok(ParsedHeader::Start(h)) => {
                    if h.object_type != OBJECT_TYPE_OBJECT_GROUP_OBJECT_DATA {
                        return Err(ErrorKind::MalformedFssHttpBData(
                            "unexpected stream object type"));
                    }
                    let jc_word = match reader.get_u32() {
                        Ok(v) => v,
                        Err(e) => { return Err(e); },
                    };
                    let props = match ObjectPropSet::parse(reader) {
                        Ok(v) => v,
                        Err(e) => { return Err(e); },
                    };
                    entries.push((JcId(jc_word), props));
                },
                Err(e) => { return Err(e); },
            }
        }
        if declarations.len() != entries.len() {
            return Err(ErrorKind::MalformedFssHttpBData(
                "object group declaration and data counts differ"));
        }
        let mut objects: Vec<GroupObject> = Vec::new();
        let n = declarations.len();
        let mut k: usize = 0;
        while k < n
            invariant
                k <= n,
                n == declarations@.len(),
                entries@.len() == n - k,
                objects@.len() == k,
            decreases n - k,
        {
            let (id, partition_id, data_size) = declarations[k];
            let (jc_id, props) = entries.remove(0);
            objects.push(GroupObject { id, partition_id, data_size, jc_id, props });
            k = k + 1;
        }
        Ok(ObjectGroup { objects })
    }
}

impl DataElement {
    /// Parse one data element: its compound frame, its identity and
    /// serial number, its element type, and a body selected by that
    /// type.  Elements of kinds other than object groups are walked
    /// over frame by frame and kept only as their type.
    pub fn parse(reader: &mut Reader) -> (r: Result<DataElement, ErrorKind>)
        requires
            old(reader).wf(),
        ensures
            final(reader).wf(),
            final(reader).bytes() == old(reader).bytes(),
            final(reader).spec_pos() >= old(reader).spec_pos(),
            r is Ok ==> final(reader).spec_pos() > old(reader).spec_pos(),
            ({
                let s = old(reader).bytes();
                let id_pos = old(reader).spec_pos() + 2;
                let serial_guid_pos = id_pos + exguid_size(s[id_pos]);
                let serial_pos = serial_guid_pos + 16;
                let type_pos = serial_pos + cu64_size(s[serial_pos]);
                match r {
                    Ok(de) => {
                        &&& de.id == spec_exguid_at(s, id_pos)
                        &&& de.serial_guid == spec_guid_at(s, serial_guid_pos)
                        &&& de.serial == spec_cu64_at(s, serial_pos)
                        &&& de.element_type == spec_cu64_at(s, type_pos)
                        &&& (de.body matches DataElementBody::ObjectGroup(_) <==> de.element_type
                            == ELEMENT_TYPE_OBJECT_GROUP)
                    },
                    Err(e) => true,
                }
            }),
        decreases old(reader).spec_remaining(),
    {
        match ObjectHeader::try_parse_16(reader, OBJECT_TYPE_DATA_ELEMENT) {
            Ok(_) => {},
            Err(e) => { return Err(e); },
        }
        let id = match ExGuid::parse(reader) {
            Ok(v) => v,
            Err(e) => { return Err(e); },
        };
        let serial_guid = match Guid::parse(reader) {
            Ok(v) => v,
            Err(e) => { return Err(e); },
        };
        let serial = match parse_compact_u64(reader) {
            Ok(v) => v,
            Err(e) => { return Err(e); },
        };
        let element_type = match parse_compact_u64(reader) {
            Ok(v) => v,
            Err(e) => { return Err(e); },
        };
        if element_type == ELEMENT_TYPE_OBJECT_GROUP {
            let group = match ObjectGroup::parse(reader) {
                Ok(v) => v,
                Err(e) => { return Err(e); },
            };
            match ObjectHeader::try_parse_end_16(reader, OBJECT_TYPE_DATA_ELEMENT) {
                Ok(_) => {},
                Err(e) => { return Err(e); },
            }
            return Ok(DataElement {
                id,
                serial_guid,
                serial,
                element_type,
                body: DataElementBody::ObjectGroup(group),
            });
        }
        // Walk the remaining frames of the element: compound frames
        // nest, plain frames are skipped by their declared length,
        // until the end marker of the element itself.
        let mut depth: usize = 0;
        loop
            invariant
                reader.wf(),
                reader.bytes() == old(reader).bytes(),
                reader.spec_pos() > old(reader).spec_pos(),
            decreases reader.spec_remaining(),
        {
            match ObjectHeader::parse(reader) {
                Ok(ParsedHeader::End(t)) => {
                    if depth == 0 {
                        if t != OBJECT_TYPE_DATA_ELEMENT {
                            return Err(ErrorKind::MalformedFssHttpBData(
                                "mismatched end marker type"));
                        }
                        break;
                    }
                    depth = depth - 1;
                },
                Ok(ParsedHeader::Start(h)) => {
                    if h.compound {
                        if depth == usize::MAX {
                            return Err(ErrorKind::MalformedFssHttpBData(
                                "stream objects nested too deeply"));
                        }
                        depth = depth + 1;
                    } else {
                        match reader.skip(h.length as usize) {
                            Ok(_) => {},
                            Err(e) => { return Err(e); },
                        }
                    }
                },
                Err(e) => { return Err(e); },
            }
        }
        Ok(DataElement {
            id,
            serial_guid,
            serial,
            element_type,
            body: DataElementBody::Unsupported,
        })
    }
}

/// Whether the bytes at position `i` spell a well-formed empty package:
/// its start header, a zero reserved byte, and its end marker at once.
pub open spec fn spec_empty_package_at(s: Seq<u8>, i: int, rem: int) -> bool {
    &&& rem >= 5
    &&& spec_header_tag_at(s, i) == 1
    &&& spec_header16_at(s, i).object_type == OBJECT_TYPE_DATA_ELEMENT_PACKAGE
    &&& s[i + 2] == 0
    &&& spec_header_tag_at(s, i + 3) == 3
    &&& spec_end16_type_at(s, i + 3) == OBJECT_TYPE_DATA_ELEMENT_PACKAGE
}

impl DataElementPackage {
    /// Parse the data-element package: its compound frame, a reserved
    /// byte that must be zero, and data elements until the matching
    /// end marker.  An empty package (the end marker right after the
    /// reserved byte) always parses to zero elements.
    pub fn parse(reader: &mut Reader) -> (r: Result<DataElementPackage, ErrorKind>)
        requires
            old(reader).wf(),
        ensures
            final(reader).wf(),
            final(reader).bytes() == old(reader).bytes(),
            final(reader).spec_pos() >= old(reader).spec_pos(),
            ({
                let s = old(reader).bytes();
                let i = old(reader).spec_pos();
                spec_empty_package_at(s, i, old(reader).spec_remaining())
                    ==> (r matches Ok(p) && (p.elements@.len() == 0
                        && final(reader).spec_pos() == i + 5))
            }),
            ({
                let s = old(reader).bytes();
                let i = old(reader).spec_pos();
                r is Ok ==> old(reader).spec_remaining() >= 3 && spec_header_tag_at(s, i) == 1
                    && spec_header16_at(s, i).object_type == OBJECT_TYPE_DATA_ELEMENT_PACKAGE
                    && s[i + 2] == 0
            }),
            ({
                let s = old(reader).bytes();
                r is Ok ==> spec_header_tag_at(s, final(reader).spec_pos() - 2) == 3
                    && spec_end16_type_at(s, final(reader).spec_pos() - 2)
                    == OBJECT_TYPE_DATA_ELEMENT_PACKAGE
            }),
            ({
                let s = old(reader).bytes();
                let i = old(reader).spec_pos();
                r matches Ok(p) ==> (p.elements@.len() == 0 <==> (
                    old(reader).spec_remaining() >= 5 && spec_header_tag_at(s, i + 3) == 3
                    && spec_end16_type_at(s, i + 3) == OBJECT_TYPE_DATA_ELEMENT_PACKAGE))
            }),
            ({
                let s = old(reader).bytes();
                let i = old(reader).spec_pos();
                old(reader).spec_remaining() >= 3 && spec_header_tag_at(s, i) == 1
                    && spec_header16_at(s, i).object_type == OBJECT_TYPE_DATA_ELEMENT_PACKAGE
                    && s[i + 2] != 0
                    ==> r == Err::<DataElementPackage, ErrorKind>(
                        ErrorKind::MalformedFssHttpBData(
                        "invalid data element package reserved byte"))
            }),
        decreases old(reader).spec_remaining(),
    {
        match ObjectHeader::try_parse_16(reader, OBJECT_TYPE_DATA_ELEMENT_PACKAGE) {
            Ok(_) => {},
            Err(e) => { return Err(e); },
        }
        let reserved = match reader.get_u8() {
            Ok(v) => v,
            Err(e) => { return Err(e); },
        };
        if reserved != 0 {
            return Err(ErrorKind::MalformedFssHttpBData(
                "invalid data element package reserved byte"));
        }
        let mut elements: Vec<DataElement> = Vec::new();
        loop
            invariant_except_break
                elements@.len() == 0 ==> reader.spec_pos() == old(reader).spec_pos() + 3,
            invariant
                reader.wf(),
                reader.bytes() == old(reader).bytes(),
                reader.spec_pos() >= old(reader).spec_pos() + 3,
                old(reader).spec_remaining() >= 3,
                old(reader).bytes()[old(reader).spec_pos() + 2] == 0,
                spec_empty_package_at(old(reader).bytes(), old(reader).spec_pos(),
                    old(reader).spec_remaining()) ==> elements@.len() == 0,
                ({
                    let s = old(reader).bytes();
                    let i = old(reader).spec_pos();
                    old(reader).spec_remaining() >= 5 && spec_header_tag_at(s, i + 3) == 3
                        && spec_end16_type_at(s, i + 3) == OBJECT_TYPE_DATA_ELEMENT_PACKAGE
                        ==> elements@.len() == 0
                }),
            ensures
                reader.wf(),
                reader.bytes() == old(reader).bytes(),
                reader.spec_pos() >= old(reader).spec_pos() + 3,
                spec_empty_package_at(old(reader).bytes(), old(reader).spec_pos(),
                    old(reader).spec_remaining()) ==> elements@.len() == 0
                    && reader.spec_pos() == old(reader).spec_pos() + 5,
                spec_header_tag_at(old(reader).bytes(), reader.spec_pos() - 2) == 3,
                spec_end16_type_at(old(reader).bytes(), reader.spec_pos() - 2)
                    == OBJECT_TYPE_DATA_ELEMENT_PACKAGE,
                ({
                    let s = old(reader).bytes();
                    let i = old(reader).spec_pos();
                    elements@.len() == 0 ==> old(reader).spec_remaining() >= 5
                        && spec_header_tag_at(s, i + 3) == 3
                        && spec_end16_type_at(s, i + 3) == OBJECT_TYPE_DATA_ELEMENT_PACKAGE
                        && reader.spec_pos() == i + 5
                }),
                ({
                    let s = old(reader).bytes();
                    let i = old(reader).spec_pos();
                    old(reader).spec_remaining() >= 5 && spec_header_tag_at(s, i + 3) == 3
                        && spec_end16_type_at(s, i + 3) == OBJECT_TYPE_DATA_ELEMENT_PACKAGE
                        ==> elements@.len() == 0
                }),
            decreases reader.spec_remaining(),
        {
            // An end marker closes the package; anything else must be
            // the start of another data element.
            let mut probe_reader = *reader;
            match ObjectHeader::parse(&mut probe_reader) {
                Ok(ParsedHeader::End(t)) => {
                    if t != OBJECT_TYPE_DATA_ELEMENT_PACKAGE {
                        return Err(ErrorKind::MalformedFssHttpBData("mismatched end marker type"));
                    }
                    *reader = probe_reader;
                    break;
                },
                Ok(ParsedHeader::Start(h)) => {
                    let element = match DataElement::parse(reader) {
                        Ok(v) => v,
                        Err(e) => { return Err(e); },
                    };
                    elements.push(element);
                },
                Err(e) => { return Err(e); },
            }
        }
        Ok(DataElementPackage { elements })
    }
}

} // verus!
