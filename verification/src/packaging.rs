use vstd::prelude::*;
use crate::data_element::{spec_empty_package_at, DataElementPackage};
use crate::errors::ErrorKind;
use crate::exguid::{exguid_size, spec_exguid_at, ExGuid};
use crate::guid::{spec_guid_at, Guid};
use crate::reader::{le32_at, Reader};
use crate::stream_object::{
    spec_end16_type_at, spec_header16_at, spec_header32_at, spec_header_tag_at, ObjectHeader,
    OBJECT_TYPE_DATA_ELEMENT_PACKAGE, OBJECT_TYPE_ONENOTE_PACKAGING,
};

verus! {

/// The outermost envelope of a file: four identifying GUIDs, a zero
/// padding word, the packaging frame, the storage-index identity, the
/// cell schema, and the data-element package.
#[derive(Debug)]
pub struct Packaging {
    pub file_type: Guid,
    pub file: Guid,
    pub legacy_file_version: Guid,
    pub file_format: Guid,
    pub storage_index: ExGuid,
    pub cell_schema: Guid,
    pub data_element_package: DataElementPackage,
}

/// Whether the bytes at position `i` spell a well-formed minimal legacy
/// file: matching file and legacy-file-version GUIDs, zero padding, the
/// packaging frame, a storage index and cell schema, an empty
/// data-element package, and the matching end marker.
pub open spec fn spec_minimal_envelope_at(s: Seq<u8>, i: int, rem: int) -> bool {
    let e = exguid_size(s[i + 72]);
    let pkg = i + 88 + e;
    &&& rem >= 68
    &&& spec_guid_at(s, i + 16) == spec_guid_at(s, i + 32)
    &&& le32_at(s, i + 64) == 0
    &&& le32_at(s, i + 68) & 3 == 0
    &&& spec_header32_at(s, i + 68).object_type == OBJECT_TYPE_ONENOTE_PACKAGING
    &&& e >= 1
    &&& rem >= 95 + e
    &&& spec_empty_package_at(s, pkg, rem - (88 + e))
    &&& spec_header_tag_at(s, pkg + 5) == 3
    &&& spec_end16_type_at(s, pkg + 5) == OBJECT_TYPE_ONENOTE_PACKAGING
}

impl Packaging {
    /// The file-type GUID of a OneNote document file.
    pub fn file_type_one() -> (r: Guid)
        ensures
            r == (Guid { data1: 0x7b5c52e4, data2: 0xd88c, data3: 0x4da7, data4: 0xd39629d07853b1ae }),
    {
        Guid { data1: 0x7b5c52e4, data2: 0xd88c, data3: 0x4da7, data4: 0xd39629d07853b1ae }
    }

    /// The file-type GUID of a OneNote table-of-contents file.
    pub fn file_type_one_toc2() -> (r: Guid)
        ensures
            r == (Guid { data1: 0x43ff2fa1, data2: 0xefd9, data3: 0x4c76, data4: 0x5f762257ea10e29e }),
    {
        Guid { data1: 0x43ff2fa1, data2: 0xefd9, data3: 0x4c76, data4: 0x5f762257ea10e29e }
    }

    /// Parse the envelope.  A file whose file GUID differs from its
    /// legacy-file-version GUID is not a legacy store and is rejected;
    /// so is a non-zero padding word after the four GUIDs.
    pub fn parse(reader: &mut Reader) -> (r: Result<Packaging, ErrorKind>)
        requires
            old(reader).wf(),
        ensures
            final(reader).wf(),
            final(reader).bytes() == old(reader).bytes(),
            final(reader).spec_pos() >= old(reader).spec_pos(),
            ({
                let s = old(reader).bytes();
                let i = old(reader).spec_pos();
                let rem = old(reader).spec_remaining();
                &&& (match r {
                    Ok(p) => {
                        &&& rem >= 68
                        &&& p.file_type == spec_guid_at(s, i)
                        &&& p.file == spec_guid_at(s, i + 16)
                        &&& p.legacy_file_version == spec_guid_at(s, i + 32)
                        &&& p.file == p.legacy_file_version
                        &&& p.file_format == spec_guid_at(s, i + 48)
                        &&& le32_at(s, i + 64) == 0
                        &&& le32_at(s, i + 68) & 3 == 0
                        &&& spec_header32_at(s, i + 68).object_type
                            == OBJECT_TYPE_ONENOTE_PACKAGING
                        &&& p.storage_index == spec_exguid_at(s, i + 72)
                        &&& p.cell_schema == spec_guid_at(
                            s, i + 72 + exguid_size(s[i + 72]))
                    },
                    Err(e) => true,
                })
                &&& (rem >= 64 && spec_guid_at(s, i + 16) != spec_guid_at(s, i + 32) ==> r
                    == Err::<Packaging, ErrorKind>(ErrorKind::MalformedOneStoreData(
                    "not a legacy OneStore file")))
                &&& (rem >= 68 && spec_guid_at(s, i + 16) == spec_guid_at(s, i + 32)
                    && le32_at(s, i + 64) != 0 ==> r == Err::<Packaging, ErrorKind>(
                    ErrorKind::MalformedFssHttpBData("invalid padding data")))
                &&& (r is Ok ==> {
                    &&& spec_header_tag_at(s, final(reader).spec_pos() - 2) == 3
                    &&& spec_end16_type_at(s, final(reader).spec_pos() - 2)
                        == OBJECT_TYPE_ONENOTE_PACKAGING
                })
                &&& (match r {
                    Ok(p) => {
                        let pkg = i + 88 + exguid_size(s[i + 72]);
                        &&& spec_header_tag_at(s, pkg) == 1
                        &&& spec_header16_at(s, pkg).object_type
                            == OBJECT_TYPE_DATA_ELEMENT_PACKAGE
                        &&& s[pkg + 2] == 0
                        &&& (p.data_element_package.elements@.len() == 0 <==> (
                            spec_header_tag_at(s, pkg + 3) == 3 && spec_end16_type_at(s, pkg + 3)
                            == OBJECT_TYPE_DATA_ELEMENT_PACKAGE && s.len() - pkg >= 5))
                    },
                    Err(e) => true,
                })
                &&& (spec_minimal_envelope_at(s, i, rem) ==> (r matches Ok(p) && (
                    p.data_element_package.elements@.len() == 0
                    && final(reader).spec_pos() == i + 95 + exguid_size(s[i + 72]))))
                &&& (rem < 64 ==> r == Err::<Packaging, ErrorKind>(ErrorKind::UnexpectedEof))
                &&& (spec_guid_at(s, i + 16) == spec_guid_at(s, i + 32) && 64 <= rem < 68 ==> r
                    == Err::<Packaging, ErrorKind>(ErrorKind::UnexpectedEof))
                &&& (spec_guid_at(s, i + 16) == spec_guid_at(s, i + 32) && le32_at(s, i + 64)
                    == 0 && 68 <= rem < 72 ==> r == Err::<Packaging, ErrorKind>(
                    ErrorKind::UnexpectedEof))
                &&& (spec_guid_at(s, i + 16) == spec_guid_at(s, i + 32) && le32_at(s, i + 64)
                    == 0 && rem >= 72 && le32_at(s, i + 68) & 3 != 0 ==> r == Err::<
                    Packaging,
                    ErrorKind,
                >(ErrorKind::MalformedFssHttpBData("unexpected stream object header")))
                &&& (spec_guid_at(s, i + 16) == spec_guid_at(s, i + 32) && le32_at(s, i + 64)
                    == 0 && rem >= 72 && le32_at(s, i + 68) & 3 == 0 && spec_header32_at(
                    s, i + 68).object_type != OBJECT_TYPE_ONENOTE_PACKAGING ==> r == Err::<
                    Packaging,
                    ErrorKind,
                >(ErrorKind::MalformedFssHttpBData("unexpected stream object type")))
                &&& ({
                    let prefix_ok = spec_guid_at(s, i + 16) == spec_guid_at(s, i + 32)
                        && le32_at(s, i + 64) == 0 && rem >= 72 && le32_at(s, i + 68) & 3 == 0
                        && spec_header32_at(s, i + 68).object_type
                        == OBJECT_TYPE_ONENOTE_PACKAGING;
                    let e = exguid_size(s[i + 72]);
                    &&& (prefix_ok && rem == 72 ==> r == Err::<Packaging, ErrorKind>(
                        ErrorKind::UnexpectedEof))
                    &&& (prefix_ok && rem >= 73 && e == -1 ==> r == Err::<Packaging, ErrorKind>(
                        ErrorKind::MalformedFssHttpBData("unexpected extended guid tag")))
                    &&& (prefix_ok && rem >= 73 && e >= 1 && rem < 72 + e ==> r == Err::<
                        Packaging,
                        ErrorKind,
                    >(ErrorKind::UnexpectedEof))
                    &&& (prefix_ok && rem >= 73 && e >= 1 && 72 + e <= rem < 88 + e ==> r
                        == Err::<Packaging, ErrorKind>(ErrorKind::UnexpectedEof))
                })
            }),
    {
        let file_type = match Guid::parse(reader) {
            Ok(g) => g,
            Err(e) => { return Err(e); },
        };
        let file = match Guid::parse(reader) {
            Ok(g) => g,
            Err(e) => { return Err(e); },
        };
        let legacy_file_version = match Guid::parse(reader) {
            Ok(g) => g,
            Err(e) => { return Err(e); },
        };
        let file_format = match Guid::parse(reader) {
            Ok(g) => g,
            Err(e) => { return Err(e); },
        };

        if file != legacy_file_version {
            return Err(ErrorKind::MalformedOneStoreData("not a legacy OneStore file"));
        }

        let padding = match reader.get_u32() {
            Ok(v) => v,
            Err(e) => { return Err(e); },
        };
        if padding != 0 {
            return Err(ErrorKind::MalformedFssHttpBData("invalid padding data"));
        }

        match ObjectHeader::try_parse_32(reader, OBJECT_TYPE_ONENOTE_PACKAGING) {
            Ok(_) => {},
            Err(e) => { return Err(e); },
        }

        let storage_index = match ExGuid::parse(reader) {
            Ok(v) => v,
            Err(e) => { return Err(e); },
        };
        let cell_schema = match Guid::parse(reader) {
            Ok(g) => g,
            Err(e) => { return Err(e); },
        };

        let data_element_package = match DataElementPackage::parse(reader) {
            Ok(v) => v,
            Err(e) => { return Err(e); },
        };

        match ObjectHeader::try_parse_end_16(reader, OBJECT_TYPE_ONENOTE_PACKAGING) {
            Ok(_) => {},
            Err(e) => { return Err(e); },
        }

        Ok(Packaging {
            file_type,
            file,
            legacy_file_version,
            file_format,
            storage_index,
            cell_schema,
            data_element_package,
        })
    }
}

} // verus!
