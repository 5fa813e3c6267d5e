//! A verified parser core for the legacy OneNote on-disk file format:
//! the packaging layer of self-describing stream objects and data
//! elements, and the object/property layer built on top of it, down to
//! typed records for pages, sections, embedded files, note tags and
//! rich text.
//!
//! Parsing is read-only and one-shot: a byte buffer goes in through a
//! cursor, data elements aggregate into object spaces keyed by extended
//! GUID, and interpreters derive owned records from the objects.  The
//! first structural error aborts the parse.

pub mod errors;
pub mod reader;
pub mod guid;
pub mod compact_u64;
pub mod exguid;
pub mod compact_id;
pub mod stream_object;
pub mod prop_set;
pub mod object;
pub mod object_space;
pub mod property_ids;
pub mod references;
pub mod object_reference;
pub mod object_space_reference;
pub mod simple;
pub mod time;
pub mod layout_alignment;
pub mod color_ref;
pub mod charset;
pub mod paragraph_alignment;
pub mod note_tag;
pub mod property_set_ids;
pub mod section_node;
pub mod toc_container;
pub mod note_tag_container;
pub mod embedded_file_node;
pub mod page_node;
pub mod data_element;
pub mod packaging;
pub mod rich_text_node;
pub mod paragraph_style_object;
pub mod rich_text;
