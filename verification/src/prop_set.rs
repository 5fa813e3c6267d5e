use vstd::prelude::*;
use crate::errors::ErrorKind;
use crate::reader::{le16_at, le32_at, le64_at, Reader};

verus! {

/// The on-wire shape of a property: the five bits above the 26-bit
/// identifier part of the 32-bit property ID.
pub open spec fn prop_shape(raw: u32) -> u32 {
    (raw >> 26) & 0x1f
}

/// The 32-bit property ID with its boolean-value bit (the highest bit)
/// cleared: the key under which a property is stored and looked up.
pub open spec fn prop_key(raw: u32) -> u32 {
    raw & 0x7fffffff
}

/// A property value, selected by the shape bits of its property ID.
///
/// Reference-shaped values (`ObjectId`, `ObjectIds`, and their
/// object-space and context counterparts) do not carry their targets;
/// they only announce how many entries they consume from the enclosing
/// object's parallel identifier arrays, in property order.
#[derive(Debug, PartialEq)]
pub enum PropertyValue {
    NoData,
    /// The value rides in the highest bit of the property ID itself;
    /// a boolean property has no body bytes.
    Bool(bool),
    U8(u8),
    U16(u16),
    U32(u32),
    U64(u64),
    /// Four bytes of length followed by that many bytes of data.
    Vec(Vec<u8>),
    /// One object reference, consumed from the sibling object-ID array.
    ObjectId,
    /// `count` object references from the sibling object-ID array.
    ObjectIds(u32),
    /// One object-space reference from the sibling object-space-ID array.
    ObjectSpaceId,
    /// `count` object-space references from the sibling array.
    ObjectSpaceIds(u32),
    /// One context reference from the sibling context-ID array.
    ContextId,
    /// `count` context references from the sibling array.
    ContextIds(u32),
    /// An array of nested property sets, prefixed by the property ID the
    /// nested sets are classified under and a 32-bit count.
    PropertyValues(u32, Vec<PropertySet>),
    /// A single nested property set.
    PropertySet(PropertySet),
}

/// An ordered sequence of (property key, value) pairs.  Order is
/// significant: it defines the positional correspondence between
/// reference-shaped values and the sibling identifier arrays.
#[derive(Debug, PartialEq)]
pub struct PropertySet {
    pub values: Vec<(u32, PropertyValue)>,
}

/// Whether value `v` belongs to the shape announced by the raw property
/// ID `raw`.  For booleans this pins the value itself, which rides in the
/// highest bit of the ID.
pub open spec fn shape_class(raw: u32, v: PropertyValue) -> bool {
    let sh = prop_shape(raw);
    if sh == 0 || sh == 1 {
        v == PropertyValue::NoData
    } else if sh == 2 {
        v == PropertyValue::Bool(raw >> 31 == 1)
    } else if sh == 3 {
        v matches PropertyValue::U8(_)
    } else if sh == 4 {
        v matches PropertyValue::U16(_)
    } else if sh == 5 {
        v matches PropertyValue::U32(_)
    } else if sh == 6 {
        v matches PropertyValue::U64(_)
    } else if sh == 7 {
        v matches PropertyValue::Vec(_)
    } else if sh == 8 {
        v == PropertyValue::ObjectId
    } else if sh == 9 {
        v matches PropertyValue::ObjectIds(_)
    } else if sh == 0xa {
        v == PropertyValue::ObjectSpaceId
    } else if sh == 0xb {
        v matches PropertyValue::ObjectSpaceIds(_)
    } else if sh == 0xc {
        v == PropertyValue::ContextId
    } else if sh == 0xd {
        v matches PropertyValue::ContextIds(_)
    } else if sh == 0x10 {
        v matches PropertyValue::PropertyValues(_, _)
    } else if sh == 0x11 {
        v matches PropertyValue::PropertySet(_)
    } else {
        false
    }
}

/// The value stored under property key `prop_type` in `vals`, the last
/// write winning if a key occurs twice (duplicates are not expected).
pub open spec fn spec_get(vals: Seq<(u32, PropertyValue)>, prop_type: u32) -> Option<
    PropertyValue,
>
    decreases vals.len(),
{
    if vals.len() == 0 {
        None
    } else if vals.last().0 == prop_key(prop_type) {
        Some(vals.last().1)
    } else {
        spec_get(vals.drop_last(), prop_type)
    }
}

impl PropertyValue {
    /// Parse one property body.  The shape is the five bits above the
    /// 26-bit identifier part of `raw`; boolean values ride in the
    /// highest bit of `raw` and consume no body bytes.
    pub fn parse(raw: u32, reader: &mut Reader) -> (r: Result<PropertyValue, ErrorKind>)
        requires
            old(reader).wf(),
        ensures
            final(reader).wf(),
            final(reader).bytes() == old(reader).bytes(),
            final(reader).spec_pos() >= old(reader).spec_pos(),
            ({
                let s = old(reader).bytes();
                let i = old(reader).spec_pos();
                let rem = old(reader).spec_remaining();
                let sh = prop_shape(raw);
                &&& (sh == 0 || sh == 1 ==> r == Ok::<PropertyValue, ErrorKind>(
                    PropertyValue::NoData) && final(reader).spec_pos() == i)
                &&& (sh == 2 ==> r == Ok::<PropertyValue, ErrorKind>(
                    PropertyValue::Bool(raw >> 31 == 1)) && final(reader).spec_pos() == i)
                &&& (sh == 3 ==> if rem >= 1 {
                    r == Ok::<PropertyValue, ErrorKind>(PropertyValue::U8(s[i]))
                        && final(reader).spec_pos() == i + 1
                } else {
                    r == Err::<PropertyValue, ErrorKind>(ErrorKind::UnexpectedEof)
                })
                &&& (sh == 4 ==> if rem >= 2 {
                    r == Ok::<PropertyValue, ErrorKind>(PropertyValue::U16(le16_at(s, i)))
                        && final(reader).spec_pos() == i + 2
                } else {
                    r == Err::<PropertyValue, ErrorKind>(ErrorKind::UnexpectedEof)
                })
                &&& (sh == 5 ==> if rem >= 4 {
                    r == Ok::<PropertyValue, ErrorKind>(PropertyValue::U32(le32_at(s, i)))
                        && final(reader).spec_pos() == i + 4
                } else {
                    r == Err::<PropertyValue, ErrorKind>(ErrorKind::UnexpectedEof)
                })
                &&& (sh == 6 ==> if rem >= 8 {
                    r == Ok::<PropertyValue, ErrorKind>(PropertyValue::U64(le64_at(s, i)))
                        && final(reader).spec_pos() == i + 8
                } else {
                    r == Err::<PropertyValue, ErrorKind>(ErrorKind::UnexpectedEof)
                })
                &&& (sh == 7 ==> if rem >= 4 && rem >= 4 + le32_at(s, i) {
                    &&& r matches Ok(v) && v matches PropertyValue::Vec(data)
                        && data@ == s.subrange(i + 4, i + 4 + le32_at(s, i))
                    &&& final(reader).spec_pos() == i + 4 + le32_at(s, i)
                } else {
                    r == Err::<PropertyValue, ErrorKind>(ErrorKind::UnexpectedEof)
                })
                &&& (sh == 8 ==> r == Ok::<PropertyValue, ErrorKind>(PropertyValue::ObjectId)
                    && final(reader).spec_pos() == i)
                &&& (sh == 9 ==> if rem >= 4 {
                    r == Ok::<PropertyValue, ErrorKind>(PropertyValue::ObjectIds(le32_at(s, i)))
                        && final(reader).spec_pos() == i + 4
                } else {
                    r == Err::<PropertyValue, ErrorKind>(ErrorKind::UnexpectedEof)
                })
                &&& (sh == 0xa ==> r == Ok::<PropertyValue, ErrorKind>(
                    PropertyValue::ObjectSpaceId) && final(reader).spec_pos() == i)
                &&& (sh == 0xb ==> if rem >= 4 {
                    r == Ok::<PropertyValue, ErrorKind>(
                        PropertyValue::ObjectSpaceIds(le32_at(s, i)))
                        && final(reader).spec_pos() == i + 4
                } else {
                    r == Err::<PropertyValue, ErrorKind>(ErrorKind::UnexpectedEof)
                })
                &&& (sh == 0xc ==> r == Ok::<PropertyValue, ErrorKind>(PropertyValue::ContextId)
                    && final(reader).spec_pos() == i)
                &&& (sh == 0xd ==> if rem >= 4 {
                    r == Ok::<PropertyValue, ErrorKind>(PropertyValue::ContextIds(le32_at(s, i)))
                        && final(reader).spec_pos() == i + 4
                } else {
                    r == Err::<PropertyValue, ErrorKind>(ErrorKind::UnexpectedEof)
                })
                &&& (sh == 0x10 ==> match r {
                    Ok(v) => {
                        &&& rem >= 8
                        &&& v matches PropertyValue::PropertyValues(jcid, sets)
                            && jcid == le32_at(s, i)
                            && sets@.len() == le32_at(s, i + 4)
                            && (le32_at(s, i + 4) == 0 ==> final(reader).spec_pos() == i + 8)
                        &&& final(reader).spec_pos() >= i + 8
                    },
                    Err(e) => !(rem >= 8 && le32_at(s, i + 4) == 0),
                })
                &&& (sh == 0x11 ==> match r {
                    Ok(v) => v matches PropertyValue::PropertySet(_),
                    Err(e) => true,
                })
                &&& (!(sh == 0 || sh == 1 || sh == 2 || sh == 3 || sh == 4 || sh == 5 || sh == 6
                    || sh == 7 || sh == 8 || sh == 9 || sh == 0xa || sh == 0xb || sh == 0xc
                    || sh == 0xd || sh == 0x10 || sh == 0x11) ==> r == Err::<
                    PropertyValue,
                    ErrorKind,
                >(ErrorKind::MalformedOneStoreData("unexpected property type")))
            }),
        decreases old(reader).spec_remaining(), 1int,
    {
        let sh = (raw >> 26) & 0x1f;
        if sh == 0 || sh == 1 {
            Ok(PropertyValue::NoData)
        } else if sh == 2 {
            Ok(PropertyValue::Bool(raw >> 31 == 1))
        } else if sh == 3 {
            match reader.get_u8() {
                Ok(v) => Ok(PropertyValue::U8(v)),
                Err(e) => Err(e),
            }
        } else if sh == 4 {
            match reader.get_u16() {
                Ok(v) => Ok(PropertyValue::U16(v)),
                Err(e) => Err(e),
            }
        } else if sh == 5 {
            match reader.get_u32() {
                Ok(v) => Ok(PropertyValue::U32(v)),
                Err(e) => Err(e),
            }
        } else if sh == 6 {
            match reader.get_u64() {
                Ok(v) => Ok(PropertyValue::U64(v)),
                Err(e) => Err(e),
            }
        } else if sh == 7 {
            let len = match reader.get_u32() {
                Ok(v) => v,
                Err(e) => { return Err(e); },
            };
            if len as usize > reader.remaining() {
                return Err(ErrorKind::UnexpectedEof);
            }
            match reader.read(len as usize) {
                Ok(data) => Ok(PropertyValue::Vec(data)),
                Err(e) => Err(e),
            }
        } else if sh == 8 {
            Ok(PropertyValue::ObjectId)
        } else if sh == 9 {
            match reader.get_u32() {
                Ok(v) => Ok(PropertyValue::ObjectIds(v)),
                Err(e) => Err(e),
            }
        } else if sh == 0xa {
            Ok(PropertyValue::ObjectSpaceId)
        } else if sh == 0xb {
            match reader.get_u32() {
                Ok(v) => Ok(PropertyValue::ObjectSpaceIds(v)),
                Err(e) => Err(e),
            }
        } else if sh == 0xc {
            Ok(PropertyValue::ContextId)
        } else if sh == 0xd {
            match reader.get_u32() {
                Ok(v) => Ok(PropertyValue::ContextIds(v)),
                Err(e) => Err(e),
            }
        } else if sh == 0x10 {
            let jcid = match reader.get_u32() {
                Ok(v) => v,
                Err(e) => { return Err(e); },
            };
            let count = match reader.get_u32() {
                Ok(v) => v,
                Err(e) => { return Err(e); },
            };
            let mut sets: Vec<PropertySet> = Vec::new();
            let mut k: u32 = 0;
            while k < count
                invariant
                    reader.wf(),
                    reader.bytes() == old(reader).bytes(),
                    reader.spec_pos() >= old(reader).spec_pos() + 8,
                    old(reader).spec_remaining() >= 8,
                    prop_shape(raw) == 0x10,
                    count == le32_at(old(reader).bytes(), old(reader).spec_pos() + 4),
                    jcid == le32_at(old(reader).bytes(), old(reader).spec_pos()),
                    k <= count,
                    sets@.len() == k,
                    k == 0 ==> reader.spec_pos() == old(reader).spec_pos() + 8,
                decreases count - k,
            {
                let set = match PropertySet::parse(reader) {
                    Ok(v) => v,
                    Err(e) => { return Err(e); },
                };
                sets.push(set);
                k = k + 1;
            }
            Ok(PropertyValue::PropertyValues(jcid, sets))
        } else if sh == 0x11 {
            match PropertySet::parse(reader) {
                Ok(set) => Ok(PropertyValue::PropertySet(set)),
                Err(e) => Err(e),
            }
        } else {
            Err(ErrorKind::MalformedOneStoreData("unexpected property type"))
        }
    }
}

impl PropertySet {
    /// Parse a property set: a 16-bit property count, that many 32-bit
    /// property IDs, then the property bodies concatenated in ID order.
    ///
    /// A set whose count is zero parses to the empty value list without
    /// consuming any body bytes, and never fails once the count itself
    /// could be read.
    pub fn parse(reader: &mut Reader) -> (r: Result<PropertySet, ErrorKind>)
        requires
            old(reader).wf(),
        ensures
            final(reader).wf(),
            final(reader).bytes() == old(reader).bytes(),
            final(reader).spec_pos() >= old(reader).spec_pos(),
            match r {
                Ok(ps) => {
                    let s = old(reader).bytes();
                    let i = old(reader).spec_pos();
                    let count = le16_at(s, i) as int;
                    &&& old(reader).spec_remaining() >= 2
                    &&& ps.values@.len() == count
                    &&& final(reader).spec_pos() >= i + 2 + 4 * count
                    &&& (count == 0 ==> final(reader).spec_pos() == i + 2)
                    &&& forall|k: int| 0 <= k < count ==> {
                        let raw = le32_at(s, i + 2 + 4 * k);
                        &&& (#[trigger] ps.values@[k]).0 == prop_key(raw)
                        &&& shape_class(raw, ps.values@[k].1)
                    }
                },
                Err(e) => !(old(reader).spec_remaining() >= 2
                    && le16_at(old(reader).bytes(), old(reader).spec_pos()) == 0),
            },
        decreases old(reader).spec_remaining(), 0int,
    {
        let count = match reader.get_u16() {
            Ok(v) => v,
            Err(e) => { return Err(e); },
        };
        let ghost s = old(reader).bytes();
        let ghost i = old(reader).spec_pos();
        let mut ids: Vec<u32> = Vec::new();
        let mut k: usize = 0;
        while k < count as usize
            invariant
                s == old(reader).bytes(),
                i == old(reader).spec_pos(),
                old(reader).spec_remaining() >= 2,
                count == le16_at(s, i),
                reader.wf(),
                reader.bytes() == s,
                reader.spec_pos() == i + 2 + 4 * k,
                k <= count as usize,
                ids@.len() == k,
                forall|j: int| 0 <= j < k ==> ids@[j] == le32_at(s, i + 2 + 4 * j),
            decreases count as usize - k,
        {
            let raw = match reader.get_u32() {
                Ok(v) => v,
                Err(e) => { return Err(e); },
            };
            ids.push(raw);
            k = k + 1;
        }
        let mut values: Vec<(u32, PropertyValue)> = Vec::new();
        let mut n: usize = 0;
        while n < count as usize
            invariant
                s == old(reader).bytes(),
                i == old(reader).spec_pos(),
                old(reader).spec_remaining() >= 2,
                count == le16_at(s, i),
                reader.wf(),
                reader.bytes() == s,
                reader.spec_pos() >= i + 2 + 4 * (count as int),
                n <= count as usize,
                count as usize == ids@.len(),
                forall|j: int| 0 <= j < count as usize ==> ids@[j] == le32_at(s, i + 2 + 4 * j),
                values@.len() == n,
                n == 0 ==> reader.spec_pos() == i + 2 + 4 * (count as int),
                forall|j: int| 0 <= j < n ==> {
                    &&& (#[trigger] values@[j]).0 == prop_key(ids@[j])
                    &&& shape_class(ids@[j], values@[j].1)
                },
            decreases count as usize - n,
        {
            let raw = ids[n];
            let v = match PropertyValue::parse(raw, reader) {
                Ok(v) => v,
                Err(e) => { return Err(e); },
            };
            values.push((raw & 0x7fffffff, v));
            n = n + 1;
        }
        Ok(PropertySet { values })
    }

    /// Look up a property by its ID; the highest bit of the ID (the
    /// boolean-value bit) takes no part in the comparison.  The last
    /// write wins if a key occurs twice.
    pub fn get(&self, prop_type: u32) -> (r: Option<&PropertyValue>)
        ensures
            match r {
                Some(v) => spec_get(self.values@, prop_type) == Some(*v),
                None => spec_get(self.values@, prop_type) is None,
            },
    {
        let mut k: usize = self.values.len();
        proof {
            assert(self.values@.take(self.values@.len() as int) =~= self.values@);
        }
        while k > 0
            invariant
                k <= self.values@.len(),
                spec_get(self.values@, prop_type) == spec_get(
                    self.values@.take(k as int), prop_type),
            decreases k,
        {
            proof {
                assert(self.values@.take(k as int).drop_last() =~= self.values@.take(k - 1));
                assert(self.values@.take(k as int).last() == self.values@[k - 1]);
            }
            k = k - 1;
            if self.values[k].0 == prop_type & 0x7fffffff {
                return Some(&self.values[k].1);
            }
        }
        proof {
            assert(self.values@.take(0) =~= Seq::<(u32, PropertyValue)>::empty());
        }
        None
    }
}

} // verus!
