use vstd::prelude::*;
use vstd::slice::slice_index_get;
use crate::errors::ErrorKind;
use crate::prop_set::{prop_key, PropertySet, PropertyValue};

verus! {

/// Which of the three parallel identifier arrays a counting pass is for.
#[derive(Debug, Clone, Copy, PartialEq, Eq, Structural)]
pub enum RefKind {
    Object,
    Space,
    Context,
}

/// How many identifiers of kind `kind` the value `v` consumes from the
/// enclosing object's parallel array.  Single references consume one,
/// arrays consume their announced count, and nested property sets and
/// nested set arrays consume whatever their own values consume.
pub open spec fn spec_ref_count_value(kind: RefKind, v: PropertyValue) -> int
    decreases v,
{
    match v {
        PropertyValue::ObjectId => if kind is Object { 1 } else { 0 },
        PropertyValue::ObjectIds(c) => if kind is Object { c as int } else { 0 },
        PropertyValue::ObjectSpaceId => if kind is Space { 1 } else { 0 },
        PropertyValue::ObjectSpaceIds(c) => if kind is Space { c as int } else { 0 },
        PropertyValue::ContextId => if kind is Context { 1 } else { 0 },
        PropertyValue::ContextIds(c) => if kind is Context { c as int } else { 0 },
        PropertyValue::PropertySet(ps) => spec_ref_count_list(kind, ps.values@),
        PropertyValue::PropertyValues(_, sets) => spec_ref_count_sets(kind, sets@),
        _ => 0,
    }
}

/// The identifiers consumed by a sequence of nested property sets.
pub open spec fn spec_ref_count_sets(kind: RefKind, sets: Seq<PropertySet>) -> int
    decreases sets,
{
    if sets.len() == 0 {
        0
    } else {
        spec_ref_count_sets(kind, sets.drop_last()) + spec_ref_count_list(
            kind, sets.last().values@)
    }
}

/// The identifiers consumed by a list of (key, value) pairs in order.
pub open spec fn spec_ref_count_list(kind: RefKind, vals: Seq<(u32, PropertyValue)>) -> int
    decreases vals,
{
    if vals.len() == 0 {
        0
    } else {
        spec_ref_count_list(kind, vals.drop_last()) + spec_ref_count_value(kind, vals.last().1)
    }
}

pub proof fn lemma_ref_count_value_nonneg(kind: RefKind, v: PropertyValue)
    ensures
        spec_ref_count_value(kind, v) >= 0,
    decreases v,
{
    match v {
        PropertyValue::PropertySet(ps) => lemma_ref_count_list_nonneg(kind, ps.values@),
        PropertyValue::PropertyValues(_, sets) => lemma_ref_count_sets_nonneg(kind, sets@),
        _ => {},
    }
}

pub proof fn lemma_ref_count_sets_nonneg(kind: RefKind, sets: Seq<PropertySet>)
    ensures
        spec_ref_count_sets(kind, sets) >= 0,
    decreases sets,
{
    if sets.len() > 0 {
        lemma_ref_count_sets_nonneg(kind, sets.drop_last());
        lemma_ref_count_list_nonneg(kind, sets.last().values@);
    }
}

pub proof fn lemma_ref_count_list_nonneg(kind: RefKind, vals: Seq<(u32, PropertyValue)>)
    ensures
        spec_ref_count_list(kind, vals) >= 0,
    decreases vals,
{
    if vals.len() > 0 {
        lemma_ref_count_list_nonneg(kind, vals.drop_last());
        lemma_ref_count_value_nonneg(kind, vals.last().1);
    }
}

/// Counting distributes over concatenation: splitting a property list
/// anywhere and summing the counts of the two halves gives the same
/// total as counting the whole list.
pub proof fn lemma_ref_count_list_concat(
    kind: RefKind,
    a: Seq<(u32, PropertyValue)>,
    b: Seq<(u32, PropertyValue)>,
)
    ensures
        spec_ref_count_list(kind, a + b) == spec_ref_count_list(kind, a) + spec_ref_count_list(
            kind, b),
    decreases b.len(),
{
    if b.len() == 0 {
        assert(a + b =~= a);
    } else {
        assert((a + b).drop_last() =~= a + b.drop_last());
        assert((a + b).last() == b.last());
        lemma_ref_count_list_concat(kind, a, b.drop_last());
    }
}

/// The same, said of one list cut at position `n`.
pub proof fn lemma_ref_count_list_split(kind: RefKind, vals: Seq<(u32, PropertyValue)>, n: int)
    requires
        0 <= n <= vals.len(),
    ensures
        spec_ref_count_list(kind, vals) == spec_ref_count_list(kind, vals.take(n))
            + spec_ref_count_list(kind, vals.skip(n)),
{
    assert(vals.take(n) + vals.skip(n) =~= vals);
    lemma_ref_count_list_concat(kind, vals.take(n), vals.skip(n));
}

/// A prefix of a list never consumes more identifiers than the list.
pub proof fn lemma_ref_count_list_prefix(kind: RefKind, vals: Seq<(u32, PropertyValue)>, n: int)
    requires
        0 <= n <= vals.len(),
    ensures
        spec_ref_count_list(kind, vals.take(n)) <= spec_ref_count_list(kind, vals),
    decreases vals.len(),
{
    if n == vals.len() {
        assert(vals.take(n) =~= vals);
    } else {
        lemma_ref_count_value_nonneg(kind, vals.last().1);
        assert(vals.drop_last().take(n) =~= vals.take(n));
        lemma_ref_count_list_prefix(kind, vals.drop_last(), n);
    }
}

pub proof fn lemma_ref_count_sets_prefix(kind: RefKind, sets: Seq<PropertySet>, n: int)
    requires
        0 <= n <= sets.len(),
    ensures
        spec_ref_count_sets(kind, sets.take(n)) <= spec_ref_count_sets(kind, sets),
    decreases sets.len(),
{
    if n == sets.len() {
        assert(sets.take(n) =~= sets);
    } else {
        lemma_ref_count_list_nonneg(kind, sets.last().values@);
        assert(sets.drop_last().take(n) =~= sets.take(n));
        lemma_ref_count_sets_prefix(kind, sets.drop_last(), n);
    }
}

/// Count the identifiers of kind `kind` consumed by one value.
#[verifier::loop_isolation(false)]
pub fn ref_count_value(kind: RefKind, v: &PropertyValue) -> (r: Result<usize, ErrorKind>)
    ensures
        match r {
            Ok(n) => n == spec_ref_count_value(kind, *v),
            Err(e) => {
                &&& spec_ref_count_value(kind, *v) > usize::MAX
                &&& e == ErrorKind::MalformedOneStoreData("reference count overflow")
            },
        },
    decreases *v,
{
    match v {
        PropertyValue::ObjectId => Ok(if let RefKind::Object = kind { 1 } else { 0 }),
        PropertyValue::ObjectIds(c) => {
            if let RefKind::Object = kind {
                if (*c as u64) > (usize::MAX as u64) {
                    Err(ErrorKind::MalformedOneStoreData("reference count overflow"))
                } else {
                    Ok(*c as usize)
                }
            } else {
                Ok(0)
            }
        },
        PropertyValue::ObjectSpaceId => Ok(if let RefKind::Space = kind { 1 } else { 0 }),
        PropertyValue::ObjectSpaceIds(c) => {
            if let RefKind::Space = kind {
                if (*c as u64) > (usize::MAX as u64) {
                    Err(ErrorKind::MalformedOneStoreData("reference count overflow"))
                } else {
                    Ok(*c as usize)
                }
            } else {
                Ok(0)
            }
        },
        PropertyValue::ContextId => Ok(if let RefKind::Context = kind { 1 } else { 0 }),
        PropertyValue::ContextIds(c) => {
            if let RefKind::Context = kind {
                if (*c as u64) > (usize::MAX as u64) {
                    Err(ErrorKind::MalformedOneStoreData("reference count overflow"))
                } else {
                    Ok(*c as usize)
                }
            } else {
                Ok(0)
            }
        },
        PropertyValue::PropertySet(ps) => ref_count_set(kind, ps),
        PropertyValue::PropertyValues(_, sets) => {
            let mut acc: usize = 0;
            let mut k: usize = 0;
            proof {
                assert(sets@.take(0) =~= Seq::<PropertySet>::empty());
            }
            while k < sets.len()
                invariant
                    k <= sets@.len(),
                    acc == spec_ref_count_sets(kind, sets@.take(k as int)),
                decreases sets@.len() - k,
            {
                let cnt = match ref_count_set(kind, &sets[k]) {
                    Ok(n) => n,
                    Err(e) => {
                        proof {
                            lemma_ref_count_sets_prefix(kind, sets@, k + 1);
                            lemma_ref_count_sets_nonneg(kind, sets@.take(k as int));
                            assert(sets@.take(k as int + 1).drop_last() =~= sets@.take(k as int));
                            assert(sets@.take(k as int + 1).last() == sets@[k as int]);
                        }
                        return Err(e);
                    },
                };
                proof {
                    lemma_ref_count_sets_prefix(kind, sets@, k + 1);
                    assert(sets@.take(k as int + 1).drop_last() =~= sets@.take(k as int));
                    assert(sets@.take(k as int + 1).last() == sets@[k as int]);
                }
                if cnt > usize::MAX - acc {
                    return Err(ErrorKind::MalformedOneStoreData("reference count overflow"));
                }
                acc = acc + cnt;
                k = k + 1;
            }
            proof {
                assert(sets@.take(sets@.len() as int) =~= sets@);
            }
            Ok(acc)
        },
        _ => Ok(0),
    }
}

/// Count the identifiers of kind `kind` consumed by a whole property set.
pub fn ref_count_set(kind: RefKind, ps: &PropertySet) -> (r: Result<usize, ErrorKind>)
    ensures
        match r {
            Ok(n) => n == spec_ref_count_list(kind, ps.values@),
            Err(e) => {
                &&& spec_ref_count_list(kind, ps.values@) > usize::MAX
                &&& e == ErrorKind::MalformedOneStoreData("reference count overflow")
            },
        },
    decreases *ps,
{
    ref_count_slice(kind, ps.values.as_slice())
}

/// Count the identifiers of kind `kind` consumed by the values of
/// `vals`, in order.
pub fn ref_count_slice(kind: RefKind, vals: &[(u32, PropertyValue)]) -> (r: Result<
    usize,
    ErrorKind,
>)
    ensures
        match r {
            Ok(n) => n == spec_ref_count_list(kind, vals@),
            Err(e) => {
                &&& spec_ref_count_list(kind, vals@) > usize::MAX
                &&& e == ErrorKind::MalformedOneStoreData("reference count overflow")
            },
        },
    decreases vals@,
{
    let mut acc: usize = 0;
    let mut k: usize = 0;
    proof {
        assert(vals@.take(0) =~= Seq::<(u32, PropertyValue)>::empty());
    }
    while k < vals.len()
        invariant
            k <= vals@.len(),
            acc == spec_ref_count_list(kind, vals@.take(k as int)),
        decreases vals@.len() - k,
    {
        let entry = slice_index_get(vals, k);
        let cnt = match ref_count_value(kind, &entry.1) {
            Ok(n) => n,
            Err(e) => {
                proof {
                    lemma_ref_count_list_prefix(kind, vals@, k + 1);
                    lemma_ref_count_list_nonneg(kind, vals@.take(k as int));
                    assert(vals@.take(k as int + 1).drop_last() =~= vals@.take(k as int));
                    assert(vals@.take(k as int + 1).last() == vals@[k as int]);
                }
                return Err(e);
            },
        };
        proof {
            lemma_ref_count_list_prefix(kind, vals@, k + 1);
            assert(vals@.take(k as int + 1).drop_last() =~= vals@.take(k as int));
            assert(vals@.take(k as int + 1).last() == vals@[k as int]);
        }
        if cnt > usize::MAX - acc {
            return Err(ErrorKind::MalformedOneStoreData("reference count overflow"));
        }
        acc = acc + cnt;
        k = k + 1;
    }
    proof {
        assert(vals@.take(vals@.len() as int) =~= vals@);
    }
    Ok(acc)
}

/// The position of the first property stored under the key of
/// `prop_type`, scanning from position `k`; `-1` when there is none.
pub open spec fn spec_first_index_from(
    vals: Seq<(u32, PropertyValue)>,
    prop_type: u32,
    k: int,
) -> int
    decreases vals.len() - k,
{
    if k < 0 || k >= vals.len() {
        -1
    } else if vals[k].0 == prop_key(prop_type) {
        k
    } else {
        spec_first_index_from(vals, prop_type, k + 1)
    }
}

/// The position of the first property stored under the key of
/// `prop_type`; `-1` when the set has none.
pub open spec fn spec_first_index(vals: Seq<(u32, PropertyValue)>, prop_type: u32) -> int {
    spec_first_index_from(vals, prop_type, 0)
}

/// A found first index is in range and names a matching entry.
pub proof fn lemma_first_index_in_range(vals: Seq<(u32, PropertyValue)>, prop_type: u32, k: int)
    requires
        0 <= k <= vals.len(),
    ensures
        ({
            let r = spec_first_index_from(vals, prop_type, k);
            r == -1 || (k <= r < vals.len() && vals[r].0 == prop_key(prop_type))
        }),
    decreases vals.len() - k,
{
    if k < vals.len() && vals[k].0 != prop_key(prop_type) {
        lemma_first_index_in_range(vals, prop_type, k + 1);
    }
}

/// A matching entry anywhere at or after `k` makes the scan find one.
pub proof fn lemma_first_index_finds(
    vals: Seq<(u32, PropertyValue)>,
    prop_type: u32,
    k: int,
    j: int,
)
    requires
        0 <= k <= j < vals.len(),
        vals[j].0 == prop_key(prop_type),
    ensures
        spec_first_index_from(vals, prop_type, k) >= 0,
    decreases vals.len() - k,
{
    if vals[k].0 != prop_key(prop_type) {
        lemma_first_index_finds(vals, prop_type, k + 1, j);
    }
}

/// A lookup that yields a value names an entry of the list, so the
/// first-index scan finds one too.
pub proof fn lemma_get_some_finds_first(vals: Seq<(u32, PropertyValue)>, prop_type: u32)
    requires
        crate::prop_set::spec_get(vals, prop_type) is Some,
    ensures
        spec_first_index(vals, prop_type) >= 0,
    decreases vals.len(),
{
    if vals.len() > 0 {
        if vals.last().0 == prop_key(prop_type) {
            lemma_first_index_finds(vals, prop_type, 0, vals.len() - 1);
        } else {
            lemma_get_some_finds_first(vals.drop_last(), prop_type);
            lemma_first_index_in_range(vals.drop_last(), prop_type, 0);
            let r = spec_first_index(vals.drop_last(), prop_type);
            assert(vals.drop_last()[r] == vals[r]);
            lemma_first_index_finds(vals, prop_type, 0, r);
        }
    }
}

/// Find the first property stored under the key of `prop_type`.  The
/// properties standing before it are the predecessors whose reference
/// counts give the property's offset into the parallel arrays.
pub fn find_property_index(ps: &PropertySet, prop_type: u32) -> (r: Option<usize>)
    ensures
        match r {
            Some(k) => {
                &&& k == spec_first_index(ps.values@, prop_type)
                &&& k < ps.values@.len()
                &&& ps.values@[k as int].0 == prop_key(prop_type)
            },
            None => spec_first_index(ps.values@, prop_type) == -1,
        },
{
    let mut k: usize = 0;
    let n = ps.values.len();
    while k < n
        invariant
            n == ps.values@.len(),
            k <= ps.values@.len(),
            spec_first_index(ps.values@, prop_type) == spec_first_index_from(
                ps.values@, prop_type, k as int),
        decreases ps.values@.len() - k,
    {
        if ps.values[k].0 == prop_type & 0x7fffffff {
            return Some(k);
        }
        k = k + 1;
    }
    None
}

} // verus!
