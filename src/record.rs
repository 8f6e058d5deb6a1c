use vstd::prelude::*;
use crate::error::UpdateError;
use crate::text::{trim, trimmed};

verus! {

/// The time to live, in seconds, that every upsert writes.
pub const RECORD_TTL: u64 = 300;

/// The type of a DNS record set.
#[derive(Clone, Copy, Debug, PartialEq, Eq, Structural)]
pub enum RecordType {
    A,
    Aaaa,
    Caa,
    Cname,
    Mx,
    Ns,
    Ptr,
    Soa,
    Srv,
    Txt,
    Other,
}

/// A record set as the DNS provider lists it: keyed by name and type, with
/// its resource values in the provider's order.
#[derive(Clone, Debug)]
pub struct RecordSet {
    pub name: String,
    pub record_type: RecordType,
    pub ttl: Option<u64>,
    pub values: Vec<String>,
}

/// One create-or-replace change of a record set, submitted as a whole.
#[derive(Clone, Debug)]
pub struct UpsertChange {
    pub record_set: RecordSet,
}

/// The index of the first record set at or after `start` whose name and type
/// are exactly `name` and `t`.
pub open spec fn find_from(sets: Seq<RecordSet>, name: Seq<char>, t: RecordType, start: int) -> Option<int>
    decreases sets.len() - start,
{
    if start < 0 || start >= sets.len() {
        None
    } else if sets[start].name@ == name && sets[start].record_type == t {
        Some(start)
    } else {
        find_from(sets, name, t, start + 1)
    }
}

/// The index of the first record set named `name` with type `t`.
pub open spec fn find_set(sets: Seq<RecordSet>, name: Seq<char>, t: RecordType) -> Option<int> {
    find_from(sets, name, t, 0)
}

/// The current value of the "A" record `name`: the first value of the first
/// matching record set, trimmed.
pub open spec fn current_value(sets: Seq<RecordSet>, name: Seq<char>) -> Result<Seq<char>, UpdateError> {
    match find_set(sets, name, RecordType::A) {
        None => Err(UpdateError::RecordNotFound),
        Some(i) => if sets[i].values@.len() == 0 {
            Err(UpdateError::ValueNotFound)
        } else {
            Ok(trimmed(sets[i].values@[0]@))
        },
    }
}

/// A string result seen through the string's view.
pub open spec fn result_view(r: Result<String, UpdateError>) -> Result<Seq<char>, UpdateError> {
    match r {
        Ok(s) => Ok(s@),
        Err(e) => Err(e),
    }
}

/// The record set that an upsert of `value` at `name` writes.
pub open spec fn is_upsert_of(c: UpsertChange, name: Seq<char>, value: Seq<char>) -> bool {
    &&& c.record_set.name@ == name
    &&& c.record_set.record_type == RecordType::A
    &&& c.record_set.ttl == Some(RECORD_TTL)
    &&& c.record_set.values@.len() == 1
    &&& c.record_set.values@[0]@ == value
}

/// The zone's record sets after `c` is applied: the first set with the same
/// name and type is replaced, or, where there is none, the new set is added.
pub open spec fn upserted(sets: Seq<RecordSet>, c: UpsertChange) -> Seq<RecordSet> {
    match find_set(sets, c.record_set.name@, c.record_set.record_type) {
        Some(i) => sets.update(i, c.record_set),
        None => sets.push(c.record_set),
    }
}

/// Finds the current value of the "A" record `full_record_name` among the
/// record sets that the provider listed.
pub fn get_current_ip(record_sets: &Vec<RecordSet>, full_record_name: &String) -> (r: Result<String, UpdateError>)
    ensures
        result_view(r) == current_value(record_sets@, full_record_name@),
{
    let i = find_record_set(record_sets, full_record_name, RecordType::A);
    match i {
        None => Err(UpdateError::RecordNotFound),
        Some(i) => {
            let set = &record_sets[i];
            if set.values.len() == 0 {
                Err(UpdateError::ValueNotFound)
            } else {
                Ok(trim(set.values[0].as_str()).to_string())
            }
        },
    }
}

/// The index of the first record set named `name` with type `t`.
pub fn find_record_set(sets: &Vec<RecordSet>, name: &String, t: RecordType) -> (r: Option<usize>)
    ensures
        match r {
            Some(i) => i < sets@.len() && find_set(sets@, name@, t) == Some(i as int),
            None => find_set(sets@, name@, t) is None,
        },
{
    let mut i: usize = 0;
    while i < sets.len()
        invariant
            i <= sets@.len(),
            find_set(sets@, name@, t) == find_from(sets@, name@, t, i as int),
        decreases sets@.len() - i,
    {
        if sets[i].name == *name && sets[i].record_type == t {
            return Some(i);
        }
        i = i + 1;
    }
    None
}

/// The change that sets the "A" record `full_record_name` to `target_ip`:
/// always an upsert, with one value and a fixed time to live.
pub fn update_ip(full_record_name: &String, target_ip: &str) -> (c: UpsertChange)
    ensures
        is_upsert_of(c, full_record_name@, target_ip@),
{
    let mut values: Vec<String> = Vec::new();
    values.push(target_ip.to_string());
    UpsertChange {
        record_set: RecordSet {
            name: full_record_name.clone(),
            record_type: RecordType::A,
            ttl: Some(RECORD_TTL),
            values,
        },
    }
}

/// Applies `change` to the record sets of a zone, as the provider does.
pub fn apply_upsert(record_sets: &mut Vec<RecordSet>, change: UpsertChange)
    ensures
        final(record_sets)@ == upserted(old(record_sets)@, change),
{
    let found = find_record_set(record_sets, &change.record_set.name, change.record_set.record_type);
    match found {
        Some(i) => {
            record_sets.set(i, change.record_set);
        },
        None => {
            record_sets.push(change.record_set);
        },
    }
}

proof fn lemma_find_from_range(sets: Seq<RecordSet>, name: Seq<char>, t: RecordType, start: int)
    requires
        0 <= start,
    ensures
        match find_from(sets, name, t, start) {
            Some(i) => start <= i < sets.len() && sets[i].name@ == name && sets[i].record_type == t,
            None => true,
        },
    decreases sets.len() - start,
{
    if start < sets.len() && !(sets[start].name@ == name && sets[start].record_type == t) {
        lemma_find_from_range(sets, name, t, start + 1);
    }
}

proof fn lemma_find_from_update(
    sets: Seq<RecordSet>,
    name: Seq<char>,
    t: RecordType,
    start: int,
    i: int,
    rs: RecordSet,
)
    requires
        0 <= start <= i < sets.len(),
        find_from(sets, name, t, start) == Some(i),
        rs.name@ == name,
        rs.record_type == t,
    ensures
        find_from(sets.update(i, rs), name, t, start) == Some(i),
    decreases i - start,
{
    if start < i {
        lemma_find_from_update(sets, name, t, start + 1, i, rs);
    }
}

proof fn lemma_find_from_push(sets: Seq<RecordSet>, name: Seq<char>, t: RecordType, start: int, rs: RecordSet)
    requires
        0 <= start <= sets.len(),
        find_from(sets, name, t, start) is None,
        rs.name@ == name,
        rs.record_type == t,
    ensures
        find_from(sets.push(rs), name, t, start) == Some(sets.len() as int),
    decreases sets.len() - start,
{
    if start < sets.len() {
        lemma_find_from_push(sets, name, t, start + 1, rs);
    }
}

/// Reading the "A" record `name` right after an upsert of `value` at `name`
/// returns exactly `value`, whatever the zone held before, provided that
/// `value` is a public address as the resolver hands it out (trimmed).
pub proof fn lemma_upsert_then_read(sets: Seq<RecordSet>, c: UpsertChange, name: Seq<char>, value: Seq<char>)
    requires
        is_upsert_of(c, name, value),
        trimmed(value) == value,
    ensures
        current_value(upserted(sets, c), name) == Ok::<Seq<char>, UpdateError>(value),
{
    lemma_find_from_range(sets, name, RecordType::A, 0);
    match find_set(sets, name, RecordType::A) {
        Some(i) => {
            lemma_find_from_update(sets, name, RecordType::A, 0, i, c.record_set);
        },
        None => {
            lemma_find_from_push(sets, name, RecordType::A, 0, c.record_set);
        },
    }
}

} // verus!
