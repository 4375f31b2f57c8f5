//! The insertion-ordered map of a day's habit records.

use indexmap::IndexMap;
use vstd::prelude::*;

use crate::types::HabitRef;

verus! {

/// What a day's habit map holds: key and record of each entry, in insertion order.
pub uninterp spec fn habit_entries(m: IndexMap<u128, HabitRef>) -> Seq<(u128, HabitRef)>;

/// Whether some entry of `s` has the key `k`.
pub open spec fn has_key(s: Seq<(u128, HabitRef)>, k: u128) -> bool {
    exists|i: int| 0 <= i < s.len() && (#[trigger] s[i]).0 == k
}

/// Whether `i` is the position of the one entry of `s` with the key `k`.
pub open spec fn sole_index(s: Seq<(u128, HabitRef)>, k: u128, i: int) -> bool {
    &&& 0 <= i < s.len()
    &&& s[i].0 == k
    &&& forall|j: int| 0 <= j < s.len() && (#[trigger] s[j]).0 == k ==> j == i
}

/// Calls `IndexMap::new`, which makes a map without entries.
#[verifier::external_body]
pub(crate) fn empty_habits() -> (m: IndexMap<u128, HabitRef>)
    ensures
        habit_entries(m) == Seq::<(u128, HabitRef)>::empty(),
{
    IndexMap::new()
}

/// Calls `IndexMap::contains_key`, which says whether an entry with an equal key exists.
#[verifier::external_body]
pub(crate) fn habits_contains_key(m: &IndexMap<u128, HabitRef>, k: u128) -> (r: bool)
    ensures
        r == has_key(habit_entries(*m), k),
{
    m.contains_key(&k)
}

/// Calls `IndexMap::get`. Keys are unique in an `IndexMap`, so a hit is the
/// value of the one entry with that key.
#[verifier::external_body]
pub(crate) fn habits_get<'a>(m: &'a IndexMap<u128, HabitRef>, k: u128) -> (r: Option<&'a HabitRef>)
    ensures
        match r {
            Some(v) => exists|i: int| #[trigger]
                sole_index(habit_entries(*m), k, i) && *v == habit_entries(*m)[i].1,
            None => !has_key(habit_entries(*m), k),
        },
{
    m.get(&k)
}

/// Calls `IndexMap::len`, the number of entries.
#[verifier::external_body]
pub(crate) fn habits_len(m: &IndexMap<u128, HabitRef>) -> (n: usize)
    ensures
        n == habit_entries(*m).len(),
{
    m.len()
}

/// Calls `IndexMap::get_index`: the entry at position `i` in insertion order,
/// for a position below the length; its key is handed out by value.
#[verifier::external_body]
pub(crate) fn habits_get_index<'a>(m: &'a IndexMap<u128, HabitRef>, i: usize) -> (r: Option<
    (u128, &'a HabitRef),
>)
    ensures
        match r {
            Some(e) => i < habit_entries(*m).len() && e.0 == habit_entries(*m)[i as int].0 && *e.1
                == habit_entries(*m)[i as int].1,
            None => i >= habit_entries(*m).len(),
        },
{
    m.get_index(i).map(|(k, v)| (*k, v))
}

/// Calls `IndexMap::entry` and `Entry::or_insert` for a key that the map does
/// not hold: the pair becomes the last entry, the others stay as they are, and
/// the reference that comes back is to the stored value.
#[verifier::external_body]
pub(crate) fn habits_insert_new<'a>(m: &'a mut IndexMap<u128, HabitRef>, k: u128, v: HabitRef) -> (slot:
    &'a mut HabitRef)
    requires
        !has_key(habit_entries(*old(m)), k),
    ensures
        *slot == v,
        habit_entries(*final(m)) == habit_entries(*old(m)).push((k, *final(slot))),
{
    m.entry(k).or_insert(v)
}

/// Calls `IndexMap::get_mut`. Keys are unique in an `IndexMap`, so a hit is
/// the one entry with that key; what the caller writes through the reference
/// replaces that entry's value in place. On a miss the map is not touched.
#[verifier::external_body]
pub(crate) fn habits_get_mut<'a>(m: &'a mut IndexMap<u128, HabitRef>, k: u128) -> (r: Option<
    &'a mut HabitRef,
>)
    ensures
        match r {
            Some(slot) => exists|i: int| #[trigger]
                sole_index(habit_entries(*old(m)), k, i) && *slot == habit_entries(*old(m))[i].1
                    && habit_entries(*final(m)) == habit_entries(*old(m)).update(
                    i,
                    (k, *final(slot)),
                ),
            None => !has_key(habit_entries(*old(m)), k) && *final(m) == *old(m),
        },
{
    m.get_mut(&k)
}

} // verus!
