//! The records of the store and their mathematical views.

use indexmap::IndexMap;
use vstd::prelude::*;

use crate::ids::{is_random_id, new_id};
use crate::habit_map::{
    empty_habits, habit_entries, habits_get, habits_get_index, habits_len, sole_index,
};

verus! {

/// An instant: whole seconds since the Unix epoch, and the nanoseconds within the second.
#[derive(Debug, Clone, Copy, PartialEq, Eq, Structural)]
pub struct DateTime {
    pub secs: i64,
    pub nanos: u32,
}

/// A habit's identity and title: the one record that says what the habit is.
#[derive(Debug, Clone, Eq)]
pub struct Habit {
    pub id: u128,
    pub title: String,
}

/// A day's own record of a habit: the title as it was when the habit was
/// added, and whether it was done on that day.
#[derive(Debug, Clone, Eq)]
pub struct HabitRef {
    pub id: u128,
    pub name: String,
    pub done: bool,
}

/// A dated container of habit records, in the order in which they were added.
#[derive(Debug, Clone, PartialEq)]
pub struct Day {
    pub id: u128,
    pub date: DateTime,
    pub habits: IndexMap<u128, HabitRef>,
}

/// Two habits are the same habit when their ids are equal, whatever their titles.
impl PartialEq for Habit {
    fn eq(&self, other: &Self) -> (r: bool) {
        self.id == other.id
    }
}

impl vstd::std_specs::cmp::PartialEqSpecImpl for Habit {
    open spec fn obeys_eq_spec() -> bool {
        true
    }

    open spec fn eq_spec(&self, other: &Self) -> bool {
        self.id == other.id
    }
}

/// Two records are of the same habit when their ids are equal; name and
/// completion are no part of a record's identity.
impl PartialEq for HabitRef {
    fn eq(&self, other: &Self) -> (r: bool) {
        self.id == other.id
    }
}

impl vstd::std_specs::cmp::PartialEqSpecImpl for HabitRef {
    open spec fn obeys_eq_spec() -> bool {
        true
    }

    open spec fn eq_spec(&self, other: &Self) -> bool {
        self.id == other.id
    }
}

impl std::hash::Hash for Habit {
    /// Feeds the id alone to the hasher, as equality reads the id alone.
    fn hash<H: std::hash::Hasher>(&self, state: &mut H) {
        self.id.hash(state);
    }
}

impl std::hash::Hash for HabitRef {
    /// Feeds the id alone to the hasher, as equality reads the id alone.
    fn hash<H: std::hash::Hasher>(&self, state: &mut H) {
        self.id.hash(state);
    }
}

/// A habit as a mathematical value.
pub struct HabitView {
    pub id: u128,
    pub title: Seq<char>,
}

/// A day's record of a habit as a mathematical value.
pub struct HabitRefView {
    pub id: u128,
    pub name: Seq<char>,
    pub done: bool,
}

/// A day as a mathematical value.
pub struct DayView {
    pub id: u128,
    pub date: DateTime,
    /// Key and record of each entry, oldest first.
    pub habits: Seq<(u128, HabitRefView)>,
}

impl View for Habit {
    type V = HabitView;

    open spec fn view(&self) -> HabitView {
        HabitView { id: self.id, title: self.title@ }
    }
}

impl View for HabitRef {
    type V = HabitRefView;

    open spec fn view(&self) -> HabitRefView {
        HabitRefView { id: self.id, name: self.name@, done: self.done }
    }
}

/// The views of a day's entries, in order.
pub open spec fn entry_views(s: Seq<(u128, HabitRef)>) -> Seq<(u128, HabitRefView)> {
    Seq::new(s.len(), |i: int| (s[i].0, s[i].1@))
}

impl View for Day {
    type V = DayView;

    open spec fn view(&self) -> DayView {
        DayView { id: self.id, date: self.date, habits: entry_views(habit_entries(self.habits)) }
    }
}

/// Whether some entry of `s` has the key `k`.
pub open spec fn records_have(s: Seq<(u128, HabitRefView)>, k: u128) -> bool {
    exists|i: int| 0 <= i < s.len() && (#[trigger] s[i]).0 == k
}

impl DayView {
    /// Whether some entry has the key `k`.
    pub open spec fn has_habit(self, k: u128) -> bool {
        records_have(self.habits, k)
    }

    /// Whether `i` is the position of the one entry with the key `k`.
    pub open spec fn sole_position(self, k: u128, i: int) -> bool {
        &&& 0 <= i < self.habits.len()
        &&& self.habits[i].0 == k
        &&& forall|j: int| 0 <= j < self.habits.len() && (#[trigger] self.habits[j]).0 == k ==> j == i
    }

    /// The day with one more entry at the end: a record of `k` named `name`, not done.
    pub open spec fn with_habit(self, k: u128, name: Seq<char>) -> DayView {
        DayView {
            habits: self.habits.push((k, HabitRefView { id: k, name, done: false })),
            ..self
        }
    }

    /// The day with `done` set on the entries whose key is `k`, and all else as it was.
    pub open spec fn with_done(self, k: u128, done: bool) -> DayView {
        DayView {
            habits: Seq::new(
                self.habits.len(),
                |i: int|
                    if self.habits[i].0 == k {
                        (k, HabitRefView { done, ..self.habits[i].1 })
                    } else {
                        self.habits[i]
                    },
            ),
            ..self
        }
    }

    /// No key occurs twice, and each entry is filed under its record's id.
    pub open spec fn wf(self) -> bool {
        &&& forall|i: int, j: int|
            0 <= i < j < self.habits.len() ==> (#[trigger] self.habits[i]).0 != (
            #[trigger] self.habits[j]).0
        &&& forall|i: int|
            0 <= i < self.habits.len() ==> (#[trigger] self.habits[i]).0 == self.habits[i].1.id
    }
}

impl Day {
    /// A day on `date` under the given id, with no habits.
    pub fn with_id(id: u128, date: DateTime) -> (day: Day)
        ensures
            day@ == (DayView { id, date, habits: Seq::empty() }),
    {
        let day = Day { id, date, habits: empty_habits() };
        assert(day@.habits =~= Seq::empty());
        day
    }

    /// A day on `date` with a fresh random id and no habits.
    pub fn new(date: DateTime) -> (day: Day)
        ensures
            is_random_id(day.id),
            day@ == (DayView { id: day.id, date, habits: Seq::empty() }),
    {
        Day::with_id(new_id(), date)
    }

    /// The number of habit records on the day.
    pub fn len(&self) -> (n: usize)
        ensures
            n == self@.habits.len(),
    {
        habits_len(&self.habits)
    }

    /// The day's record of the habit `habit_id`, if it has one.
    pub fn record(&self, habit_id: u128) -> (r: Option<&HabitRef>)
        ensures
            match r {
                Some(v) => exists|i: int| #[trigger]
                    self@.sole_position(habit_id, i) && self@.habits[i].1 == v@,
                None => !self@.has_habit(habit_id),
            },
    {
        let r = habits_get(&self.habits, habit_id);
        proof {
            let s = habit_entries(self.habits);
            match r {
                Some(v) => {
                    let i = choose|i: int| #[trigger] sole_index(s, habit_id, i) && *v == s[i].1;
                    assert forall|j: int|
                        0 <= j < self@.habits.len() && (#[trigger] self@.habits[j]).0
                            == habit_id implies j == i by {
                        assert(s[j].0 == habit_id);
                    }
                    assert(self@.sole_position(habit_id, i));
                },
                None => {
                    if self@.has_habit(habit_id) {
                        let i = choose|i: int|
                            0 <= i < self@.habits.len() && (#[trigger] self@.habits[i]).0
                                == habit_id;
                        assert(s[i].0 == habit_id);
                    }
                },
            }
        }
        r
    }

    /// The key and the record at position `i`, counted from the oldest, if
    /// the day has that many.
    pub fn record_at(&self, i: usize) -> (r: Option<(u128, &HabitRef)>)
        ensures
            match r {
                Some(e) => i < self@.habits.len() && (e.0, e.1@) == self@.habits[i as int],
                None => i >= self@.habits.len(),
            },
    {
        habits_get_index(&self.habits, i)
    }
}

} // verus!
