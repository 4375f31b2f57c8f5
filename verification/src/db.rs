//! The state aggregate: the table of days, the table of habits, and the
//! operations that change them.

use std::collections::HashMap;
use vstd::prelude::*;

use crate::habit_map::{habit_entries, habits_contains_key, habits_get_mut, has_key, sole_index};
use crate::ids::{is_random_id, new_id};
use crate::laws::{lemma_with_done_wf, lemma_with_habit_wf};
use crate::types::{entry_views, records_have, DateTime, Day, DayView, Habit, HabitRef, HabitView};
use crate::utils::{HashMapExtError, HashmapExt, NonEmpty, Validate, ValidationError};

verus! {

broadcast use vstd::std_specs::hash::group_hash_axioms;

/// Why an operation on the store failed.
#[derive(Debug, Clone, Copy, PartialEq, Eq, Structural)]
pub enum StoreError {
    /// The day or habit that was named does not exist.
    NotFound,
    /// The id to insert under is already taken.
    DuplicateKey,
    /// A raw value did not meet its constraint.
    InvalidValue,
    /// The file could not be opened, read or written.
    IoError,
    /// The stored document is not a state.
    CorruptData,
}

impl StoreError {
    /// The error that a refused insertion becomes.
    pub fn from_insert(e: HashMapExtError) -> (r: StoreError)
        ensures
            r == StoreError::DuplicateKey,
    {
        match e {
            HashMapExtError::KeyAlreadyExists => StoreError::DuplicateKey,
        }
    }

    /// The error that a refused raw value becomes.
    pub fn from_validation(e: ValidationError) -> (r: StoreError)
        ensures
            r == StoreError::InvalidValue,
    {
        match e {
            ValidationError::InvalidValue => StoreError::InvalidValue,
        }
    }

    /// The text shown for this error.
    pub fn message(&self) -> (s: &'static str)
        ensures
            s@ == match *self {
                StoreError::NotFound => "not found"@,
                StoreError::DuplicateKey => "key already exists"@,
                StoreError::InvalidValue => "invalid value"@,
                StoreError::IoError => "input or output failed"@,
                StoreError::CorruptData => "stored data is corrupt"@,
            },
    {
        match self {
            StoreError::NotFound => "not found",
            StoreError::DuplicateKey => "key already exists",
            StoreError::InvalidValue => "invalid value",
            StoreError::IoError => "input or output failed",
            StoreError::CorruptData => "stored data is corrupt",
        }
    }
}

/// The root aggregate: every day and every habit, each under its id.
#[derive(Debug, Clone)]
pub struct State {
    pub days: HashMap<u128, Day>,
    pub habits: HashMap<u128, Habit>,
}

/// The state as a mathematical value: each table as a map from id to view.
pub struct StateView {
    pub days: Map<u128, DayView>,
    pub habits: Map<u128, HabitView>,
}

impl View for State {
    type V = StateView;

    open spec fn view(&self) -> StateView {
        StateView {
            days: Map::new(|k: u128| self.days@.contains_key(k), |k: u128| self.days@[k]@),
            habits: Map::new(|k: u128| self.habits@.contains_key(k), |k: u128| self.habits@[k]@),
        }
    }
}

impl StateView {
    /// The state without days or habits.
    pub open spec fn empty() -> StateView {
        StateView { days: Map::empty(), habits: Map::empty() }
    }

    /// The state with `day` filed under `id`.
    pub open spec fn with_day(self, id: u128, day: DayView) -> StateView {
        StateView { days: self.days.insert(id, day), ..self }
    }

    /// The state with a new, empty day on `date` under `id`.
    pub open spec fn with_new_day(self, id: u128, date: DateTime) -> StateView {
        self.with_day(id, DayView { id, date, habits: Seq::empty() })
    }

    /// The state with a new habit `habit_id` titled `title`, recorded last on
    /// the day `day_id` as not done.
    pub open spec fn with_habit(self, day_id: u128, habit_id: u128, title: Seq<char>) -> StateView {
        StateView {
            days: self.days.insert(day_id, self.days[day_id].with_habit(habit_id, title)),
            habits: self.habits.insert(habit_id, HabitView { id: habit_id, title }),
        }
    }

    /// The state with `done` set on the day `day_id`'s record of `habit_id`.
    pub open spec fn with_done(self, day_id: u128, habit_id: u128, done: bool) -> StateView {
        StateView {
            days: self.days.insert(day_id, self.days[day_id].with_done(habit_id, done)),
            ..self
        }
    }

    /// Whether the day `day_id` exists and has a record of `habit_id`.
    pub open spec fn has_record(self, day_id: u128, habit_id: u128) -> bool {
        self.days.contains_key(day_id) && self.days[day_id].has_habit(habit_id)
    }

    /// What adding the habit `habit_id` to the day `day_id` answers: the day
    /// must exist, and the id must be free in the table of habits and on the day.
    pub open spec fn add_habit_outcome(self, day_id: u128, habit_id: u128) -> Result<
        (),
        StoreError,
    > {
        if !self.days.contains_key(day_id) {
            Err(StoreError::NotFound)
        } else if self.habits.contains_key(habit_id) || self.days[day_id].has_habit(habit_id) {
            Err(StoreError::DuplicateKey)
        } else {
            Ok(())
        }
    }

    /// Whether some id with the marks of a random identifier is already a day's.
    pub open spec fn random_day_id_taken(self) -> bool {
        exists|id: u128| is_random_id(id) && #[trigger] self.days.contains_key(id)
    }

    /// Whether some id with the marks of a random identifier is refused as a
    /// duplicate for a new habit on the day `day_id`: the day exists, and the
    /// id is taken in the table of habits or on that day.
    pub open spec fn random_habit_id_taken(self, day_id: u128) -> bool {
        exists|id: u128|
            is_random_id(id) && (#[trigger] self.add_habit_outcome(day_id, id)) == Err::<
                (),
                StoreError,
            >(StoreError::DuplicateKey)
    }

    /// Whether `day` can be filed without breaking the invariants: it
    /// records no habit twice, and only habits of the table of habits.
    pub open spec fn admits(self, day: DayView) -> bool {
        &&& day.wf()
        &&& forall|i: int|
            0 <= i < day.habits.len() ==> self.habits.contains_key((#[trigger] day.habits[i]).0)
    }

    /// The invariants of the store: every day and habit is filed under its own
    /// id, no day records a habit twice, and every record on a day is of a
    /// habit in the table of habits.
    pub open spec fn wf(self) -> bool {
        &&& forall|d: u128| #[trigger]
            self.days.contains_key(d) ==> self.days[d].id == d && self.days[d].wf()
        &&& forall|h: u128| #[trigger] self.habits.contains_key(h) ==> self.habits[h].id == h
        &&& forall|d: u128, i: int|
            self.days.contains_key(d) && 0 <= i < self.days[d].habits.len()
                ==> self.habits.contains_key((#[trigger] self.days[d].habits[i]).0)
    }
}

/// Calls `HashMap::get_mut`: a reference to the value stored under the key,
/// if there is one. What the caller writes through it is what the map then
/// holds under that key; on a miss the map is not touched.
#[verifier::external_body]
fn days_get_mut<'a>(days: &'a mut HashMap<u128, Day>, id: u128) -> (r: Option<&'a mut Day>)
    ensures
        match r {
            Some(day) => old(days)@.contains_key(id) && *day == old(days)@[id] && final(days)@
                == old(days)@.insert(id, *final(day)),
            None => !old(days)@.contains_key(id) && *final(days) == *old(days),
        },
{
    days.get_mut(&id)
}

impl Default for State {
    fn default() -> (s: State)
        ensures
            s@ == StateView::empty(),
    {
        State::new()
    }
}

impl State {
    /// The state without days or habits.
    pub fn new() -> (s: State)
        ensures
            s@ == StateView::empty(),
    {
        let s = State { days: HashMap::new(), habits: HashMap::new() };
        assert(s@.days =~= Map::empty());
        assert(s@.habits =~= Map::empty());
        s
    }

    /// The day filed under `id`, if there is one.
    pub fn day(&self, id: u128) -> (r: Option<&Day>)
        ensures
            match r {
                Some(day) => self@.days.contains_key(id) && day@ == self@.days[id],
                None => !self@.days.contains_key(id),
            },
    {
        self.days.get(&id)
    }

    /// The habit filed under `id`, if there is one.
    pub fn habit(&self, id: u128) -> (r: Option<&Habit>)
        ensures
            match r {
                Some(habit) => self@.habits.contains_key(id) && habit@ == self@.habits[id],
                None => !self@.habits.contains_key(id),
            },
    {
        self.habits.get(&id)
    }

    /// Files `day` under its id, unless a day with that id exists.
    pub fn insert_day(&mut self, day: Day) -> (r: Result<(), StoreError>)
        ensures
            match r {
                Ok(()) => !old(self)@.days.contains_key(day.id) && final(self)@ == old(
                    self,
                )@.with_day(day.id, day@),
                Err(e) => e == StoreError::DuplicateKey && old(self)@.days.contains_key(day.id)
                    && final(self)@ == old(self)@,
            },
            old(self)@.wf() && old(self)@.admits(day@) ==> final(self)@.wf(),
    {
        let id: u128 = day.id;
        match self.days.fallible_insert(id, day) {
            Ok(_) => {
                assert(final(self)@.days =~= old(self)@.days.insert(id, day@));
                assert(final(self)@.habits =~= old(self)@.habits);
                Ok(())
            },
            Err(e) => Err(StoreError::from_insert(e)),
        }
    }

    /// Adds an empty day on `date` under a fresh random id, and returns the id.
    /// Fails, and changes nothing, if the id drawn is already a day's: so it
    /// succeeds wherever no random id is a day's yet, as in the empty state.
    pub fn add_day(&mut self, date: DateTime) -> (r: Result<u128, StoreError>)
        ensures
            match r {
                Ok(id) => is_random_id(id) && !old(self)@.days.contains_key(id) && final(self)@
                    == old(self)@.with_new_day(id, date),
                Err(e) => e == StoreError::DuplicateKey && old(self)@.random_day_id_taken()
                    && final(self)@ == old(self)@,
            },
            old(self)@.wf() ==> final(self)@.wf(),
    {
        let day = Day::new(date);
        let id: u128 = day.id;
        match self.insert_day(day) {
            Ok(()) => Ok(id),
            Err(e) => Err(e),
        }
    }

    /// Adds the habit `habit_id`, titled `title`, to the day `day_id`: a
    /// record of it, not done, goes last on the day, and the habit goes into
    /// the table of habits. Both ids are checked before anything is written,
    /// so a failure changes nothing.
    pub fn add_habit_with_id(&mut self, title: NonEmpty<String>, day_id: u128, habit_id: u128) -> (r:
        Result<(), StoreError>)
        ensures
            r == old(self)@.add_habit_outcome(day_id, habit_id),
            r.is_ok() ==> final(self)@ == old(self)@.with_habit(day_id, habit_id, title.raw()@),
            r.is_err() ==> final(self)@ == old(self)@,
            old(self)@.wf() ==> final(self)@.wf(),
    {
        let day = match days_get_mut(&mut self.days, day_id) {
            Some(day) => day,
            None => {
                return Err(StoreError::NotFound);
            },
        };
        proof {
            lemma_has_key_view(habit_entries(day.habits), habit_id);
        }
        if self.habits.contains_key(&habit_id) || habits_contains_key(&day.habits, habit_id) {
            assert(final(self)@.days =~= old(self)@.days);
            return Err(StoreError::DuplicateKey);
        }
        let title = title.inner();
        let record = HabitRef { id: habit_id, name: title.clone(), done: false };
        let habit = Habit { id: habit_id, title };
        let ghost before = day@;
        match day.habits.fallible_insert(habit_id, record) {
            Ok(_) => {},
            Err(e) => {
                return Err(StoreError::from_insert(e));
            },
        }
        assert(day@.habits =~= before.with_habit(habit_id, title@).habits);
        match self.habits.fallible_insert(habit_id, habit) {
            Ok(_) => {},
            Err(e) => {
                return Err(StoreError::from_insert(e));
            },
        }
        proof {
            let goal = old(self)@.with_habit(day_id, habit_id, title@);
            assert(final(self)@.days =~= goal.days);
            assert(final(self)@.habits =~= goal.habits);
            if old(self)@.wf() {
                lemma_with_habit_wf(old(self)@, day_id, habit_id, title@);
            }
        }
        Ok(())
    }

    /// Adds a new habit titled `title` to the day `day_id` under a fresh
    /// random id, and returns the id. Fails with `NotFound`, and changes
    /// nothing, if the day does not exist. Fails with `DuplicateKey`, and
    /// changes nothing, if the id drawn is taken in the table of habits or on
    /// the day: so it succeeds wherever the day exists and no random id is
    /// taken in either.
    pub fn add_habit_to_day(&mut self, title: NonEmpty<String>, day_id: u128) -> (r: Result<
        u128,
        StoreError,
    >)
        ensures
            match r {
                Ok(id) => is_random_id(id) && old(self)@.add_habit_outcome(day_id, id).is_ok()
                    && final(self)@ == old(self)@.with_habit(day_id, id, title.raw()@),
                Err(e) => final(self)@ == old(self)@ && (e == StoreError::NotFound
                    || e == StoreError::DuplicateKey),
            },
            !old(self)@.days.contains_key(day_id) <==> r == Err::<u128, StoreError>(
                StoreError::NotFound,
            ),
            r == Err::<u128, StoreError>(StoreError::DuplicateKey) ==> old(
                self,
            )@.random_habit_id_taken(day_id),
            old(self)@.wf() ==> final(self)@.wf(),
    {
        let id: u128 = new_id();
        match self.add_habit_with_id(title, day_id, id) {
            Ok(()) => Ok(id),
            Err(e) => Err(e),
        }
    }

    /// Sets whether the habit `habit_id` was done on the day `day_id`. Fails
    /// with `NotFound`, and changes nothing, unless that day exists and has a
    /// record of that habit. The table of habits is never touched.
    pub fn set_habit_done(&mut self, day_id: u128, habit_id: u128, done: bool) -> (r: Result<
        (),
        StoreError,
    >)
        ensures
            match r {
                Ok(()) => old(self)@.has_record(day_id, habit_id) && final(self)@ == old(
                    self,
                )@.with_done(day_id, habit_id, done),
                Err(e) => e == StoreError::NotFound && !old(self)@.has_record(day_id, habit_id)
                    && final(self)@ == old(self)@,
            },
            old(self)@.wf() ==> final(self)@.wf(),
    {
        let day = match days_get_mut(&mut self.days, day_id) {
            Some(day) => day,
            None => {
                return Err(StoreError::NotFound);
            },
        };
        let ghost before = habit_entries(day.habits);
        proof {
            lemma_has_key_view(before, habit_id);
        }
        let record = match habits_get_mut(&mut day.habits, habit_id) {
            Some(record) => record,
            None => {
                assert(final(self)@.days =~= old(self)@.days);
                return Err(StoreError::NotFound);
            },
        };
        record.done = done;
        proof {
            assert(day@.habits =~= old(self)@.days[day_id].with_done(habit_id, done).habits);
            let goal = old(self)@.with_done(day_id, habit_id, done);
            assert(final(self)@.days =~= goal.days);
            assert(final(self)@.habits =~= goal.habits);
            if old(self)@.wf() {
                lemma_with_done_wf(old(self)@, day_id, habit_id, done);
            }
        }
        Ok(())
    }
}

/// An entry with the key `k` exists among the records exactly if one exists among their views.
pub proof fn lemma_has_key_view(s: Seq<(u128, HabitRef)>, k: u128)
    ensures
        has_key(s, k) <==> records_have(entry_views(s), k),
{
    let v = entry_views(s);
    if has_key(s, k) {
        let i = choose|i: int| 0 <= i < s.len() && (#[trigger] s[i]).0 == k;
        assert(0 <= i < v.len() && v[i].0 == k);
        assert(records_have(v, k));
    }
    if records_have(v, k) {
        let i = choose|i: int| 0 <= i < v.len() && (#[trigger] v[i]).0 == k;
        assert(0 <= i < s.len() && s[i].0 == k);
        assert(has_key(s, k));
    }
}

} // verus!
