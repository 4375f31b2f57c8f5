//! The commands that a front end sends to the store, and what each does.

use vstd::prelude::*;

use crate::clock::now;
use crate::db::{State, StateView, StoreError};
use crate::laws::{lemma_new_day_wf, lemma_with_done_wf, lemma_with_habit_wf};
use crate::ids::{is_random_id, new_id};
use crate::types::{DateTime, Day};
use crate::utils::{NonEmpty, Validate};

verus! {

/// A request to the store.
pub enum RitualCmd {
    /// Create a day for the current time.
    NewDay,
    /// Add a habit with this title to this day.
    AddHabitToDay { title: String, day_id: u128 },
    /// Mark this habit done or not done on this day.
    HabitSetDone { day_id: u128, habit_id: u128, done: bool },
    /// Write the current state to disk.
    Save,
}

/// What a command did, and what is left for the caller to do.
#[derive(Debug, Clone, Copy, PartialEq, Eq, Structural)]
pub enum Effect {
    /// A day was added under this id.
    DayAdded(u128),
    /// A habit was added under this id.
    HabitAdded(u128),
    /// A habit's completion was set.
    HabitSet,
    /// Nothing changed; the caller is to write the state to disk.
    Persist,
    /// Nothing changed; the command was refused for this reason.
    Failed(StoreError),
}

impl StateView {
    /// The state after `cmd`, and the command's effect, when the clock reads
    /// `at` and the id drawn for a new day or habit is `fresh`.
    pub open spec fn after(self, cmd: RitualCmd, at: DateTime, fresh: u128) -> (StateView, Effect) {
        match cmd {
            RitualCmd::NewDay => if self.days.contains_key(fresh) {
                (self, Effect::Failed(StoreError::DuplicateKey))
            } else {
                (self.with_new_day(fresh, at), Effect::DayAdded(fresh))
            },
            RitualCmd::AddHabitToDay { title, day_id } => if title@.len() == 0 {
                (self, Effect::Failed(StoreError::InvalidValue))
            } else {
                match self.add_habit_outcome(day_id, fresh) {
                    Ok(()) => (self.with_habit(day_id, fresh, title@), Effect::HabitAdded(fresh)),
                    Err(e) => (self, Effect::Failed(e)),
                }
            },
            RitualCmd::HabitSetDone { day_id, habit_id, done } => if self.has_record(
                day_id,
                habit_id,
            ) {
                (self.with_done(day_id, habit_id, done), Effect::HabitSet)
            } else {
                (self, Effect::Failed(StoreError::NotFound))
            },
            RitualCmd::Save => (self, Effect::Persist),
        }
    }
}

impl State {
    /// Applies `cmd`, with `at` as the clock's reading and `fresh` as the id
    /// for what the command creates. A command either applies in full or
    /// changes nothing.
    pub fn step(&mut self, cmd: RitualCmd, at: DateTime, fresh: u128) -> (r: Effect)
        ensures
            (final(self)@, r) == old(self)@.after(cmd, at, fresh),
            old(self)@.wf() ==> final(self)@.wf(),
    {
        match cmd {
            RitualCmd::NewDay => match self.insert_day(Day::with_id(fresh, at)) {
                Ok(()) => Effect::DayAdded(fresh),
                Err(e) => Effect::Failed(e),
            },
            RitualCmd::AddHabitToDay { title, day_id } => match NonEmpty::<String>::new_validated(
                title,
            ) {
                Ok(title) => match self.add_habit_with_id(title, day_id, fresh) {
                    Ok(()) => Effect::HabitAdded(fresh),
                    Err(e) => Effect::Failed(e),
                },
                Err(e) => Effect::Failed(StoreError::from_validation(e)),
            },
            RitualCmd::HabitSetDone { day_id, habit_id, done } => match self.set_habit_done(
                day_id,
                habit_id,
                done,
            ) {
                Ok(()) => Effect::HabitSet,
                Err(e) => Effect::Failed(e),
            },
            RitualCmd::Save => Effect::Persist,
        }
    }

    /// Applies `cmd`, reading the clock for a new day and drawing a fresh
    /// random id for a new day or habit: the result is that of `step` for
    /// some reading of the clock and some id, which for a command that
    /// creates something has the marks of a random identifier.
    pub fn apply(&mut self, cmd: RitualCmd) -> (r: Effect)
        ensures
            exists|at: DateTime, fresh: u128|
                (final(self)@, r) == #[trigger] old(self)@.after(cmd, at, fresh) && (cmd is NewDay
                    || cmd is AddHabitToDay ==> is_random_id(fresh)),
            old(self)@.wf() ==> final(self)@.wf(),
    {
        let at = match &cmd {
            RitualCmd::NewDay => now(),
            _ => DateTime { secs: 0, nanos: 0 },
        };
        let fresh: u128 = match &cmd {
            RitualCmd::NewDay => new_id(),
            RitualCmd::AddHabitToDay { .. } => new_id(),
            _ => 0,
        };
        let r = self.step(cmd, at, fresh);
        assert((final(self)@, r) == old(self)@.after(cmd, at, fresh));
        r
    }
}

/// Every command keeps the store's invariants, whatever the clock reads and
/// whatever id is drawn: they hold in every state that commands lead to from
/// the empty state.
pub proof fn lemma_after_keeps_wf(s: StateView, cmd: RitualCmd, at: DateTime, fresh: u128)
    requires
        s.wf(),
    ensures
        s.after(cmd, at, fresh).0.wf(),
{
    match cmd {
        RitualCmd::NewDay => {
            lemma_new_day_wf(s, fresh, at);
        },
        RitualCmd::AddHabitToDay { title, day_id } => {
            if title@.len() != 0 && s.add_habit_outcome(day_id, fresh).is_ok() {
                lemma_with_habit_wf(s, day_id, fresh, title@);
            }
        },
        RitualCmd::HabitSetDone { day_id, habit_id, done } => {
            if s.has_record(day_id, habit_id) {
                lemma_with_done_wf(s, day_id, habit_id, done);
            }
        },
        RitualCmd::Save => {},
    }
}

/// A failed command changes nothing.
pub proof fn lemma_failure_changes_nothing(s: StateView, cmd: RitualCmd, at: DateTime, fresh: u128)
    requires
        s.after(cmd, at, fresh).1 is Failed,
    ensures
        s.after(cmd, at, fresh).0 == s,
{
}

/// A command other than `NewDay` and `AddHabitToDay` does the same whatever
/// the clock reads and whatever id is drawn; `Save` changes nothing.
pub proof fn lemma_draws_matter_only_to_creation(
    s: StateView,
    cmd: RitualCmd,
    at: DateTime,
    fresh: u128,
    other_at: DateTime,
    other_fresh: u128,
)
    requires
        cmd is HabitSetDone || cmd is Save,
    ensures
        s.after(cmd, at, fresh) == s.after(cmd, other_at, other_fresh),
        cmd is Save ==> s.after(cmd, at, fresh) == (s, Effect::Persist),
{
}

} // verus!
