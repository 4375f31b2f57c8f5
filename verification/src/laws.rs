//! What holds of the operations on the store, stated over their views.

use vstd::prelude::*;

use crate::db::StateView;
use crate::types::{DateTime, DayView, HabitRefView, HabitView};

verus! {

/// A day that was just added is found under its id, with the date it was
/// given and no habits; every other day, and every habit, is as it was.
pub proof fn lemma_new_day_lookup(s: StateView, id: u128, date: DateTime)
    ensures
        s.with_new_day(id, date).days.contains_key(id),
        s.with_new_day(id, date).days[id] == (DayView { id, date, habits: Seq::empty() }),
        s.with_new_day(id, date).days[id].habits.len() == 0,
        forall|k: u128|
            k != id ==> (#[trigger] s.with_new_day(id, date).days.contains_key(k)
                <==> s.days.contains_key(k)),
        forall|k: u128|
            k != id && s.days.contains_key(k) ==> #[trigger] s.with_new_day(id, date).days[k]
                == s.days[k],
        s.with_new_day(id, date).habits == s.habits,
{
}

/// The empty state meets the store's invariants.
pub proof fn lemma_empty_wf()
    ensures
        StateView::empty().wf(),
{
}

/// In the empty state no id is taken: adding a day there cannot fail.
pub proof fn lemma_empty_takes_any_day()
    ensures
        !StateView::empty().random_day_id_taken(),
{
}

/// Where a day exists, has no records, and the table of habits is empty, no
/// id is refused as a duplicate: adding a habit to that day cannot fail.
pub proof fn lemma_empty_day_takes_any_habit(s: StateView, day_id: u128)
    requires
        s.days.contains_key(day_id),
        s.days[day_id].habits.len() == 0,
        s.habits.dom() == Set::<u128>::empty(),
    ensures
        !s.random_habit_id_taken(day_id),
        forall|id: u128| (#[trigger] s.add_habit_outcome(day_id, id)).is_ok(),
{
    assert forall|id: u128| (#[trigger] s.add_habit_outcome(day_id, id)).is_ok() by {
        assert(!s.habits.contains_key(id));
        assert(!s.days[day_id].has_habit(id));
    }
}

/// Adding a day keeps the store's invariants.
pub proof fn lemma_new_day_wf(s: StateView, id: u128, date: DateTime)
    requires
        s.wf(),
    ensures
        s.with_new_day(id, date).wf(),
{
    let t = s.with_new_day(id, date);
    assert forall|d: u128, i: int|
        t.days.contains_key(d) && 0 <= i < t.days[d].habits.len() implies t.habits.contains_key(
        (#[trigger] t.days[d].habits[i]).0,
    ) by {
        assert(s.habits.contains_key(s.days[d].habits[i].0));
    }
}

/// Adding a habit under an id that is free, to a day that exists, keeps the store's invariants.
pub proof fn lemma_with_habit_wf(s: StateView, day_id: u128, habit_id: u128, title: Seq<char>)
    requires
        s.wf(),
        s.add_habit_outcome(day_id, habit_id).is_ok(),
    ensures
        s.with_habit(day_id, habit_id, title).wf(),
{
    let t = s.with_habit(day_id, habit_id, title);
    let old_day = s.days[day_id];
    let new_day = t.days[day_id];
    assert forall|i: int, j: int| 0 <= i < j < new_day.habits.len() implies (
    #[trigger] new_day.habits[i]).0 != (#[trigger] new_day.habits[j]).0 by {
        if j < old_day.habits.len() {
            assert(old_day.habits[i].0 != old_day.habits[j].0);
        } else {
            assert(old_day.habits[i].0 != habit_id);
        }
    }
    assert forall|i: int| 0 <= i < new_day.habits.len() implies (#[trigger] new_day.habits[i]).0
        == new_day.habits[i].1.id by {
        if i < old_day.habits.len() {
            assert(old_day.habits[i].0 == old_day.habits[i].1.id);
        }
    }
    assert forall|d: u128, i: int|
        t.days.contains_key(d) && 0 <= i < t.days[d].habits.len() implies t.habits.contains_key(
        (#[trigger] t.days[d].habits[i]).0,
    ) by {
        if d == day_id {
            if i < old_day.habits.len() {
                assert(s.habits.contains_key(s.days[d].habits[i].0));
            }
        } else {
            assert(s.habits.contains_key(s.days[d].habits[i].0));
        }
    }
}

/// Setting a record's completion keeps the store's invariants.
pub proof fn lemma_with_done_wf(s: StateView, day_id: u128, habit_id: u128, done: bool)
    requires
        s.wf(),
        s.days.contains_key(day_id),
    ensures
        s.with_done(day_id, habit_id, done).wf(),
{
    let t = s.with_done(day_id, habit_id, done);
    let old_day = s.days[day_id];
    let new_day = t.days[day_id];
    assert forall|i: int| 0 <= i < new_day.habits.len() implies (#[trigger] new_day.habits[i]).0
        == old_day.habits[i].0 && new_day.habits[i].1.id == old_day.habits[i].1.id by {}
    assert forall|i: int, j: int| 0 <= i < j < new_day.habits.len() implies (
    #[trigger] new_day.habits[i]).0 != (#[trigger] new_day.habits[j]).0 by {
        assert(old_day.habits[i].0 != old_day.habits[j].0);
    }
    assert forall|i: int| 0 <= i < new_day.habits.len() implies (#[trigger] new_day.habits[i]).0
        == new_day.habits[i].1.id by {
        assert(old_day.habits[i].0 == old_day.habits[i].1.id);
    }
    assert forall|d: u128, i: int|
        t.days.contains_key(d) && 0 <= i < t.days[d].habits.len() implies t.habits.contains_key(
        (#[trigger] t.days[d].habits[i]).0,
    ) by {
        assert(s.habits.contains_key(s.days[d].habits[i].0));
    }
}

/// Two days added one after the other never share an id: the second id was
/// free in a state that already held the first.
pub proof fn lemma_added_days_differ(
    s: StateView,
    first: u128,
    first_date: DateTime,
    second: u128,
    second_date: DateTime,
)
    requires
        !s.days.contains_key(first),
        !s.with_new_day(first, first_date).days.contains_key(second),
    ensures
        first != second,
        s.with_new_day(first, first_date).with_new_day(second, second_date).days.contains_key(
            first,
        ),
        s.with_new_day(first, first_date).with_new_day(second, second_date).days[first].date
            == first_date,
{
    let t = s.with_new_day(first, first_date);
    assert(t.days.contains_key(first));
}

/// Adding a habit to a day that exists, under a free id, makes exactly one
/// new habit in the table of habits and exactly one record of it, the last on
/// that day, named as the habit is titled and not done. Nothing else changes.
pub proof fn lemma_added_habit_is_sole(
    s: StateView,
    day_id: u128,
    habit_id: u128,
    title: Seq<char>,
)
    requires
        s.add_habit_outcome(day_id, habit_id).is_ok(),
    ensures
        ({
            let t = s.with_habit(day_id, habit_id, title);
            let n = s.days[day_id].habits.len() as int;
            &&& !s.habits.contains_key(habit_id)
            &&& t.habits.dom() == s.habits.dom().insert(habit_id)
            &&& t.habits[habit_id] == (HabitView { id: habit_id, title })
            &&& forall|h: u128| h != habit_id && s.habits.contains_key(h) ==> #[trigger] t.habits[h] == s.habits[h]
            &&& t.days.dom() == s.days.dom()
            &&& forall|d: u128| d != day_id && s.days.contains_key(d) ==> #[trigger] t.days[d] == s.days[d]
            &&& t.days[day_id].id == s.days[day_id].id
            &&& t.days[day_id].date == s.days[day_id].date
            &&& t.days[day_id].habits.len() == n + 1
            &&& t.days[day_id].habits[n] == (
                habit_id,
                HabitRefView { id: habit_id, name: title, done: false },
            )
            &&& forall|i: int| 0 <= i < n ==> #[trigger] t.days[day_id].habits[i] == s.days[day_id].habits[i]
            &&& forall|i: int| 0 <= i <= n && (#[trigger] t.days[day_id].habits[i]).0 == habit_id ==> i == n
        }),
{
    let t = s.with_habit(day_id, habit_id, title);
    let n = s.days[day_id].habits.len() as int;
    assert(t.habits.dom() =~= s.habits.dom().insert(habit_id));
    assert(t.days.dom() =~= s.days.dom());
    assert forall|i: int| 0 <= i <= n && (#[trigger] t.days[day_id].habits[i]).0
        == habit_id implies i == n by {
        if i < n {
            assert(s.days[day_id].habits[i].0 == habit_id);
            assert(s.days[day_id].has_habit(habit_id));
        }
    }
}

/// Setting completion on a day's record of a habit changes that record's
/// `done` and nothing else: not its id or name, not another record, not
/// another day, and no habit in the table of habits.
pub proof fn lemma_done_touches_one_record(
    s: StateView,
    day_id: u128,
    habit_id: u128,
    done: bool,
    i: int,
)
    requires
        s.days.contains_key(day_id),
        s.days[day_id].wf(),
        0 <= i < s.days[day_id].habits.len(),
        s.days[day_id].habits[i].0 == habit_id,
    ensures
        ({
            let t = s.with_done(day_id, habit_id, done);
            let was = s.days[day_id].habits[i].1;
            &&& t.habits == s.habits
            &&& t.days.dom() == s.days.dom()
            &&& forall|d: u128| d != day_id && s.days.contains_key(d) ==> #[trigger] t.days[d] == s.days[d]
            &&& t.days[day_id].id == s.days[day_id].id
            &&& t.days[day_id].date == s.days[day_id].date
            &&& t.days[day_id].habits == s.days[day_id].habits.update(
                i,
                (habit_id, HabitRefView { id: was.id, name: was.name, done }),
            )
        }),
{
    let t = s.with_done(day_id, habit_id, done);
    let was = s.days[day_id].habits[i].1;
    let day = s.days[day_id];
    assert(t.days.dom() =~= s.days.dom());
    assert forall|j: int| 0 <= j < day.habits.len() && j != i implies (#[trigger] day.habits[j]).0
        != habit_id by {
        if j < i {
            assert(day.habits[j].0 != day.habits[i].0);
        } else {
            assert(day.habits[i].0 != day.habits[j].0);
        }
    }
    assert(t.days[day_id].habits =~= day.habits.update(
        i,
        (habit_id, HabitRefView { id: was.id, name: was.name, done }),
    ));
}

/// Setting completion twice leaves what the second call set.
pub proof fn lemma_done_last_wins(s: StateView, day_id: u128, habit_id: u128, a: bool, b: bool)
    requires
        s.days.contains_key(day_id),
    ensures
        s.with_done(day_id, habit_id, a).with_done(day_id, habit_id, b) == s.with_done(
            day_id,
            habit_id,
            b,
        ),
{
    let t = s.with_done(day_id, habit_id, a).with_done(day_id, habit_id, b);
    let u = s.with_done(day_id, habit_id, b);
    assert(t.days[day_id].habits =~= u.days[day_id].habits);
    assert(t.days =~= u.days);
}

} // verus!
