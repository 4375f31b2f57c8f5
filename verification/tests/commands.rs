use ritual::cmd::{Effect, RitualCmd};
use ritual::db::{State, StoreError};
use ritual::types::DateTime;

const AT: DateTime = DateTime { secs: 1_704_067_200, nanos: 5 };

#[test]
fn step_new_day_uses_the_given_clock_and_id() {
    let mut s = State::new();
    assert_eq!(s.step(RitualCmd::NewDay, AT, 11), Effect::DayAdded(11));
    assert_eq!(s.day(11).unwrap().date, AT);
    assert_eq!(s.day(11).unwrap().len(), 0);
    // the same id again is refused and nothing changes
    let later = DateTime { secs: 1_704_067_300, nanos: 0 };
    assert_eq!(s.step(RitualCmd::NewDay, later, 11), Effect::Failed(StoreError::DuplicateKey));
    assert_eq!(s.days.len(), 1);
    assert_eq!(s.day(11).unwrap().date, AT);
}

#[test]
fn step_add_habit_validates_the_title_first() {
    let mut s = State::new();
    assert_eq!(s.step(RitualCmd::NewDay, AT, 1), Effect::DayAdded(1));
    let empty = RitualCmd::AddHabitToDay { title: String::new(), day_id: 1 };
    assert_eq!(s.step(empty, AT, 50), Effect::Failed(StoreError::InvalidValue));
    // an empty title is reported even where the day is missing
    let empty_missing = RitualCmd::AddHabitToDay { title: String::new(), day_id: 2 };
    assert_eq!(s.step(empty_missing, AT, 50), Effect::Failed(StoreError::InvalidValue));
    assert!(s.habits.is_empty());
    assert_eq!(s.day(1).unwrap().len(), 0);

    let missing = RitualCmd::AddHabitToDay { title: "Run".to_string(), day_id: 2 };
    assert_eq!(s.step(missing, AT, 50), Effect::Failed(StoreError::NotFound));

    let good = RitualCmd::AddHabitToDay { title: "Run".to_string(), day_id: 1 };
    assert_eq!(s.step(good, AT, 50), Effect::HabitAdded(50));
    assert_eq!(s.habit(50).unwrap().title, "Run");
    assert_eq!(s.day(1).unwrap().record(50).unwrap().name, "Run");
    assert!(!s.day(1).unwrap().record(50).unwrap().done);

    let again = RitualCmd::AddHabitToDay { title: "Swim".to_string(), day_id: 1 };
    assert_eq!(s.step(again, AT, 50), Effect::Failed(StoreError::DuplicateKey));
    assert_eq!(s.habit(50).unwrap().title, "Run");
    assert_eq!(s.day(1).unwrap().len(), 1);
}

#[test]
fn step_set_done_and_save() {
    let mut s = State::new();
    assert_eq!(s.step(RitualCmd::NewDay, AT, 1), Effect::DayAdded(1));
    let add = RitualCmd::AddHabitToDay { title: "Run".to_string(), day_id: 1 };
    assert_eq!(s.step(add, AT, 2), Effect::HabitAdded(2));

    let set = RitualCmd::HabitSetDone { day_id: 1, habit_id: 2, done: true };
    assert_eq!(s.step(set, AT, 99), Effect::HabitSet);
    assert!(s.day(1).unwrap().record(2).unwrap().done);

    let miss = RitualCmd::HabitSetDone { day_id: 1, habit_id: 3, done: false };
    assert_eq!(s.step(miss, AT, 99), Effect::Failed(StoreError::NotFound));
    assert!(s.day(1).unwrap().record(2).unwrap().done);

    assert_eq!(s.step(RitualCmd::Save, AT, 99), Effect::Persist);
    assert_eq!(s.days.len(), 1);
    assert_eq!(s.habits.len(), 1);
    assert!(s.day(99).is_none());
}

#[test]
fn apply_draws_the_clock_and_the_id() {
    let mut s = State::new();
    let before = chrono::Utc::now().timestamp();
    let day_id = match s.apply(RitualCmd::NewDay) {
        Effect::DayAdded(id) => id,
        other => panic!("unexpected effect {:?}", other),
    };
    let after = chrono::Utc::now().timestamp();
    assert_eq!(uuid::Uuid::from_u128(day_id).get_version_num(), 4);
    let date = s.day(day_id).unwrap().date;
    assert!(before <= date.secs && date.secs <= after);

    let habit_id = match s.apply(RitualCmd::AddHabitToDay { title: "Run".to_string(), day_id }) {
        Effect::HabitAdded(id) => id,
        other => panic!("unexpected effect {:?}", other),
    };
    assert_ne!(habit_id, day_id);
    assert_eq!(s.apply(RitualCmd::HabitSetDone { day_id, habit_id, done: true }), Effect::HabitSet);
    assert!(s.day(day_id).unwrap().record(habit_id).unwrap().done);
    assert_eq!(s.apply(RitualCmd::Save), Effect::Persist);
    assert_eq!(
        s.apply(RitualCmd::AddHabitToDay { title: String::new(), day_id }),
        Effect::Failed(StoreError::InvalidValue)
    );
}
