//! Validated input wrappers and the error kinds of fallible insertion.

use indexmap::IndexMap;
use std::collections::hash_map::RandomState;
use std::collections::HashMap;
use std::hash::Hash;
use vstd::prelude::*;
use vstd::std_specs::hash::{builds_valid_hashers, obeys_key_model};

use crate::habit_map::{habit_entries, habits_contains_key, habits_insert_new, has_key};
use crate::types::HabitRef;

verus! {

/// Why a fallible insertion was refused.
#[derive(Debug, Clone, Copy, PartialEq, Eq, Structural)]
pub enum HashMapExtError {
    KeyAlreadyExists,
}

impl HashMapExtError {
    /// The text shown for this error.
    pub fn message(&self) -> (s: &'static str)
        ensures
            s@ == "Key already exists in the HashMap"@,
    {
        "Key already exists in the HashMap"
    }
}

/// Insertion that never overwrites: a key that is already present is an error.
pub trait HashmapExt<K, V>: Sized {
    /// Whether keys of this map behave as the contract below takes them to.
    spec fn modelled() -> bool;

    /// Whether the map holds an entry under `key`.
    spec fn holds_key(&self, key: K) -> bool;

    /// Whether `after` is this map with the one new entry `key`, `value`.
    spec fn gained(&self, after: &Self, key: K, value: V) -> bool;

    /// Adds the entry if the key is free and hands out the stored value;
    /// refuses, and leaves the map as it is, if the key is taken.
    fn fallible_insert(&mut self, key: K, value: V) -> (r: Result<&mut V, HashMapExtError>) where
        K: Hash + Eq,

        ensures
            Self::modelled() ==> match r {
                Ok(slot) => !old(self).holds_key(key) && *slot == value && old(self).gained(
                    final(self),
                    key,
                    *final(slot),
                ),
                Err(e) => e == HashMapExtError::KeyAlreadyExists && old(self).holds_key(key)
                    && *final(self) == *old(self),
            },
    ;
}

impl<K, V> HashmapExt<K, V> for HashMap<K, V> {
    open spec fn modelled() -> bool {
        obeys_key_model::<K>() && builds_valid_hashers::<RandomState>()
    }

    open spec fn holds_key(&self, key: K) -> bool {
        self@.contains_key(key)
    }

    open spec fn gained(&self, after: &Self, key: K, value: V) -> bool {
        after@ == self@.insert(key, value)
    }

    fn fallible_insert(&mut self, key: K, value: V) -> (r: Result<&mut V, HashMapExtError>) where
        K: Hash + Eq,
     {
        broadcast use vstd::std_specs::hash::group_hash_axioms;

        if self.contains_key(&key) {
            return Err(HashMapExtError::KeyAlreadyExists);
        }
        Ok(self.entry(key).or_insert(value))
    }
}

impl HashmapExt<u128, HabitRef> for IndexMap<u128, HabitRef> {
    open spec fn modelled() -> bool {
        true
    }

    open spec fn holds_key(&self, key: u128) -> bool {
        has_key(habit_entries(*self), key)
    }

    open spec fn gained(&self, after: &Self, key: u128, value: HabitRef) -> bool {
        habit_entries(*after) == habit_entries(*self).push((key, value))
    }

    fn fallible_insert(&mut self, key: u128, value: HabitRef) -> (r: Result<
        &mut HabitRef,
        HashMapExtError,
    >) {
        if habits_contains_key(self, key) {
            return Err(HashMapExtError::KeyAlreadyExists);
        }
        Ok(habits_insert_new(self, key, value))
    }
}

/// Why a raw value was refused by a validated wrapper.
#[derive(Debug, Clone, Copy, PartialEq, Eq, Structural)]
pub enum ValidationError {
    InvalidValue,
}

impl ValidationError {
    /// The text shown for this error.
    pub fn message(&self) -> (s: &'static str)
        ensures
            s@ == "Invalid value provided"@,
    {
        "Invalid value provided"
    }
}

/// Types with one trivial value that a wrapper may rule out: the empty string, zero.
pub trait Trivial {
    spec fn is_trivial(&self) -> bool;
}

impl Trivial for String {
    open spec fn is_trivial(&self) -> bool {
        self@.len() == 0
    }
}

impl Trivial for u32 {
    open spec fn is_trivial(&self) -> bool {
        *self == 0
    }
}

/// A value that was checked to be non-empty when it was wrapped.
pub struct NonEmpty<T: Trivial>(T);

/// A string that is not empty. Only emptiness is ruled out: a string of
/// blanks is accepted.
pub type NonEmptyString = NonEmpty<String>;

/// A value that was checked to be non-zero when it was wrapped.
pub struct NonZero<T: Trivial>(T);

impl<T: Trivial> NonEmpty<T> {
    #[verifier::type_invariant]
    spec fn holds(self) -> bool {
        !self.0.is_trivial()
    }
}

impl<T: Trivial> NonZero<T> {
    #[verifier::type_invariant]
    spec fn holds(self) -> bool {
        !self.0.is_trivial()
    }
}

/// A wrapper that can only be built from a raw value that meets its constraint.
pub trait Validate: Sized {
    type Target;

    /// The constraint on raw values.
    spec fn accepts(t: Self::Target) -> bool;

    /// The raw value that the wrapper holds.
    spec fn raw(&self) -> Self::Target;

    /// Wraps `t` if it meets the constraint, and refuses it otherwise.
    fn new_validated(t: Self::Target) -> (r: Result<Self, ValidationError>)
        ensures
            match r {
                Ok(v) => Self::accepts(t) && v.raw() == t,
                Err(e) => !Self::accepts(t) && e == ValidationError::InvalidValue,
            },
    ;

    /// Gives the raw value back; it still meets the constraint.
    fn inner(self) -> (t: Self::Target)
        ensures
            t == self.raw(),
            Self::accepts(t),
    ;
}

impl Validate for NonEmpty<String> {
    type Target = String;

    open spec fn accepts(t: String) -> bool {
        t@.len() > 0
    }

    closed spec fn raw(&self) -> String {
        self.0
    }

    fn new_validated(t: String) -> (r: Result<Self, ValidationError>) {
        if t.as_str().is_empty() {
            Err(ValidationError::InvalidValue)
        } else {
            Ok(NonEmpty(t))
        }
    }

    fn inner(self) -> (t: String) {
        proof {
            use_type_invariant(&self);
        }
        self.0
    }
}

impl Validate for NonZero<u32> {
    type Target = u32;

    open spec fn accepts(t: u32) -> bool {
        t != 0
    }

    closed spec fn raw(&self) -> u32 {
        self.0
    }

    fn new_validated(t: u32) -> (r: Result<Self, ValidationError>) {
        if t == 0 {
            Err(ValidationError::InvalidValue)
        } else {
            Ok(NonZero(t))
        }
    }

    fn inner(self) -> (t: u32) {
        proof {
            use_type_invariant(&self);
        }
        self.0
    }
}

} // verus!
