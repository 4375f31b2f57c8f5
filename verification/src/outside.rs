//! Types of other crates that values of this library hold.

use vstd::prelude::*;

verus! {

/// `indexmap::IndexMap`: a hash map that keeps its entries in insertion order.
/// Nothing inside it is visible to the verifier.
#[verifier::external_type_specification]
#[verifier::external_body]
#[verifier::reject_recursive_types(K)]
#[verifier::reject_recursive_types(V)]
#[verifier::reject_recursive_types(S)]
pub struct ExIndexMap<K, V, S>(indexmap::IndexMap<K, V, S>);

/// `IndexMap`'s `Clone::clone`. Nothing is claimed of the copy.
pub assume_specification<K, V, S>[ <indexmap::IndexMap<K, V, S> as Clone>::clone ](
    m: &indexmap::IndexMap<K, V, S>,
) -> (r: indexmap::IndexMap<K, V, S>) where K: Clone, V: Clone, S: Clone
;

/// `u128`'s `Hash::hash`, which feeds the number to the hasher. Nothing is
/// claimed of the hasher's state afterwards.
pub assume_specification<H: std::hash::Hasher>[ <u128 as std::hash::Hash>::hash::<H> ](
    v: &u128,
    state: &mut H,
)
;

} // verus!
