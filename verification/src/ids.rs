//! Identifier allocation.

use vstd::prelude::*;

verus! {

/// Whether `id`, read as the 128 bits of a UUID, carries the marks of a random
/// (version 4) identifier: version nibble 4 and the two variant bits `10`.
pub open spec fn is_random_id(id: u128) -> bool {
    id & 0x0000_0000_0000_f000_c000_0000_0000_0000u128
        == 0x0000_0000_0000_4000_8000_0000_0000_0000u128
}

/// Calls `uuid::Uuid::new_v4` and hands the identifier out as its 128-bit
/// value (`Uuid::as_u128`). The bits are random, so the contract only claims
/// what `new_v4` fixes in every identifier: the version and variant marks.
/// `new_v4` panics where the operating system gives it no random bytes.
#[verifier::external_body]
pub(crate) fn new_id() -> (id: u128)
    ensures
        is_random_id(id),
{
    uuid::Uuid::new_v4().as_u128()
}

} // verus!
