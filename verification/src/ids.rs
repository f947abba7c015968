//! New identifiers.

use vstd::prelude::*;

verus! {

/// A new time-ordered identifier (`uuid::Uuid::now_v7`), as its 128 bits. It depends on the
/// clock and on chance, so nothing is stated of it.
#[verifier::external_body]
pub(crate) fn new_time_ordered_id() -> (r: u128) {
    uuid::Uuid::now_v7().as_u128()
}

/// A new random identifier (`uuid::Uuid::new_v4`), as its 128 bits. It depends on chance, so
/// nothing is stated of it.
#[verifier::external_body]
pub(crate) fn new_random_id() -> (r: u128) {
    uuid::Uuid::new_v4().as_u128()
}

} // verus!
