//! Task and job identifiers.

use vstd::prelude::*;

verus! {

/// `uuid::Uuid`, carried through as an opaque value: two identifiers are
/// either equal or not, and nothing else is read from them.
#[verifier::external_type_specification]
#[verifier::external_body]
pub struct ExUuid(uuid::Uuid);

/// `Clone::clone` of `uuid::Uuid`, a `Copy` type: the duplicate is the
/// identifier itself.
pub assume_specification[ <uuid::Uuid as Clone>::clone ](id: &uuid::Uuid) -> (r: uuid::Uuid)
    ensures
        r == *id,
;

/// Calls `uuid::Uuid::new_v4`, which draws a random version-4 identifier.
/// The result depends on the random source, so nothing is claimed of it.
/// The call panics where the operating system gives no random bytes.
#[verifier::external_body]
pub(crate) fn random_id() -> uuid::Uuid {
    uuid::Uuid::new_v4()
}

} // verus!
