//! Identifiers of sessions and records.

use vstd::prelude::*;

verus! {

#[verifier::external_type_specification]
#[verifier::external_body]
pub struct ExUuid(uuid::Uuid);

/// A fresh random identifier, from `uuid::Uuid::new_v4`. Nothing is
/// promised about it.
#[verifier::external_body]
pub(crate) fn fresh_id() -> (r: uuid::Uuid) {
    uuid::Uuid::new_v4()
}

/// A copy of `id` (`Uuid` is `Copy`).
#[verifier::external_body]
pub(crate) fn copy_id(id: &uuid::Uuid) -> (r: uuid::Uuid)
    ensures
        r == *id,
{
    *id
}

} // verus!
