//! The identity of a Rust type, as the reflection records hold it.
//!
//! A `TypeId` is opaque to the verifier, and nothing is known of the identity
//! that `TypeId::of` gives but that the call gave it: [`identifies`] says so
//! of an identity. A function that asks for the identity of a type parameter
//! states its result over that predicate, and the comparison itself is stated
//! over the two identities it is given.
use std::any::TypeId;
use vstd::prelude::*;

verus! {

/// `std::any::TypeId`, held as an opaque value.
#[verifier::external_type_specification]
#[verifier::external_body]
pub struct ExTypeId(TypeId);

/// `TypeId::of`: the identity of the type `T`. Nothing is claimed of it.
pub assume_specification<T: ?Sized + 'static>[ TypeId::of::<T> ]() -> (id: TypeId);

/// Whether `id` is an identity that `TypeId::of::<T>()` can return.
pub open spec fn identifies<T: ?Sized + 'static>(id: TypeId) -> bool {
    call_ensures(TypeId::of::<T>, (), id)
}

/// `Clone::clone` on `TypeId`: a copy of the identity.
pub assume_specification[ <TypeId as Clone>::clone ](id: &TypeId) -> (copy: TypeId)
    ensures
        copy == *id,
;

/// `==` on `TypeId`: whether two identities are the same one.
#[verifier::external_body]
pub(crate) fn same_type_id(a: &TypeId, b: &TypeId) -> (same: bool)
    ensures
        same == (*a == *b),
{
    a == b
}

} // verus!
