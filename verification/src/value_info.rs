//! The record of a value type.
use crate::fields::option_chars;
use crate::type_identity::{identifies, same_type_id};
use std::any::TypeId;
use vstd::prelude::*;

verus! {

/// A container for compile-time info related to general value types,
/// including primitives.
///
/// This typically represents a type which cannot be broken down any further.
/// For example, `i32` cannot be broken down any further, so it is represented
/// by a [`ValueInfo`]. And while `String` itself is a struct, its fields are
/// private, so it is not treated as one.
#[derive(Debug, Clone)]
pub struct ValueInfo {
    type_path: &'static str,
    type_id: TypeId,
    docs: Option<&'static str>,
}

/// A [`ValueInfo`] as a mathematical value.
pub struct ValueInfoModel {
    pub type_path: Seq<char>,
    pub type_id: TypeId,
    pub docs: Option<Seq<char>>,
}

impl View for ValueInfo {
    type V = ValueInfoModel;

    closed spec fn view(&self) -> ValueInfoModel {
        ValueInfoModel {
            type_path: self.type_path@,
            type_id: self.type_id,
            docs: option_chars(self.docs),
        }
    }
}

impl ValueInfo {
    /// The record of the type `T`, which is named `type_path`. It has no
    /// docstring, and its identity is the one that `TypeId::of::<T>()` gives.
    pub fn new<T: ?Sized + 'static>(type_path: &'static str) -> (info: Self)
        ensures
            info@.type_path == type_path@,
            identifies::<T>(info@.type_id),
            info@.docs is None,
    {
        ValueInfo::with_type_id(type_path, TypeId::of::<T>())
    }

    /// The record of a type that is named `type_path` and has the identity
    /// `type_id`. It has no docstring.
    pub fn with_type_id(type_path: &'static str, type_id: TypeId) -> (info: Self)
        ensures
            info@ == (ValueInfoModel { type_path: type_path@, type_id, docs: None }),
    {
        ValueInfo { type_path, type_id, docs: None }
    }

    /// Sets the docstring for this value.
    pub fn with_docs(self, docs: Option<&'static str>) -> (info: Self)
        ensures
            info@ == (ValueInfoModel { docs: option_chars(docs), ..self@ }),
    {
        ValueInfo { type_path: self.type_path, type_id: self.type_id, docs }
    }

    /// The name of the type of the value.
    pub fn type_path(&self) -> (path: &'static str)
        ensures
            path@ == self@.type_path,
    {
        self.type_path
    }

    /// The `TypeId` of the value.
    pub fn type_id(&self) -> (id: TypeId)
        ensures
            id == self@.type_id,
    {
        self.type_id
    }

    /// Check if the given type matches the value type: whether
    /// `TypeId::of::<T>()` is the identity that the record holds.
    pub fn is<T: ?Sized + 'static>(&self) -> (same: bool)
        ensures
            exists|id: TypeId| identifies::<T>(id) && same == (id == self@.type_id),
    {
        let id = TypeId::of::<T>();
        assert(identifies::<T>(id));
        self.has_type_id(id)
    }

    /// Whether `id` is the identity of the type of the value.
    pub fn has_type_id(&self, id: TypeId) -> (same: bool)
        ensures
            same == (id == self@.type_id),
    {
        same_type_id(&id, &self.type_id)
    }

    /// The docstring of this value, if any.
    pub fn docs(&self) -> (docs: Option<&'static str>)
        ensures
            option_chars(docs) == self@.docs,
    {
        self.docs
    }
}

} // verus!
