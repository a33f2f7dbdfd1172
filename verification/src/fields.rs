//! The record of one field of a reflected struct, tuple or tuple struct.
use crate::type_identity::{identifies, same_type_id};
use std::any::TypeId;
use vstd::prelude::*;

verus! {

/// The named field of a reflected struct.
pub type NamedField = Field<&'static str>;

/// The unnamed field of a reflected tuple or tuple struct.
pub type UnnamedField = Field<usize>;

/// A field of a reflected struct, tuple, or tuple struct.
///
/// Named fields have a key of `&'static str`, accessed by `name`.
/// Unnamed fields (like in tuples and tuple structs) have a key of `usize`,
/// accessed by `index`.
#[derive(Clone, Debug)]
pub struct Field<Key> {
    key: Key,
    type_path: &'static str,
    type_id: TypeId,
    docs: Option<&'static str>,
}

/// A [`Field`] as a mathematical value.
pub struct FieldModel<Key> {
    pub key: Key,
    pub type_path: Seq<char>,
    pub type_id: TypeId,
    pub docs: Option<Seq<char>>,
}

/// The characters of an optional string.
pub open spec fn option_chars(text: Option<&'static str>) -> Option<Seq<char>> {
    match text {
        Some(text) => Some(text@),
        None => None,
    }
}

impl<Key> View for Field<Key> {
    type V = FieldModel<Key>;

    closed spec fn view(&self) -> FieldModel<Key> {
        FieldModel {
            key: self.key,
            type_path: self.type_path@,
            type_id: self.type_id,
            docs: option_chars(self.docs),
        }
    }
}

impl<Key> Field<Key> {
    /// The record of a field with the given key, whose type is `T` and is
    /// named `type_path`. It has no docstring, and its identity is the one
    /// that `TypeId::of::<T>()` gives.
    pub fn new<T: 'static>(key: Key, type_path: &'static str) -> (field: Self)
        ensures
            field@.key == key,
            field@.type_path == type_path@,
            identifies::<T>(field@.type_id),
            field@.docs is None,
    {
        Field::with_type_id(key, type_path, TypeId::of::<T>())
    }

    /// The record of a field with the given key, whose type is named
    /// `type_path` and has the identity `type_id`. It has no docstring.
    pub fn with_type_id(key: Key, type_path: &'static str, type_id: TypeId) -> (field: Self)
        ensures
            field@ == (FieldModel { key, type_path: type_path@, type_id, docs: None }),
    {
        Field { key, type_path, type_id, docs: None }
    }

    /// The name of the field's type.
    pub fn type_path(&self) -> (path: &'static str)
        ensures
            path@ == self@.type_path,
    {
        self.type_path
    }

    /// The `TypeId` of the field.
    pub fn type_id(&self) -> (id: TypeId)
        ensures
            id == self@.type_id,
    {
        self.type_id
    }

    /// Check if the given type matches the field type: whether
    /// `TypeId::of::<T>()` is the identity that the record holds.
    pub fn is<T: 'static>(&self) -> (same: bool)
        ensures
            exists|id: TypeId| identifies::<T>(id) && same == (id == self@.type_id),
    {
        let id = TypeId::of::<T>();
        assert(identifies::<T>(id));
        self.has_type_id(id)
    }

    /// Whether `id` is the identity of the field's type.
    pub fn has_type_id(&self, id: TypeId) -> (same: bool)
        ensures
            same == (id == self@.type_id),
    {
        same_type_id(&id, &self.type_id)
    }

    /// Sets the docstring for this field.
    pub fn with_docs(self, docs: Option<&'static str>) -> (field: Self)
        ensures
            field@ == (FieldModel { docs: option_chars(docs), ..self@ }),
    {
        Field { key: self.key, type_path: self.type_path, type_id: self.type_id, docs }
    }

    /// The docstring of this field, if any.
    pub fn docs(&self) -> (docs: Option<&'static str>)
        ensures
            option_chars(docs) == self@.docs,
    {
        self.docs
    }
}

impl Field<&'static str> {
    /// Returns the name of the field.
    pub fn name(&self) -> (name: &'static str)
        ensures
            name == self@.key,
    {
        self.key
    }
}

impl Field<usize> {
    /// Returns the index of the field.
    pub fn index(&self) -> (index: usize)
        ensures
            index == self@.key,
    {
        self.key
    }
}

} // verus!
