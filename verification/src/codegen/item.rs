//! The definition that an annotation or a derive is attached to.

use vstd::prelude::*;
use crate::codegen::field::FieldList;

verus! {

/// The shape of a definition, as far as the generator tells shapes apart.
#[derive(Debug, PartialEq, Eq)]
pub enum Shape {
    /// A struct with named fields.
    Named(FieldList),
    /// Anything else: a tuple struct, a unit struct, an enum, a union.
    Other,
}

/// A definition: its name and its shape.
#[derive(Debug, PartialEq, Eq)]
pub struct Item {
    /// The name of the definition.
    pub ident: String,
    /// The shape of the definition.
    pub shape: Shape,
}

} // verus!
