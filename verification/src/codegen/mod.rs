//! The code generator behind the request and response types.
//!
//! A struct definition with a small set of switches is expanded in two steps.
//! First the switches append canonical fields (amount, metadata, description,
//! livemode, the timestamp pair, currency) to the struct's own fields and,
//! on request, give the struct an all-optional mirror. Then the final field
//! list yields one constructor, which takes the required fields in
//! declaration order, and one setter for every field that carries a
//! description.
//!
//! The generator works on a plain description of the struct; reading Rust
//! syntax into that description and printing the result as Rust syntax is the
//! caller's business.

pub mod derive;
pub mod field;
pub mod fields;
pub mod item;
pub mod ty;

use vstd::prelude::*;
use crate::codegen::derive::{
    derive_handler,
    impl_block_for,
    own_description,
    route,
    setters_well_typed,
    DeriveError,
    ImplBlock,
    Route,
};
use crate::codegen::field::field_list_view;
use crate::codegen::fields::{
    canonical_fields,
    mirror_of,
    mirrors_view,
    MirrorModel,
    MirrorStruct,
    ParsedPayrexAttrs,
    PayrexAttrs,
};
use crate::codegen::item::{Item, Shape};

verus! {

/// What an annotated struct expands to.
#[derive(Debug, PartialEq, Eq)]
pub struct Expansion {
    /// The struct itself, with the canonical fields appended to its own.
    pub item: Item,
    /// The mirror struct, where one was asked for.
    pub mirrors: Vec<MirrorStruct>,
}

/// Why an annotated definition could not be expanded.
#[derive(Debug, Clone, Copy, PartialEq, Eq, Structural)]
pub enum AttrError {
    /// The definition is not a struct with named fields.
    UnsupportedShape,
}

impl AttrError {
    /// The text of the diagnostic.
    pub fn message(&self) -> (text: String)
        ensures
            text@ == "#[payrex] only supports structs with named fields"@,
    {
        "#[payrex] only supports structs with named fields".to_owned()
    }
}

/// The `impl` block that the derive generates for `input`: what
/// [`derive_handler`] gives, errors included.
pub fn payrex_derive(input: Item) -> (r: Result<ImplBlock, DeriveError>)
    ensures
        match input.shape {
            Shape::Named(list) => {
                let fields = field_list_view(list);
                if setters_well_typed(fields) {
                    r matches Ok(block) && block@ == impl_block_for(input.ident@, fields)
                } else {
                    r matches Err(DeriveError::SetterOnNonOptional { field }) && exists|i: int|
                        {
                            &&& 0 <= i < fields.len()
                            &&& #[trigger] route(fields[i]) == Route::Setter
                            &&& own_description(fields[i]) is Some
                            &&& fields[i].ty.option_inner() is None
                            &&& field@ == fields[i].ident
                            &&& setters_well_typed(fields.take(i))
                        }
                }
            },
            Shape::Other => r == Err::<ImplBlock, DeriveError>(DeriveError::UnsupportedShape),
        },
{
    derive_handler(&input)
}

/// Expands an annotated struct. The switches append the canonical fields
/// behind the struct's own fields, always in the order amount, metadata,
/// description, livemode, `created_at`, `updated_at`, currency; with the
/// `optional` switch the mirror struct of the expanded struct comes with it.
/// A definition that is not a struct with named fields is refused.
pub fn payrex_attr(attr: PayrexAttrs, item: Item) -> (r: Result<Expansion, AttrError>)
    ensures
        match item.shape {
            Shape::Named(list) => {
                let expanded = field_list_view(list) + canonical_fields(attr@);
                &&& r matches Ok(expansion)
                &&& expansion.item.ident@ == item.ident@
                &&& expansion.item.shape matches Shape::Named(out)
                &&& field_list_view(out) == expanded
                &&& mirrors_view(expansion.mirrors@) == if attr.optional {
                    seq![mirror_of(item.ident@, expanded)]
                } else {
                    Seq::<MirrorModel>::empty()
                }
            },
            Shape::Other => r == Err::<Expansion, AttrError>(AttrError::UnsupportedShape),
        },
{
    let Item { ident, shape } = item;
    let mut fields = match shape {
        Shape::Named(fields) => fields,
        Shape::Other => {
            return Err(AttrError::UnsupportedShape);
        },
    };
    let parsed_opts: ParsedPayrexAttrs = attr.into();
    let mut opts = parsed_opts.set_fields(&mut fields);

    opts.add_amount();
    opts.add_metadata();
    opts.add_description();
    opts.add_livemode();
    opts.add_timestamp();
    opts.add_currency();
    opts.add_optional_struct(ident.as_str());

    proof {
        assert(opts.fields_view() =~= field_list_view(fields) + canonical_fields(attr@));
        assert(mirrors_view(Seq::<MirrorStruct>::empty()) =~= Seq::<MirrorModel>::empty());
        if attr.optional {
            assert(mirrors_view(opts.optional_struct@) =~= seq![
                mirror_of(ident@, field_list_view(fields) + canonical_fields(attr@)),
            ]);
        }
    }
    Ok(Expansion { item: Item { ident, shape: Shape::Named(opts.fields) }, mirrors: opts.optional_struct })
}

} // verus!
