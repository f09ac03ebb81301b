//! Fields of a struct definition, and the ordered list that holds them.

use vstd::prelude::*;
use syn::punctuated::Punctuated;
use syn::token::Comma;
use crate::codegen::ty::{TypeModel, TypeRef};
use crate::text::{clone_opt_text, clone_texts, opt_text_view, texts_view};

verus! {

/// One named field of a struct definition.
#[derive(Debug, PartialEq, Eq)]
pub struct FieldSpec {
    /// The name of the field.
    pub ident: String,
    /// The declared type of the field.
    pub ty: TypeRef,
    /// The values of the field's documentation attributes, one per line, in order.
    pub docs: Vec<String>,
    /// The description attached to the field, which routes it to a setter.
    pub description: Option<String>,
    /// Whether the field is left out of serialized output when it holds nothing.
    pub omit_if_absent: bool,
}

/// The mathematical value of a [`FieldSpec`].
pub struct FieldModel {
    pub ident: Seq<char>,
    pub ty: TypeModel,
    pub docs: Seq<Seq<char>>,
    pub description: Option<Seq<char>>,
    pub omit_if_absent: bool,
}

impl View for FieldSpec {
    type V = FieldModel;

    open spec fn view(&self) -> FieldModel {
        FieldModel {
            ident: self.ident@,
            ty: self.ty@,
            docs: texts_view(self.docs@),
            description: opt_text_view(self.description),
            omit_if_absent: self.omit_if_absent,
        }
    }
}

impl Clone for FieldSpec {
    fn clone(&self) -> (r: Self)
        ensures
            r@ == self@,
    {
        FieldSpec {
            ident: self.ident.clone(),
            ty: self.ty.clone(),
            docs: clone_texts(&self.docs),
            description: clone_opt_text(&self.description),
            omit_if_absent: self.omit_if_absent,
        }
    }
}

/// `syn::punctuated::Punctuated`, the punctuated sequence of syn, declared so
/// that signatures can name it.
#[verifier::external_type_specification]
#[verifier::external_body]
#[verifier::reject_recursive_types(T)]
#[verifier::reject_recursive_types(P)]
pub struct ExPunctuated<T, P>(Punctuated<T, P>);

/// `syn::token::Comma`, the comma token of syn, declared so that signatures
/// can name it.
#[verifier::external_type_specification]
#[verifier::external_body]
pub struct ExComma(Comma);

/// The fields of a struct, in declaration order.
pub type FieldList = Punctuated<FieldSpec, Comma>;

/// The fields that a list holds, in order, without the punctuation between
/// them: what iterating over the `Punctuated` hands out.
pub uninterp spec fn field_list_items(list: Punctuated<FieldSpec, Comma>) -> Seq<FieldSpec>;

/// The values of the fields that a list holds, in order.
pub open spec fn field_list_view(list: FieldList) -> Seq<FieldModel> {
    field_list_items(list).map_values(|f: FieldSpec| f@)
}

/// `syn::punctuated::Punctuated::new`: the new sequence holds no fields.
#[verifier::external_body]
pub(crate) fn field_list_new() -> (list: FieldList)
    ensures
        field_list_items(list) == Seq::<FieldSpec>::empty(),
{
    Punctuated::new()
}

/// `syn::punctuated::Punctuated::push`: the field is appended behind the
/// fields already there, which stay as they are and in their order.
#[verifier::external_body]
pub(crate) fn field_list_push(list: &mut FieldList, field: FieldSpec)
    ensures
        field_list_items(*final(list)) == field_list_items(*old(list)).push(field),
{
    list.push(field)
}

/// `syn::punctuated::Punctuated::len`: the number of fields, not counting
/// punctuation.
#[verifier::external_body]
pub(crate) fn field_list_len(list: &FieldList) -> (n: usize)
    ensures
        n == field_list_items(*list).len(),
{
    list.len()
}

/// `syn::punctuated::Punctuated::is_empty`: whether the sequence holds no
/// field.
#[verifier::external_body]
pub(crate) fn field_list_is_empty(list: &FieldList) -> (r: bool)
    ensures
        r == (field_list_items(*list).len() == 0),
{
    list.is_empty()
}

/// `Index::index` of `syn::punctuated::Punctuated`: the field at position
/// `index`. An index out of range panics there, so it is ruled out here.
#[verifier::external_body]
pub(crate) fn field_list_get(list: &FieldList, index: usize) -> (field: &FieldSpec)
    requires
        index < field_list_items(*list).len(),
    ensures
        *field == field_list_items(*list)[index as int],
{
    &list[index]
}

/// A copy of a list of fields: the same fields in the same order.
pub fn clone_field_list(list: &FieldList) -> (out: FieldList)
    ensures
        field_list_view(out) == field_list_view(*list),
{
    let mut out = field_list_new();
    let n = field_list_len(list);
    let mut i: usize = 0;
    while i < n
        invariant
            n == field_list_items(*list).len(),
            i <= n,
            field_list_items(out).len() == i,
            forall|j: int| 0 <= j < i ==> field_list_items(out)[j]@ == field_list_items(*list)[j]@,
        decreases n - i,
    {
        let field = field_list_get(list, i).clone();
        field_list_push(&mut out, field);
        i += 1;
    }
    assert(field_list_view(out) =~= field_list_view(*list));
    out
}

} // verus!
