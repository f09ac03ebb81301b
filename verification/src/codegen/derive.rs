//! The second step of the generator: from the final field list of a struct
//! to its constructor and its setters.
//!
//! Every field goes one of three ways. A field that carries a description
//! gets a setter, documented by that description word for word. A field
//! without one whose type is the pagination parameters `ListParams` is left
//! to be set after construction. Every other field becomes a parameter of
//! the constructor.
//!
//! A description that is empty counts as none. The canonical fields
//! `metadata`, `description`, `currency` and `amount` come without a
//! description of their own; where such a field has a type `Option<T>` and
//! the author gave it no description, it has a fixed one.

use vstd::prelude::*;
use vstd::string::StringExecFns;
use crate::codegen::field::{
    field_list_get,
    field_list_is_empty,
    field_list_items,
    field_list_len,
    field_list_new,
    field_list_push,
    field_list_view,
    FieldList,
    FieldModel,
    FieldSpec,
};
use crate::codegen::fields::{
    amount_field,
    created_at_field,
    currency_field,
    description_field,
    livemode_field,
    metadata_field,
    updated_at_field,
};
use crate::codegen::item::{Item, Shape};
use crate::codegen::ty::{get_option_inner, is_type, is_type_deep, TypeModel, TypeRef};
use crate::text::{clone_opt_text, opt_text_view, same_text};

verus! {

/// What decides the way of a field.
#[derive(Debug, PartialEq, Eq)]
pub struct PayrexFieldReceiver {
    /// The description that documents the field's setter; `None` where the
    /// field gets no setter.
    pub description: Option<String>,
}

/// The way a field goes.
#[derive(Debug, Clone, Copy, PartialEq, Eq, Structural)]
pub enum Route {
    /// The field is a parameter of the constructor.
    Constructor,
    /// The field has a setter.
    Setter,
    /// The field holds the pagination parameters and is set after construction.
    Excluded,
}

/// How a generated method hands the struct on.
#[derive(Debug, Clone, Copy, PartialEq, Eq, Structural)]
pub enum Chaining {
    /// The method takes the struct by value and returns it by value.
    ByValue,
    /// The method takes the struct by mutable reference and returns that
    /// reference.
    ByMutableReference,
}

/// What a generated setter puts into its field.
#[derive(Debug, Clone, Copy, PartialEq, Eq, Structural)]
pub enum Stored {
    /// The argument wrapped in `Some`, in place of what the field held.
    Present,
    /// The argument as it is, in place of what the field held.
    Plain,
}

/// A generated setter: a method that takes the struct and one argument,
/// stores the argument in a field and hands the struct on.
#[derive(Debug, PartialEq, Eq)]
pub struct Setter {
    /// The name of the method.
    pub name: String,
    /// The name of the field that the method sets.
    pub field: String,
    /// The name of the method's parameter.
    pub param: String,
    /// The documentation of the method.
    pub doc: String,
    /// The type inside the field's `Option`.
    pub ty: TypeRef,
    /// Whether the parameter takes anything convertible into `ty` and the
    /// method converts it; otherwise the parameter is of type `ty` and is
    /// stored as it is.
    pub relaxed: bool,
    /// How the method takes the struct and returns it.
    pub chaining: Chaining,
    /// What the method puts into the field.
    pub stored: Stored,
}

/// The mathematical value of a [`Setter`].
pub struct SetterModel {
    pub name: Seq<char>,
    pub field: Seq<char>,
    pub param: Seq<char>,
    pub doc: Seq<char>,
    pub ty: TypeModel,
    pub relaxed: bool,
    pub chaining: Chaining,
    pub stored: Stored,
}

impl View for Setter {
    type V = SetterModel;

    open spec fn view(&self) -> SetterModel {
        SetterModel {
            name: self.name@,
            field: self.field@,
            param: self.param@,
            doc: self.doc@,
            ty: self.ty@,
            relaxed: self.relaxed,
            chaining: self.chaining,
            stored: self.stored,
        }
    }
}

/// One parameter of the generated constructor.
#[derive(Debug, PartialEq, Eq)]
pub struct Param {
    /// The name of the parameter.
    pub name: String,
    /// The name of the field that the parameter fills.
    pub field: String,
    /// The declared type of the field.
    pub ty: TypeRef,
    /// Whether the parameter takes anything convertible into `ty` and the
    /// constructor converts it; otherwise the parameter is of type `ty` and
    /// is stored as it is.
    pub relaxed: bool,
}

/// The mathematical value of a [`Param`].
pub struct ParamModel {
    pub name: Seq<char>,
    pub field: Seq<char>,
    pub ty: TypeModel,
    pub relaxed: bool,
}

impl View for Param {
    type V = ParamModel;

    open spec fn view(&self) -> ParamModel {
        ParamModel { name: self.name@, field: self.field@, ty: self.ty@, relaxed: self.relaxed }
    }
}

/// What the generated constructor returns.
#[derive(Debug, Clone, Copy, PartialEq, Eq, Structural)]
pub enum ConstructorBody {
    /// The default value of the struct.
    AllDefaults,
    /// The struct with each parameter in its field and every other field at
    /// its default.
    FromParams,
}

/// The generated constructor `new`.
#[derive(Debug, PartialEq, Eq)]
pub struct Constructor {
    /// The documentation of the constructor.
    pub doc: String,
    /// The parameters, in order.
    pub params: Vec<Param>,
    /// What the constructor returns.
    pub body: ConstructorBody,
}

/// The mathematical value of a [`Constructor`].
pub struct ConstructorModel {
    pub doc: Seq<char>,
    pub params: Seq<ParamModel>,
    pub body: ConstructorBody,
}

/// The values of a list of parameters, in order.
pub open spec fn params_view(params: Seq<Param>) -> Seq<ParamModel> {
    params.map_values(|p: Param| p@)
}

/// The values of a list of setters, in order.
pub open spec fn setters_view(setters: Seq<Setter>) -> Seq<SetterModel> {
    setters.map_values(|s: Setter| s@)
}

impl View for Constructor {
    type V = ConstructorModel;

    open spec fn view(&self) -> ConstructorModel {
        ConstructorModel { doc: self.doc@, params: params_view(self.params@), body: self.body }
    }
}

/// The generated `impl` block of a struct: the constructor, then the setters.
#[derive(Debug, PartialEq, Eq)]
pub struct ImplBlock {
    /// The name of the struct.
    pub ident: String,
    /// The constructor.
    pub new_fn: Constructor,
    /// The setters, in the order of their fields.
    pub optional_functions: Vec<Setter>,
}

/// The mathematical value of an [`ImplBlock`].
pub struct ImplModel {
    pub ident: Seq<char>,
    pub new_fn: ConstructorModel,
    pub optional_functions: Seq<SetterModel>,
}

impl View for ImplBlock {
    type V = ImplModel;

    open spec fn view(&self) -> ImplModel {
        ImplModel {
            ident: self.ident@,
            new_fn: self.new_fn@,
            optional_functions: setters_view(self.optional_functions@),
        }
    }
}

/// Why no `impl` block could be generated.
#[derive(Debug, PartialEq, Eq)]
pub enum DeriveError {
    /// The definition is not a struct with named fields.
    UnsupportedShape,
    /// The named field carries a description, which asks for a setter, but
    /// its type is not of the form `Option<T>`, so there is no inner type
    /// for the setter to take.
    SetterOnNonOptional { field: String },
}

impl DeriveError {
    /// The text of the diagnostic.
    pub fn message(&self) -> (text: String)
        ensures
            text@ == match self {
                DeriveError::UnsupportedShape =>
                    "#[derive(Payrex)] only supports structs with named fields"@,
                DeriveError::SetterOnNonOptional { field } => "the field `"@ + field@
                    + "` has a description, so its type must be `Option<T>`"@,
            },
    {
        match self {
            DeriveError::UnsupportedShape => {
                "#[derive(Payrex)] only supports structs with named fields".to_owned()
            },
            DeriveError::SetterOnNonOptional { field } => "the field `".to_owned().concat(
                field.as_str(),
            ).concat("` has a description, so its type must be `Option<T>`"),
        }
    }
}

/// The fixed description of a canonical field, by the field's name.
pub open spec fn canonical_setter_doc(name: Seq<char>) -> Option<Seq<char>> {
    if name == "metadata"@ {
        Some("Sets metadata in the query parameters."@)
    } else if name == "description"@ {
        Some("Sets the description in the query parameters."@)
    } else if name == "currency"@ {
        Some("Sets the currency in the query parameters."@)
    } else if name == "amount"@ {
        Some("Sets the amount in the query parameters."@)
    } else {
        None
    }
}

/// The fixed description of a canonical field, by the field's name: `Some`
/// for `metadata`, `description`, `currency` and `amount`.
pub fn canonical_description(name: &str) -> (doc: Option<String>)
    ensures
        opt_text_view(doc) == canonical_setter_doc(name@),
{
    if same_text(name, "metadata") {
        Some("Sets metadata in the query parameters.".to_owned())
    } else if same_text(name, "description") {
        Some("Sets the description in the query parameters.".to_owned())
    } else if same_text(name, "currency") {
        Some("Sets the currency in the query parameters.".to_owned())
    } else if same_text(name, "amount") {
        Some("Sets the amount in the query parameters.".to_owned())
    } else {
        None
    }
}

/// The description that a field carries of its own: the one attached to it,
/// unless that is empty. An empty description counts as none.
pub open spec fn own_description(f: FieldModel) -> Option<Seq<char>> {
    match f.description {
        Some(text) => if text.len() > 0 {
            Some(text)
        } else {
            None
        },
        None => None,
    }
}

/// The description that decides a field's way and documents its setter. It
/// is the field's own description where it carries one. Where it carries
/// none, a canonical field (`metadata`, `description`, `currency`, `amount`)
/// of a type `Option<T>` has its fixed description. Any other field has none.
pub open spec fn effective_description(f: FieldModel) -> Option<Seq<char>> {
    if own_description(f) is Some {
        own_description(f)
    } else if canonical_setter_doc(f.ident) is Some && f.ty.option_inner() is Some {
        canonical_setter_doc(f.ident)
    } else {
        None
    }
}

/// The way a field goes: to a setter where it has a description, out of the
/// constructor where it has none and holds the pagination parameters, into
/// the constructor otherwise.
pub open spec fn route(f: FieldModel) -> Route {
    if effective_description(f) is Some {
        Route::Setter
    } else if f.ty.last_ident_is("ListParams"@) {
        Route::Excluded
    } else {
        Route::Constructor
    }
}

/// The fields that become parameters of the constructor.
pub open spec fn is_required() -> spec_fn(FieldModel) -> bool {
    |f: FieldModel| route(f) == Route::Constructor
}

/// The fields that get a setter.
pub open spec fn is_setter() -> spec_fn(FieldModel) -> bool {
    |f: FieldModel| route(f) == Route::Setter
}

/// The fields that are left to be set after construction.
pub open spec fn is_excluded() -> spec_fn(FieldModel) -> bool {
    |f: FieldModel| route(f) == Route::Excluded
}

/// The setter of a field whose type is `Option<T>`, documented by `doc`.
/// The method and its parameter are named after the field. The method takes
/// the struct by value, puts the argument into the field as `Some(..)` and
/// returns the struct by value. The parameter is of type `T`; it is relaxed
/// exactly when `T` is an unqualified path that ends in `String`.
pub open spec fn setter_for(f: FieldModel, doc: Seq<char>) -> SetterModel
    recommends
        f.ty.option_inner() is Some,
{
    SetterModel {
        name: f.ident,
        field: f.ident,
        param: f.ident,
        doc,
        ty: f.ty.option_inner()->0,
        relaxed: f.ty.option_inner()->0.plain_last_ident_is("String"@),
        chaining: Chaining::ByValue,
        stored: Stored::Present,
    }
}

/// The setter of a setter-routed field, documented by the description that
/// routed it.
pub open spec fn setter_of() -> spec_fn(FieldModel) -> SetterModel {
    |f: FieldModel| setter_for(f, effective_description(f)->0)
}

/// The constructor parameter of a field. It is named after the field, which
/// it fills, and has the field's type. It is relaxed exactly when that type
/// is a path that ends in `String`.
pub open spec fn param_of() -> spec_fn(FieldModel) -> ParamModel {
    |f: FieldModel|
        ParamModel {
            name: f.ident,
            field: f.ident,
            ty: f.ty,
            relaxed: f.ty.last_ident_is("String"@),
        }
}

/// The constructor of the struct called `ident` with the given required
/// fields: one parameter per field, in order. Without required fields the
/// constructor takes nothing and returns the struct's default value.
pub open spec fn constructor_for(ident: Seq<char>, required: Seq<FieldModel>) -> ConstructorModel {
    ConstructorModel {
        doc: "Creates a new [`"@ + ident + "`] instance."@,
        params: required.map_values(param_of()),
        body: if required.len() == 0 {
            ConstructorBody::AllDefaults
        } else {
            ConstructorBody::FromParams
        },
    }
}

/// Whether every setter-routed field has a type of the form `Option<T>`.
pub open spec fn setters_well_typed(fields: Seq<FieldModel>) -> bool {
    forall|i: int|
        0 <= i < fields.len() && route(#[trigger] fields[i]) == Route::Setter
            ==> fields[i].ty.option_inner() is Some
}

/// The `impl` block of the struct called `ident` with the given fields.
pub open spec fn impl_block_for(ident: Seq<char>, fields: Seq<FieldModel>) -> ImplModel {
    ImplModel {
        ident,
        new_fn: constructor_for(ident, fields.filter(is_required())),
        optional_functions: fields.filter(is_setter()).map_values(setter_of()),
    }
}

/// Filtering one more element: the element is appended if it passes.
pub proof fn lemma_filter_step<A>(s: Seq<A>, pred: spec_fn(A) -> bool, i: int)
    requires
        0 <= i < s.len(),
    ensures
        s.take(i + 1).filter(pred) == if pred(s[i]) {
            s.take(i).filter(pred).push(s[i])
        } else {
            s.take(i).filter(pred)
        },
{
    reveal(Seq::filter);
    assert(s.take(i + 1).drop_last() =~= s.take(i));
}

/// Every field goes exactly one way, and the three ways together take up
/// the whole field list: the constructor's parameters, the setters and the
/// excluded fields are as many as the fields.
pub proof fn lemma_routes_partition(fields: Seq<FieldModel>)
    ensures
        forall|i: int|
            0 <= i < fields.len() ==> {
                let f = #[trigger] fields[i];
                &&& is_required()(f) || is_setter()(f) || is_excluded()(f)
                &&& !(is_required()(f) && is_setter()(f))
                &&& !(is_required()(f) && is_excluded()(f))
                &&& !(is_setter()(f) && is_excluded()(f))
            },
        fields.filter(is_required()).len() + fields.filter(is_setter()).len() + fields.filter(
            is_excluded(),
        ).len() == fields.len(),
    decreases fields.len(),
{
    reveal(Seq::filter);
    if fields.len() > 0 {
        lemma_routes_partition(fields.drop_last());
    }
}

/// Names carry over. There is one parameter of the constructor for each
/// required field, in order, named after the field that it fills. There is
/// one setter for each setter-routed field, in order; the method and its
/// parameter are named after the field that it sets, and the method takes
/// the struct by value, stores `Some(..)` and returns the struct by value.
pub proof fn lemma_generated_names(ident: Seq<char>, fields: Seq<FieldModel>)
    ensures
        ({
            let block = impl_block_for(ident, fields);
            let required = fields.filter(is_required());
            let described = fields.filter(is_setter());
            &&& block.new_fn.params.len() == required.len()
            &&& forall|k: int|
                0 <= k < required.len() ==> {
                    let p = #[trigger] block.new_fn.params[k];
                    p.name == required[k].ident && p.field == required[k].ident
                }
            &&& block.optional_functions.len() == described.len()
            &&& forall|k: int|
                0 <= k < described.len() ==> {
                    let m = #[trigger] block.optional_functions[k];
                    &&& m.name == described[k].ident
                    &&& m.param == described[k].ident
                    &&& m.field == described[k].ident
                    &&& Some(m.doc) == effective_description(described[k])
                    &&& m.chaining == Chaining::ByValue
                    &&& m.stored == Stored::Present
                }
        }),
{
    let described = fields.filter(is_setter());
    assert forall|k: int| 0 <= k < described.len() implies effective_description(
        #[trigger] described[k],
    ) is Some by {
        lemma_filter_member(fields, is_setter(), k);
    }
}

/// What passes a filter is among what the filter lets through.
pub proof fn lemma_filter_keeps<A>(s: Seq<A>, pred: spec_fn(A) -> bool, i: int)
    requires
        0 <= i < s.len(),
        pred(s[i]),
    ensures
        exists|k: int| 0 <= k < s.filter(pred).len() && s.filter(pred)[k] == s[i],
    decreases s.len(),
{
    reveal(Seq::filter);
    let rest = s.drop_last().filter(pred);
    if i == s.len() - 1 {
        assert(s.filter(pred)[rest.len() as int] == s[i]);
    } else {
        lemma_filter_keeps(s.drop_last(), pred, i);
        let k = choose|k: int| 0 <= k < rest.len() && rest[k] == s.drop_last()[i];
        assert(s.filter(pred)[k] == s[i]);
    }
}

/// No field is left out and none goes two ways. A field routed to the
/// constructor is the field of one of its parameters; a field routed to a
/// setter has its setter; a field that is left out holds the pagination
/// parameters and carries no description. What is a parameter's field is
/// routed to the constructor, and what has a setter is routed to a setter,
/// so nothing is both.
pub proof fn lemma_every_field_is_placed(ident: Seq<char>, fields: Seq<FieldModel>, i: int)
    requires
        0 <= i < fields.len(),
    ensures
        ({
            let block = impl_block_for(ident, fields);
            let f = fields[i];
            &&& route(f) == Route::Constructor ==> exists|k: int|
                0 <= k < block.new_fn.params.len() && #[trigger] block.new_fn.params[k]
                    == param_of()(f)
            &&& route(f) == Route::Setter ==> exists|k: int|
                0 <= k < block.optional_functions.len()
                    && #[trigger] block.optional_functions[k] == setter_of()(f)
            &&& route(f) == Route::Excluded ==> f.ty.last_ident_is("ListParams"@)
                && own_description(f) is None
        }),
        forall|k: int|
            0 <= k < fields.filter(is_required()).len() ==> route(
                #[trigger] fields.filter(is_required())[k],
            ) == Route::Constructor,
        forall|k: int|
            0 <= k < fields.filter(is_setter()).len() ==> route(
                #[trigger] fields.filter(is_setter())[k],
            ) == Route::Setter,
{
    let block = impl_block_for(ident, fields);
    let f = fields[i];
    if route(f) == Route::Constructor {
        lemma_filter_keeps(fields, is_required(), i);
        let k = choose|k: int|
            0 <= k < fields.filter(is_required()).len() && fields.filter(is_required())[k] == f;
        assert(block.new_fn.params[k] == param_of()(f));
    }
    if route(f) == Route::Setter {
        lemma_filter_keeps(fields, is_setter(), i);
        let k = choose|k: int|
            0 <= k < fields.filter(is_setter()).len() && fields.filter(is_setter())[k] == f;
        assert(block.optional_functions[k] == setter_of()(f));
    }
    assert forall|k: int| 0 <= k < fields.filter(is_required()).len() implies route(
        #[trigger] fields.filter(is_required())[k],
    ) == Route::Constructor by {
        lemma_filter_member(fields, is_required(), k);
    }
    assert forall|k: int| 0 <= k < fields.filter(is_setter()).len() implies route(
        #[trigger] fields.filter(is_setter())[k],
    ) == Route::Setter by {
        lemma_filter_member(fields, is_setter(), k);
    }
}

/// Generation fails on one kind of field only: a field that carries a
/// description of its own and whose type is not of the form `Option<T>`.
/// Every other field list yields its `impl` block.
pub proof fn lemma_well_typed_setters(fields: Seq<FieldModel>)
    ensures
        setters_well_typed(fields) <==> forall|i: int|
            0 <= i < fields.len() && own_description(#[trigger] fields[i]) is Some
                ==> fields[i].ty.option_inner() is Some,
{
    if setters_well_typed(fields) {
        assert forall|i: int|
            0 <= i < fields.len() && own_description(
                #[trigger] fields[i],
            ) is Some implies fields[i].ty.option_inner() is Some by {
            assert(route(fields[i]) == Route::Setter);
        }
    }
}

/// Only strings are relaxed. A parameter of the constructor has the type of
/// its field and takes anything convertible exactly when that type ends in
/// `String`. A setter has the type inside its field's `Option` and takes
/// anything convertible exactly when that type is an unqualified path that
/// ends in `String`. Everything else is taken and stored as it is.
pub proof fn lemma_string_relaxation(ident: Seq<char>, fields: Seq<FieldModel>)
    requires
        setters_well_typed(fields),
    ensures
        ({
            let block = impl_block_for(ident, fields);
            let required = fields.filter(is_required());
            let described = fields.filter(is_setter());
            &&& forall|k: int|
                0 <= k < required.len() ==> {
                    let p = #[trigger] block.new_fn.params[k];
                    p.ty == required[k].ty && (p.relaxed <==> required[k].ty.last_ident_is(
                        "String"@,
                    ))
                }
            &&& forall|k: int|
                0 <= k < described.len() ==> {
                    let s = #[trigger] block.optional_functions[k];
                    described[k].ty.option_inner() == Some(s.ty) && (s.relaxed
                        <==> s.ty.plain_last_ident_is("String"@))
                }
        }),
{
    let described = fields.filter(is_setter());
    assert forall|k: int| 0 <= k < described.len() implies (#[trigger] described[k]).ty.option_inner()
        is Some by {
        lemma_filter_member(fields, is_setter(), k);
    }
}

/// A struct without required fields gets the constructor that takes nothing
/// and returns the default value.
pub proof fn lemma_no_required_fields(ident: Seq<char>, fields: Seq<FieldModel>)
    requires
        forall|i: int| 0 <= i < fields.len() ==> route(#[trigger] fields[i]) != Route::Constructor,
    ensures
        impl_block_for(ident, fields).new_fn.params.len() == 0,
        impl_block_for(ident, fields).new_fn.body == ConstructorBody::AllDefaults,
{
    let required = fields.filter(is_required());
    if required.len() > 0 {
        lemma_filter_member(fields, is_required(), 0);
    }
}

/// The ways of the canonical fields. The appended `metadata` and
/// `description` get a setter, documented by their fixed descriptions, and
/// have a type of the form `Option<T>`. The appended `amount`, `livemode`,
/// `created_at`, `updated_at` and `currency` are parameters of the
/// constructor.
pub proof fn lemma_canonical_routes(key: Seq<char>)
    ensures
        route(amount_field()) == Route::Constructor,
        route(livemode_field()) == Route::Constructor,
        route(created_at_field()) == Route::Constructor,
        route(updated_at_field()) == Route::Constructor,
        route(currency_field()) == Route::Constructor,
        route(metadata_field()) == Route::Setter,
        route(description_field(key)) == Route::Setter,
        setter_of()(metadata_field()) == (SetterModel {
            name: "metadata"@,
            field: "metadata"@,
            param: "metadata"@,
            doc: "Sets metadata in the query parameters."@,
            ty: TypeModel::named("Metadata"@),
            relaxed: false,
            chaining: Chaining::ByValue,
            stored: Stored::Present,
        }),
        setter_of()(description_field(key)) == (SetterModel {
            name: "description"@,
            field: "description"@,
            param: "description"@,
            doc: "Sets the description in the query parameters."@,
            ty: TypeModel::named("String"@),
            relaxed: true,
            chaining: Chaining::ByValue,
            stored: Stored::Present,
        }),
{
    reveal_strlit("amount");
    reveal_strlit("metadata");
    reveal_strlit("description");
    reveal_strlit("currency");
    reveal_strlit("livemode");
    reveal_strlit("created_at");
    reveal_strlit("updated_at");
    reveal_strlit("u64");
    reveal_strlit("bool");
    reveal_strlit("Timestamp");
    reveal_strlit("Currency");
    reveal_strlit("Metadata");
    reveal_strlit("String");
    reveal_strlit("Option");
    reveal_strlit("ListParams");
    assert("amount"@.len() == 6 && "metadata"@.len() == 8 && "description"@.len() == 11);
    assert("currency"@.len() == 8 && "livemode"@.len() == 8 && "created_at"@.len() == 10);
    assert("updated_at"@.len() == 10 && "u64"@.len() == 3 && "bool"@.len() == 4);
    assert("Timestamp"@.len() == 9 && "Currency"@.len() == 8 && "Metadata"@.len() == 8);
    assert("String"@.len() == 6 && "Option"@.len() == 6 && "ListParams"@.len() == 10);
    assert("livemode"@[0] == 'l' && "metadata"@[0] == 'm' && "currency"@[0] == 'c');
    assert("String"@[0] == 'S' && "Option"@[0] == 'O' && "Metadata"@[0] == 'M');
    assert("Currency"@[0] == 'C' && "ListParams"@[0] == 'L');
    assert("created_at"@[0] == 'c' && "updated_at"@[0] == 'u');
    let metadata_ty = TypeModel::option_of(TypeModel::named("Metadata"@));
    assert(metadata_ty->segments.last().ident == "Option"@);
    assert(metadata_ty->segments.last().args->AngleBracketed_0.len() == 1);
    assert(metadata_ty.option_inner() == Some(TypeModel::named("Metadata"@)));
    let description_ty = TypeModel::option_of(TypeModel::named("String"@));
    assert(description_ty->segments.last().ident == "Option"@);
    assert(description_ty->segments.last().args->AngleBracketed_0.len() == 1);
    assert(description_ty.option_inner() == Some(TypeModel::named("String"@)));
    assert(TypeModel::named("String"@)->segments.last().ident == "String"@);
    assert(TypeModel::named("Metadata"@)->segments.last().ident == "Metadata"@);
    assert(TypeModel::named("u64"@)->segments.last().ident == "u64"@);
    assert(TypeModel::named("bool"@)->segments.last().ident == "bool"@);
    assert(TypeModel::named("Timestamp"@)->segments.last().ident == "Timestamp"@);
    assert(TypeModel::named("Currency"@)->segments.last().ident == "Currency"@);
}

/// What a filter lets through passes the filter and comes from the list.
pub proof fn lemma_filter_member<A>(s: Seq<A>, pred: spec_fn(A) -> bool, k: int)
    requires
        0 <= k < s.filter(pred).len(),
    ensures
        pred(s.filter(pred)[k]),
        exists|i: int| 0 <= i < s.len() && s[i] == s.filter(pred)[k],
    decreases s.len(),
{
    reveal(Seq::filter);
    if s.len() > 0 {
        let rest = s.drop_last().filter(pred);
        if k < rest.len() {
            lemma_filter_member(s.drop_last(), pred, k);
            let i = choose|i: int| 0 <= i < s.drop_last().len() && s.drop_last()[i] == rest[k];
            assert(s[i] == s.filter(pred)[k]);
        } else {
            assert(s[s.len() - 1] == s.filter(pred)[k]);
        }
    }
}

/// The description that decides the way of `field`, as its receiver: the
/// field's own description unless that is empty, else the fixed description
/// of a canonical field of a type `Option<T>`, else none.
pub fn receiver_of(field: &FieldSpec) -> (receiver: PayrexFieldReceiver)
    ensures
        opt_text_view(receiver.description) == effective_description(field@),
{
    let own = match &field.description {
        Some(text) => !text.as_str().is_empty(),
        None => false,
    };
    if own {
        PayrexFieldReceiver { description: clone_opt_text(&field.description) }
    } else if get_option_inner(&field.ty).is_some() {
        PayrexFieldReceiver { description: canonical_description(field.ident.as_str()) }
    } else {
        PayrexFieldReceiver { description: None }
    }
}

/// The way `field` goes.
pub fn classify(field: &FieldSpec) -> (r: Route)
    ensures
        r == route(field@),
{
    let receiver = receiver_of(field);
    if receiver.description.is_some() {
        Route::Setter
    } else if is_type(&field.ty, "ListParams") {
        Route::Excluded
    } else {
        Route::Constructor
    }
}

/// Appends the setter of `field` to `functions`: exactly one method behind
/// those already there, which stay as they are. The method and its
/// parameter are named after the field, which the method sets. It is
/// documented by the receiver's description, takes the struct by value,
/// stores the argument as `Some(..)` and returns the struct by value. Its
/// parameter has the type inside the field's `Option`; where that type is a
/// string it takes anything convertible into one.
pub fn gen_optional_function(
    field: &FieldSpec,
    receiver: PayrexFieldReceiver,
    functions: &mut Vec<Setter>,
)
    requires
        field.ty@.option_inner() is Some,
        receiver.description is Some,
    ensures
        setters_view(final(functions)@) == setters_view(old(functions)@).push(
            setter_for(field@, receiver.description->0@),
        ),
        final(functions)@.len() == old(functions)@.len() + 1,
        final(functions)@.drop_last() == old(functions)@,
        final(functions)@.last()@.name == field@.ident,
        final(functions)@.last()@.param == field@.ident,
        final(functions)@.last()@.field == field@.ident,
        final(functions)@.last()@.doc == receiver.description->0@,
        final(functions)@.last()@.chaining == Chaining::ByValue,
        final(functions)@.last()@.stored == Stored::Present,
        Some(final(functions)@.last()@.ty) == field@.ty.option_inner(),
{
    let inner_ty = get_option_inner(&field.ty).unwrap();
    let docs = receiver.description.unwrap();
    let relaxed = is_type_deep(inner_ty, "String");
    let setter = Setter {
        name: field.ident.clone(),
        field: field.ident.clone(),
        param: field.ident.clone(),
        doc: docs,
        ty: inner_ty.clone(),
        relaxed,
        chaining: Chaining::ByValue,
        stored: Stored::Present,
    };
    functions.push(setter);
    assert(setters_view(functions@) =~= setters_view(old(functions)@).push(setter@));
    assert(functions@.drop_last() =~= old(functions)@);
}

/// The constructor of the struct called `ident` whose required fields are
/// `fields`: one parameter per field, in order, named after the field that
/// it fills and of the field's type; a field whose type ends in `String`
/// takes anything convertible into one. Every other field of the struct is
/// left at its default. Without fields the constructor takes nothing and
/// returns the default value.
pub fn gen_required_functions(ident: &str, fields: FieldList) -> (r: Constructor)
    ensures
        r@ == constructor_for(ident@, field_list_view(fields)),
        r@.params.len() == field_list_view(fields).len(),
        forall|i: int|
            0 <= i < r@.params.len() ==> {
                let p = #[trigger] r@.params[i];
                let f = field_list_view(fields)[i];
                p.name == f.ident && p.field == f.ident && p.ty == f.ty
            },
        field_list_view(fields).len() == 0 <==> r.body == ConstructorBody::AllDefaults,
{
    let docs = "Creates a new [`".to_owned().concat(ident).concat("`] instance.");
    if field_list_is_empty(&fields) {
        let r = Constructor { doc: docs, params: Vec::new(), body: ConstructorBody::AllDefaults };
        assert(r@.params =~= constructor_for(ident@, field_list_view(fields)).params);
        return r;
    }
    let mut params: Vec<Param> = Vec::new();
    let n = field_list_len(&fields);
    let mut i: usize = 0;
    while i < n
        invariant
            n == field_list_items(fields).len(),
            i <= n,
            params.len() == i,
            forall|j: int| 0 <= j < i ==> params[j]@ == param_of()(field_list_items(fields)[j]@),
        decreases n - i,
    {
        let field = field_list_get(&fields, i);
        let relaxed = is_type(&field.ty, "String");
        params.push(
            Param {
                name: field.ident.clone(),
                field: field.ident.clone(),
                ty: field.ty.clone(),
                relaxed,
            },
        );
        i += 1;
    }
    let r = Constructor { doc: docs, params, body: ConstructorBody::FromParams };
    assert(r@.params =~= constructor_for(ident@, field_list_view(fields)).params);
    r
}

/// The `impl` block of a struct with named fields: the constructor over the
/// required fields and one setter per described field, both in the order of
/// the fields.
///
/// Any other definition is refused as [`DeriveError::UnsupportedShape`]. A
/// field that carries a description but whose type is not of the form
/// `Option<T>` cannot have a setter; the first such field, in declaration
/// order, is reported as [`DeriveError::SetterOnNonOptional`].
pub fn derive_handler(input: &Item) -> (r: Result<ImplBlock, DeriveError>)
    ensures
        match input.shape {
            Shape::Named(list) => {
                let fields = field_list_view(list);
                if setters_well_typed(fields) {
                    r matches Ok(block) && block@ == impl_block_for(input.ident@, fields)
                } else {
                    r matches Err(DeriveError::SetterOnNonOptional { field }) && exists|i: int|
                        {
                            &&& 0 <= i < fields.len()
                            &&& #[trigger] route(fields[i]) == Route::Setter
                            &&& own_description(fields[i]) is Some
                            &&& fields[i].ty.option_inner() is None
                            &&& field@ == fields[i].ident
                            &&& setters_well_typed(fields.take(i))
                        }
                }
            },
            Shape::Other => r == Err::<ImplBlock, DeriveError>(DeriveError::UnsupportedShape),
        },
{
    match &input.shape {
        Shape::Named(list) => {
            let ghost fields = field_list_view(*list);
            let mut optional_functions: Vec<Setter> = Vec::new();
            let mut required_fields = field_list_new();
            let n = field_list_len(list);
            let mut i: usize = 0;
            proof {
                reveal(Seq::filter);
                assert(fields.take(0).filter(is_required()) =~= Seq::<FieldModel>::empty());
                assert(fields.take(0).filter(is_setter()) =~= Seq::<FieldModel>::empty());
                assert(field_list_view(required_fields) =~= fields.take(0).filter(is_required()));
                assert(setters_view(optional_functions@) =~= fields.take(0).filter(
                    is_setter(),
                ).map_values(setter_of()));
            }
            while i < n
                invariant
                    input.shape == Shape::Named(*list),
                    fields == field_list_view(*list),
                    n == field_list_items(*list).len(),
                    i <= n,
                    setters_well_typed(fields.take(i as int)),
                    field_list_view(required_fields) == fields.take(i as int).filter(
                        is_required(),
                    ),
                    setters_view(optional_functions@) == fields.take(i as int).filter(
                        is_setter(),
                    ).map_values(setter_of()),
                decreases n - i,
            {
                let field = field_list_get(list, i);
                let receiver = receiver_of(field);
                proof {
                    lemma_filter_step(fields, is_required(), i as int);
                    lemma_filter_step(fields, is_setter(), i as int);
                    assert(fields[i as int] == field@);
                    assert(fields.take(i + 1).take(i as int) =~= fields.take(i as int));
                }
                if receiver.description.is_some() {
                    if get_option_inner(&field.ty).is_none() {
                        let name = field.ident.clone();
                        proof {
                            let k = i as int;
                            assert(route(fields[k]) == Route::Setter);
                            assert(fields[k].ty.option_inner() is None);
                            assert(name@ == fields[k].ident);
                            assert(!setters_well_typed(fields));
                        }
                        return Err(DeriveError::SetterOnNonOptional { field: name });
                    }
                    gen_optional_function(field, receiver, &mut optional_functions);
                    proof {
                        assert(setters_view(optional_functions@) =~= fields.take(i + 1).filter(
                            is_setter(),
                        ).map_values(setter_of()));
                    }
                } else if !is_type(&field.ty, "ListParams") {
                    let copy = field.clone();
                    field_list_push(&mut required_fields, copy);
                    proof {
                        assert(field_list_view(required_fields) =~= fields.take(i + 1).filter(
                            is_required(),
                        ));
                    }
                }
                proof {
                    assert forall|j: int|
                        0 <= j < fields.take(i + 1).len() && route(
                            #[trigger] fields.take(i + 1)[j],
                        ) == Route::Setter implies fields.take(i + 1)[j].ty.option_inner()
                        is Some by {
                        if j < i {
                            assert(fields.take(i as int)[j] == fields.take(i + 1)[j]);
                        }
                    }
                }
                i += 1;
            }
            proof {
                assert(fields.take(n as int) =~= fields);
            }
            let new_fn = gen_required_functions(input.ident.as_str(), required_fields);
            Ok(ImplBlock { ident: input.ident.clone(), new_fn, optional_functions })
        },
        Shape::Other => Err(DeriveError::UnsupportedShape),
    }
}

} // verus!
