//! The first step of the generator: the switches of a struct's annotation
//! append canonical fields to the struct's own fields and, on request, give
//! the struct a mirror in which every field is optional.

use vstd::prelude::*;
use vstd::string::StringExecFns;
use crate::codegen::field::{
    clone_field_list,
    field_list_get,
    field_list_items,
    field_list_len,
    field_list_new,
    field_list_push,
    field_list_view,
    FieldList,
    FieldModel,
    FieldSpec,
};
use crate::codegen::ty::{is_type, TypeModel, TypeRef};
use crate::text::{clone_texts, opt_text_view, push_text, same_text, texts_view};

verus! {

/// The switches that a struct's annotation can set.
#[derive(Debug, PartialEq, Eq)]
pub struct PayrexAttrs {
    /// Append the `created_at` and `updated_at` fields.
    pub timestamp: bool,
    /// Append the `metadata` field.
    pub metadata: bool,
    /// Append the `amount` field.
    pub amount: bool,
    /// Append the `livemode` field.
    pub livemode: bool,
    /// Append the `description` field, documented by the template that the key selects.
    pub description: Option<String>,
    /// Append the `currency` field.
    pub currency: bool,
    /// Generate the mirror struct in which every field is optional.
    pub optional: bool,
}

/// The mathematical value of a [`PayrexAttrs`].
pub struct AttrsModel {
    pub timestamp: bool,
    pub metadata: bool,
    pub amount: bool,
    pub livemode: bool,
    pub description: Option<Seq<char>>,
    pub currency: bool,
    pub optional: bool,
}

impl View for PayrexAttrs {
    type V = AttrsModel;

    open spec fn view(&self) -> AttrsModel {
        AttrsModel {
            timestamp: self.timestamp,
            metadata: self.metadata,
            amount: self.amount,
            livemode: self.livemode,
            description: opt_text_view(self.description),
            currency: self.currency,
            optional: self.optional,
        }
    }
}

impl AttrsModel {
    /// No switch set.
    pub open spec fn none() -> AttrsModel {
        AttrsModel {
            timestamp: false,
            metadata: false,
            amount: false,
            livemode: false,
            description: None,
            currency: false,
            optional: false,
        }
    }
}

impl Default for PayrexAttrs {
    /// No switch set.
    fn default() -> (r: Self)
        ensures
            r@ == AttrsModel::none(),
    {
        PayrexAttrs {
            timestamp: false,
            metadata: false,
            amount: false,
            livemode: false,
            description: None,
            currency: false,
            optional: false,
        }
    }
}

/// The documentation of the appended `description` field for a template key.
/// A key outside the closed set of templates selects the empty text.
pub open spec fn description_template(key: Seq<char>) -> Seq<char> {
    if key == "refund"@ {
        "An arbitrary string attached to the Refund."@
    } else if key == "payment"@ {
        "An arbitrary string attached to the Payment. Useful reference when viewing Payment from [PayRex Dashboard](https://dashboard.payrexhq.com)."@
    } else if key == "payment_intent"@ {
        "An arbitrary string attached to the Payment Intent. Useful reference when viewing paid payments from the [PayRex Dashboard](https://dashboard.payrexhq.com)."@
    } else if key == "webhook"@ {
        "An arbitrary string attached to the Webhook. You can use this to give more information about the Webhook resource."@
    } else if key == "checkout_session"@ {
        "An arbitrary string attached to the CheckoutSession. Useful reference when viewing paid Payment from PayRex Dashboard."@
    } else if key == "billing_statements"@ {
        "\nAn arbitrary string attached to the billing statement and copied over to its payment intent. This is a useful reference when viewing the payment resources associated with the billing statement from the PayRex Dashboard.\n\nIf the description is not modified, the default value is \"Payment for Billing Statement <billing statement number>\"\n                    "@
    } else if key == "billing_statement_line_items"@ {
        "The description attribute describes the line item of the billing statement. It could be a product you sell or a service you provide to your customers."@
    } else {
        ""@
    }
}

/// The documentation of the appended `description` field for a template key.
pub fn description_doc(key: &str) -> (doc: String)
    ensures
        doc@ == description_template(key@),
{
    if same_text(key, "refund") {
        "An arbitrary string attached to the Refund.".to_owned()
    } else if same_text(key, "payment") {
        "An arbitrary string attached to the Payment. Useful reference when viewing Payment from [PayRex Dashboard](https://dashboard.payrexhq.com).".to_owned()
    } else if same_text(key, "payment_intent") {
        "An arbitrary string attached to the Payment Intent. Useful reference when viewing paid payments from the [PayRex Dashboard](https://dashboard.payrexhq.com).".to_owned()
    } else if same_text(key, "webhook") {
        "An arbitrary string attached to the Webhook. You can use this to give more information about the Webhook resource.".to_owned()
    } else if same_text(key, "checkout_session") {
        "An arbitrary string attached to the CheckoutSession. Useful reference when viewing paid Payment from PayRex Dashboard.".to_owned()
    } else if same_text(key, "billing_statements") {
        "\nAn arbitrary string attached to the billing statement and copied over to its payment intent. This is a useful reference when viewing the payment resources associated with the billing statement from the PayRex Dashboard.\n\nIf the description is not modified, the default value is \"Payment for Billing Statement <billing statement number>\"\n                    ".to_owned()
    } else if same_text(key, "billing_statement_line_items") {
        "The description attribute describes the line item of the billing statement. It could be a product you sell or a service you provide to your customers.".to_owned()
    } else {
        "".to_owned()
    }
}

/// The appended `amount` field: a required `u64`.
pub open spec fn amount_field() -> FieldModel {
    FieldModel {
        ident: "amount"@,
        ty: TypeModel::named("u64"@),
        docs: seq![
            " The amount of the payment to be transferred to your PayRex merchant account. This is a"@,
            " positive integer that your customer paid in the smallest currency unit, cents. If the"@,
            " customer paid ₱ 120.50, the amount of the Payment should be 12050."@,
            ""@,
            " The minimum amount is ₱ 20 (2000 in cents) and the maximum amount is ₱ 59,999,999.99"@,
            " (5999999999 in cents)."@,
        ],
        description: None,
        omit_if_absent: false,
    }
}

/// The appended `metadata` field: an optional `Metadata`, left out when absent.
pub open spec fn metadata_field() -> FieldModel {
    FieldModel {
        ident: "metadata"@,
        ty: TypeModel::option_of(TypeModel::named("Metadata"@)),
        docs: seq![
            " A set of key-value pairs attached to the Payment. This is useful for storing additional"@,
            " information about the Payment."@,
        ],
        description: None,
        omit_if_absent: true,
    }
}

/// The appended `description` field: an optional `String`, left out when
/// absent, documented by the template that `key` selects.
pub open spec fn description_field(key: Seq<char>) -> FieldModel {
    FieldModel {
        ident: "description"@,
        ty: TypeModel::option_of(TypeModel::named("String"@)),
        docs: seq![description_template(key)],
        description: None,
        omit_if_absent: true,
    }
}

/// The appended `livemode` field: a required `bool`.
pub open spec fn livemode_field() -> FieldModel {
    FieldModel {
        ident: "livemode"@,
        ty: TypeModel::named("bool"@),
        docs: seq![
            " The value is `true` if the resource's mode is live or the value is `false` if the resource is"@,
            " in test mode."@,
        ],
        description: None,
        omit_if_absent: false,
    }
}

/// The appended `created_at` field: a required `Timestamp`.
pub open spec fn created_at_field() -> FieldModel {
    FieldModel {
        ident: "created_at"@,
        ty: TypeModel::named("Timestamp"@),
        docs: seq![
            " The time the resource was created and measured in seconds since the Unix epoch."@,
        ],
        description: None,
        omit_if_absent: false,
    }
}

/// The appended `updated_at` field: a required `Timestamp`.
pub open spec fn updated_at_field() -> FieldModel {
    FieldModel {
        ident: "updated_at"@,
        ty: TypeModel::named("Timestamp"@),
        docs: seq![
            " The time the resource was updated and measured in seconds since the Unix epoch."@,
        ],
        description: None,
        omit_if_absent: false,
    }
}

/// The appended `currency` field: a required `Currency`.
pub open spec fn currency_field() -> FieldModel {
    FieldModel {
        ident: "currency"@,
        ty: TypeModel::named("Currency"@),
        docs: seq![
            " A three-letter ISO currency code in uppercase. As of the moment, we only support PHP."@,
        ],
        description: None,
        omit_if_absent: false,
    }
}

/// What the `amount` switch appends.
pub open spec fn amount_fields(opts: AttrsModel) -> Seq<FieldModel> {
    if opts.amount {
        seq![amount_field()]
    } else {
        Seq::empty()
    }
}

/// What the `metadata` switch appends.
pub open spec fn metadata_fields(opts: AttrsModel) -> Seq<FieldModel> {
    if opts.metadata {
        seq![metadata_field()]
    } else {
        Seq::empty()
    }
}

/// What the `description` switch appends.
pub open spec fn description_fields(opts: AttrsModel) -> Seq<FieldModel> {
    match opts.description {
        Some(key) => seq![description_field(key)],
        None => Seq::empty(),
    }
}

/// What the `livemode` switch appends.
pub open spec fn livemode_fields(opts: AttrsModel) -> Seq<FieldModel> {
    if opts.livemode {
        seq![livemode_field()]
    } else {
        Seq::empty()
    }
}

/// What the `timestamp` switch appends: the pair `created_at`, `updated_at`.
pub open spec fn timestamp_fields(opts: AttrsModel) -> Seq<FieldModel> {
    if opts.timestamp {
        seq![created_at_field(), updated_at_field()]
    } else {
        Seq::empty()
    }
}

/// What the `currency` switch appends.
pub open spec fn currency_fields(opts: AttrsModel) -> Seq<FieldModel> {
    if opts.currency {
        seq![currency_field()]
    } else {
        Seq::empty()
    }
}

/// Everything the switches append, in the canonical order: amount, metadata,
/// description, livemode, the timestamp pair, currency.
pub open spec fn canonical_fields(opts: AttrsModel) -> Seq<FieldModel> {
    amount_fields(opts) + metadata_fields(opts) + description_fields(opts) + livemode_fields(opts)
        + timestamp_fields(opts) + currency_fields(opts)
}

/// The place of a canonical field in the canonical order, by the field's name.
pub open spec fn canonical_rank(name: Seq<char>) -> int {
    if name == "amount"@ {
        0
    } else if name == "metadata"@ {
        1
    } else if name == "description"@ {
        2
    } else if name == "livemode"@ {
        3
    } else if name == "created_at"@ {
        4
    } else if name == "updated_at"@ {
        5
    } else if name == "currency"@ {
        6
    } else {
        7
    }
}

/// The canonical fields always come in the canonical order: whatever the
/// switches, a field that stands before another among the appended fields
/// also stands before it in the order amount, metadata, description,
/// livemode, `created_at`, `updated_at`, currency.
pub proof fn lemma_canonical_order(opts: AttrsModel, i: int, j: int)
    requires
        0 <= i < j < canonical_fields(opts).len(),
    ensures
        canonical_rank(canonical_fields(opts)[i].ident) < canonical_rank(
            canonical_fields(opts)[j].ident,
        ),
{
    reveal_strlit("amount");
    reveal_strlit("metadata");
    reveal_strlit("description");
    reveal_strlit("livemode");
    reveal_strlit("created_at");
    reveal_strlit("updated_at");
    reveal_strlit("currency");
    assert("amount"@.len() == 6 && "metadata"@.len() == 8 && "description"@.len() == 11);
    assert("livemode"@[0] == 'l' && "metadata"@[0] == 'm' && "currency"@[0] == 'c');
    assert("created_at"@[0] == 'c' && "updated_at"@[0] == 'u' && "currency"@.len() == 8);
    let a = amount_fields(opts);
    let b = metadata_fields(opts);
    let c = description_fields(opts);
    let d = livemode_fields(opts);
    let e = timestamp_fields(opts);
    let f = currency_fields(opts);
    let all = canonical_fields(opts);
    assert(all == a + b + c + d + e + f);
    assert(forall|k: int| 0 <= k < a.len() ==> canonical_rank(#[trigger] a[k].ident) == 0);
    assert(forall|k: int| 0 <= k < b.len() ==> canonical_rank(#[trigger] b[k].ident) == 1);
    assert(forall|k: int| 0 <= k < c.len() ==> canonical_rank(#[trigger] c[k].ident) == 2);
    assert(forall|k: int| 0 <= k < d.len() ==> canonical_rank(#[trigger] d[k].ident) == 3);
    assert(forall|k: int| 0 <= k < e.len() ==> canonical_rank(#[trigger] e[k].ident) == 4 + k);
    assert(forall|k: int| 0 <= k < f.len() ==> canonical_rank(#[trigger] f[k].ident) == 6);
}

/// The field of the mirror struct that stands for `f`: the same name and
/// documentation, the type wrapped in `Option` unless its last path segment
/// already is `Option`, no description, and left out when absent.
pub open spec fn mirror_field(f: FieldModel) -> FieldModel {
    FieldModel {
        ident: f.ident,
        ty: if f.ty.last_ident_is("Option"@) {
            f.ty
        } else {
            TypeModel::option_of(f.ty)
        },
        docs: f.docs,
        description: None,
        omit_if_absent: true,
    }
}

/// The fields of the mirror struct of a field list.
pub open spec fn mirror_fields(fields: Seq<FieldModel>) -> Seq<FieldModel> {
    fields.map_values(|f: FieldModel| mirror_field(f))
}

/// In the mirror every field is optional. The mirror has the fields of the
/// struct, in their order and under their names and documentation; each is
/// left out when absent and has a type that ends in `Option`: the field's
/// own type where that ends in `Option` already, else the field's type
/// wrapped once.
pub proof fn lemma_mirror_fields(fields: Seq<FieldModel>)
    ensures
        mirror_fields(fields).len() == fields.len(),
        forall|i: int|
            0 <= i < fields.len() ==> {
                let f = fields[i];
                let m = #[trigger] mirror_fields(fields)[i];
                &&& m.ident == f.ident
                &&& m.docs == f.docs
                &&& m.description is None
                &&& m.omit_if_absent
                &&& m.ty.last_ident_is("Option"@)
                &&& f.ty.last_ident_is("Option"@) ==> m.ty == f.ty
                &&& !f.ty.last_ident_is("Option"@) ==> m.ty.option_inner() == Some(f.ty)
            },
{
    assert forall|i: int| 0 <= i < fields.len() implies ({
        let f = fields[i];
        let m = #[trigger] mirror_fields(fields)[i];
        &&& m.ty.last_ident_is("Option"@)
        &&& !f.ty.last_ident_is("Option"@) ==> m.ty.option_inner() == Some(f.ty)
    }) by {
        let f = fields[i];
        if !f.ty.last_ident_is("Option"@) {
            let wrapped = TypeModel::option_of(f.ty);
            assert(wrapped->segments.len() == 1);
            assert(wrapped->segments.last().ident == "Option"@);
            assert(wrapped->segments.last().args->AngleBracketed_0.len() == 1);
        }
    }
}

/// The mirror of a mirror is the mirror: nothing is wrapped twice.
pub proof fn lemma_mirror_idempotent(fields: Seq<FieldModel>)
    ensures
        mirror_fields(mirror_fields(fields)) == mirror_fields(fields),
{
    lemma_mirror_fields(fields);
    assert(mirror_fields(mirror_fields(fields)) =~= mirror_fields(fields));
}

/// The mirror struct of a struct: a second struct definition with the same
/// fields, each of them optional.
#[derive(Debug, PartialEq, Eq)]
pub struct MirrorStruct {
    /// The name of the mirror struct.
    pub ident: String,
    /// The documentation of the mirror struct.
    pub doc: String,
    /// The traits that the mirror struct derives, in order.
    pub derives: Vec<String>,
    /// The fields of the mirror struct.
    pub fields: FieldList,
}

/// The mathematical value of a [`MirrorStruct`].
pub struct MirrorModel {
    pub ident: Seq<char>,
    pub doc: Seq<char>,
    pub derives: Seq<Seq<char>>,
    pub fields: Seq<FieldModel>,
}

impl View for MirrorStruct {
    type V = MirrorModel;

    open spec fn view(&self) -> MirrorModel {
        MirrorModel {
            ident: self.ident@,
            doc: self.doc@,
            derives: texts_view(self.derives@),
            fields: field_list_view(self.fields),
        }
    }
}

/// The mirror struct of the struct called `ident` with the given fields.
pub open spec fn mirror_of(ident: Seq<char>, fields: Seq<FieldModel>) -> MirrorModel {
    MirrorModel {
        ident: "Optional"@ + ident,
        doc: "Optional variant for "@ + ident
            + ". This is only used for responses in billing statements API."@,
        derives: seq![
            "Debug"@,
            "Clone"@,
            "PartialEq"@,
            "Eq"@,
            "Serialize"@,
            "Deserialize"@,
        ],
        fields: mirror_fields(fields),
    }
}

/// The values of a list of mirror structs, in order.
pub open spec fn mirrors_view(mirrors: Seq<MirrorStruct>) -> Seq<MirrorModel> {
    mirrors.map_values(|m: MirrorStruct| m@)
}

/// The switches of one annotated struct together with the struct's field
/// list, which the switches extend step by step, and the mirror structs
/// generated so far.
#[derive(Debug, PartialEq, Eq)]
pub struct ParsedPayrexAttrs {
    /// The switches that were given.
    pub attrs: PayrexAttrs,
    /// The fields of the struct, in declaration order.
    pub fields: FieldList,
    /// The mirror structs generated so far.
    pub optional_struct: Vec<MirrorStruct>,
}

/// A mirror struct is a copy of its own. Whatever is done to the mirror
/// structs of an expanded struct, the field list of the struct itself stays
/// as it is, and so do its switches.
pub proof fn lemma_mirror_independent(expanded: ParsedPayrexAttrs, changed: Vec<MirrorStruct>)
    ensures
        (ParsedPayrexAttrs { optional_struct: changed, ..expanded }).fields == expanded.fields,
        (ParsedPayrexAttrs { optional_struct: changed, ..expanded }).fields_view()
            == expanded.fields_view(),
        (ParsedPayrexAttrs { optional_struct: changed, ..expanded }).options()
            == expanded.options(),
{
}

impl From<PayrexAttrs> for ParsedPayrexAttrs {
    /// The switches with an empty field list and no mirror struct.
    fn from(value: PayrexAttrs) -> (r: Self)
        ensures
            r.attrs == value,
            field_list_items(r.fields) == Seq::<FieldSpec>::empty(),
            r.optional_struct@ == Seq::<MirrorStruct>::empty(),
    {
        ParsedPayrexAttrs { attrs: value, fields: field_list_new(), optional_struct: Vec::new() }
    }
}

impl vstd::std_specs::convert::FromSpecImpl<PayrexAttrs> for ParsedPayrexAttrs {
    /// The conversion is stated by the `ensures` of `from`, over the field
    /// list's contents; no single value is named here.
    open spec fn obeys_from_spec() -> bool {
        false
    }

    open spec fn from_spec(value: PayrexAttrs) -> Self {
        arbitrary()
    }
}

impl ParsedPayrexAttrs {
    /// The values of the switches.
    pub open spec fn options(&self) -> AttrsModel {
        self.attrs@
    }

    /// The values of the fields, in order.
    pub open spec fn fields_view(&self) -> Seq<FieldModel> {
        field_list_view(self.fields)
    }

    /// Replaces the field list by a copy of `fields`.
    pub fn set_fields(self, fields: &mut FieldList) -> (r: Self)
        ensures
            *final(fields) == *old(fields),
            r.options() == self.options(),
            r.optional_struct == self.optional_struct,
            r.fields_view() == field_list_view(*old(fields)),
    {
        let mut r = self;
        r.fields = clone_field_list(fields);
        r
    }

    fn push_field(&mut self, field: FieldSpec)
        ensures
            final(self).options() == old(self).options(),
            final(self).optional_struct == old(self).optional_struct,
            final(self).fields_view() == old(self).fields_view().push(field@),
    {
        field_list_push(&mut self.fields, field);
        assert(field_list_view(self.fields) =~= field_list_view(old(self).fields).push(field@));
    }

    /// With the `timestamp` switch, appends the required fields `created_at`
    /// and `updated_at`, in this order.
    pub fn add_timestamp(&mut self)
        ensures
            final(self).options() == old(self).options(),
            final(self).optional_struct == old(self).optional_struct,
            final(self).fields_view() == old(self).fields_view() + timestamp_fields(
                old(self).options(),
            ),
    {
        if self.attrs.timestamp {
            let mut docs: Vec<String> = Vec::new();
            push_text(
                &mut docs,
                " The time the resource was created and measured in seconds since the Unix epoch.",
            );
            let created = FieldSpec {
                ident: "created_at".to_owned(),
                ty: TypeRef::named("Timestamp"),
                docs,
                description: None,
                omit_if_absent: false,
            };
            assert(created@.docs =~= created_at_field().docs);
            self.push_field(created);
            let mut docs: Vec<String> = Vec::new();
            push_text(
                &mut docs,
                " The time the resource was updated and measured in seconds since the Unix epoch.",
            );
            let updated = FieldSpec {
                ident: "updated_at".to_owned(),
                ty: TypeRef::named("Timestamp"),
                docs,
                description: None,
                omit_if_absent: false,
            };
            assert(updated@.docs =~= updated_at_field().docs);
            self.push_field(updated);
            assert(self.fields_view() =~= old(self).fields_view() + timestamp_fields(
                old(self).options(),
            ));
        } else {
            assert(self.fields_view() =~= old(self).fields_view() + timestamp_fields(
                old(self).options(),
            ));
        }
    }

    /// With the `metadata` switch, appends the optional field `metadata`.
    pub fn add_metadata(&mut self)
        ensures
            final(self).options() == old(self).options(),
            final(self).optional_struct == old(self).optional_struct,
            final(self).fields_view() == old(self).fields_view() + metadata_fields(
                old(self).options(),
            ),
    {
        if self.attrs.metadata {
            let mut docs: Vec<String> = Vec::new();
            push_text(
                &mut docs,
                " A set of key-value pairs attached to the Payment. This is useful for storing additional",
            );
            push_text(&mut docs, " information about the Payment.");
            let field = FieldSpec {
                ident: "metadata".to_owned(),
                ty: TypeRef::option_of(TypeRef::named("Metadata")),
                docs,
                description: None,
                omit_if_absent: true,
            };
            assert(field@.docs =~= metadata_field().docs);
            self.push_field(field);
        }
        assert(self.fields_view() =~= old(self).fields_view() + metadata_fields(
            old(self).options(),
        ));
    }

    /// With the `amount` switch, appends the required field `amount`.
    pub fn add_amount(&mut self)
        ensures
            final(self).options() == old(self).options(),
            final(self).optional_struct == old(self).optional_struct,
            final(self).fields_view() == old(self).fields_view() + amount_fields(
                old(self).options(),
            ),
    {
        if self.attrs.amount {
            let mut docs: Vec<String> = Vec::new();
            push_text(
                &mut docs,
                " The amount of the payment to be transferred to your PayRex merchant account. This is a",
            );
            push_text(
                &mut docs,
                " positive integer that your customer paid in the smallest currency unit, cents. If the",
            );
            push_text(
                &mut docs,
                " customer paid ₱ 120.50, the amount of the Payment should be 12050.",
            );
            push_text(&mut docs, "");
            push_text(
                &mut docs,
                " The minimum amount is ₱ 20 (2000 in cents) and the maximum amount is ₱ 59,999,999.99",
            );
            push_text(&mut docs, " (5999999999 in cents).");
            let field = FieldSpec {
                ident: "amount".to_owned(),
                ty: TypeRef::named("u64"),
                docs,
                description: None,
                omit_if_absent: false,
            };
            assert(field@.docs =~= amount_field().docs);
            self.push_field(field);
        }
        assert(self.fields_view() =~= old(self).fields_view() + amount_fields(
            old(self).options(),
        ));
    }

    /// With the `livemode` switch, appends the required field `livemode`.
    pub fn add_livemode(&mut self)
        ensures
            final(self).options() == old(self).options(),
            final(self).optional_struct == old(self).optional_struct,
            final(self).fields_view() == old(self).fields_view() + livemode_fields(
                old(self).options(),
            ),
    {
        if self.attrs.livemode {
            let mut docs: Vec<String> = Vec::new();
            push_text(
                &mut docs,
                " The value is `true` if the resource's mode is live or the value is `false` if the resource is",
            );
            push_text(&mut docs, " in test mode.");
            let field = FieldSpec {
                ident: "livemode".to_owned(),
                ty: TypeRef::named("bool"),
                docs,
                description: None,
                omit_if_absent: false,
            };
            assert(field@.docs =~= livemode_field().docs);
            self.push_field(field);
        }
        assert(self.fields_view() =~= old(self).fields_view() + livemode_fields(
            old(self).options(),
        ));
    }

    /// With a `description` key, appends the optional field `description`,
    /// documented by the template that the key selects. A key outside the
    /// closed set of templates gives the field an empty documentation.
    pub fn add_description(&mut self)
        ensures
            final(self).options() == old(self).options(),
            final(self).optional_struct == old(self).optional_struct,
            final(self).fields_view() == old(self).fields_view() + description_fields(
                old(self).options(),
            ),
    {
        let doc = match &self.attrs.description {
            Some(key) => Some(description_doc(key.as_str())),
            None => None,
        };
        if let Some(doc) = doc {
            let mut docs: Vec<String> = Vec::new();
            docs.push(doc);
            let field = FieldSpec {
                ident: "description".to_owned(),
                ty: TypeRef::option_of(TypeRef::named("String")),
                docs,
                description: None,
                omit_if_absent: true,
            };
            assert(field@.docs =~= description_field(old(self).options().description->0).docs);
            self.push_field(field);
        }
        assert(self.fields_view() =~= old(self).fields_view() + description_fields(
            old(self).options(),
        ));
    }

    /// With the `currency` switch, appends the required field `currency`.
    pub fn add_currency(&mut self)
        ensures
            final(self).options() == old(self).options(),
            final(self).optional_struct == old(self).optional_struct,
            final(self).fields_view() == old(self).fields_view() + currency_fields(
                old(self).options(),
            ),
    {
        if self.attrs.currency {
            let mut docs: Vec<String> = Vec::new();
            push_text(
                &mut docs,
                " A three-letter ISO currency code in uppercase. As of the moment, we only support PHP.",
            );
            let field = FieldSpec {
                ident: "currency".to_owned(),
                ty: TypeRef::named("Currency"),
                docs,
                description: None,
                omit_if_absent: false,
            };
            assert(field@.docs =~= currency_field().docs);
            self.push_field(field);
        }
        assert(self.fields_view() =~= old(self).fields_view() + currency_fields(
            old(self).options(),
        ));
    }

    /// Whether the last path segment of `ty` is called `Option`.
    fn is_option(&self, ty: &TypeRef) -> (r: bool)
        ensures
            r == ty@.last_ident_is("Option"@),
    {
        is_type(ty, "Option")
    }

    /// The fields of the mirror struct: one for each field of the struct, in
    /// the same order.
    pub fn gen_optional_fields(&self) -> (out: FieldList)
        ensures
            field_list_view(out) == mirror_fields(self.fields_view()),
    {
        let mut out = field_list_new();
        let n = field_list_len(&self.fields);
        let mut i: usize = 0;
        while i < n
            invariant
                n == field_list_items(self.fields).len(),
                i <= n,
                field_list_items(out).len() == i,
                forall|j: int|
                    0 <= j < i ==> field_list_items(out)[j]@ == mirror_field(
                        field_list_items(self.fields)[j]@,
                    ),
            decreases n - i,
        {
            let f = field_list_get(&self.fields, i);
            let final_ty = if self.is_option(&f.ty) {
                f.ty.clone()
            } else {
                TypeRef::option_of(f.ty.clone())
            };
            let field = FieldSpec {
                ident: f.ident.clone(),
                ty: final_ty,
                docs: clone_texts(&f.docs),
                description: None,
                omit_if_absent: true,
            };
            field_list_push(&mut out, field);
            i += 1;
        }
        assert(field_list_view(out) =~= mirror_fields(self.fields_view()));
        out
    }

    /// With the `optional` switch, generates the mirror struct of the struct
    /// called `ident` from the fields as they stand. The field list itself
    /// is left as it is.
    pub fn add_optional_struct(&mut self, ident: &str)
        ensures
            final(self).options() == old(self).options(),
            final(self).fields == old(self).fields,
            mirrors_view(final(self).optional_struct@) == if old(self).options().optional {
                mirrors_view(old(self).optional_struct@).push(
                    mirror_of(ident@, old(self).fields_view()),
                )
            } else {
                mirrors_view(old(self).optional_struct@)
            },
    {
        if self.attrs.optional {
            let optional_ident = "Optional".to_owned().concat(ident);
            let optional_fields = self.gen_optional_fields();
            let docs = "Optional variant for ".to_owned().concat(ident).concat(
                ". This is only used for responses in billing statements API.",
            );
            let mut derives: Vec<String> = Vec::new();
            push_text(&mut derives, "Debug");
            push_text(&mut derives, "Clone");
            push_text(&mut derives, "PartialEq");
            push_text(&mut derives, "Eq");
            push_text(&mut derives, "Serialize");
            push_text(&mut derives, "Deserialize");
            let mirror = MirrorStruct {
                ident: optional_ident,
                doc: docs,
                derives,
                fields: optional_fields,
            };
            assert(mirror@.derives =~= mirror_of(ident@, old(self).fields_view()).derives);
            assert(mirror@ == mirror_of(ident@, old(self).fields_view()));
            self.optional_struct.push(mirror);
            assert(mirrors_view(self.optional_struct@) =~= mirrors_view(
                old(self).optional_struct@,
            ).push(mirror@));
        }
    }
}

} // verus!
