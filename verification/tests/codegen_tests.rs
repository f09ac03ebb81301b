use payrex::codegen::derive::{
    canonical_description, classify, derive_handler, gen_optional_function,
    gen_required_functions, receiver_of, Chaining, Constructor, ConstructorBody, DeriveError,
    ImplBlock, Param, PayrexFieldReceiver, Route, Setter, Stored,
};
use payrex::codegen::field::{clone_field_list, FieldList, FieldSpec};
use payrex::codegen::fields::{description_doc, MirrorStruct, ParsedPayrexAttrs, PayrexAttrs};
use payrex::codegen::item::{Item, Shape};
use payrex::codegen::ty::{
    get_option_inner, is_type, is_type_deep, GenericArg, PathArgs, PathSegment, QSelf, TypeRef,
};
use payrex::codegen::{payrex_attr, payrex_derive, AttrError, Expansion};

fn named(name: &str) -> TypeRef {
    TypeRef::named(name)
}

fn option_of(name: &str) -> TypeRef {
    TypeRef::option_of(TypeRef::named(name))
}

fn field(name: &str, ty: TypeRef) -> FieldSpec {
    FieldSpec {
        ident: name.to_string(),
        ty,
        docs: Vec::new(),
        description: None,
        omit_if_absent: false,
    }
}

fn described(name: &str, ty: TypeRef, description: &str) -> FieldSpec {
    FieldSpec { description: Some(description.to_string()), ..field(name, ty) }
}

fn list(fields: Vec<FieldSpec>) -> FieldList {
    fields.into_iter().collect()
}

fn fields_of(list: &FieldList) -> Vec<FieldSpec> {
    list.iter().cloned().collect()
}

fn names_of(list: &FieldList) -> Vec<String> {
    list.iter().map(|f| f.ident.clone()).collect()
}

fn item(name: &str, fields: Vec<FieldSpec>) -> Item {
    Item { ident: name.to_string(), shape: Shape::Named(list(fields)) }
}

fn expanded_fields(expansion: &Expansion) -> Vec<FieldSpec> {
    match &expansion.item.shape {
        Shape::Named(fields) => fields_of(fields),
        Shape::Other => panic!("the expansion of a struct with named fields has none"),
    }
}

fn all_switches(description: &str) -> PayrexAttrs {
    PayrexAttrs {
        timestamp: true,
        metadata: true,
        amount: true,
        livemode: true,
        description: Some(description.to_string()),
        currency: true,
        optional: false,
    }
}

fn docs(lines: &[&str]) -> Vec<String> {
    lines.iter().map(|l| l.to_string()).collect()
}

const WEBHOOK_DOC: &str = "An arbitrary string attached to the Webhook. You can use this to give more information about the Webhook resource.";

#[test]
fn scenario_webhook_parameters_expand_and_derive() {
    let input = item(
        "CreateWebhook",
        vec![
            field("url", named("String")),
            field("events", TypeRef::generic("Vec", vec![named("EventType")])),
        ],
    );
    let attrs = PayrexAttrs { description: Some("webhook".to_string()), ..PayrexAttrs::default() };
    let expansion = payrex_attr(attrs, input).unwrap();
    assert!(expansion.mirrors.is_empty());
    assert_eq!(expansion.item.ident, "CreateWebhook");
    let fields = expanded_fields(&expansion);
    assert_eq!(fields.len(), 3);
    assert_eq!(fields[0], field("url", named("String")));
    assert_eq!(fields[1], field("events", TypeRef::generic("Vec", vec![named("EventType")])));
    assert_eq!(
        fields[2],
        FieldSpec {
            ident: "description".to_string(),
            ty: option_of("String"),
            docs: docs(&[WEBHOOK_DOC]),
            description: None,
            omit_if_absent: true,
        }
    );

    let block = derive_handler(&expansion.item).unwrap();
    assert_eq!(block.ident, "CreateWebhook");
    assert_eq!(block.new_fn.doc, "Creates a new [`CreateWebhook`] instance.");
    assert_eq!(block.new_fn.body, ConstructorBody::FromParams);
    assert_eq!(
        block.new_fn.params,
        vec![
            Param { name: "url".to_string(), field: "url".to_string(), ty: named("String"), relaxed: true },
            Param {
                name: "events".to_string(),
                field: "events".to_string(),
                ty: TypeRef::generic("Vec", vec![named("EventType")]),
                relaxed: false,
            },
        ]
    );
    assert_eq!(
        block.optional_functions,
        vec![Setter {
            name: "description".to_string(),
            field: "description".to_string(),
            param: "description".to_string(),
            doc: "Sets the description in the query parameters.".to_string(),
            ty: named("String"),
            relaxed: true,
            chaining: Chaining::ByValue,
            stored: Stored::Present,
        }]
    );
}

#[test]
fn scenario_mirror_of_customer() {
    let own = vec![field("id", named("CustomerId")), field("email", option_of("String"))];
    let attrs = PayrexAttrs { optional: true, ..PayrexAttrs::default() };
    let expansion = payrex_attr(attrs, item("Customer", own.clone())).unwrap();
    assert_eq!(expanded_fields(&expansion), own);
    assert_eq!(expansion.mirrors.len(), 1);
    let mirror = &expansion.mirrors[0];
    assert_eq!(mirror.ident, "OptionalCustomer");
    assert_eq!(
        mirror.doc,
        "Optional variant for Customer. This is only used for responses in billing statements API."
    );
    assert_eq!(
        mirror.derives,
        docs(&["Debug", "Clone", "PartialEq", "Eq", "Serialize", "Deserialize"])
    );
    assert_eq!(
        fields_of(&mirror.fields),
        vec![
            FieldSpec { omit_if_absent: true, ..field("id", option_of("CustomerId")) },
            FieldSpec { omit_if_absent: true, ..field("email", option_of("String")) },
        ]
    );
}

#[test]
fn canonical_fields_come_in_the_canonical_order() {
    let own = vec![field("id", named("RefundId"))];
    let expansion = payrex_attr(all_switches("refund"), item("Refund", own)).unwrap();
    let names: Vec<String> = expanded_fields(&expansion).into_iter().map(|f| f.ident).collect();
    assert_eq!(
        names,
        ["id", "amount", "metadata", "description", "livemode", "created_at", "updated_at", "currency"]
    );
}

#[test]
fn canonical_fields_keep_their_order_for_every_choice_of_switches() {
    let order = ["amount", "metadata", "description", "livemode", "created_at", "updated_at", "currency"];
    for mask in 0u32..32 {
        let attrs = PayrexAttrs {
            amount: mask & 1 != 0,
            metadata: mask & 2 != 0,
            description: if mask & 4 != 0 { Some("payment".to_string()) } else { None },
            livemode: mask & 8 != 0,
            timestamp: mask & 16 != 0,
            currency: mask % 3 == 0,
            optional: false,
        };
        let mut expected: Vec<&str> = vec!["own"];
        for name in order {
            let on = match name {
                "amount" => attrs.amount,
                "metadata" => attrs.metadata,
                "description" => attrs.description.is_some(),
                "livemode" => attrs.livemode,
                "created_at" | "updated_at" => attrs.timestamp,
                _ => attrs.currency,
            };
            if on {
                expected.push(name);
            }
        }
        let expansion = payrex_attr(attrs, item("S", vec![field("own", named("u8"))])).unwrap();
        let names: Vec<String> = expanded_fields(&expansion).into_iter().map(|f| f.ident).collect();
        assert_eq!(names, expected, "mask {mask}");
    }
}

#[test]
fn canonical_fields_have_their_types_and_documentation() {
    let expansion = payrex_attr(all_switches("refund"), item("Refund", Vec::new())).unwrap();
    let fields = expanded_fields(&expansion);
    assert_eq!(
        fields,
        vec![
            FieldSpec {
                ident: "amount".to_string(),
                ty: named("u64"),
                docs: docs(&[
                    " The amount of the payment to be transferred to your PayRex merchant account. This is a",
                    " positive integer that your customer paid in the smallest currency unit, cents. If the",
                    " customer paid \u{20b1} 120.50, the amount of the Payment should be 12050.",
                    "",
                    " The minimum amount is \u{20b1} 20 (2000 in cents) and the maximum amount is \u{20b1} 59,999,999.99",
                    " (5999999999 in cents).",
                ]),
                description: None,
                omit_if_absent: false,
            },
            FieldSpec {
                ident: "metadata".to_string(),
                ty: option_of("Metadata"),
                docs: docs(&[
                    " A set of key-value pairs attached to the Payment. This is useful for storing additional",
                    " information about the Payment.",
                ]),
                description: None,
                omit_if_absent: true,
            },
            FieldSpec {
                ident: "description".to_string(),
                ty: option_of("String"),
                docs: docs(&["An arbitrary string attached to the Refund."]),
                description: None,
                omit_if_absent: true,
            },
            FieldSpec {
                ident: "livemode".to_string(),
                ty: named("bool"),
                docs: docs(&[
                    " The value is `true` if the resource's mode is live or the value is `false` if the resource is",
                    " in test mode.",
                ]),
                description: None,
                omit_if_absent: false,
            },
            FieldSpec {
                ident: "created_at".to_string(),
                ty: named("Timestamp"),
                docs: docs(&[
                    " The time the resource was created and measured in seconds since the Unix epoch.",
                ]),
                description: None,
                omit_if_absent: false,
            },
            FieldSpec {
                ident: "updated_at".to_string(),
                ty: named("Timestamp"),
                docs: docs(&[
                    " The time the resource was updated and measured in seconds since the Unix epoch.",
                ]),
                description: None,
                omit_if_absent: false,
            },
            FieldSpec {
                ident: "currency".to_string(),
                ty: named("Currency"),
                docs: docs(&[
                    " A three-letter ISO currency code in uppercase. As of the moment, we only support PHP.",
                ]),
                description: None,
                omit_if_absent: false,
            },
        ]
    );
}

#[test]
fn no_switch_appends_nothing() {
    let own = vec![field("a", named("u8")), field("b", option_of("u8"))];
    let expansion = payrex_attr(PayrexAttrs::default(), item("S", own.clone())).unwrap();
    assert_eq!(expanded_fields(&expansion), own);
    assert!(expansion.mirrors.is_empty());
}

#[test]
fn description_doc_for_every_key() {
    assert_eq!(description_doc("refund"), "An arbitrary string attached to the Refund.");
    assert_eq!(
        description_doc("payment"),
        "An arbitrary string attached to the Payment. Useful reference when viewing Payment from [PayRex Dashboard](https://dashboard.payrexhq.com)."
    );
    assert_eq!(
        description_doc("payment_intent"),
        "An arbitrary string attached to the Payment Intent. Useful reference when viewing paid payments from the [PayRex Dashboard](https://dashboard.payrexhq.com)."
    );
    assert_eq!(description_doc("webhook"), WEBHOOK_DOC);
    assert_eq!(
        description_doc("checkout_session"),
        "An arbitrary string attached to the CheckoutSession. Useful reference when viewing paid Payment from PayRex Dashboard."
    );
    assert_eq!(
        description_doc("billing_statements"),
        "\nAn arbitrary string attached to the billing statement and copied over to its payment intent. This is a useful reference when viewing the payment resources associated with the billing statement from the PayRex Dashboard.\n\nIf the description is not modified, the default value is \"Payment for Billing Statement <billing statement number>\"\n                    "
    );
    assert_eq!(
        description_doc("billing_statement_line_items"),
        "The description attribute describes the line item of the billing statement. It could be a product you sell or a service you provide to your customers."
    );
}

#[test]
fn description_doc_of_an_unknown_key_is_empty() {
    assert_eq!(description_doc("refunds"), "");
    assert_eq!(description_doc(""), "");
    assert_eq!(description_doc("Webhook"), "");
    let attrs = PayrexAttrs { description: Some("typo".to_string()), ..PayrexAttrs::default() };
    let fields = expanded_fields(&payrex_attr(attrs, item("S", Vec::new())).unwrap());
    assert_eq!(fields.len(), 1);
    assert_eq!(fields[0].ident, "description");
    assert_eq!(fields[0].docs, docs(&[""]));
}

#[test]
fn expansion_refuses_what_is_no_struct_with_named_fields() {
    let input = Item { ident: "Unit".to_string(), shape: Shape::Other };
    assert_eq!(payrex_attr(all_switches("refund"), input), Err(AttrError::UnsupportedShape));
    assert_eq!(
        AttrError::UnsupportedShape.message(),
        "#[payrex] only supports structs with named fields"
    );
}

#[test]
fn derive_refuses_what_is_no_struct_with_named_fields() {
    let input = Item { ident: "Unit".to_string(), shape: Shape::Other };
    assert_eq!(derive_handler(&input), Err(DeriveError::UnsupportedShape));
    let input = Item { ident: "Unit".to_string(), shape: Shape::Other };
    assert_eq!(payrex_derive(input), Err(DeriveError::UnsupportedShape));
    assert_eq!(
        DeriveError::UnsupportedShape.message(),
        "#[derive(Payrex)] only supports structs with named fields"
    );
}

#[test]
fn mirror_wraps_what_is_not_optional_and_keeps_documentation() {
    let documented = FieldSpec {
        ident: "name".to_string(),
        ty: named("String"),
        docs: docs(&[" The name.", " Second line."]),
        description: Some("Sets the name.".to_string()),
        omit_if_absent: false,
    };
    let qualified = field(
        "deep",
        TypeRef::Path {
            leading_colon: false,
            qself: None,
            segments: vec![
                PathSegment { ident: "std".to_string(), args: PathArgs::Absent },
                PathSegment { ident: "option".to_string(), args: PathArgs::Absent },
                PathSegment {
                    ident: "Option".to_string(),
                    args: PathArgs::AngleBracketed(vec![GenericArg::Type(named("u8"))]),
                },
            ],
        },
    );
    let other = field("pair", TypeRef::Other("(u8, u8)".to_string()));
    let mut parsed = ParsedPayrexAttrs::from(PayrexAttrs { optional: true, ..PayrexAttrs::default() });
    parsed.fields = list(vec![documented.clone(), qualified.clone(), other.clone()]);
    let mirror = fields_of(&parsed.gen_optional_fields());
    assert_eq!(
        mirror,
        vec![
            FieldSpec {
                ident: "name".to_string(),
                ty: option_of("String"),
                docs: docs(&[" The name.", " Second line."]),
                description: None,
                omit_if_absent: true,
            },
            FieldSpec { omit_if_absent: true, ..qualified.clone() },
            FieldSpec {
                omit_if_absent: true,
                ..field("pair", TypeRef::option_of(TypeRef::Other("(u8, u8)".to_string())))
            },
        ]
    );
    assert_eq!(fields_of(&parsed.fields), vec![documented, qualified, other]);
}

#[test]
fn mirror_is_a_copy_that_can_change_alone() {
    let own = vec![field("id", named("CustomerId")), field("email", option_of("String"))];
    let mut parsed = ParsedPayrexAttrs::from(PayrexAttrs { optional: true, ..PayrexAttrs::default() });
    let mut source = list(own.clone());
    parsed = parsed.set_fields(&mut source);
    parsed.add_optional_struct("Customer");
    assert_eq!(parsed.optional_struct.len(), 1);
    assert_eq!(fields_of(&parsed.fields), own);

    let mirror: &mut MirrorStruct = &mut parsed.optional_struct[0];
    mirror.fields.push(field("extra", named("u8")));
    mirror.fields[0].ident = "renamed".to_string();
    mirror.fields[1].ty = named("bool");
    assert_eq!(names_of(&parsed.optional_struct[0].fields), ["renamed", "email", "extra"]);
    assert_eq!(fields_of(&parsed.fields), own);
    assert_eq!(fields_of(&source), own);
}

#[test]
fn mirror_is_generated_only_on_request() {
    let mut parsed = ParsedPayrexAttrs::from(PayrexAttrs::default());
    parsed.fields = list(vec![field("id", named("u8"))]);
    parsed.add_optional_struct("S");
    assert!(parsed.optional_struct.is_empty());
    parsed.attrs.optional = true;
    parsed.add_optional_struct("S");
    parsed.add_optional_struct("T");
    let names: Vec<&str> = parsed.optional_struct.iter().map(|m| m.ident.as_str()).collect();
    assert_eq!(names, ["OptionalS", "OptionalT"]);
}

#[test]
fn set_fields_copies_the_list() {
    let own = vec![described("a", option_of("u8"), "Sets a."), field("b", named("String"))];
    let mut source = list(own.clone());
    let parsed = ParsedPayrexAttrs::from(all_switches("refund")).set_fields(&mut source);
    assert_eq!(fields_of(&parsed.fields), own);
    assert_eq!(fields_of(&source), own);
    assert_eq!(parsed.attrs, all_switches("refund"));
    assert!(parsed.optional_struct.is_empty());
    assert_eq!(fields_of(&clone_field_list(&source)), own);
    assert!(fields_of(&clone_field_list(&FieldList::new())).is_empty());
}

#[test]
fn each_switch_appends_its_own_fields() {
    let mut parsed = ParsedPayrexAttrs::from(all_switches("webhook"));
    assert!(parsed.fields.is_empty());
    parsed.add_currency();
    assert_eq!(names_of(&parsed.fields), ["currency"]);
    parsed.add_timestamp();
    assert_eq!(names_of(&parsed.fields), ["currency", "created_at", "updated_at"]);
    parsed.add_livemode();
    parsed.add_description();
    parsed.add_metadata();
    parsed.add_amount();
    assert_eq!(
        names_of(&parsed.fields),
        ["currency", "created_at", "updated_at", "livemode", "description", "metadata", "amount"]
    );
    parsed.add_amount();
    assert_eq!(parsed.fields.len(), 8);

    let mut off = ParsedPayrexAttrs::from(PayrexAttrs::default());
    off.add_currency();
    off.add_timestamp();
    off.add_livemode();
    off.add_description();
    off.add_metadata();
    off.add_amount();
    assert!(off.fields.is_empty());
}

#[test]
fn every_field_goes_exactly_one_way() {
    let fields = vec![
        field("payment_id", named("PaymentId")),
        described("remarks", option_of("String"), "Sets the remarks."),
        field("list_params", named("ListParams")),
        field("metadata", option_of("Metadata")),
        field("amount", named("u64")),
        field("currency", option_of("Currency")),
        field("description", option_of("String")),
        field("plain_option", option_of("u8")),
        described("empty", option_of("u8"), ""),
    ];
    let routes: Vec<Route> = fields.iter().map(classify).collect();
    assert_eq!(
        routes,
        vec![
            Route::Constructor,
            Route::Setter,
            Route::Excluded,
            Route::Setter,
            Route::Constructor,
            Route::Setter,
            Route::Setter,
            Route::Constructor,
            Route::Constructor,
        ]
    );
    let block = derive_handler(&item("S", fields.clone())).unwrap();
    let params: Vec<&str> = block.new_fn.params.iter().map(|p| p.name.as_str()).collect();
    let setters: Vec<&str> = block.optional_functions.iter().map(|s| s.name.as_str()).collect();
    assert_eq!(params, ["payment_id", "amount", "plain_option", "empty"]);
    assert_eq!(setters, ["remarks", "metadata", "currency", "description"]);
    let excluded = routes.iter().filter(|r| **r == Route::Excluded).count();
    assert_eq!(params.len() + setters.len() + excluded, fields.len());
    for f in &fields {
        let as_param = params.contains(&f.ident.as_str());
        let as_setter = setters.contains(&f.ident.as_str());
        let left_out = classify(f) == Route::Excluded;
        assert_eq!(as_param as u8 + as_setter as u8 + left_out as u8, 1, "{}", f.ident);
    }
}

#[test]
fn canonical_names_get_their_fixed_description() {
    assert_eq!(
        canonical_description("metadata").as_deref(),
        Some("Sets metadata in the query parameters.")
    );
    assert_eq!(
        canonical_description("description").as_deref(),
        Some("Sets the description in the query parameters.")
    );
    assert_eq!(
        canonical_description("currency").as_deref(),
        Some("Sets the currency in the query parameters.")
    );
    assert_eq!(
        canonical_description("amount").as_deref(),
        Some("Sets the amount in the query parameters.")
    );
    assert_eq!(canonical_description("livemode"), None);
    assert_eq!(canonical_description("created_at"), None);
    assert_eq!(canonical_description(""), None);

    let fixed = PayrexFieldReceiver {
        description: Some("Sets the amount in the query parameters.".to_string()),
    };
    assert_eq!(receiver_of(&field("amount", option_of("u64"))), fixed);
    assert_eq!(receiver_of(&described("amount", option_of("u64"), "")), fixed);
    assert_eq!(classify(&field("amount", option_of("u64"))), Route::Setter);

    assert_eq!(receiver_of(&field("amount", named("u64"))), PayrexFieldReceiver { description: None });
    assert_eq!(classify(&field("amount", named("u64"))), Route::Constructor);
    assert_eq!(receiver_of(&field("amount", named("Option"))), PayrexFieldReceiver { description: None });
    assert_eq!(classify(&field("amount", named("Option"))), Route::Constructor);
    let two = TypeRef::generic("Option", vec![named("u8"), named("u8")]);
    assert_eq!(classify(&field("metadata", two)), Route::Constructor);
    assert_eq!(classify(&field("livemode", option_of("bool"))), Route::Constructor);
}

#[test]
fn the_description_of_the_author_documents_the_setter_verbatim() {
    let own = PayrexFieldReceiver { description: Some("Sets the own amount.".to_string()) };
    assert_eq!(receiver_of(&described("amount", option_of("u64"), "Sets the own amount.")), own);
    assert_eq!(receiver_of(&described("amount", named("u64"), "Sets the own amount.")), own);
    assert_eq!(receiver_of(&described("other", option_of("u64"), "Sets the own amount.")), own);

    let fields = vec![
        described("metadata", option_of("Metadata"), " Attach what you like. "),
        described("description", option_of("String"), "Says what this is for."),
        field("currency", option_of("Currency")),
    ];
    let block = derive_handler(&item("S", fields)).unwrap();
    let docs: Vec<(&str, &str)> =
        block.optional_functions.iter().map(|s| (s.name.as_str(), s.doc.as_str())).collect();
    assert_eq!(
        docs,
        [
            ("metadata", " Attach what you like. "),
            ("description", "Says what this is for."),
            ("currency", "Sets the currency in the query parameters."),
        ]
    );
    assert!(block.new_fn.params.is_empty());
}

#[test]
fn an_empty_description_counts_as_none() {
    let text = described("name", named("String"), "");
    assert_eq!(receiver_of(&text), PayrexFieldReceiver { description: None });
    assert_eq!(classify(&text), Route::Constructor);
    let optional = described("nick", option_of("String"), "");
    assert_eq!(classify(&optional), Route::Constructor);
    let pagination = described("list_params", named("ListParams"), "");
    assert_eq!(classify(&pagination), Route::Excluded);
    let blank = described("blank", option_of("String"), " ");
    assert_eq!(classify(&blank), Route::Setter);

    let block = derive_handler(&item("S", vec![text, optional, pagination])).unwrap();
    assert_eq!(
        block.new_fn.params,
        vec![
            Param {
                name: "name".to_string(),
                field: "name".to_string(),
                ty: named("String"),
                relaxed: true,
            },
            Param {
                name: "nick".to_string(),
                field: "nick".to_string(),
                ty: option_of("String"),
                relaxed: false,
            },
        ]
    );
    assert_eq!(block.new_fn.body, ConstructorBody::FromParams);
    assert!(block.optional_functions.is_empty());
}

#[test]
fn pagination_parameters_are_left_out_of_the_constructor() {
    let block = derive_handler(&item(
        "CustomerListParams",
        vec![
            field("list_params", named("ListParams")),
            described("email", option_of("String"), "Sets the email."),
        ],
    ))
    .unwrap();
    assert_eq!(
        block.new_fn,
        Constructor {
            doc: "Creates a new [`CustomerListParams`] instance.".to_string(),
            params: Vec::new(),
            body: ConstructorBody::AllDefaults,
        }
    );
    assert_eq!(block.optional_functions.len(), 1);
}

#[test]
fn no_required_field_gives_the_constructor_of_all_defaults() {
    let block = derive_handler(&item(
        "UpdateWebhook",
        vec![
            described("url", option_of("String"), "Sets the URL."),
            described("events", TypeRef::option_of(TypeRef::generic("Vec", vec![named("EventType")])), "Sets the events."),
            field("description", option_of("String")),
        ],
    ))
    .unwrap();
    assert!(block.new_fn.params.is_empty());
    assert_eq!(block.new_fn.body, ConstructorBody::AllDefaults);
    assert_eq!(block.new_fn.doc, "Creates a new [`UpdateWebhook`] instance.");
    assert_eq!(
        block.optional_functions,
        vec![
            Setter {
                name: "url".to_string(),
                field: "url".to_string(),
                param: "url".to_string(),
                doc: "Sets the URL.".to_string(),
                ty: named("String"),
                relaxed: true,
                chaining: Chaining::ByValue,
                stored: Stored::Present,
            },
            Setter {
                name: "events".to_string(),
                field: "events".to_string(),
                param: "events".to_string(),
                doc: "Sets the events.".to_string(),
                ty: TypeRef::generic("Vec", vec![named("EventType")]),
                relaxed: false,
                chaining: Chaining::ByValue,
                stored: Stored::Present,
            },
            Setter {
                name: "description".to_string(),
                field: "description".to_string(),
                param: "description".to_string(),
                doc: "Sets the description in the query parameters.".to_string(),
                ty: named("String"),
                relaxed: true,
                chaining: Chaining::ByValue,
                stored: Stored::Present,
            },
        ]
    );

    let empty = derive_handler(&item("Empty", Vec::new())).unwrap();
    assert_eq!(
        empty,
        ImplBlock {
            ident: "Empty".to_string(),
            new_fn: Constructor {
                doc: "Creates a new [`Empty`] instance.".to_string(),
                params: Vec::new(),
                body: ConstructorBody::AllDefaults,
            },
            optional_functions: Vec::new(),
        }
    );
}

#[test]
fn required_functions_take_the_fields_in_order() {
    let fields = list(vec![
        field("name", named("String")),
        field("quantity", named("u64")),
        field("amount", named("u64")),
    ]);
    let new_fn = gen_required_functions("CheckoutSessionLineItem", fields);
    assert_eq!(
        new_fn,
        Constructor {
            doc: "Creates a new [`CheckoutSessionLineItem`] instance.".to_string(),
            params: vec![
                Param { name: "name".to_string(), field: "name".to_string(), ty: named("String"), relaxed: true },
                Param { name: "quantity".to_string(), field: "quantity".to_string(), ty: named("u64"), relaxed: false },
                Param { name: "amount".to_string(), field: "amount".to_string(), ty: named("u64"), relaxed: false },
            ],
            body: ConstructorBody::FromParams,
        }
    );
    let nothing = gen_required_functions("S", FieldList::new());
    assert!(nothing.params.is_empty());
    assert_eq!(nothing.body, ConstructorBody::AllDefaults);
}

fn string_path(qself: Option<QSelf>) -> TypeRef {
    TypeRef::Path {
        leading_colon: false,
        qself,
        segments: vec![
            PathSegment { ident: "std".to_string(), args: PathArgs::Absent },
            PathSegment { ident: "string".to_string(), args: PathArgs::Absent },
            PathSegment { ident: "String".to_string(), args: PathArgs::Absent },
        ],
    }
}

#[test]
fn only_strings_are_relaxed() {
    let qualified = string_path(Some(QSelf { ty: "T".to_string(), position: 2 }));
    let fields = list(vec![
        field("plain", named("String")),
        field("long", string_path(None)),
        field("qualified", qualified.clone()),
        field("slice", TypeRef::Other("&str".to_string())),
        field("list", TypeRef::generic("Vec", vec![named("String")])),
    ]);
    let relaxed: Vec<bool> =
        gen_required_functions("S", fields).params.iter().map(|p| p.relaxed).collect();
    assert_eq!(relaxed, [true, true, true, false, false]);

    let mut setters: Vec<Setter> = Vec::new();
    for inner in [named("String"), string_path(None), qualified, named("u64")] {
        let f = field("f", TypeRef::option_of(inner));
        let receiver = PayrexFieldReceiver { description: Some("Sets f.".to_string()) };
        gen_optional_function(&f, receiver, &mut setters);
    }
    let relaxed: Vec<bool> = setters.iter().map(|s| s.relaxed).collect();
    assert_eq!(relaxed, [true, true, false, false]);
    assert_eq!(setters[3].ty, named("u64"));
    assert!(setters.iter().all(|s| s.name == "f" && s.param == "f" && s.field == "f"));
    assert!(setters.iter().all(|s| s.doc == "Sets f."));
    assert!(setters.iter().all(|s| s.chaining == Chaining::ByValue && s.stored == Stored::Present));
}

#[test]
fn setter_on_a_field_that_is_not_optional_is_refused() {
    let fields = vec![
        described("fine", option_of("u8"), "Sets fine."),
        described("first", named("u8"), "Sets first."),
        described("second", named("u8"), "Sets second."),
    ];
    assert_eq!(
        derive_handler(&item("S", fields)),
        Err(DeriveError::SetterOnNonOptional { field: "first".to_string() })
    );
    assert_eq!(
        DeriveError::SetterOnNonOptional { field: "first".to_string() }.message(),
        "the field `first` has a description, so its type must be `Option<T>`"
    );
    let bare_option = vec![field("metadata", named("Option"))];
    let block = derive_handler(&item("S", bare_option)).unwrap();
    assert_eq!(block.new_fn.params.len(), 1);
    assert_eq!(block.new_fn.params[0].name, "metadata");
    assert!(block.optional_functions.is_empty());
    let described_bare_option = vec![described("metadata", named("Option"), "Sets it.")];
    assert_eq!(
        derive_handler(&item("S", described_bare_option)),
        Err(DeriveError::SetterOnNonOptional { field: "metadata".to_string() })
    );
    let described_pagination = vec![described("list_params", named("ListParams"), "Sets it.")];
    assert_eq!(
        payrex_derive(item("S", described_pagination)),
        Err(DeriveError::SetterOnNonOptional { field: "list_params".to_string() })
    );
}

fn option_with(args: PathArgs, qself: Option<QSelf>) -> TypeRef {
    TypeRef::Path { leading_colon: false, qself, segments: vec![PathSegment { ident: "Option".to_string(), args }] }
}

#[test]
fn option_inner_is_the_single_type_argument() {
    let plain = option_of("u8");
    assert_eq!(get_option_inner(&plain), Some(&named("u8")));
    let nested = TypeRef::option_of(option_of("u8"));
    assert_eq!(get_option_inner(&nested), Some(&option_of("u8")));

    assert_eq!(get_option_inner(&named("Option")), None);
    assert_eq!(get_option_inner(&named("u8")), None);
    assert_eq!(get_option_inner(&TypeRef::generic("Vec", vec![named("u8")])), None);
    assert_eq!(get_option_inner(&TypeRef::generic("Option", vec![named("u8"), named("u8")])), None);
    assert_eq!(get_option_inner(&TypeRef::generic("Option", Vec::new())), None);
    assert_eq!(get_option_inner(&TypeRef::Other("Option<u8>".to_string())), None);
    assert_eq!(get_option_inner(&TypeRef::Path { leading_colon: false, qself: None, segments: Vec::new() }), None);
    let lifetime = option_with(PathArgs::AngleBracketed(vec![GenericArg::Other("'a".to_string())]), None);
    assert_eq!(get_option_inner(&lifetime), None);
    let parenthesized = option_with(PathArgs::Parenthesized("(u8) -> u8".to_string()), None);
    assert_eq!(get_option_inner(&parenthesized), None);
    let qualified = option_with(
        PathArgs::AngleBracketed(vec![GenericArg::Type(named("u8"))]),
        Some(QSelf { ty: "T".to_string(), position: 0 }),
    );
    assert_eq!(get_option_inner(&qualified), None);
    assert!(is_type(&qualified, "Option"));
    assert!(!is_type_deep(&qualified, "Option"));
}

#[test]
fn is_type_looks_at_the_last_segment_only() {
    assert!(is_type(&named("String"), "String"));
    assert!(is_type_deep(&named("String"), "String"));
    assert!(!is_type(&named("String"), "string"));
    assert!(!is_type(&named("String"), "Str"));
    assert!(is_type(&string_path(None), "String"));
    assert!(!is_type(&string_path(None), "std"));
    assert!(is_type(&option_of("String"), "Option"));
    assert!(!is_type(&option_of("String"), "String"));
    assert!(!is_type(&TypeRef::Other("String".to_string()), "String"));
    assert!(!is_type_deep(&TypeRef::Other("String".to_string()), "String"));
    assert!(!is_type(&TypeRef::Path { leading_colon: false, qself: None, segments: Vec::new() }, ""));
}

#[test]
fn type_constructors_and_copies() {
    assert_eq!(
        named("u8"),
        TypeRef::Path {
            leading_colon: false,
            qself: None,
            segments: vec![PathSegment { ident: "u8".to_string(), args: PathArgs::Absent }],
        }
    );
    assert_eq!(
        option_of("u8"),
        TypeRef::Path {
            leading_colon: false,
            qself: None,
            segments: vec![PathSegment {
                ident: "Option".to_string(),
                args: PathArgs::AngleBracketed(vec![GenericArg::Type(named("u8"))]),
            }],
        }
    );
    assert_eq!(TypeRef::generic("Option", vec![named("u8")]), option_of("u8"));
    let involved = TypeRef::Path {
        leading_colon: true,
        qself: Some(QSelf { ty: "Vec<T>".to_string(), position: 1 }),
        segments: vec![
            PathSegment { ident: "IntoIterator".to_string(), args: PathArgs::Absent },
            PathSegment {
                ident: "Item".to_string(),
                args: PathArgs::AngleBracketed(vec![
                    GenericArg::Other("'a".to_string()),
                    GenericArg::Type(TypeRef::Other("[u8; 4]".to_string())),
                    GenericArg::Type(option_of("String")),
                ]),
            },
            PathSegment { ident: "Fn".to_string(), args: PathArgs::Parenthesized("(u8)".to_string()) },
        ],
    };
    assert_eq!(involved.clone(), involved);
    let f = FieldSpec {
        ident: "f".to_string(),
        ty: involved,
        docs: docs(&[" one", " two"]),
        description: Some("d".to_string()),
        omit_if_absent: true,
    };
    assert_eq!(f.clone(), f);
}
