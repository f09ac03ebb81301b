use payrex::resources::billing_statement_line_items::{
    BillingStatementLineItems, CreateBillingStatementLineItem, UpdateBillingStatementLineItem,
};
use payrex::resources::billing_statements::{
    BillingStatements, CreateBillingStatement, PaymentSettings, UpdateBillingStatement,
};
use payrex::resources::checkout_sessions::{
    CheckoutSessionLineItem, CheckoutSessions, CreateCheckoutSession,
};
use payrex::resources::customers::{
    CreateCustomer, CustomerListParams, Customers, UpdateCustomer,
};
use payrex::resources::payment_intents::{
    CapturePaymentIntent, CreatePaymentIntent, PaymentIntents,
};
use payrex::resources::payouts::Payouts;
use payrex::resources::refunds::{CreateRefund, RefundReason, Refunds, UpdateRefund};
use payrex::resources::webhooks::{
    CreateWebhook, UpdateWebhook, WebhookListParams, Webhooks,
};
use payrex::request::Method;
use payrex::types::event::{CheckoutSessionEvent, EventType};
use payrex::types::PaymentMethod::{Card, GCash};
use payrex::types::{
    BillingStatementId, BillingStatementLineItemId, CaptureMethod, CardOptions,
    CheckoutSessionId, CheckoutSessionLineItemId, Currency, CustomerId, ListParams, Metadata,
    PaymentId, PaymentIntentId, PaymentMethod, PaymentMethodOptions, PayoutId, RefundId,
    Timestamp, WebhookId,
};

#[test]
fn test_create_billing_statement_line_item_builder() {
    let params = CreateBillingStatementLineItem::new(BillingStatementId::new("bstm_1"), 1500, 3)
        .description("Item A");
    assert_eq!(params.billing_statement_id.as_str(), "bstm_1");
    assert_eq!(params.description, Some("Item A".to_string()));
    assert_eq!(params.unit_price, 1500);
    assert_eq!(params.quantity, 3);
}

#[test]
fn test_update_billing_statement_line_item_builder() {
    let params = UpdateBillingStatementLineItem::new()
        .description("Updated item")
        .unit_price(2000)
        .quantity(5);
    assert_eq!(params.description, Some("Updated item".to_string()));
    assert_eq!(params.unit_price, Some(2000));
    assert_eq!(params.quantity, Some(5));
}

#[test]
fn test_create_billing_statement_builder() {
    let mut metadata = Metadata::new();
    metadata.insert("k", "v");

    let settings = PaymentSettings {
        payment_methods: vec![PaymentMethod::QRPh],
    };

    let params = CreateBillingStatement::new(CustomerId::new("cus_001"), Currency::PHP)
        .payment_settings(settings.clone())
        .billing_details_collection("always")
        .description("desc")
        .metadata(metadata.clone());

    assert_eq!(params.customer_id.as_str(), "cus_001");
    assert_eq!(params.currency, Currency::PHP);
    assert_eq!(params.payment_settings, Some(settings));
    assert_eq!(params.billing_details_collection.as_deref(), Some("always"));
    assert_eq!(params.description.as_deref(), Some("desc"));
    assert_eq!(params.metadata.unwrap().get("k"), Some("v"));
}

#[test]
fn test_checkout_session_line_item_builder() {
    let item = CheckoutSessionLineItem::new("Test item", 2, 1500);
    assert_eq!(item.name, "Test item".to_string());
    assert_eq!(item.amount, 1500);
    assert_eq!(item.quantity, 2);
    assert!(item.description.is_none());
    assert!(item.image.is_none());

    let item = item.description("Desc").image("img_url");
    assert_eq!(item.description.as_deref(), Some("Desc"));
    assert_eq!(item.image.as_deref(), Some("img_url"));
}

#[test]
fn test_create_checkout_session_builder() {
    let line_item = CheckoutSessionLineItem::new("Item A", 1000, 1);
    let payment_methods = vec![PaymentMethod::Card];
    let params = CreateCheckoutSession::new(
        vec![line_item.clone()],
        "https://success",
        "https://cancel",
        payment_methods.clone(),
        Currency::PHP,
    );

    assert_eq!(params.currency, Currency::PHP);
    assert_eq!(params.line_items, vec![line_item]);
    assert_eq!(params.success_url, "https://success".to_string());
    assert_eq!(params.cancel_url, "https://cancel".to_string());
    assert_eq!(params.payment_methods, payment_methods);
    assert!(params.customer_reference_id.is_none());
    assert!(params.payment_method_options.is_none());
    assert!(params.expires_at.is_none());
    assert!(params.billing_details_collection.is_none());
    assert!(params.submit_type.is_none());
    assert!(params.description.is_none());
    assert!(params.metadata.is_none());
}

#[test]
fn test_create_customer_builder() {
    let mut metadata = Metadata::new();
    metadata.insert("order_id".to_string(), "12345".to_string());
    let params = CreateCustomer::new(
        "test@example.com".to_string(),
        "Test User".to_string(),
        Currency::PHP,
    )
    .billing_statement_prefix("PKYG9MA2")
    .next_billing_statement_sequence_number("002")
    .metadata(metadata.clone());
    assert_eq!(params.currency, Currency::PHP);
    assert_eq!(params.email, "test@example.com".to_string());
    assert_eq!(params.name, "Test User".to_string());
    assert_eq!(
        params.billing_statement_prefix,
        Some("PKYG9MA2".to_string())
    );
    assert_eq!(
        params.next_billing_statement_sequence_number,
        Some("002".to_string())
    );
    assert_eq!(params.metadata, Some(metadata));
}

#[test]
fn test_update_customer_builder() {
    let mut metadata = Metadata::new();
    metadata.insert("key".to_string(), "value".to_string());
    let params = UpdateCustomer::new()
        .currency(Currency::PHP)
        .email("user@example.com")
        .name("User")
        .billing_statement_prefix("BS")
        .next_billing_statement_sequence_number("003")
        .metadata(metadata.clone());
    assert_eq!(params.currency, Some(Currency::PHP));
    assert_eq!(params.email, Some("user@example.com".to_string()));
    assert_eq!(params.name, Some("User".to_string()));
    assert_eq!(params.billing_statement_prefix, Some("BS".to_string()));
    assert_eq!(
        params.next_billing_statement_sequence_number,
        Some("003".to_string())
    );
    assert_eq!(params.metadata, Some(metadata));
}

#[test]
fn test_customer_list_params_builder() {
    let mut metadata = Metadata::new();
    metadata.insert("key", "value");
    let mut params = CustomerListParams::new()
        .name("Name")
        .email("user@example.com")
        .metadata(metadata.clone());
    params.list_params = ListParams::new()
        .limit(20)
        .after("cus_abc")
        .before("cus_def");
    assert_eq!(params.list_params.limit, Some(20));
    assert_eq!(params.list_params.after.as_deref(), Some("cus_abc"));
    assert_eq!(params.list_params.before.as_deref(), Some("cus_def"));
    assert_eq!(params.name, Some("Name".to_string()));
    assert_eq!(params.email, Some("user@example.com".to_string()));
    assert_eq!(params.metadata.unwrap().get("key"), Some("value"));
}

#[test]
fn test_create_payment_intent_builder() {
    let payment_methods = vec![Card, GCash];
    let params = CreatePaymentIntent::new(payment_methods, 10000, Currency::PHP)
        .description("Test payment")
        .capture_method(CaptureMethod::Manual);

    assert_eq!(params.amount, 10000);
    assert_eq!(params.currency, Currency::PHP);
    assert_eq!(params.payment_methods, vec![Card, GCash]);
    assert_eq!(params.description, Some("Test payment".to_string()));
    assert_eq!(params.capture_method, Some(CaptureMethod::Manual));
}

#[test]
fn test_create_payment_intent_with_all_options() {
    let payment_methods = vec![Card];
    let mut metadata = Metadata::new();
    metadata.insert("order_id", "12345");

    let card_options = CardOptions {
        capture_type: Some(CaptureMethod::Manual),
        allowed_bins: Some(vec!["123456".to_string()]),
        allowed_funding: Some(vec!["credit".to_string()]),
    };

    let payment_method_options = PaymentMethodOptions {
        card: Some(card_options),
    };

    let params = CreatePaymentIntent::new(payment_methods, 10000, Currency::PHP)
        .description("Test payment")
        .metadata(metadata.clone())
        .capture_method(CaptureMethod::Manual)
        .payment_method_options(payment_method_options.clone())
        .statement_descriptor("TEST MERCHANT")
        .return_url("https://example.com/return");

    assert_eq!(params.amount, 10000);
    assert_eq!(params.description, Some("Test payment".to_string()));
    assert_eq!(params.metadata, Some(metadata));
    assert_eq!(params.capture_method, Some(CaptureMethod::Manual));
    assert!(params.payment_method_options.is_some());
    assert_eq!(
        params.statement_descriptor,
        Some("TEST MERCHANT".to_string())
    );
    assert_eq!(
        params.return_url,
        Some("https://example.com/return".to_string())
    );
}

#[test]
fn test_capture_payment_intent() {
    let params = CapturePaymentIntent::new(5000);
    assert_eq!(params.amount, 5000);
}

#[test]
fn test_create_refund_builder() {
    let mut metadata = Metadata::new();
    metadata.insert("order", "1");

    let params = CreateRefund::new(
        PaymentId::new("pay_abc"),
        123,
        Currency::PHP,
        RefundReason::WrongProductReceived,
    )
    .metadata(metadata.clone())
    .remarks("note")
    .description("desc");
    assert_eq!(params.payment_id.as_str(), "pay_abc");
    assert_eq!(params.amount, 123);
    assert_eq!(params.currency, Currency::PHP);
    assert_eq!(params.reason, RefundReason::WrongProductReceived);
    assert_eq!(params.metadata.unwrap().get("order"), Some("1"));
    assert_eq!(params.remarks, Some("note".to_string()));
    assert_eq!(params.description, Some("desc".to_string()));
}

#[test]
fn test_create_webhook_builder() {
    let events = vec![EventType::CheckoutSession(CheckoutSessionEvent::Expired)];
    let params = CreateWebhook::new("https://example.com", events.clone());

    assert_eq!(params.url, "https://example.com".to_string());
    assert_eq!(params.events, events);
    assert!(params.description.is_none());
}

#[test]
fn test_update_webhook_builder() {
    let events = vec![EventType::CheckoutSession(CheckoutSessionEvent::Expired)];
    let params = UpdateWebhook::new()
        .url("https://example.com")
        .events(events.clone())
        .description("desc");

    assert_eq!(params.url.as_deref(), Some("https://example.com"));
    assert_eq!(params.events, Some(events));
    assert_eq!(params.description.as_deref(), Some("desc"));
}

#[test]
fn new_parameters_hold_nothing_optional() {
    let refund = CreateRefund::new(PaymentId::new("pay_1"), 1, Currency::PHP, RefundReason::Others);
    assert!(refund.metadata.is_none() && refund.remarks.is_none() && refund.description.is_none());

    let customer = UpdateCustomer::new();
    assert!(customer.billing_statement_prefix.is_none());
    assert!(customer.next_billing_statement_sequence_number.is_none());
    assert!(customer.email.is_none() && customer.name.is_none());
    assert!(customer.metadata.is_none() && customer.currency.is_none());

    let statement = UpdateBillingStatement::new();
    assert!(statement.customer_id.is_none() && statement.payment_settings.is_none());
    assert!(statement.billing_details_collection.is_none() && statement.due_at.is_none());
    assert!(statement.metadata.is_none() && statement.description.is_none());

    let listing = WebhookListParams::new();
    assert!(listing.url.is_none() && listing.description.is_none());
    assert_eq!(listing.list_params.limit, None);
    assert_eq!(listing.list_params.after, None);
    assert_eq!(listing.list_params.before, None);

    let update = UpdateRefund::default();
    assert!(update.metadata.is_none());
}

#[test]
fn setters_overwrite_and_keep_the_other_fields() {
    let item = CheckoutSessionLineItem::new("Item", 2, 1500)
        .id(CheckoutSessionLineItemId::new("cs_li_1"))
        .image("first")
        .image(String::from("second"))
        .description("d");
    assert_eq!(item.id.as_ref().map(|id| id.as_str()), Some("cs_li_1"));
    assert_eq!(item.image.as_deref(), Some("second"));
    assert_eq!(item.description.as_deref(), Some("d"));
    assert_eq!(item.name, "Item");
    assert_eq!(item.quantity, 2);
    assert_eq!(item.amount, 1500);

    let statement = UpdateBillingStatement::new()
        .customer_id(CustomerId::new("cus_2"))
        .due_at(Timestamp::from_unix(1_700_000_000));
    assert_eq!(statement.customer_id.as_ref().map(|id| id.as_str()), Some("cus_2"));
    assert_eq!(statement.due_at.map(|t| t.as_unix()), Some(1_700_000_000));
    assert!(statement.payment_settings.is_none());
}

#[test]
fn requests_of_customers() {
    let customers = Customers::new();
    let id = CustomerId::new("cus_123");
    let create = customers.create(CreateCustomer::new("a@b.c", "A", Currency::PHP));
    assert_eq!((create.method, create.path.as_str()), (Method::Post, "/customers"));
    assert_eq!(create.payload.email, "a@b.c");
    let retrieve = customers.retrieve(&id);
    assert_eq!((retrieve.method, retrieve.path.as_str()), (Method::Get, "/customers/cus_123"));
    let update = customers.update(&id, UpdateCustomer::new().name("B"));
    assert_eq!((update.method, update.path.as_str()), (Method::Put, "/customers/cus_123"));
    assert_eq!(update.payload.name.as_deref(), Some("B"));
    let delete = customers.delete(&id);
    assert_eq!((delete.method, delete.path.as_str()), (Method::Delete, "/customers/cus_123"));
    let list = customers.list(None);
    assert_eq!((list.method, list.path.as_str()), (Method::Get, "/customers"));
    assert!(list.payload.is_none());
    let list = customers.list(Some(CustomerListParams::new().email("a@b.c")));
    assert_eq!(list.payload.unwrap().email.as_deref(), Some("a@b.c"));
}

#[test]
fn requests_of_billing_statements() {
    let statements = BillingStatements::new();
    let id = BillingStatementId::new("bstm_9");
    let create = statements.create(CreateBillingStatement::new(CustomerId::new("cus_1"), Currency::PHP));
    assert_eq!((create.method, create.path.as_str()), (Method::Post, "/billing_statements"));
    assert_eq!(create.payload.customer_id.as_str(), "cus_1");
    let r = statements.retrieve(&id);
    assert_eq!((r.method, r.path.as_str()), (Method::Get, "/billing_statements/bstm_9"));
    let r = statements.update(&id, UpdateBillingStatement::new().description("d"));
    assert_eq!((r.method, r.path.as_str()), (Method::Put, "/billing_statements/bstm_9"));
    assert_eq!(r.payload.description.as_deref(), Some("d"));
    let r = statements.delete(&id);
    assert_eq!((r.method, r.path.as_str()), (Method::Delete, "/billing_statements/bstm_9"));
    let r = statements.list(Some(ListParams::new().limit(5)));
    assert_eq!((r.method, r.path.as_str()), (Method::Get, "/billing_statements"));
    assert_eq!(r.payload.unwrap().limit, Some(5));
    let r = statements.finalize(&id);
    assert_eq!((r.method, r.path.as_str()), (Method::Post, "/billing_statements/bstm_9/finalize"));
    let r = statements.send(&id);
    assert_eq!((r.method, r.path.as_str()), (Method::Post, "/billing_statements/bstm_9/send"));
    let r = statements.void(&id);
    assert_eq!((r.method, r.path.as_str()), (Method::Post, "/billing_statements/bstm_9/void"));
    let r = statements.mark_uncollectible(&id);
    assert_eq!(
        (r.method, r.path.as_str()),
        (Method::Post, "/billing_statements/bstm_9/mark_uncollectible")
    );
}

#[test]
fn requests_of_billing_statement_line_items() {
    let items = BillingStatementLineItems::new();
    let r = items.create(CreateBillingStatementLineItem::new(BillingStatementId::new("bstm_1"), 1, 2));
    assert_eq!((r.method, r.path.as_str()), (Method::Post, "/billing_statement_line_items"));
    assert_eq!((r.payload.unit_price, r.payload.quantity), (1, 2));
    let r = items.update(
        BillingStatementLineItemId::new("bstm_li_7"),
        UpdateBillingStatementLineItem::new().quantity(2),
    );
    assert_eq!((r.method, r.path.as_str()), (Method::Put, "/billing_statement_line_items/bstm_li_7"));
    assert_eq!(r.payload.quantity, Some(2));
    let r = items.delete(&BillingStatementLineItemId::new("bstm_li_7"));
    assert_eq!(
        (r.method, r.path.as_str()),
        (Method::Delete, "/billing_statement_line_items/bstm_li_7")
    );
}

#[test]
fn requests_of_checkout_sessions() {
    let sessions = CheckoutSessions::new();
    let id = CheckoutSessionId::new("cs_5");
    let params = CreateCheckoutSession::new(Vec::new(), "s", "c", vec![PaymentMethod::Maya], Currency::PHP);
    let r = sessions.create(params);
    assert_eq!((r.method, r.path.as_str()), (Method::Post, "/checkout_sessions"));
    assert_eq!(r.payload.payment_methods, vec![PaymentMethod::Maya]);
    let r = sessions.retrieve(&id);
    assert_eq!((r.method, r.path.as_str()), (Method::Get, "/checkout_sessions/cs_5"));
    let r = sessions.expire(&id);
    assert_eq!((r.method, r.path.as_str()), (Method::Post, "/checkout_sessions/cs_5/expire"));
}

#[test]
fn requests_of_payment_intents() {
    let intents = PaymentIntents::new();
    let id = PaymentIntentId::new("pi_3");
    let r = intents.create(CreatePaymentIntent::new(vec![PaymentMethod::Card], 2000, Currency::PHP));
    assert_eq!((r.method, r.path.as_str()), (Method::Post, "/payment_intents"));
    assert_eq!(r.payload.amount, 2000);
    let r = intents.retrieve(&id);
    assert_eq!((r.method, r.path.as_str()), (Method::Get, "/payment_intents/pi_3"));
    let r = intents.cancel(&id);
    assert_eq!((r.method, r.path.as_str()), (Method::Post, "/payment_intents/pi_3/cancel"));
    let r = intents.capture(&id, CapturePaymentIntent::new(2000));
    assert_eq!((r.method, r.path.as_str()), (Method::Post, "/payment_intents/pi_3/capture"));
    assert_eq!(r.payload.amount, 2000);
}

#[test]
fn requests_of_payouts_and_refunds() {
    let r = Payouts::new().list_transactions(&PayoutId::new("po_1"), Some(ListParams::new().after("x")));
    assert_eq!((r.method, r.path.as_str()), (Method::Get, "/payouts/po_1/transactions"));
    assert_eq!(r.payload.unwrap().after.as_deref(), Some("x"));
    let r = Payouts::new().list_transactions(&PayoutId::new(""), None);
    assert_eq!(r.path, "/payouts//transactions");
    assert!(r.payload.is_none());

    let refunds = Refunds::new();
    let r = refunds.create(CreateRefund::new(PaymentId::new("pay_1"), 167, Currency::PHP, RefundReason::RequestedByCustomer));
    assert_eq!((r.method, r.path.as_str()), (Method::Post, "/refunds"));
    assert_eq!(r.payload.amount, 167);
    let mut metadata = Metadata::new();
    metadata.insert("order_id", "order_163829");
    let r = refunds.update(&RefundId::new("re_2"), UpdateRefund { metadata: Some(metadata.clone()) });
    assert_eq!((r.method, r.path.as_str()), (Method::Put, "/refunds/re_2"));
    assert_eq!(r.payload.metadata, Some(metadata));
}

#[test]
fn requests_of_webhooks() {
    let webhooks = Webhooks::new();
    let id = WebhookId::new("wh_8");
    let r = webhooks.create(CreateWebhook::new("https://hook", Vec::new()));
    assert_eq!((r.method, r.path.as_str()), (Method::Post, "/webhooks"));
    assert_eq!(r.payload.url, "https://hook");
    let r = webhooks.retrieve(&id);
    assert_eq!((r.method, r.path.as_str()), (Method::Get, "/webhooks/wh_8"));
    let r = webhooks.update(&id, UpdateWebhook::new().url("https://new"));
    assert_eq!((r.method, r.path.as_str()), (Method::Put, "/webhooks/wh_8"));
    assert_eq!(r.payload.url.as_deref(), Some("https://new"));
    let r = webhooks.delete(&id);
    assert_eq!((r.method, r.path.as_str()), (Method::Delete, "/webhooks/wh_8"));
    let r = webhooks.list(WebhookListParams::new().url("https://hook"));
    assert_eq!((r.method, r.path.as_str()), (Method::Get, "/webhooks"));
    assert_eq!(r.payload.url.as_deref(), Some("https://hook"));
    let r = webhooks.enable(&id);
    assert_eq!((r.method, r.path.as_str()), (Method::Post, "/webhooks/wh_8/enable"));
    let r = webhooks.disable(&id);
    assert_eq!((r.method, r.path.as_str()), (Method::Post, "/webhooks/wh_8/disable"));
}
