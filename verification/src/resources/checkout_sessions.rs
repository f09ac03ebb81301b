//! Checkout sessions: hosted checkout pages.

use vstd::prelude::*;
use vstd::string::StringExecFns;
use crate::request::{Method, Request};
use crate::resources::payment_intents::PaymentIntent;
use crate::text::{opt_text_view, IntoText};
use crate::types::currency::Currency;
use crate::types::ids::{CheckoutSessionId, CheckoutSessionLineItemId};
use crate::types::metadata::Metadata;
use crate::types::payment_method::{PaymentMethod, PaymentMethodOptions};
use crate::types::timestamp::Timestamp;

verus! {

/// The endpoints of checkout sessions.
#[derive(Debug, Clone, Copy, PartialEq, Eq, Structural)]
pub struct CheckoutSessions {}

impl CheckoutSessions {
    /// The endpoints of this resource.
    #[must_use]
    pub fn new() -> (r: Self)
        ensures
            r == (CheckoutSessions {}),
    {
        CheckoutSessions {}
    }

    /// Creates a checkout session: `POST /checkout_sessions`.
    pub fn create(&self, params: CreateCheckoutSession) -> (r: Request<CreateCheckoutSession>)
        ensures
            r.method == Method::Post,
            r.path@ == "/checkout_sessions"@,
            r.payload == params,
    {
        Request { method: Method::Post, path: "/checkout_sessions".to_owned(), payload: params }
    }

    /// Retrieves a checkout session: `GET /checkout_sessions/:id`.
    pub fn retrieve(&self, id: &CheckoutSessionId) -> (r: Request<()>)
        ensures
            r.method == Method::Get,
            r.path@ == "/checkout_sessions/"@ + id@,
    {
        Request {
            method: Method::Get,
            path: "/checkout_sessions/".to_owned().concat(id.as_str()),
            payload: (),
        }
    }

    /// Expires a checkout session: `POST /checkout_sessions/:id/expire`.
    pub fn expire(&self, id: &CheckoutSessionId) -> (r: Request<()>)
        ensures
            r.method == Method::Post,
            r.path@ == "/checkout_sessions/"@ + id@ + "/expire"@,
    {
        Request {
            method: Method::Post,
            path: "/checkout_sessions/".to_owned().concat(id.as_str()).concat("/expire"),
            payload: (),
        }
    }
}

/// A checkout session: a hosted page on which a customer pays for a list of
/// line items.
#[derive(Debug, Clone, PartialEq, Eq)]
pub struct CheckoutSession {
    /// Unique identifier for the resource. The prefix is `cs_`.
    pub id: CheckoutSessionId,
    /// A unique reference of the checkout session aside from the `id`, such
    /// as an order ID.
    pub customer_reference_id: Option<String>,
    /// Defines if the billing information fields will always show or are
    /// managed by the API.
    pub billing_details_collection: Option<String>,
    /// The client secret of the checkout session, used for client-side
    /// retrieval with a public API key.
    pub client_secret: Option<String>,
    /// The latest status of the checkout session.
    pub status: CheckoutSessionStatus,
    /// The line items of the checkout session.
    pub line_items: Vec<CheckoutSessionLineItem>,
    /// The URL to which the customer is redirected to pay.
    pub url: String,
    /// The payment intent of the checkout session.
    pub payment_intent: Option<PaymentIntent>,
    /// The URL to which the customer is redirected after a successful
    /// payment.
    pub success_url: Option<String>,
    /// The URL to which the customer is redirected when the payment is
    /// cancelled.
    pub cancel_url: Option<String>,
    /// The payment methods allowed to be processed by the checkout session.
    pub payment_methods: Option<Vec<PaymentMethod>>,
    /// A set of key-value pairs that can modify the behavior of the payment
    /// method.
    pub payment_method_options: Option<PaymentMethodOptions>,
    /// The text of the button on the checkout page.
    pub submit_type: Option<String>,
    /// Text that appears on the customer's bank statement.
    pub statement_descriptor: Option<String>,
    /// The time when the checkout session expires.
    pub expires_at: Option<Timestamp>,
    /// The amount, a positive integer in the smallest currency unit, cents: ₱
    /// 120.50 is 12050. The minimum amount is ₱ 20 (2000 in cents) and the
    /// maximum amount is ₱ 59,999,999.99 (5999999999 in cents).
    pub amount: Option<u64>,
    /// A set of key-value pairs attached to the resource, for storing
    /// additional information about it.
    pub metadata: Option<Metadata>,
    /// An arbitrary string attached to the CheckoutSession. Useful reference
    /// when viewing paid Payment from the dashboard.
    pub description: Option<String>,
    /// The value is `true` if the resource's mode is live or the value is
    /// `false` if the resource is in test mode.
    pub livemode: bool,
    /// The time the resource was created and measured in seconds since the
    /// Unix epoch.
    pub created_at: Timestamp,
    /// The time the resource was updated and measured in seconds since the
    /// Unix epoch.
    pub updated_at: Timestamp,
    /// A three-letter ISO currency code in uppercase. As of the moment, we
    /// only support PHP.
    pub currency: Currency,
}

/// The latest status of a [`CheckoutSession`].
#[derive(Debug, Clone, Copy, PartialEq, Eq, Hash, Structural)]
pub enum CheckoutSessionStatus {
    /// The checkout session is active.
    Active,
    /// The checkout session is completed.
    Completed,
    /// The checkout session has expired.
    Expired,
}

/// A line item of a checkout session.
#[derive(Debug, Default, Clone, PartialEq, Eq)]
pub struct CheckoutSessionLineItem {
    /// Unique identifier for the resource. The prefix is `cs_li_`.
    pub id: Option<CheckoutSessionLineItemId>,
    /// The name of the line item.
    pub name: String,
    /// The quantity of the line item.
    pub quantity: u64,
    /// The public URL of the image of the line item.
    pub image: Option<String>,
    /// The amount, a positive integer in the smallest currency unit, cents: ₱
    /// 120.50 is 12050. The minimum amount is ₱ 20 (2000 in cents) and the
    /// maximum amount is ₱ 59,999,999.99 (5999999999 in cents).
    pub amount: u64,
    /// An arbitrary string attached to the CheckoutSession. Useful reference
    /// when viewing paid Payment from the dashboard.
    pub description: Option<String>,
}

impl CheckoutSessionLineItem {
    /// Creates a new [`CheckoutSessionLineItem`] instance.
    #[must_use]
    pub fn new(name: impl IntoText, quantity: u64, amount: u64) -> (r: Self)
        ensures
            r.id is None,
            r.name@ == name.text(),
            r.quantity == quantity,
            r.image is None,
            r.amount == amount,
            r.description is None,
    {
        CheckoutSessionLineItem {
            id: None,
            name: name.into_text(),
            quantity,
            image: None,
            amount,
            description: None,
        }
    }

    /// Sets the checkout session line item ID.
    pub fn id(self, id: CheckoutSessionLineItemId) -> (r: Self)
        ensures
            r == (CheckoutSessionLineItem { id: Some(id), ..self }),
    {
        let mut r = self;
        r.id = Some(id);
        r
    }

    /// Sets the public image URL of the line item.
    pub fn image(self, image: impl IntoText) -> (r: Self)
        ensures
            opt_text_view(r.image) == Some(image.text()),
            r == (CheckoutSessionLineItem { image: r.image, ..self }),
    {
        let mut r = self;
        r.image = Some(image.into_text());
        r
    }

    /// Sets the description in the query parameters.
    pub fn description(self, description: impl IntoText) -> (r: Self)
        ensures
            opt_text_view(r.description) == Some(description.text()),
            r == (CheckoutSessionLineItem { description: r.description, ..self }),
    {
        let mut r = self;
        r.description = Some(description.into_text());
        r
    }
}

/// Query parameters when creating a checkout session.
#[derive(Debug, Default, Clone)]
pub struct CreateCheckoutSession {
    /// A unique reference of the checkout session aside from the `id`, such
    /// as an order ID.
    pub customer_reference_id: Option<String>,
    /// The line items of the checkout session.
    pub line_items: Vec<CheckoutSessionLineItem>,
    /// The URL to which the customer is redirected after a successful
    /// payment.
    pub success_url: String,
    /// The URL to which the customer is redirected when the payment is
    /// cancelled.
    pub cancel_url: String,
    /// The payment methods allowed to be processed by the checkout session.
    pub payment_methods: Vec<PaymentMethod>,
    /// A set of key-value pairs that can modify the behavior of the payment
    /// method.
    pub payment_method_options: Option<PaymentMethodOptions>,
    /// The time when the checkout session expires.
    pub expires_at: Option<Timestamp>,
    /// Defines if the billing information fields will always show or are
    /// managed by the API.
    pub billing_details_collection: Option<String>,
    /// The text of the button on the checkout page.
    pub submit_type: Option<String>,
    /// A set of key-value pairs attached to the resource, for storing
    /// additional information about it.
    pub metadata: Option<Metadata>,
    /// An arbitrary string attached to the CheckoutSession. Useful reference
    /// when viewing paid Payment from the dashboard.
    pub description: Option<String>,
    /// A three-letter ISO currency code in uppercase. As of the moment, we
    /// only support PHP.
    pub currency: Currency,
}

impl CreateCheckoutSession {
    /// Creates a new [`CreateCheckoutSession`] instance.
    #[must_use]
    pub fn new(
        line_items: Vec<CheckoutSessionLineItem>,
        success_url: impl IntoText,
        cancel_url: impl IntoText,
        payment_methods: Vec<PaymentMethod>,
        currency: Currency,
    ) -> (r: Self)
        ensures
            r.customer_reference_id is None,
            r.line_items == line_items,
            r.success_url@ == success_url.text(),
            r.cancel_url@ == cancel_url.text(),
            r.payment_methods == payment_methods,
            r.payment_method_options is None,
            r.expires_at is None,
            r.billing_details_collection is None,
            r.submit_type is None,
            r.metadata is None,
            r.description is None,
            r.currency == currency,
    {
        CreateCheckoutSession {
            customer_reference_id: None,
            line_items,
            success_url: success_url.into_text(),
            cancel_url: cancel_url.into_text(),
            payment_methods,
            payment_method_options: None,
            expires_at: None,
            billing_details_collection: None,
            submit_type: None,
            metadata: None,
            description: None,
            currency,
        }
    }

    /// Sets the customer reference ID when creating a checkout session.
    pub fn customer_reference_id(self, customer_reference_id: impl IntoText) -> (r: Self)
        ensures
            opt_text_view(r.customer_reference_id) == Some(customer_reference_id.text()),
            r == (CreateCheckoutSession {
                customer_reference_id: r.customer_reference_id,
                ..self
            }),
    {
        let mut r = self;
        r.customer_reference_id = Some(customer_reference_id.into_text());
        r
    }

    /// Sets the payment method options when creating a checkout session.
    pub fn payment_method_options(self, payment_method_options: PaymentMethodOptions) -> (r: Self)
        ensures
            r == (CreateCheckoutSession {
                payment_method_options: Some(payment_method_options),
                ..self
            }),
    {
        let mut r = self;
        r.payment_method_options = Some(payment_method_options);
        r
    }

    /// Sets the expiration date for a checkout session during its creation.
    pub fn expires_at(self, expires_at: Timestamp) -> (r: Self)
        ensures
            r == (CreateCheckoutSession { expires_at: Some(expires_at), ..self }),
    {
        let mut r = self;
        r.expires_at = Some(expires_at);
        r
    }

    /// Sets the billing details collection when creating a checkout session.
    pub fn billing_details_collection(self, billing_details_collection: impl IntoText) -> (r: Self)
        ensures
            opt_text_view(r.billing_details_collection) == Some(billing_details_collection.text()),
            r == (CreateCheckoutSession {
                billing_details_collection: r.billing_details_collection,
                ..self
            }),
    {
        let mut r = self;
        r.billing_details_collection = Some(billing_details_collection.into_text());
        r
    }

    /// Sets the submit type when creating a checkout session.
    pub fn submit_type(self, submit_type: impl IntoText) -> (r: Self)
        ensures
            opt_text_view(r.submit_type) == Some(submit_type.text()),
            r == (CreateCheckoutSession { submit_type: r.submit_type, ..self }),
    {
        let mut r = self;
        r.submit_type = Some(submit_type.into_text());
        r
    }

    /// Sets metadata in the query parameters.
    pub fn metadata(self, metadata: Metadata) -> (r: Self)
        ensures
            r == (CreateCheckoutSession { metadata: Some(metadata), ..self }),
    {
        let mut r = self;
        r.metadata = Some(metadata);
        r
    }

    /// Sets the description in the query parameters.
    pub fn description(self, description: impl IntoText) -> (r: Self)
        ensures
            opt_text_view(r.description) == Some(description.text()),
            r == (CreateCheckoutSession { description: r.description, ..self }),
    {
        let mut r = self;
        r.description = Some(description.into_text());
        r
    }
}

} // verus!
