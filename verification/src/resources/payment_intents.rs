//! Payment intents: the lifecycle of a customer's payment.

use vstd::prelude::*;
use vstd::string::StringExecFns;
use crate::request::{Method, Request};
use crate::text::{opt_text_view, IntoText};
use crate::types::currency::Currency;
use crate::types::ids::PaymentIntentId;
use crate::types::metadata::Metadata;
use crate::types::payment_method::{CaptureMethod, PaymentMethod, PaymentMethodOptions};
use crate::types::timestamp::Timestamp;

verus! {

/// The endpoints of payment intents.
#[derive(Debug, Clone, Copy, PartialEq, Eq, Structural)]
pub struct PaymentIntents {}

impl PaymentIntents {
    /// The endpoints of this resource.
    #[must_use]
    pub fn new() -> (r: Self)
        ensures
            r == (PaymentIntents {}),
    {
        PaymentIntents {}
    }

    /// Creates a payment intent: `POST /payment_intents`.
    pub fn create(&self, params: CreatePaymentIntent) -> (r: Request<CreatePaymentIntent>)
        ensures
            r.method == Method::Post,
            r.path@ == "/payment_intents"@,
            r.payload == params,
    {
        Request { method: Method::Post, path: "/payment_intents".to_owned(), payload: params }
    }

    /// Retrieves a payment intent: `GET /payment_intents/:id`.
    pub fn retrieve(&self, id: &PaymentIntentId) -> (r: Request<()>)
        ensures
            r.method == Method::Get,
            r.path@ == "/payment_intents/"@ + id@,
    {
        Request {
            method: Method::Get,
            path: "/payment_intents/".to_owned().concat(id.as_str()),
            payload: (),
        }
    }

    /// Cancels a payment intent: `POST /payment_intents/:id/cancel`.
    pub fn cancel(&self, id: &PaymentIntentId) -> (r: Request<()>)
        ensures
            r.method == Method::Post,
            r.path@ == "/payment_intents/"@ + id@ + "/cancel"@,
    {
        Request {
            method: Method::Post,
            path: "/payment_intents/".to_owned().concat(id.as_str()).concat("/cancel"),
            payload: (),
        }
    }

    /// Captures a payment intent: `POST /payment_intents/:id/capture`.
    pub fn capture(
        &self,
        id: &PaymentIntentId,
        params: CapturePaymentIntent,
    ) -> (r: Request<CapturePaymentIntent>)
        ensures
            r.method == Method::Post,
            r.path@ == "/payment_intents/"@ + id@ + "/capture"@,
            r.payload == params,
    {
        Request {
            method: Method::Post,
            path: "/payment_intents/".to_owned().concat(id.as_str()).concat("/capture"),
            payload: params,
        }
    }
}

/// What needs to be done so that the customer can make a payment using the
/// selected method.
#[derive(Debug, Clone, PartialEq, Eq)]
pub struct NextAction {
    /// The type of the next action to perform. The possible value is
    /// `redirect`.
    pub action_type: String,
    /// The URL for authenticating a payment by redirecting the customer.
    pub redirect_url: Option<String>,
}

/// The error returned in case of a failed payment attempt.
#[derive(Debug, Clone, PartialEq, Eq)]
pub struct PaymentError {
    /// The status code of the error.
    pub code: Option<String>,
    /// A message that provides more details about the error.
    pub message: Option<String>,
    /// If the error is parameter-specific, the parameter related to the
    /// error.
    pub param: Option<String>,
}

/// A payment intent tracks the customer's payment lifecycle, keeping track of
/// any failed payment attempts and ensuring the customer is only charged
/// once.
#[derive(Debug, Clone, PartialEq, Eq)]
pub struct PaymentIntent {
    /// Unique identifier for the resource. The prefix is `pi_`.
    pub id: PaymentIntentId,
    /// The amount already collected by the payment intent, in cents.
    pub amount_received: u64,
    /// The amount that can be captured by the payment intent, in cents.
    pub amount_capturable: u64,
    /// The client secret of this payment intent, used for client-side
    /// retrieval with a public API key.
    pub client_secret: String,
    /// The ID of the latest successful payment created by the payment intent.
    pub latest_payment: Option<String>,
    /// The error returned in case of a failed payment attempt.
    pub last_payment_error: Option<PaymentError>,
    /// The ID of the latest payment method attached to the payment intent.
    pub payment_method_id: Option<String>,
    /// The payment methods allowed to be processed by the payment intent.
    pub payment_methods: Vec<PaymentMethod>,
    /// A set of key-value pairs that can modify the behavior of the payment
    /// method attached to the payment intent.
    pub payment_method_options: Option<PaymentMethodOptions>,
    /// Text that appears on the customer's bank statement. This value
    /// overrides the merchant account's trade name.
    pub statement_descriptor: Option<String>,
    /// The latest status of the payment intent.
    pub status: PaymentIntentStatus,
    /// What needs to be done so that the customer can make a payment using
    /// the selected method.
    pub next_action: Option<NextAction>,
    /// The URL where the customer is redirected after completing the
    /// authentication.
    pub return_url: Option<String>,
    /// The time by which the payment intent must be captured to avoid being
    /// canceled.
    pub capture_before_at: Option<Timestamp>,
    /// The amount, a positive integer in the smallest currency unit, cents: ₱
    /// 120.50 is 12050. The minimum amount is ₱ 20 (2000 in cents) and the
    /// maximum amount is ₱ 59,999,999.99 (5999999999 in cents).
    pub amount: u64,
    /// A set of key-value pairs attached to the resource, for storing
    /// additional information about it.
    pub metadata: Option<Metadata>,
    /// An arbitrary string attached to the Payment Intent. Useful reference
    /// when viewing paid payments from the dashboard.
    pub description: Option<String>,
    /// The value is `true` if the resource's mode is live or the value is
    /// `false` if the resource is in test mode.
    pub livemode: bool,
    /// The time the resource was created and measured in seconds since the
    /// Unix epoch.
    pub created_at: Timestamp,
    /// The time the resource was updated and measured in seconds since the
    /// Unix epoch.
    pub updated_at: Timestamp,
    /// A three-letter ISO currency code in uppercase. As of the moment, we
    /// only support PHP.
    pub currency: Currency,
}

/// Optional variant for PaymentIntent. This is only used for responses in
/// billing statements API.
#[derive(Debug, Clone, PartialEq, Eq)]
pub struct OptionalPaymentIntent {
    /// Unique identifier for the resource. The prefix is `pi_`.
    pub id: Option<PaymentIntentId>,
    /// The amount already collected by the payment intent, in cents.
    pub amount_received: Option<u64>,
    /// The amount that can be captured by the payment intent, in cents.
    pub amount_capturable: Option<u64>,
    /// The client secret of this payment intent, used for client-side
    /// retrieval with a public API key.
    pub client_secret: Option<String>,
    /// The ID of the latest successful payment created by the payment intent.
    pub latest_payment: Option<String>,
    /// The error returned in case of a failed payment attempt.
    pub last_payment_error: Option<PaymentError>,
    /// The ID of the latest payment method attached to the payment intent.
    pub payment_method_id: Option<String>,
    /// The payment methods allowed to be processed by the payment intent.
    pub payment_methods: Option<Vec<PaymentMethod>>,
    /// A set of key-value pairs that can modify the behavior of the payment
    /// method attached to the payment intent.
    pub payment_method_options: Option<PaymentMethodOptions>,
    /// Text that appears on the customer's bank statement. This value
    /// overrides the merchant account's trade name.
    pub statement_descriptor: Option<String>,
    /// The latest status of the payment intent.
    pub status: Option<PaymentIntentStatus>,
    /// What needs to be done so that the customer can make a payment using
    /// the selected method.
    pub next_action: Option<NextAction>,
    /// The URL where the customer is redirected after completing the
    /// authentication.
    pub return_url: Option<String>,
    /// The time by which the payment intent must be captured to avoid being
    /// canceled.
    pub capture_before_at: Option<Timestamp>,
    /// The amount, a positive integer in the smallest currency unit, cents: ₱
    /// 120.50 is 12050. The minimum amount is ₱ 20 (2000 in cents) and the
    /// maximum amount is ₱ 59,999,999.99 (5999999999 in cents).
    pub amount: Option<u64>,
    /// A set of key-value pairs attached to the resource, for storing
    /// additional information about it.
    pub metadata: Option<Metadata>,
    /// An arbitrary string attached to the Payment Intent. Useful reference
    /// when viewing paid payments from the dashboard.
    pub description: Option<String>,
    /// The value is `true` if the resource's mode is live or the value is
    /// `false` if the resource is in test mode.
    pub livemode: Option<bool>,
    /// The time the resource was created and measured in seconds since the
    /// Unix epoch.
    pub created_at: Option<Timestamp>,
    /// The time the resource was updated and measured in seconds since the
    /// Unix epoch.
    pub updated_at: Option<Timestamp>,
    /// A three-letter ISO currency code in uppercase. As of the moment, we
    /// only support PHP.
    pub currency: Option<Currency>,
}

/// The status of a [`PaymentIntent`]: the current state of the payment
/// process.
#[derive(Debug, Clone, Copy, PartialEq, Eq, Hash, Structural)]
pub enum PaymentIntentStatus {
    /// Awaiting a valid payment method to be attached.
    AwaitingPaymentMethod,
    /// The payment requires a payment method.
    RequiresPaymentMethod,
    /// The payment requires confirmation before proceeding.
    RequiresConfirmation,
    /// The payment requires further action before proceeding.
    RequiresAction,
    /// The payment is being processed.
    Processing,
    /// The payment requires capture.
    RequiresCapture,
    /// The payment was cancelled.
    Canceled,
    /// The payment was successful.
    Succeeded,
}

/// Query parameters when creating a payment intent.
#[derive(Debug, Default, Clone)]
pub struct CreatePaymentIntent {
    /// The payment methods allowed to be processed by the payment intent.
    pub payment_methods: Vec<PaymentMethod>,
    /// How a card payment is captured: automatically, or manually for hold
    /// then capture.
    pub capture_method: Option<CaptureMethod>,
    /// A set of key-value pairs that can modify the behavior of the payment
    /// method attached to the payment intent.
    pub payment_method_options: Option<PaymentMethodOptions>,
    /// Text that appears on the customer's bank statement.
    pub statement_descriptor: Option<String>,
    /// The URL where the customer is redirected after completing the
    /// authentication.
    pub return_url: Option<String>,
    /// The amount, a positive integer in the smallest currency unit, cents: ₱
    /// 120.50 is 12050. The minimum amount is ₱ 20 (2000 in cents) and the
    /// maximum amount is ₱ 59,999,999.99 (5999999999 in cents).
    pub amount: u64,
    /// A set of key-value pairs attached to the resource, for storing
    /// additional information about it.
    pub metadata: Option<Metadata>,
    /// An arbitrary string attached to the Payment Intent. Useful reference
    /// when viewing paid payments from the dashboard.
    pub description: Option<String>,
    /// A three-letter ISO currency code in uppercase. As of the moment, we
    /// only support PHP.
    pub currency: Currency,
}

impl CreatePaymentIntent {
    /// Creates a new [`CreatePaymentIntent`] instance.
    #[must_use]
    pub fn new(payment_methods: Vec<PaymentMethod>, amount: u64, currency: Currency) -> (r: Self)
        ensures
            r.payment_methods == payment_methods,
            r.capture_method is None,
            r.payment_method_options is None,
            r.statement_descriptor is None,
            r.return_url is None,
            r.amount == amount,
            r.metadata is None,
            r.description is None,
            r.currency == currency,
    {
        CreatePaymentIntent {
            payment_methods,
            capture_method: None,
            payment_method_options: None,
            statement_descriptor: None,
            return_url: None,
            amount,
            metadata: None,
            description: None,
            currency,
        }
    }

    /// Sets the capture method when creating a payment intent.
    pub fn capture_method(self, capture_method: CaptureMethod) -> (r: Self)
        ensures
            r == (CreatePaymentIntent { capture_method: Some(capture_method), ..self }),
    {
        let mut r = self;
        r.capture_method = Some(capture_method);
        r
    }

    /// Sets the payment method options when creating a payment intent.
    pub fn payment_method_options(self, payment_method_options: PaymentMethodOptions) -> (r: Self)
        ensures
            r == (CreatePaymentIntent {
                payment_method_options: Some(payment_method_options),
                ..self
            }),
    {
        let mut r = self;
        r.payment_method_options = Some(payment_method_options);
        r
    }

    /// Sets the statement descriptor when creating a payment intent.
    pub fn statement_descriptor(self, statement_descriptor: impl IntoText) -> (r: Self)
        ensures
            opt_text_view(r.statement_descriptor) == Some(statement_descriptor.text()),
            r == (CreatePaymentIntent { statement_descriptor: r.statement_descriptor, ..self }),
    {
        let mut r = self;
        r.statement_descriptor = Some(statement_descriptor.into_text());
        r
    }

    /// Sets the return URL when creating a payment intent.
    pub fn return_url(self, return_url: impl IntoText) -> (r: Self)
        ensures
            opt_text_view(r.return_url) == Some(return_url.text()),
            r == (CreatePaymentIntent { return_url: r.return_url, ..self }),
    {
        let mut r = self;
        r.return_url = Some(return_url.into_text());
        r
    }

    /// Sets metadata in the query parameters.
    pub fn metadata(self, metadata: Metadata) -> (r: Self)
        ensures
            r == (CreatePaymentIntent { metadata: Some(metadata), ..self }),
    {
        let mut r = self;
        r.metadata = Some(metadata);
        r
    }

    /// Sets the description in the query parameters.
    pub fn description(self, description: impl IntoText) -> (r: Self)
        ensures
            opt_text_view(r.description) == Some(description.text()),
            r == (CreatePaymentIntent { description: r.description, ..self }),
    {
        let mut r = self;
        r.description = Some(description.into_text());
        r
    }
}

/// Query parameters when capturing a payment intent.
#[derive(Debug, Clone)]
pub struct CapturePaymentIntent {
    /// The amount, a positive integer in the smallest currency unit, cents: ₱
    /// 120.50 is 12050. The minimum amount is ₱ 20 (2000 in cents) and the
    /// maximum amount is ₱ 59,999,999.99 (5999999999 in cents).
    pub amount: u64,
}

impl CapturePaymentIntent {
    /// Creates a new [`CapturePaymentIntent`] with the specified amount.
    #[must_use]
    pub fn new(amount: u64) -> (r: Self)
        ensures
            r.amount == amount,
    {
        CapturePaymentIntent { amount }
    }
}

} // verus!
