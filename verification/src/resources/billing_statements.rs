//! Billing statements: one-time payment requests sent to a customer.

use vstd::prelude::*;
use vstd::string::StringExecFns;
use crate::request::{Method, Request};
use crate::resources::billing_statement_line_items::BillingStatementLineItem;
use crate::resources::customers::OptionalCustomer;
use crate::resources::payment_intents::OptionalPaymentIntent;
use crate::text::{opt_text_view, IntoText};
use crate::types::currency::Currency;
use crate::types::ids::{BillingStatementId, CustomerId};
use crate::types::metadata::Metadata;
use crate::types::pagination::ListParams;
use crate::types::payment_method::PaymentMethod;
use crate::types::timestamp::Timestamp;

verus! {

/// The endpoints of billing statements.
#[derive(Debug, Clone, Copy, PartialEq, Eq, Structural)]
pub struct BillingStatements {}

impl BillingStatements {
    /// The endpoints of this resource.
    #[must_use]
    pub fn new() -> (r: Self)
        ensures
            r == (BillingStatements {}),
    {
        BillingStatements {}
    }

    /// Creates a billing statement: `POST /billing_statements`.
    pub fn create(&self, params: CreateBillingStatement) -> (r: Request<CreateBillingStatement>)
        ensures
            r.method == Method::Post,
            r.path@ == "/billing_statements"@,
            r.payload == params,
    {
        Request { method: Method::Post, path: "/billing_statements".to_owned(), payload: params }
    }

    /// Retrieves a billing statement: `GET /billing_statements/:id`.
    pub fn retrieve(&self, id: &BillingStatementId) -> (r: Request<()>)
        ensures
            r.method == Method::Get,
            r.path@ == "/billing_statements/"@ + id@,
    {
        Request {
            method: Method::Get,
            path: "/billing_statements/".to_owned().concat(id.as_str()),
            payload: (),
        }
    }

    /// Updates a billing statement: `PUT /billing_statements/:id`.
    pub fn update(
        &self,
        id: &BillingStatementId,
        params: UpdateBillingStatement,
    ) -> (r: Request<UpdateBillingStatement>)
        ensures
            r.method == Method::Put,
            r.path@ == "/billing_statements/"@ + id@,
            r.payload == params,
    {
        Request {
            method: Method::Put,
            path: "/billing_statements/".to_owned().concat(id.as_str()),
            payload: params,
        }
    }

    /// Deletes a billing statement: `DELETE /billing_statements/:id`.
    pub fn delete(&self, id: &BillingStatementId) -> (r: Request<()>)
        ensures
            r.method == Method::Delete,
            r.path@ == "/billing_statements/"@ + id@,
    {
        Request {
            method: Method::Delete,
            path: "/billing_statements/".to_owned().concat(id.as_str()),
            payload: (),
        }
    }

    /// Lists billing statements: `GET /billing_statements`.
    pub fn list(&self, params: Option<ListParams>) -> (r: Request<Option<ListParams>>)
        ensures
            r.method == Method::Get,
            r.path@ == "/billing_statements"@,
            r.payload == params,
    {
        Request { method: Method::Get, path: "/billing_statements".to_owned(), payload: params }
    }

    /// Finalizes a billing statement: `POST
    /// /billing_statements/:id/finalize`.
    pub fn finalize(&self, id: &BillingStatementId) -> (r: Request<()>)
        ensures
            r.method == Method::Post,
            r.path@ == "/billing_statements/"@ + id@ + "/finalize"@,
    {
        Request {
            method: Method::Post,
            path: "/billing_statements/".to_owned().concat(id.as_str()).concat("/finalize"),
            payload: (),
        }
    }

    /// Sends a billing statement to the customer: `POST
    /// /billing_statements/:id/send`.
    pub fn send(&self, id: &BillingStatementId) -> (r: Request<()>)
        ensures
            r.method == Method::Post,
            r.path@ == "/billing_statements/"@ + id@ + "/send"@,
    {
        Request {
            method: Method::Post,
            path: "/billing_statements/".to_owned().concat(id.as_str()).concat("/send"),
            payload: (),
        }
    }

    /// Voids a billing statement: `POST /billing_statements/:id/void`.
    pub fn void(&self, id: &BillingStatementId) -> (r: Request<()>)
        ensures
            r.method == Method::Post,
            r.path@ == "/billing_statements/"@ + id@ + "/void"@,
    {
        Request {
            method: Method::Post,
            path: "/billing_statements/".to_owned().concat(id.as_str()).concat("/void"),
            payload: (),
        }
    }

    /// Marks a billing statement as uncollectible: `POST
    /// /billing_statements/:id/mark_uncollectible`.
    pub fn mark_uncollectible(&self, id: &BillingStatementId) -> (r: Request<()>)
        ensures
            r.method == Method::Post,
            r.path@ == "/billing_statements/"@ + id@ + "/mark_uncollectible"@,
    {
        Request {
            method: Method::Post,
            path: "/billing_statements/".to_owned().concat(id.as_str()).concat("/mark_uncollectible"),
            payload: (),
        }
    }
}

/// A billing statement: a one-time payment request to a customer.
#[derive(Debug, Clone, PartialEq, Eq)]
pub struct BillingStatement {
    /// Unique identifier for the resource. The prefix is `bstm_`.
    pub id: BillingStatementId,
    /// Defines if the billing information fields will always show or are
    /// managed by the API. Default value is `always`.
    pub billing_details_collection: Option<String>,
    /// The ID of the customer of the billing statement.
    pub customer_id: CustomerId,
    /// The time when the billing statement is expected to be paid. If the
    /// `due_at` is already past, the customer can still pay the billing
    /// statement if the status is open.
    pub due_at: Option<Timestamp>,
    /// The time when the billing statement was finalized.
    pub finalized_at: Option<Timestamp>,
    /// The name of the merchant where the billing statement belongs to.
    pub billing_statement_merchant_name: Option<String>,
    /// The number associated with the billing statement.
    pub billing_statement_number: Option<String>,
    /// The URL that the customer will access to pay the billing statement.
    /// Only visible while the status is `open`.
    pub billing_statement_url: Option<String>,
    /// The line items of the billing statement.
    pub line_items: Option<Vec<BillingStatementLineItem>>,
    /// The payment intent created for the billing statement.
    pub payment_intent: Option<OptionalPaymentIntent>,
    /// The setup for future usage of this billing statement.
    pub setup_future_usage: Option<String>,
    /// The statement descriptor of the billing statement.
    pub statement_descriptor: Option<String>,
    /// The latest status of the billing statement.
    pub status: BillingStatementStatus,
    /// Settings that can modify the behavior of the payment processing for
    /// the billing statement.
    pub payment_settings: PaymentSettings,
    /// The customer that is associated with the billing statement.
    pub customer: Option<OptionalCustomer>,
    /// The amount, a positive integer in the smallest currency unit, cents: ₱
    /// 120.50 is 12050. The minimum amount is ₱ 20 (2000 in cents) and the
    /// maximum amount is ₱ 59,999,999.99 (5999999999 in cents).
    pub amount: u64,
    /// A set of key-value pairs attached to the resource, for storing
    /// additional information about it.
    pub metadata: Option<Metadata>,
    /// An arbitrary string attached to the billing statement and copied over
    /// to its payment intent. If the description is not modified, the default
    /// value is "Payment for Billing Statement <billing statement number>".
    pub description: Option<String>,
    /// The value is `true` if the resource's mode is live or the value is
    /// `false` if the resource is in test mode.
    pub livemode: bool,
    /// The time the resource was created and measured in seconds since the
    /// Unix epoch.
    pub created_at: Timestamp,
    /// The time the resource was updated and measured in seconds since the
    /// Unix epoch.
    pub updated_at: Timestamp,
    /// A three-letter ISO currency code in uppercase. As of the moment, we
    /// only support PHP.
    pub currency: Currency,
}

/// Payment settings of a billing statement.
#[derive(Debug, Clone, PartialEq, Eq)]
pub struct PaymentSettings {
    /// The payment methods allowed to be processed by the payment intent of
    /// the billing statement.
    pub payment_methods: Vec<PaymentMethod>,
}

/// The latest status of a [`BillingStatement`].
#[derive(Debug, Clone, Copy, PartialEq, Eq, Hash, Structural)]
pub enum BillingStatementStatus {
    /// The billing statement is a draft.
    Draft,
    /// The billing statement is open.
    Open,
    /// The billing statement is paid.
    Paid,
    /// The billing statement is void.
    Void,
    /// The billing statement is uncollectible.
    Uncollectible,
}

/// Query parameters when creating a billing statement.
#[derive(Debug, Default, Clone)]
pub struct CreateBillingStatement {
    /// The ID of the customer of the billing statement.
    pub customer_id: CustomerId,
    /// Settings that can modify the behavior of the payment processing for
    /// the billing statement.
    pub payment_settings: Option<PaymentSettings>,
    /// Defines if the billing information fields will always show or are
    /// managed by the API. Default value is `always`.
    pub billing_details_collection: Option<String>,
    /// A set of key-value pairs attached to the resource, for storing
    /// additional information about it.
    pub metadata: Option<Metadata>,
    /// An arbitrary string attached to the billing statement and copied over
    /// to its payment intent. If the description is not modified, the default
    /// value is "Payment for Billing Statement <billing statement number>".
    pub description: Option<String>,
    /// A three-letter ISO currency code in uppercase. As of the moment, we
    /// only support PHP.
    pub currency: Currency,
}

impl CreateBillingStatement {
    /// Creates a new [`CreateBillingStatement`] instance.
    #[must_use]
    pub fn new(customer_id: CustomerId, currency: Currency) -> (r: Self)
        ensures
            r.customer_id == customer_id,
            r.payment_settings is None,
            r.billing_details_collection is None,
            r.metadata is None,
            r.description is None,
            r.currency == currency,
    {
        CreateBillingStatement {
            customer_id,
            payment_settings: None,
            billing_details_collection: None,
            metadata: None,
            description: None,
            currency,
        }
    }

    /// Sets the payment settings when creating a billing statement.
    pub fn payment_settings(self, payment_settings: PaymentSettings) -> (r: Self)
        ensures
            r == (CreateBillingStatement { payment_settings: Some(payment_settings), ..self }),
    {
        let mut r = self;
        r.payment_settings = Some(payment_settings);
        r
    }

    /// Sets the billing details collection when creating a billing statement.
    pub fn billing_details_collection(self, billing_details_collection: impl IntoText) -> (r: Self)
        ensures
            opt_text_view(r.billing_details_collection) == Some(billing_details_collection.text()),
            r == (CreateBillingStatement {
                billing_details_collection: r.billing_details_collection,
                ..self
            }),
    {
        let mut r = self;
        r.billing_details_collection = Some(billing_details_collection.into_text());
        r
    }

    /// Sets metadata in the query parameters.
    pub fn metadata(self, metadata: Metadata) -> (r: Self)
        ensures
            r == (CreateBillingStatement { metadata: Some(metadata), ..self }),
    {
        let mut r = self;
        r.metadata = Some(metadata);
        r
    }

    /// Sets the description in the query parameters.
    pub fn description(self, description: impl IntoText) -> (r: Self)
        ensures
            opt_text_view(r.description) == Some(description.text()),
            r == (CreateBillingStatement { description: r.description, ..self }),
    {
        let mut r = self;
        r.description = Some(description.into_text());
        r
    }
}

/// Query parameters when updating a billing statement.
#[derive(Debug, Clone)]
pub struct UpdateBillingStatement {
    /// The ID of the customer of the billing statement.
    pub customer_id: Option<CustomerId>,
    /// Settings that can modify the behavior of the payment processing for
    /// the billing statement.
    pub payment_settings: Option<PaymentSettings>,
    /// Defines if the billing information fields will always show or are
    /// managed by the API.
    pub billing_details_collection: Option<String>,
    /// The time when the billing statement is expected to be paid.
    pub due_at: Option<Timestamp>,
    /// A set of key-value pairs attached to the resource, for storing
    /// additional information about it.
    pub metadata: Option<Metadata>,
    /// An arbitrary string attached to the billing statement and copied over
    /// to its payment intent. If the description is not modified, the default
    /// value is "Payment for Billing Statement <billing statement number>".
    pub description: Option<String>,
}

impl UpdateBillingStatement {
    /// Creates a new [`UpdateBillingStatement`] instance.
    #[must_use]
    pub fn new() -> (r: Self)
        ensures
            r.customer_id is None,
            r.payment_settings is None,
            r.billing_details_collection is None,
            r.due_at is None,
            r.metadata is None,
            r.description is None,
    {
        UpdateBillingStatement {
            customer_id: None,
            payment_settings: None,
            billing_details_collection: None,
            due_at: None,
            metadata: None,
            description: None,
        }
    }

    /// Sets the customer ID before updating a billing statement.
    pub fn customer_id(self, customer_id: CustomerId) -> (r: Self)
        ensures
            r == (UpdateBillingStatement { customer_id: Some(customer_id), ..self }),
    {
        let mut r = self;
        r.customer_id = Some(customer_id);
        r
    }

    /// Sets the payment settings before updating a billing statement.
    pub fn payment_settings(self, payment_settings: PaymentSettings) -> (r: Self)
        ensures
            r == (UpdateBillingStatement { payment_settings: Some(payment_settings), ..self }),
    {
        let mut r = self;
        r.payment_settings = Some(payment_settings);
        r
    }

    /// Sets the billing details collection before updating a billing
    /// statement.
    pub fn billing_details_collection(self, billing_details_collection: impl IntoText) -> (r: Self)
        ensures
            opt_text_view(r.billing_details_collection) == Some(billing_details_collection.text()),
            r == (UpdateBillingStatement {
                billing_details_collection: r.billing_details_collection,
                ..self
            }),
    {
        let mut r = self;
        r.billing_details_collection = Some(billing_details_collection.into_text());
        r
    }

    /// Sets the deadline for the billing statement at a specified date.
    pub fn due_at(self, due_at: Timestamp) -> (r: Self)
        ensures
            r == (UpdateBillingStatement { due_at: Some(due_at), ..self }),
    {
        let mut r = self;
        r.due_at = Some(due_at);
        r
    }

    /// Sets metadata in the query parameters.
    pub fn metadata(self, metadata: Metadata) -> (r: Self)
        ensures
            r == (UpdateBillingStatement { metadata: Some(metadata), ..self }),
    {
        let mut r = self;
        r.metadata = Some(metadata);
        r
    }

    /// Sets the description in the query parameters.
    pub fn description(self, description: impl IntoText) -> (r: Self)
        ensures
            opt_text_view(r.description) == Some(description.text()),
            r == (UpdateBillingStatement { description: r.description, ..self }),
    {
        let mut r = self;
        r.description = Some(description.into_text());
        r
    }
}

impl Default for UpdateBillingStatement {
    /// The same as [`UpdateBillingStatement::new`].
    fn default() -> (r: Self)
        ensures
            r.customer_id is None,
            r.payment_settings is None,
            r.billing_details_collection is None,
            r.due_at is None,
            r.metadata is None,
            r.description is None,
    {
        UpdateBillingStatement::new()
    }
}

} // verus!
