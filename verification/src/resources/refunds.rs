//! Refunds: returning money to a customer.

use vstd::prelude::*;
use vstd::string::StringExecFns;
use crate::request::{Method, Request};
use crate::text::{opt_text_view, IntoText};
use crate::types::currency::Currency;
use crate::types::ids::{PaymentId, RefundId};
use crate::types::metadata::Metadata;
use crate::types::timestamp::Timestamp;

verus! {

/// The endpoints of refunds.
#[derive(Debug, Clone, Copy, PartialEq, Eq, Structural)]
pub struct Refunds {}

impl Refunds {
    /// The endpoints of this resource.
    #[must_use]
    pub fn new() -> (r: Self)
        ensures
            r == (Refunds {}),
    {
        Refunds {}
    }

    /// Creates a refund: `POST /refunds`.
    pub fn create(&self, params: CreateRefund) -> (r: Request<CreateRefund>)
        ensures
            r.method == Method::Post,
            r.path@ == "/refunds"@,
            r.payload == params,
    {
        Request { method: Method::Post, path: "/refunds".to_owned(), payload: params }
    }

    /// Updates a refund: `PUT /refunds/:id`.
    pub fn update(&self, id: &RefundId, params: UpdateRefund) -> (r: Request<UpdateRefund>)
        ensures
            r.method == Method::Put,
            r.path@ == "/refunds/"@ + id@,
            r.payload == params,
    {
        Request {
            method: Method::Put,
            path: "/refunds/".to_owned().concat(id.as_str()),
            payload: params,
        }
    }
}

/// A refunded amount of a paid payment.
#[derive(Debug, Clone, PartialEq, Eq)]
pub struct Refund {
    /// Unique identifier for the resource. The prefix is `re_`.
    pub id: RefundId,
    /// The latest status of the refund.
    pub status: RefundStatus,
    /// The reason of the refund. Use `remarks` to say more where the reason
    /// is `others`.
    pub reason: RefundReason,
    /// Remarks about the refund, useful when viewing a refund in the
    /// dashboard.
    pub remarks: Option<String>,
    /// The ID of the payment to be refunded.
    pub payment_id: PaymentId,
    /// The amount, a positive integer in the smallest currency unit, cents: ₱
    /// 120.50 is 12050. The minimum amount is ₱ 20 (2000 in cents) and the
    /// maximum amount is ₱ 59,999,999.99 (5999999999 in cents).
    pub amount: u64,
    /// A set of key-value pairs attached to the resource, for storing
    /// additional information about it.
    pub metadata: Option<Metadata>,
    /// An arbitrary string attached to the Refund.
    pub description: Option<String>,
    /// The value is `true` if the resource's mode is live or the value is
    /// `false` if the resource is in test mode.
    pub livemode: bool,
    /// The time the resource was created and measured in seconds since the
    /// Unix epoch.
    pub created_at: Timestamp,
    /// The time the resource was updated and measured in seconds since the
    /// Unix epoch.
    pub updated_at: Timestamp,
    /// A three-letter ISO currency code in uppercase. As of the moment, we
    /// only support PHP.
    pub currency: Currency,
}

/// The latest status of a [`Refund`].
#[derive(Debug, Clone, Copy, PartialEq, Eq, Hash, Structural)]
pub enum RefundStatus {
    /// The refund is pending.
    Pending,
    /// The refund succeeded.
    Succeeded,
    /// The refund failed.
    Failed,
}

/// The reason of a [`Refund`].
#[derive(Debug, Clone, Copy, PartialEq, Eq, Hash, Structural)]
pub enum RefundReason {
    /// The payment was fraudulent.
    Fraudulent,
    /// The customer requested the refund.
    RequestedByCustomer,
    /// The product is out of stock.
    ProductOutOfStock,
    /// The product was damaged.
    ProductWasDamaged,
    /// The service was not provided to the customer.
    ServiceNotProvided,
    /// The service is misaligned.
    ServiceMisaligned,
    /// The customer received a wrong product.
    WrongProductReceived,
    /// The reason is given in the remarks.
    Others,
}

/// Query parameters when creating a refund.
#[derive(Debug, Clone)]
pub struct CreateRefund {
    /// The ID of the payment to be refunded.
    pub payment_id: PaymentId,
    /// The reason of the refund. Use `remarks` to say more where the reason
    /// is `others`.
    pub reason: RefundReason,
    /// Remarks about the refund, useful when viewing a refund in the
    /// dashboard.
    pub remarks: Option<String>,
    /// The amount, a positive integer in the smallest currency unit, cents: ₱
    /// 120.50 is 12050. The minimum amount is ₱ 20 (2000 in cents) and the
    /// maximum amount is ₱ 59,999,999.99 (5999999999 in cents).
    pub amount: u64,
    /// A set of key-value pairs attached to the resource, for storing
    /// additional information about it.
    pub metadata: Option<Metadata>,
    /// An arbitrary string attached to the Refund.
    pub description: Option<String>,
    /// A three-letter ISO currency code in uppercase. As of the moment, we
    /// only support PHP.
    pub currency: Currency,
}

impl CreateRefund {
    /// Creates a new [`CreateRefund`] instance.
    #[must_use]
    pub fn new(payment_id: PaymentId, amount: u64, currency: Currency, reason: RefundReason) -> (r:
        Self)
        ensures
            r.payment_id == payment_id,
            r.amount == amount,
            r.currency == currency,
            r.reason == reason,
            r.metadata is None,
            r.remarks is None,
            r.description is None,
    {
        CreateRefund {
            payment_id,
            amount,
            currency,
            reason,
            metadata: None,
            remarks: None,
            description: None,
        }
    }

    /// Sets the metadata in the query params when creating a refund.
    pub fn metadata(self, metadata: Metadata) -> (r: Self)
        ensures
            r == (CreateRefund { metadata: Some(metadata), ..self }),
    {
        let mut r = self;
        r.metadata = Some(metadata);
        r
    }

    /// Sets the remarks when refund status is set to `others` when creating a
    /// refund.
    pub fn remarks(self, remarks: impl IntoText) -> (r: Self)
        ensures
            opt_text_view(r.remarks) == Some(remarks.text()),
            r == (CreateRefund { remarks: r.remarks, ..self }),
    {
        let mut r = self;
        r.remarks = Some(remarks.into_text());
        r
    }

    /// Sets the description in the query params when creating a refund.
    pub fn description(self, description: impl IntoText) -> (r: Self)
        ensures
            opt_text_view(r.description) == Some(description.text()),
            r == (CreateRefund { description: r.description, ..self }),
    {
        let mut r = self;
        r.description = Some(description.into_text());
        r
    }
}

/// Query parameters when updating a refund.
#[derive(Debug, Default, Clone)]
pub struct UpdateRefund {
    /// A set of key-value pairs attached to the resource, for storing
    /// additional information about it.
    pub metadata: Option<Metadata>,
}

} // verus!
