//! Identifiers of the API's resources. Each resource has an identifier type
//! of its own, so that the identifier of one resource cannot stand where
//! that of another is expected.

use vstd::prelude::*;
use crate::text::IntoText;

verus! {

/// The identifier of a billing statement. The API gives it the prefix `bstm_`.
#[derive(Debug, PartialEq, Eq, Hash, Default)]
pub struct BillingStatementId {
    id: String,
}

impl View for BillingStatementId {
    type V = Seq<char>;

    closed spec fn view(&self) -> Seq<char> {
        self.id@
    }
}

impl Clone for BillingStatementId {
    fn clone(&self) -> (r: Self)
        ensures
            r@ == self@,
    {
        BillingStatementId { id: self.id.clone() }
    }
}

impl BillingStatementId {
    /// The identifier with the given text.
    pub fn new(id: impl IntoText) -> (r: Self)
        ensures
            r@ == id.text(),
    {
        BillingStatementId { id: id.into_text() }
    }

    /// The text of the identifier.
    pub fn as_str(&self) -> (s: &str)
        ensures
            s@ == self@,
    {
        self.id.as_str()
    }
}

/// The identifier of a billing statement line item. The API gives it the prefix `bstm_li_`.
#[derive(Debug, PartialEq, Eq, Hash, Default)]
pub struct BillingStatementLineItemId {
    id: String,
}

impl View for BillingStatementLineItemId {
    type V = Seq<char>;

    closed spec fn view(&self) -> Seq<char> {
        self.id@
    }
}

impl Clone for BillingStatementLineItemId {
    fn clone(&self) -> (r: Self)
        ensures
            r@ == self@,
    {
        BillingStatementLineItemId { id: self.id.clone() }
    }
}

impl BillingStatementLineItemId {
    /// The identifier with the given text.
    pub fn new(id: impl IntoText) -> (r: Self)
        ensures
            r@ == id.text(),
    {
        BillingStatementLineItemId { id: id.into_text() }
    }

    /// The text of the identifier.
    pub fn as_str(&self) -> (s: &str)
        ensures
            s@ == self@,
    {
        self.id.as_str()
    }
}

/// The identifier of a checkout session. The API gives it the prefix `cs_`.
#[derive(Debug, PartialEq, Eq, Hash, Default)]
pub struct CheckoutSessionId {
    id: String,
}

impl View for CheckoutSessionId {
    type V = Seq<char>;

    closed spec fn view(&self) -> Seq<char> {
        self.id@
    }
}

impl Clone for CheckoutSessionId {
    fn clone(&self) -> (r: Self)
        ensures
            r@ == self@,
    {
        CheckoutSessionId { id: self.id.clone() }
    }
}

impl CheckoutSessionId {
    /// The identifier with the given text.
    pub fn new(id: impl IntoText) -> (r: Self)
        ensures
            r@ == id.text(),
    {
        CheckoutSessionId { id: id.into_text() }
    }

    /// The text of the identifier.
    pub fn as_str(&self) -> (s: &str)
        ensures
            s@ == self@,
    {
        self.id.as_str()
    }
}

/// The identifier of a line item of a checkout session. The API gives it the prefix `cs_li_`.
#[derive(Debug, PartialEq, Eq, Hash, Default)]
pub struct CheckoutSessionLineItemId {
    id: String,
}

impl View for CheckoutSessionLineItemId {
    type V = Seq<char>;

    closed spec fn view(&self) -> Seq<char> {
        self.id@
    }
}

impl Clone for CheckoutSessionLineItemId {
    fn clone(&self) -> (r: Self)
        ensures
            r@ == self@,
    {
        CheckoutSessionLineItemId { id: self.id.clone() }
    }
}

impl CheckoutSessionLineItemId {
    /// The identifier with the given text.
    pub fn new(id: impl IntoText) -> (r: Self)
        ensures
            r@ == id.text(),
    {
        CheckoutSessionLineItemId { id: id.into_text() }
    }

    /// The text of the identifier.
    pub fn as_str(&self) -> (s: &str)
        ensures
            s@ == self@,
    {
        self.id.as_str()
    }
}

/// The identifier of a customer. The API gives it the prefix `cus_`.
#[derive(Debug, PartialEq, Eq, Hash, Default)]
pub struct CustomerId {
    id: String,
}

impl View for CustomerId {
    type V = Seq<char>;

    closed spec fn view(&self) -> Seq<char> {
        self.id@
    }
}

impl Clone for CustomerId {
    fn clone(&self) -> (r: Self)
        ensures
            r@ == self@,
    {
        CustomerId { id: self.id.clone() }
    }
}

impl CustomerId {
    /// The identifier with the given text.
    pub fn new(id: impl IntoText) -> (r: Self)
        ensures
            r@ == id.text(),
    {
        CustomerId { id: id.into_text() }
    }

    /// The text of the identifier.
    pub fn as_str(&self) -> (s: &str)
        ensures
            s@ == self@,
    {
        self.id.as_str()
    }
}

/// The identifier of an event. The API gives it the prefix `evt_`.
#[derive(Debug, PartialEq, Eq, Hash, Default)]
pub struct EventId {
    id: String,
}

impl View for EventId {
    type V = Seq<char>;

    closed spec fn view(&self) -> Seq<char> {
        self.id@
    }
}

impl Clone for EventId {
    fn clone(&self) -> (r: Self)
        ensures
            r@ == self@,
    {
        EventId { id: self.id.clone() }
    }
}

impl EventId {
    /// The identifier with the given text.
    pub fn new(id: impl IntoText) -> (r: Self)
        ensures
            r@ == id.text(),
    {
        EventId { id: id.into_text() }
    }

    /// The text of the identifier.
    pub fn as_str(&self) -> (s: &str)
        ensures
            s@ == self@,
    {
        self.id.as_str()
    }
}

/// The identifier of a payment. The API gives it the prefix `pay_`.
#[derive(Debug, PartialEq, Eq, Hash, Default)]
pub struct PaymentId {
    id: String,
}

impl View for PaymentId {
    type V = Seq<char>;

    closed spec fn view(&self) -> Seq<char> {
        self.id@
    }
}

impl Clone for PaymentId {
    fn clone(&self) -> (r: Self)
        ensures
            r@ == self@,
    {
        PaymentId { id: self.id.clone() }
    }
}

impl PaymentId {
    /// The identifier with the given text.
    pub fn new(id: impl IntoText) -> (r: Self)
        ensures
            r@ == id.text(),
    {
        PaymentId { id: id.into_text() }
    }

    /// The text of the identifier.
    pub fn as_str(&self) -> (s: &str)
        ensures
            s@ == self@,
    {
        self.id.as_str()
    }
}

/// The identifier of a payment intent. The API gives it the prefix `pi_`.
#[derive(Debug, PartialEq, Eq, Hash, Default)]
pub struct PaymentIntentId {
    id: String,
}

impl View for PaymentIntentId {
    type V = Seq<char>;

    closed spec fn view(&self) -> Seq<char> {
        self.id@
    }
}

impl Clone for PaymentIntentId {
    fn clone(&self) -> (r: Self)
        ensures
            r@ == self@,
    {
        PaymentIntentId { id: self.id.clone() }
    }
}

impl PaymentIntentId {
    /// The identifier with the given text.
    pub fn new(id: impl IntoText) -> (r: Self)
        ensures
            r@ == id.text(),
    {
        PaymentIntentId { id: id.into_text() }
    }

    /// The text of the identifier.
    pub fn as_str(&self) -> (s: &str)
        ensures
            s@ == self@,
    {
        self.id.as_str()
    }
}

/// The identifier of a payout. The API gives it the prefix `po_`.
#[derive(Debug, PartialEq, Eq, Hash, Default)]
pub struct PayoutId {
    id: String,
}

impl View for PayoutId {
    type V = Seq<char>;

    closed spec fn view(&self) -> Seq<char> {
        self.id@
    }
}

impl Clone for PayoutId {
    fn clone(&self) -> (r: Self)
        ensures
            r@ == self@,
    {
        PayoutId { id: self.id.clone() }
    }
}

impl PayoutId {
    /// The identifier with the given text.
    pub fn new(id: impl IntoText) -> (r: Self)
        ensures
            r@ == id.text(),
    {
        PayoutId { id: id.into_text() }
    }

    /// The text of the identifier.
    pub fn as_str(&self) -> (s: &str)
        ensures
            s@ == self@,
    {
        self.id.as_str()
    }
}

/// The identifier of a payout transaction. The API gives it the prefix `po_txn_`.
#[derive(Debug, PartialEq, Eq, Hash, Default)]
pub struct PayoutTransactionId {
    id: String,
}

impl View for PayoutTransactionId {
    type V = Seq<char>;

    closed spec fn view(&self) -> Seq<char> {
        self.id@
    }
}

impl Clone for PayoutTransactionId {
    fn clone(&self) -> (r: Self)
        ensures
            r@ == self@,
    {
        PayoutTransactionId { id: self.id.clone() }
    }
}

impl PayoutTransactionId {
    /// The identifier with the given text.
    pub fn new(id: impl IntoText) -> (r: Self)
        ensures
            r@ == id.text(),
    {
        PayoutTransactionId { id: id.into_text() }
    }

    /// The text of the identifier.
    pub fn as_str(&self) -> (s: &str)
        ensures
            s@ == self@,
    {
        self.id.as_str()
    }
}

/// The identifier of a refund. The API gives it the prefix `re_`.
#[derive(Debug, PartialEq, Eq, Hash, Default)]
pub struct RefundId {
    id: String,
}

impl View for RefundId {
    type V = Seq<char>;

    closed spec fn view(&self) -> Seq<char> {
        self.id@
    }
}

impl Clone for RefundId {
    fn clone(&self) -> (r: Self)
        ensures
            r@ == self@,
    {
        RefundId { id: self.id.clone() }
    }
}

impl RefundId {
    /// The identifier with the given text.
    pub fn new(id: impl IntoText) -> (r: Self)
        ensures
            r@ == id.text(),
    {
        RefundId { id: id.into_text() }
    }

    /// The text of the identifier.
    pub fn as_str(&self) -> (s: &str)
        ensures
            s@ == self@,
    {
        self.id.as_str()
    }
}

/// The identifier of a webhook. The API gives it the prefix `wh_`.
#[derive(Debug, PartialEq, Eq, Hash, Default)]
pub struct WebhookId {
    id: String,
}

impl View for WebhookId {
    type V = Seq<char>;

    closed spec fn view(&self) -> Seq<char> {
        self.id@
    }
}

impl Clone for WebhookId {
    fn clone(&self) -> (r: Self)
        ensures
            r@ == self@,
    {
        WebhookId { id: self.id.clone() }
    }
}

impl WebhookId {
    /// The identifier with the given text.
    pub fn new(id: impl IntoText) -> (r: Self)
        ensures
            r@ == id.text(),
    {
        WebhookId { id: id.into_text() }
    }

    /// The text of the identifier.
    pub fn as_str(&self) -> (s: &str)
        ensures
            s@ == self@,
    {
        self.id.as_str()
    }
}

} // verus!
