//! Events of the API and their types.
//!
//! An event type is written as `<resource>.<event>`, for example
//! `payment_intent.succeeded`.

use vstd::prelude::*;
use vstd::string::StringExecFns;
use serde_json::Value;
use crate::text::{lemma_joined_by_separator, same_text, split_single};
use crate::types::ids::EventId;
use crate::types::timestamp::Timestamp;

verus! {

/// `serde_json::Value`, a JSON value, declared so that an event can carry one.
#[verifier::external_type_specification]
#[verifier::external_body]
pub struct ExJsonValue(Value);

/// `Clone::clone` of `serde_json::Value`, which the derived `Clone` of
/// [`Event`] calls. Nothing is claimed of the copy.
pub assume_specification[ <Value as Clone>::clone ](value: &Value) -> Value;

/// An update in the account, triggered by a call to the API or by an action
/// in the dashboard. Its `data` holds the resource that the event is about,
/// as it was when the event occurred.
#[derive(Debug, Clone, PartialEq, Eq)]
pub struct Event {
    /// Unique identifier for the resource. The prefix is `evt_`.
    pub id: EventId,
    /// The resource associated with the event, and the previous values if
    /// the event is an update.
    pub data: Value,
    /// The type of the event.
    pub event_type: EventType,
    /// The number of webhooks that have not been delivered yet for this event.
    pub pending_webhooks: Option<u64>,
    /// Whether the resource is in live mode.
    pub livemode: bool,
    /// The time the resource was created.
    pub created_at: Timestamp,
    /// The time the resource was updated.
    pub updated_at: Timestamp,
}

/// The type of an event: the resource it is about and what happened to it.
#[derive(Debug, Clone, Copy, PartialEq, Eq, Hash, Structural)]
pub enum EventType {
    /// Event types about Billing Statement.
    BillingStatement(BillingStatementEvent),
    /// Event types about Billing Statement Line Item.
    BillingStatementLineItem(BillingStatementLineItemEvent),
    /// Event types about Checkout Session.
    CheckoutSession(CheckoutSessionEvent),
    /// Event types about Payment Intent.
    PaymentIntent(PaymentIntentEvent),
    /// Event types about Payout.
    Payout(PayoutEvent),
    /// Event types about Refund.
    Refund(RefundEvent),
}

/// Why a text is not the type of an event.
#[derive(Debug, Clone, Copy, PartialEq, Eq, Structural)]
pub enum EventTypeError {
    /// The text does not have the form `<resource>.<event>` with a single dot.
    InvalidFormat,
    /// The part before the dot names no resource that has events.
    UnknownResource,
    /// The part behind the dot names no event of the resource.
    UnknownEvent,
}

impl EventTypeError {
    /// The text of the error.
    pub fn message(&self) -> (text: String)
        ensures
            text@ == match self {
                EventTypeError::InvalidFormat => "invalid event format"@,
                EventTypeError::UnknownResource => "unknown event type"@,
                EventTypeError::UnknownEvent => "unknown event"@,
            },
    {
        match self {
            EventTypeError::InvalidFormat => "invalid event format".to_owned(),
            EventTypeError::UnknownResource => "unknown event type".to_owned(),
            EventTypeError::UnknownEvent => "unknown event".to_owned(),
        }
    }
}

/// Event types about Billing Statement.
#[derive(Debug, Clone, Copy, PartialEq, Eq, Hash, Structural)]
pub enum BillingStatementEvent {
    /// Occurs when a Billing Statement has been created.
    ///
    /// Written and read as `billing_statement.created`.
    Created,
    /// Occurs when a Billing Statement has been updated, for example its due date.
    ///
    /// Written and read as `billing_statement.updated`.
    Updated,
    /// Occurs when a Billing Statement has been deleted.
    ///
    /// Written and read as `billing_statement.deleted`.
    Deleted,
    /// Occurs when a Billing Statement has been finalized.
    ///
    /// Written and read as `billing_statement.finalized`.
    Finalized,
    /// Occurs when a Billing Statement has been sent to the customer.
    ///
    /// Written and read as `billing_statement.sent`.
    Sent,
    /// Occurs when a Billing Statement has been marked as `uncollectible`.
    ///
    /// Written and read as `billing_statement.marked_uncollectible`.
    MarkedUncollectible,
    /// Occurs when a Billing Statement has been marked as `voided`.
    ///
    /// Written and read as `billing_statement.voided`.
    Voided,
    /// Occurs when a Billing Statement has been paid by the customer.
    ///
    /// Written and read as `billing_statement.paid`.
    Paid,
    /// Occurs 5 days before a billing statement becomes due.
    ///
    /// Written and read as `billing_statement.will_be_due`.
    WillBeDue,
    /// Occurs 5 days after a billing statement becomes due.
    ///
    /// Written and read as `billing_statement.overdue`.
    Overdue,
}

impl BillingStatementEvent {
    /// The name of the event in snake case, as it is written and read.
    pub open spec fn snake_name(self) -> Seq<char> {
        match self {
            BillingStatementEvent::Created => "created"@,
            BillingStatementEvent::Updated => "updated"@,
            BillingStatementEvent::Deleted => "deleted"@,
            BillingStatementEvent::Finalized => "finalized"@,
            BillingStatementEvent::Sent => "sent"@,
            BillingStatementEvent::MarkedUncollectible => "marked_uncollectible"@,
            BillingStatementEvent::Voided => "voided"@,
            BillingStatementEvent::Paid => "paid"@,
            BillingStatementEvent::WillBeDue => "will_be_due"@,
            BillingStatementEvent::Overdue => "overdue"@,
        }
    }


    /// The event that a name in snake case stands for.
    pub open spec fn named(s: Seq<char>) -> Option<BillingStatementEvent> {
        if s == "created"@ {
            Some(BillingStatementEvent::Created)
        } else if s == "updated"@ {
            Some(BillingStatementEvent::Updated)
        } else if s == "deleted"@ {
            Some(BillingStatementEvent::Deleted)
        } else if s == "finalized"@ {
            Some(BillingStatementEvent::Finalized)
        } else if s == "sent"@ {
            Some(BillingStatementEvent::Sent)
        } else if s == "marked_uncollectible"@ {
            Some(BillingStatementEvent::MarkedUncollectible)
        } else if s == "voided"@ {
            Some(BillingStatementEvent::Voided)
        } else if s == "paid"@ {
            Some(BillingStatementEvent::Paid)
        } else if s == "will_be_due"@ {
            Some(BillingStatementEvent::WillBeDue)
        } else if s == "overdue"@ {
            Some(BillingStatementEvent::Overdue)
        } else {
            None
        }
    }

    /// The name of the event in snake case.
    pub fn as_snake(&self) -> (s: &'static str)
        ensures
            s@ == self.snake_name(),
    {
        match self {
            BillingStatementEvent::Created => "created",
            BillingStatementEvent::Updated => "updated",
            BillingStatementEvent::Deleted => "deleted",
            BillingStatementEvent::Finalized => "finalized",
            BillingStatementEvent::Sent => "sent",
            BillingStatementEvent::MarkedUncollectible => "marked_uncollectible",
            BillingStatementEvent::Voided => "voided",
            BillingStatementEvent::Paid => "paid",
            BillingStatementEvent::WillBeDue => "will_be_due",
            BillingStatementEvent::Overdue => "overdue",
        }
    }

    /// The event that a name in snake case stands for, if it is one.
    pub fn from_snake(s: &str) -> (r: Option<Self>)
        ensures
            r == Self::named(s@),
    {
        if same_text(s, "created") {
            Some(BillingStatementEvent::Created)
        } else if same_text(s, "updated") {
            Some(BillingStatementEvent::Updated)
        } else if same_text(s, "deleted") {
            Some(BillingStatementEvent::Deleted)
        } else if same_text(s, "finalized") {
            Some(BillingStatementEvent::Finalized)
        } else if same_text(s, "sent") {
            Some(BillingStatementEvent::Sent)
        } else if same_text(s, "marked_uncollectible") {
            Some(BillingStatementEvent::MarkedUncollectible)
        } else if same_text(s, "voided") {
            Some(BillingStatementEvent::Voided)
        } else if same_text(s, "paid") {
            Some(BillingStatementEvent::Paid)
        } else if same_text(s, "will_be_due") {
            Some(BillingStatementEvent::WillBeDue)
        } else if same_text(s, "overdue") {
            Some(BillingStatementEvent::Overdue)
        } else {
            None
        }
    }
}

/// Event types about Billing Statement Line Item.
#[derive(Debug, Clone, Copy, PartialEq, Eq, Hash, Structural)]
pub enum BillingStatementLineItemEvent {
    /// Occurs when a Billing Statement Line Item is created.
    ///
    /// Written and read as `billing_statement_line_item.created`.
    Created,
    /// Occurs when a Billing Statement Line Item is updated.
    ///
    /// Written and read as `billing_statement_line_item.updated`.
    Updated,
    /// Occurs when a Billing Statement Line Item is deleted.
    ///
    /// Written and read as `billing_statement_line_item.deleted`.
    Deleted,
}

impl BillingStatementLineItemEvent {
    /// The name of the event in snake case, as it is written and read.
    pub open spec fn snake_name(self) -> Seq<char> {
        match self {
            BillingStatementLineItemEvent::Created => "created"@,
            BillingStatementLineItemEvent::Updated => "updated"@,
            BillingStatementLineItemEvent::Deleted => "deleted"@,
        }
    }


    /// The event that a name in snake case stands for.
    pub open spec fn named(s: Seq<char>) -> Option<BillingStatementLineItemEvent> {
        if s == "created"@ {
            Some(BillingStatementLineItemEvent::Created)
        } else if s == "updated"@ {
            Some(BillingStatementLineItemEvent::Updated)
        } else if s == "deleted"@ {
            Some(BillingStatementLineItemEvent::Deleted)
        } else {
            None
        }
    }

    /// The name of the event in snake case.
    pub fn as_snake(&self) -> (s: &'static str)
        ensures
            s@ == self.snake_name(),
    {
        match self {
            BillingStatementLineItemEvent::Created => "created",
            BillingStatementLineItemEvent::Updated => "updated",
            BillingStatementLineItemEvent::Deleted => "deleted",
        }
    }

    /// The event that a name in snake case stands for, if it is one.
    pub fn from_snake(s: &str) -> (r: Option<Self>)
        ensures
            r == Self::named(s@),
    {
        if same_text(s, "created") {
            Some(BillingStatementLineItemEvent::Created)
        } else if same_text(s, "updated") {
            Some(BillingStatementLineItemEvent::Updated)
        } else if same_text(s, "deleted") {
            Some(BillingStatementLineItemEvent::Deleted)
        } else {
            None
        }
    }
}

/// Event types about Checkout Session.
#[derive(Debug, Clone, Copy, PartialEq, Eq, Hash, Structural)]
pub enum CheckoutSessionEvent {
    /// Occurs when a Checkout Session expires.
    ///
    /// Written and read as `checkout_session.expired`.
    Expired,
}

impl CheckoutSessionEvent {
    /// The name of the event in snake case, as it is written and read.
    pub open spec fn snake_name(self) -> Seq<char> {
        match self {
            CheckoutSessionEvent::Expired => "expired"@,
        }
    }


    /// The event that a name in snake case stands for.
    pub open spec fn named(s: Seq<char>) -> Option<CheckoutSessionEvent> {
        if s == "expired"@ {
            Some(CheckoutSessionEvent::Expired)
        } else {
            None
        }
    }

    /// The name of the event in snake case.
    pub fn as_snake(&self) -> (s: &'static str)
        ensures
            s@ == self.snake_name(),
    {
        match self {
            CheckoutSessionEvent::Expired => "expired",
        }
    }

    /// The event that a name in snake case stands for, if it is one.
    pub fn from_snake(s: &str) -> (r: Option<Self>)
        ensures
            r == Self::named(s@),
    {
        if same_text(s, "expired") {
            Some(CheckoutSessionEvent::Expired)
        } else {
            None
        }
    }
}

/// Event types about Payment Intent.
#[derive(Debug, Clone, Copy, PartialEq, Eq, Hash, Structural)]
pub enum PaymentIntentEvent {
    /// Occurs when a Payment Intent can be captured (hold then capture for card payments).
    ///
    /// Written and read as `payment_intent.awaiting_capture`.
    AwaitingCapture,
    /// Occurs when the Payment Intent has successfully completed a payment.
    ///
    /// Written and read as `payment_intent.succeeded`.
    Succeeded,
}

impl PaymentIntentEvent {
    /// The name of the event in snake case, as it is written and read.
    pub open spec fn snake_name(self) -> Seq<char> {
        match self {
            PaymentIntentEvent::AwaitingCapture => "awaiting_capture"@,
            PaymentIntentEvent::Succeeded => "succeeded"@,
        }
    }


    /// The event that a name in snake case stands for.
    pub open spec fn named(s: Seq<char>) -> Option<PaymentIntentEvent> {
        if s == "awaiting_capture"@ {
            Some(PaymentIntentEvent::AwaitingCapture)
        } else if s == "succeeded"@ {
            Some(PaymentIntentEvent::Succeeded)
        } else {
            None
        }
    }

    /// The name of the event in snake case.
    pub fn as_snake(&self) -> (s: &'static str)
        ensures
            s@ == self.snake_name(),
    {
        match self {
            PaymentIntentEvent::AwaitingCapture => "awaiting_capture",
            PaymentIntentEvent::Succeeded => "succeeded",
        }
    }

    /// The event that a name in snake case stands for, if it is one.
    pub fn from_snake(s: &str) -> (r: Option<Self>)
        ensures
            r == Self::named(s@),
    {
        if same_text(s, "awaiting_capture") {
            Some(PaymentIntentEvent::AwaitingCapture)
        } else if same_text(s, "succeeded") {
            Some(PaymentIntentEvent::Succeeded)
        } else {
            None
        }
    }
}

/// Event types about Payout.
#[derive(Debug, Clone, Copy, PartialEq, Eq, Hash, Structural)]
pub enum PayoutEvent {
    /// Occurs when a Payout transfer to your bank account is successful.
    ///
    /// Written and read as `payout.deposited`.
    Deposited,
}

impl PayoutEvent {
    /// The name of the event in snake case, as it is written and read.
    pub open spec fn snake_name(self) -> Seq<char> {
        match self {
            PayoutEvent::Deposited => "deposited"@,
        }
    }


    /// The event that a name in snake case stands for.
    pub open spec fn named(s: Seq<char>) -> Option<PayoutEvent> {
        if s == "deposited"@ {
            Some(PayoutEvent::Deposited)
        } else {
            None
        }
    }

    /// The name of the event in snake case.
    pub fn as_snake(&self) -> (s: &'static str)
        ensures
            s@ == self.snake_name(),
    {
        match self {
            PayoutEvent::Deposited => "deposited",
        }
    }

    /// The event that a name in snake case stands for, if it is one.
    pub fn from_snake(s: &str) -> (r: Option<Self>)
        ensures
            r == Self::named(s@),
    {
        if same_text(s, "deposited") {
            Some(PayoutEvent::Deposited)
        } else {
            None
        }
    }
}

/// Event types about Refund.
#[derive(Debug, Clone, Copy, PartialEq, Eq, Hash, Structural)]
pub enum RefundEvent {
    /// Occurs when a Payment is refunded, either partial or full amount.
    ///
    /// Written and read as `refund.created`.
    Created,
    /// Occurs when a Refund is updated. This event holds the final status of a refund.
    ///
    /// Written and read as `refund.updated`.
    Updated,
}

impl RefundEvent {
    /// The name of the event in snake case, as it is written and read.
    pub open spec fn snake_name(self) -> Seq<char> {
        match self {
            RefundEvent::Created => "created"@,
            RefundEvent::Updated => "updated"@,
        }
    }


    /// The event that a name in snake case stands for.
    pub open spec fn named(s: Seq<char>) -> Option<RefundEvent> {
        if s == "created"@ {
            Some(RefundEvent::Created)
        } else if s == "updated"@ {
            Some(RefundEvent::Updated)
        } else {
            None
        }
    }

    /// The name of the event in snake case.
    pub fn as_snake(&self) -> (s: &'static str)
        ensures
            s@ == self.snake_name(),
    {
        match self {
            RefundEvent::Created => "created",
            RefundEvent::Updated => "updated",
        }
    }

    /// The event that a name in snake case stands for, if it is one.
    pub fn from_snake(s: &str) -> (r: Option<Self>)
        ensures
            r == Self::named(s@),
    {
        if same_text(s, "created") {
            Some(RefundEvent::Created)
        } else if same_text(s, "updated") {
            Some(RefundEvent::Updated)
        } else {
            None
        }
    }
}

impl EventType {
    /// The name of the resource that the event is about.
    pub open spec fn resource_name(self) -> Seq<char> {
        match self {
            EventType::BillingStatement(_) => "billing_statement"@,
            EventType::BillingStatementLineItem(_) => "billing_statement_line_item"@,
            EventType::CheckoutSession(_) => "checkout_session"@,
            EventType::PaymentIntent(_) => "payment_intent"@,
            EventType::Payout(_) => "payout"@,
            EventType::Refund(_) => "refund"@,
        }
    }

    /// The name of the event, in snake case.
    pub open spec fn event_name(self) -> Seq<char> {
        match self {
            EventType::BillingStatement(e) => e.snake_name(),
            EventType::BillingStatementLineItem(e) => e.snake_name(),
            EventType::CheckoutSession(e) => e.snake_name(),
            EventType::PaymentIntent(e) => e.snake_name(),
            EventType::Payout(e) => e.snake_name(),
            EventType::Refund(e) => e.snake_name(),
        }
    }

    /// The text that the event type is written as: the resource, a dot, and
    /// the event in snake case.
    pub open spec fn written(self) -> Seq<char> {
        self.resource_name() + "."@ + self.event_name()
    }

    /// The event type that a resource name and an event name in snake case
    /// stand for.
    pub open spec fn read_parts(resource: Seq<char>, event: Seq<char>) -> Result<
        EventType,
        EventTypeError,
    > {
        if resource == "billing_statement"@ {
            match BillingStatementEvent::named(event) {
                Some(e) => Ok(EventType::BillingStatement(e)),
                None => Err(EventTypeError::UnknownEvent),
            }
        } else if resource == "billing_statement_line_item"@ {
            match BillingStatementLineItemEvent::named(event) {
                Some(e) => Ok(EventType::BillingStatementLineItem(e)),
                None => Err(EventTypeError::UnknownEvent),
            }
        } else if resource == "checkout_session"@ {
            match CheckoutSessionEvent::named(event) {
                Some(e) => Ok(EventType::CheckoutSession(e)),
                None => Err(EventTypeError::UnknownEvent),
            }
        } else if resource == "payment_intent"@ {
            match PaymentIntentEvent::named(event) {
                Some(e) => Ok(EventType::PaymentIntent(e)),
                None => Err(EventTypeError::UnknownEvent),
            }
        } else if resource == "payout"@ {
            match PayoutEvent::named(event) {
                Some(e) => Ok(EventType::Payout(e)),
                None => Err(EventTypeError::UnknownEvent),
            }
        } else if resource == "refund"@ {
            match RefundEvent::named(event) {
                Some(e) => Ok(EventType::Refund(e)),
                None => Err(EventTypeError::UnknownEvent),
            }
        } else {
            Err(EventTypeError::UnknownResource)
        }
    }

    /// The event type that a text stands for. The text must hold exactly
    /// one dot; what stands before it names the resource and what stands
    /// behind it the event, in snake case.
    pub open spec fn read(s: Seq<char>) -> Result<EventType, EventTypeError> {
        if crate::text::count_char(s, '.') == 1 {
            let dot = s.index_of('.');
            Self::read_parts(s.take(dot), s.skip(dot + 1))
        } else {
            Err(EventTypeError::InvalidFormat)
        }
    }

    /// The text that the event type is written as, for example
    /// `billing_statement.created`.
    #[must_use]
    pub fn as_str(&self) -> (s: String)
        ensures
            s@ == self.written(),
    {
        match self {
            EventType::BillingStatement(e) => "billing_statement".to_owned().concat(".").concat(
                e.as_snake(),
            ),
            EventType::BillingStatementLineItem(e) => "billing_statement_line_item".to_owned().concat(".").concat(
                e.as_snake(),
            ),
            EventType::CheckoutSession(e) => "checkout_session".to_owned().concat(".").concat(
                e.as_snake(),
            ),
            EventType::PaymentIntent(e) => "payment_intent".to_owned().concat(".").concat(
                e.as_snake(),
            ),
            EventType::Payout(e) => "payout".to_owned().concat(".").concat(
                e.as_snake(),
            ),
            EventType::Refund(e) => "refund".to_owned().concat(".").concat(
                e.as_snake(),
            ),
        }
    }

    /// The event type that a resource name and an event name stand for.
    pub fn from_parts(resource: &str, event: &str) -> (r: Result<EventType, EventTypeError>)
        ensures
            r == Self::read_parts(resource@, event@),
    {
        if same_text(resource, "billing_statement") {
            match BillingStatementEvent::from_snake(event) {
                Some(e) => Ok(EventType::BillingStatement(e)),
                None => Err(EventTypeError::UnknownEvent),
            }
        } else if same_text(resource, "billing_statement_line_item") {
            match BillingStatementLineItemEvent::from_snake(event) {
                Some(e) => Ok(EventType::BillingStatementLineItem(e)),
                None => Err(EventTypeError::UnknownEvent),
            }
        } else if same_text(resource, "checkout_session") {
            match CheckoutSessionEvent::from_snake(event) {
                Some(e) => Ok(EventType::CheckoutSession(e)),
                None => Err(EventTypeError::UnknownEvent),
            }
        } else if same_text(resource, "payment_intent") {
            match PaymentIntentEvent::from_snake(event) {
                Some(e) => Ok(EventType::PaymentIntent(e)),
                None => Err(EventTypeError::UnknownEvent),
            }
        } else if same_text(resource, "payout") {
            match PayoutEvent::from_snake(event) {
                Some(e) => Ok(EventType::Payout(e)),
                None => Err(EventTypeError::UnknownEvent),
            }
        } else if same_text(resource, "refund") {
            match RefundEvent::from_snake(event) {
                Some(e) => Ok(EventType::Refund(e)),
                None => Err(EventTypeError::UnknownEvent),
            }
        } else {
            Err(EventTypeError::UnknownResource)
        }
    }

    /// Reads an event type from the form `<resource>.<event>`.
    ///
    /// A text without a dot or with more than one dot is refused as
    /// [`EventTypeError::InvalidFormat`], an unknown resource as
    /// [`EventTypeError::UnknownResource`], and an unknown event of a known
    /// resource as [`EventTypeError::UnknownEvent`].
    pub fn parse(s: &str) -> (r: Result<EventType, EventTypeError>)
        ensures
            r == Self::read(s@),
    {
        match split_single(s, '.') {
            Some((resource, event)) => Self::from_parts(resource, event),
            None => Err(EventTypeError::InvalidFormat),
        }
    }
}

/// No name of a resource and no name of an event holds a dot.
proof fn lemma_names_hold_no_dot(e: EventType)
    ensures
        forall|i: int| 0 <= i < e.resource_name().len() ==> e.resource_name()[i] != '.',
        forall|i: int| 0 <= i < e.event_name().len() ==> e.event_name()[i] != '.',
{
    reveal_strlit("awaiting_capture");
    reveal_strlit("billing_statement");
    reveal_strlit("billing_statement_line_item");
    reveal_strlit("checkout_session");
    reveal_strlit("created");
    reveal_strlit("deleted");
    reveal_strlit("deposited");
    reveal_strlit("expired");
    reveal_strlit("finalized");
    reveal_strlit("marked_uncollectible");
    reveal_strlit("overdue");
    reveal_strlit("paid");
    reveal_strlit("payment_intent");
    reveal_strlit("payout");
    reveal_strlit("refund");
    reveal_strlit("sent");
    reveal_strlit("succeeded");
    reveal_strlit("updated");
    reveal_strlit("voided");
    reveal_strlit("will_be_due");
    assert(forall|i: int| 0 <= i < "awaiting_capture"@.len() ==> "awaiting_capture"@[i] != '.');
    assert(forall|i: int| 0 <= i < "billing_statement"@.len() ==> "billing_statement"@[i] != '.');
    assert(forall|i: int| 0 <= i < "billing_statement_line_item"@.len() ==> "billing_statement_line_item"@[i] != '.');
    assert(forall|i: int| 0 <= i < "checkout_session"@.len() ==> "checkout_session"@[i] != '.');
    assert(forall|i: int| 0 <= i < "created"@.len() ==> "created"@[i] != '.');
    assert(forall|i: int| 0 <= i < "deleted"@.len() ==> "deleted"@[i] != '.');
    assert(forall|i: int| 0 <= i < "deposited"@.len() ==> "deposited"@[i] != '.');
    assert(forall|i: int| 0 <= i < "expired"@.len() ==> "expired"@[i] != '.');
    assert(forall|i: int| 0 <= i < "finalized"@.len() ==> "finalized"@[i] != '.');
    assert(forall|i: int| 0 <= i < "marked_uncollectible"@.len() ==> "marked_uncollectible"@[i] != '.');
    assert(forall|i: int| 0 <= i < "overdue"@.len() ==> "overdue"@[i] != '.');
    assert(forall|i: int| 0 <= i < "paid"@.len() ==> "paid"@[i] != '.');
    assert(forall|i: int| 0 <= i < "payment_intent"@.len() ==> "payment_intent"@[i] != '.');
    assert(forall|i: int| 0 <= i < "payout"@.len() ==> "payout"@[i] != '.');
    assert(forall|i: int| 0 <= i < "refund"@.len() ==> "refund"@[i] != '.');
    assert(forall|i: int| 0 <= i < "sent"@.len() ==> "sent"@[i] != '.');
    assert(forall|i: int| 0 <= i < "succeeded"@.len() ==> "succeeded"@[i] != '.');
    assert(forall|i: int| 0 <= i < "updated"@.len() ==> "updated"@[i] != '.');
    assert(forall|i: int| 0 <= i < "voided"@.len() ==> "voided"@[i] != '.');
    assert(forall|i: int| 0 <= i < "will_be_due"@.len() ==> "will_be_due"@[i] != '.');
}

/// The names of an event type stand for that event type.
proof fn lemma_names_are_read_back(e: EventType)
    ensures
        EventType::read_parts(e.resource_name(), e.event_name()) == Ok::<
            EventType,
            EventTypeError,
        >(e),
{
    reveal_strlit("awaiting_capture");
    reveal_strlit("billing_statement");
    reveal_strlit("billing_statement_line_item");
    reveal_strlit("checkout_session");
    reveal_strlit("created");
    reveal_strlit("deleted");
    reveal_strlit("deposited");
    reveal_strlit("expired");
    reveal_strlit("finalized");
    reveal_strlit("marked_uncollectible");
    reveal_strlit("overdue");
    reveal_strlit("paid");
    reveal_strlit("payment_intent");
    reveal_strlit("payout");
    reveal_strlit("refund");
    reveal_strlit("sent");
    reveal_strlit("succeeded");
    reveal_strlit("updated");
    reveal_strlit("voided");
    reveal_strlit("will_be_due");
    assert("awaiting_capture"@.len() == 16 && "awaiting_capture"@[0] == 'a');
    assert("billing_statement"@.len() == 17 && "billing_statement"@[0] == 'b');
    assert("billing_statement_line_item"@.len() == 27 && "billing_statement_line_item"@[0] == 'b');
    assert("checkout_session"@.len() == 16 && "checkout_session"@[0] == 'c');
    assert("created"@.len() == 7 && "created"@[0] == 'c');
    assert("deleted"@.len() == 7 && "deleted"@[0] == 'd');
    assert("deposited"@.len() == 9 && "deposited"@[0] == 'd');
    assert("expired"@.len() == 7 && "expired"@[0] == 'e');
    assert("finalized"@.len() == 9 && "finalized"@[0] == 'f');
    assert("marked_uncollectible"@.len() == 20 && "marked_uncollectible"@[0] == 'm');
    assert("overdue"@.len() == 7 && "overdue"@[0] == 'o');
    assert("paid"@.len() == 4 && "paid"@[0] == 'p');
    assert("payment_intent"@.len() == 14 && "payment_intent"@[0] == 'p');
    assert("payout"@.len() == 6 && "payout"@[0] == 'p');
    assert("refund"@.len() == 6 && "refund"@[0] == 'r');
    assert("sent"@.len() == 4 && "sent"@[0] == 's');
    assert("succeeded"@.len() == 9 && "succeeded"@[0] == 's');
    assert("updated"@.len() == 7 && "updated"@[0] == 'u');
    assert("voided"@.len() == 6 && "voided"@[0] == 'v');
    assert("will_be_due"@.len() == 11 && "will_be_due"@[0] == 'w');
}

/// What is written is read back: the text that an event type is written as
/// stands for that event type.
pub proof fn lemma_written_is_read_back(e: EventType)
    ensures
        EventType::read(e.written()) == Ok::<EventType, EventTypeError>(e),
{
    reveal_strlit(".");
    assert("."@ =~= seq!['.']);
    lemma_names_hold_no_dot(e);
    lemma_names_are_read_back(e);
    lemma_joined_by_separator(e.resource_name(), e.event_name(), '.');
}

} // verus!
