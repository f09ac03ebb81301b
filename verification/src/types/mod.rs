//! The data types shared by the resources of the API.

pub mod common;
pub mod currency;
pub mod event;
pub mod ids;
pub mod metadata;
pub mod pagination;
pub mod payment_method;
pub mod timestamp;

pub use common::{Deleted, Expandable, ObjectType, RangeQuery, Resource};
pub use currency::Currency;
pub use event::{
    BillingStatementEvent, BillingStatementLineItemEvent, CheckoutSessionEvent, Event, EventType,
    EventTypeError, PaymentIntentEvent, PayoutEvent, RefundEvent,
};
pub use ids::{
    BillingStatementId, BillingStatementLineItemId, CheckoutSessionId, CheckoutSessionLineItemId,
    CustomerId, EventId, PaymentId, PaymentIntentId, PayoutId, PayoutTransactionId, RefundId,
    WebhookId,
};
pub use metadata::Metadata;
pub use pagination::{List, ListParams};
pub use payment_method::{CaptureMethod, CardOptions, PaymentMethod, PaymentMethodOptions};
pub use timestamp::Timestamp;
