//! Common types and traits used across the resources.

use vstd::prelude::*;
use crate::text::IntoText;

verus! {

/// A resource of the API.
pub trait Resource {
    /// The type of the resource's identifier.
    type Id;

    /// The identifier of the resource.
    fn id(&self) -> &Self::Id;

    /// The name of the resource's object type.
    fn object_type() -> &'static str;
}

/// The types of objects that the endpoints of the API return.
#[derive(Debug, Clone, Copy, PartialEq, Eq, Hash, Structural)]
pub enum ObjectType {
    /// A payment intent.
    PaymentIntent,
    /// A customer.
    Customer,
    /// A billing statement.
    BillingStatement,
    /// A line item of a billing statement.
    BillingStatementLineItem,
    /// A checkout session.
    CheckoutSession,
    /// A payment.
    Payment,
    /// A refund.
    Refund,
    /// A webhook.
    Webhook,
    /// An event.
    Event,
    /// A payout.
    Payout,
    /// A transaction of a payout.
    PayoutTransaction,
    /// A list of resources, as used in pagination.
    List,
}

/// A deleted resource, as a delete endpoint reports it.
#[derive(Debug, Clone, PartialEq, Eq)]
pub struct Deleted<Id> {
    /// The identifier of the deleted resource.
    pub id: Id,
    /// Whether the resource was deleted.
    pub deleted: bool,
    /// The object type of the deleted resource.
    pub object: Option<String>,
}

impl<Id> Deleted<Id> {
    /// The report that the resource `id` was deleted, without an object type.
    #[must_use]
    pub fn new(id: Id) -> (r: Self)
        ensures
            r.id == id,
            r.deleted,
            r.object is None,
    {
        Deleted { id, deleted: true, object: None }
    }

    /// Sets the object type of the deleted resource.
    pub fn object(self, object: impl IntoText) -> (r: Self)
        ensures
            r.object is Some,
            r.object->0@ == object.text(),
            r.id == self.id,
            r.deleted == self.deleted,
    {
        let mut r = self;
        r.object = Some(object.into_text());
        r
    }
}

/// Either the identifier of a resource or the resource itself.
#[derive(Debug, Clone, PartialEq, Eq)]
pub enum Expandable<Id, T> {
    /// The identifier only.
    Id(Id),
    /// The whole object.
    Object(Box<T>),
}

impl<Id, T> Expandable<Id, T> {
    /// Whether this is an identifier.
    #[must_use]
    pub fn is_id(&self) -> (r: bool)
        ensures
            r == (self is Id),
    {
        matches!(self, Expandable::Id(_))
    }

    /// Whether this is an object.
    #[must_use]
    pub fn is_object(&self) -> (r: bool)
        ensures
            r == (self is Object),
    {
        matches!(self, Expandable::Object(_))
    }

    /// The identifier, if this is one.
    #[must_use]
    pub fn as_id(&self) -> (r: Option<&Id>)
        ensures
            match self {
                Expandable::Id(id) => r == Some(id),
                Expandable::Object(_) => r is None,
            },
    {
        match self {
            Expandable::Id(id) => Some(id),
            Expandable::Object(_) => None,
        }
    }

    /// The object, if this is one.
    #[must_use]
    pub fn as_object(&self) -> (r: Option<&T>)
        ensures
            match self {
                Expandable::Id(_) => r is None,
                Expandable::Object(obj) => r == Some(&**obj),
            },
    {
        match self {
            Expandable::Id(_) => None,
            Expandable::Object(obj) => Some(&**obj),
        }
    }
}

/// The bounds of a range query in list parameters. A bound that is `None`
/// does not restrict the result.
#[derive(Debug, Clone, PartialEq, Eq)]
pub struct RangeQuery<T> {
    /// Only items strictly greater than this are included.
    pub gt: Option<T>,
    /// Only items greater than or equal to this are included.
    pub gte: Option<T>,
    /// Only items strictly less than this are included.
    pub lt: Option<T>,
    /// Only items less than or equal to this are included.
    pub lte: Option<T>,
}

impl<T> RangeQuery<T> {
    /// The range without bounds, which includes every item.
    #[must_use]
    pub fn new() -> (r: Self)
        ensures
            r.gt is None,
            r.gte is None,
            r.lt is None,
            r.lte is None,
    {
        RangeQuery { gt: None, gte: None, lt: None, lte: None }
    }

    /// Sets the bound above which an item must strictly be.
    #[must_use]
    pub fn gt(self, value: T) -> (r: Self)
        ensures
            r == (RangeQuery { gt: Some(value), ..self }),
    {
        let mut r = self;
        r.gt = Some(value);
        r
    }

    /// Sets the bound at or above which an item must be.
    #[must_use]
    pub fn gte(self, value: T) -> (r: Self)
        ensures
            r == (RangeQuery { gte: Some(value), ..self }),
    {
        let mut r = self;
        r.gte = Some(value);
        r
    }

    /// Sets the bound below which an item must strictly be.
    #[must_use]
    pub fn lt(self, value: T) -> (r: Self)
        ensures
            r == (RangeQuery { lt: Some(value), ..self }),
    {
        let mut r = self;
        r.lt = Some(value);
        r
    }

    /// Sets the bound at or below which an item must be.
    #[must_use]
    pub fn lte(self, value: T) -> (r: Self)
        ensures
            r == (RangeQuery { lte: Some(value), ..self }),
    {
        let mut r = self;
        r.lte = Some(value);
        r
    }
}

impl<T> Default for RangeQuery<T> {
    /// The range without bounds.
    fn default() -> (r: Self)
        ensures
            r.gt is None,
            r.gte is None,
            r.lt is None,
            r.lte is None,
    {
        RangeQuery::new()
    }
}

} // verus!
