//! Billing statement line items: creating, updating and deleting the line
//! items of a billing statement.

use vstd::prelude::*;
use vstd::string::StringExecFns;
use crate::request::{Method, Request};
use crate::text::{opt_text_view, IntoText};
use crate::types::ids::{BillingStatementId, BillingStatementLineItemId};
use crate::types::timestamp::Timestamp;

verus! {

/// The endpoints of billing statement line items.
#[derive(Debug, Clone, Copy, PartialEq, Eq, Structural)]
pub struct BillingStatementLineItems {}

impl BillingStatementLineItems {
    /// The endpoints of this resource.
    #[must_use]
    pub fn new() -> (r: Self)
        ensures
            r == (BillingStatementLineItems {}),
    {
        BillingStatementLineItems {}
    }

    /// Creates a billing statement line item: `POST
    /// /billing_statement_line_items`.
    pub fn create(
        &self,
        params: CreateBillingStatementLineItem,
    ) -> (r: Request<CreateBillingStatementLineItem>)
        ensures
            r.method == Method::Post,
            r.path@ == "/billing_statement_line_items"@,
            r.payload == params,
    {
        Request {
            method: Method::Post,
            path: "/billing_statement_line_items".to_owned(),
            payload: params,
        }
    }

    /// Updates a billing statement line item: `PUT
    /// /billing_statement_line_items/:id`.
    pub fn update(
        &self,
        id: BillingStatementLineItemId,
        params: UpdateBillingStatementLineItem,
    ) -> (r: Request<UpdateBillingStatementLineItem>)
        ensures
            r.method == Method::Put,
            r.path@ == "/billing_statement_line_items/"@ + id@,
            r.payload == params,
    {
        Request {
            method: Method::Put,
            path: "/billing_statement_line_items/".to_owned().concat(id.as_str()),
            payload: params,
        }
    }

    /// Deletes a billing statement line item: `DELETE
    /// /billing_statement_line_items/:id`.
    pub fn delete(&self, id: &BillingStatementLineItemId) -> (r: Request<()>)
        ensures
            r.method == Method::Delete,
            r.path@ == "/billing_statement_line_items/"@ + id@,
    {
        Request {
            method: Method::Delete,
            path: "/billing_statement_line_items/".to_owned().concat(id.as_str()),
            payload: (),
        }
    }
}

/// A line item of a billing statement, which pertains to a business's
/// products or services.
#[derive(Debug, Clone, PartialEq, Eq)]
pub struct BillingStatementLineItem {
    /// Unique identifier for the resource. The prefix is `bstm_li_`.
    pub id: BillingStatementLineItemId,
    /// The amount of the line item in a single unit.
    pub unit_price: u64,
    /// The quantity of the line item. The quantity is multiplied by the unit
    /// price to compute the final amount of the billing statement.
    pub quantity: u64,
    /// The ID of the billing statement where the line item is associated.
    pub billing_statement_id: BillingStatementId,
    /// The description attribute describes the line item of the billing
    /// statement. It could be a product you sell or a service you provide to
    /// your customers.
    pub description: Option<String>,
    /// The value is `true` if the resource's mode is live or the value is
    /// `false` if the resource is in test mode.
    pub livemode: bool,
    /// The time the resource was created and measured in seconds since the
    /// Unix epoch.
    pub created_at: Timestamp,
    /// The time the resource was updated and measured in seconds since the
    /// Unix epoch.
    pub updated_at: Timestamp,
}

/// Query parameters when creating a billing statement line item.
#[derive(Debug, Default, Clone, PartialEq, Eq)]
pub struct CreateBillingStatementLineItem {
    /// The ID of a billing statement resource.
    pub billing_statement_id: BillingStatementId,
    /// The amount of the line item in a single unit, a positive integer in
    /// the smallest currency unit, cents.
    pub unit_price: u64,
    /// The quantity of the line item.
    pub quantity: u64,
    /// The description attribute describes the line item of the billing
    /// statement. It could be a product you sell or a service you provide to
    /// your customers.
    pub description: Option<String>,
}

impl CreateBillingStatementLineItem {
    /// Creates a new [`CreateBillingStatementLineItem`] instance.
    #[must_use]
    pub fn new(
        billing_statement_id: BillingStatementId,
        unit_price: u64,
        quantity: u64,
    ) -> (r: Self)
        ensures
            r.billing_statement_id == billing_statement_id,
            r.unit_price == unit_price,
            r.quantity == quantity,
            r.description is None,
    {
        CreateBillingStatementLineItem {
            billing_statement_id,
            unit_price,
            quantity,
            description: None,
        }
    }

    /// Sets the description in the query parameters.
    pub fn description(self, description: impl IntoText) -> (r: Self)
        ensures
            opt_text_view(r.description) == Some(description.text()),
            r == (CreateBillingStatementLineItem { description: r.description, ..self }),
    {
        let mut r = self;
        r.description = Some(description.into_text());
        r
    }
}

/// Query parameters when updating a billing statement line item.
#[derive(Debug, Clone, PartialEq, Eq)]
pub struct UpdateBillingStatementLineItem {
    /// The amount of the line item in a single unit, a positive integer in
    /// the smallest currency unit, cents.
    pub unit_price: Option<u64>,
    /// The quantity of the line item.
    pub quantity: Option<u64>,
    /// The description attribute describes the line item of the billing
    /// statement. It could be a product you sell or a service you provide to
    /// your customers.
    pub description: Option<String>,
}

impl UpdateBillingStatementLineItem {
    /// Creates a new [`UpdateBillingStatementLineItem`] instance.
    #[must_use]
    pub fn new() -> (r: Self)
        ensures
            r.unit_price is None,
            r.quantity is None,
            r.description is None,
    {
        UpdateBillingStatementLineItem {
            unit_price: None,
            quantity: None,
            description: None,
        }
    }

    /// Sets the unit price for a line item in the billing statement.
    pub fn unit_price(self, unit_price: u64) -> (r: Self)
        ensures
            r == (UpdateBillingStatementLineItem { unit_price: Some(unit_price), ..self }),
    {
        let mut r = self;
        r.unit_price = Some(unit_price);
        r
    }

    /// Sets the quantity for a line item in the billing statement.
    pub fn quantity(self, quantity: u64) -> (r: Self)
        ensures
            r == (UpdateBillingStatementLineItem { quantity: Some(quantity), ..self }),
    {
        let mut r = self;
        r.quantity = Some(quantity);
        r
    }

    /// Sets the description in the query parameters.
    pub fn description(self, description: impl IntoText) -> (r: Self)
        ensures
            opt_text_view(r.description) == Some(description.text()),
            r == (UpdateBillingStatementLineItem { description: r.description, ..self }),
    {
        let mut r = self;
        r.description = Some(description.into_text());
        r
    }
}

impl Default for UpdateBillingStatementLineItem {
    /// The same as [`UpdateBillingStatementLineItem::new`].
    fn default() -> (r: Self)
        ensures
            r.unit_price is None,
            r.quantity is None,
            r.description is None,
    {
        UpdateBillingStatementLineItem::new()
    }
}

} // verus!
