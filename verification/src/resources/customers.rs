//! Customers: the customers of your business, to track payments and billing
//! information that belong together.

use vstd::prelude::*;
use vstd::string::StringExecFns;
use crate::request::{Method, Request};
use crate::text::{opt_text_view, IntoText};
use crate::types::currency::Currency;
use crate::types::ids::CustomerId;
use crate::types::metadata::Metadata;
use crate::types::pagination::ListParams;
use crate::types::timestamp::Timestamp;

verus! {

/// The endpoints of customers.
#[derive(Debug, Clone, Copy, PartialEq, Eq, Structural)]
pub struct Customers {}

impl Customers {
    /// The endpoints of this resource.
    #[must_use]
    pub fn new() -> (r: Self)
        ensures
            r == (Customers {}),
    {
        Customers {}
    }

    /// Creates a customer: `POST /customers`.
    pub fn create(&self, params: CreateCustomer) -> (r: Request<CreateCustomer>)
        ensures
            r.method == Method::Post,
            r.path@ == "/customers"@,
            r.payload == params,
    {
        Request { method: Method::Post, path: "/customers".to_owned(), payload: params }
    }

    /// Retrieves a customer: `GET /customers/:id`.
    pub fn retrieve(&self, id: &CustomerId) -> (r: Request<()>)
        ensures
            r.method == Method::Get,
            r.path@ == "/customers/"@ + id@,
    {
        Request {
            method: Method::Get,
            path: "/customers/".to_owned().concat(id.as_str()),
            payload: (),
        }
    }

    /// Updates a customer: `PUT /customers/:id`.
    pub fn update(&self, id: &CustomerId, params: UpdateCustomer) -> (r: Request<UpdateCustomer>)
        ensures
            r.method == Method::Put,
            r.path@ == "/customers/"@ + id@,
            r.payload == params,
    {
        Request {
            method: Method::Put,
            path: "/customers/".to_owned().concat(id.as_str()),
            payload: params,
        }
    }

    /// Deletes a customer: `DELETE /customers/:id`. A deleted customer can
    /// still be retrieved, to track its history.
    pub fn delete(&self, id: &CustomerId) -> (r: Request<()>)
        ensures
            r.method == Method::Delete,
            r.path@ == "/customers/"@ + id@,
    {
        Request {
            method: Method::Delete,
            path: "/customers/".to_owned().concat(id.as_str()),
            payload: (),
        }
    }

    /// Lists customers: `GET /customers`.
    pub fn list(
        &self,
        params: Option<CustomerListParams>,
    ) -> (r: Request<Option<CustomerListParams>>)
        ensures
            r.method == Method::Get,
            r.path@ == "/customers"@,
            r.payload == params,
    {
        Request { method: Method::Get, path: "/customers".to_owned(), payload: params }
    }
}

/// A customer of your business: a person or a company. Use this resource to
/// track payments that belong to the same customer.
#[derive(Debug, Clone, PartialEq, Eq)]
pub struct Customer {
    /// Unique identifier for the resource. The prefix is `cus_`.
    pub id: CustomerId,
    /// The customer's prefix used to generate unique billing statement
    /// numbers.
    pub billing_statement_prefix: Option<String>,
    /// The customer's e-mail address.
    pub email: Option<String>,
    /// The customer's name.
    pub name: Option<String>,
    /// The suffix of the customer's next billing statement number, e.g. 0001.
    pub next_billing_statement_sequence_number: Option<String>,
    /// A set of key-value pairs attached to the resource, for storing
    /// additional information about it.
    pub metadata: Option<Metadata>,
    /// The value is `true` if the resource's mode is live or the value is
    /// `false` if the resource is in test mode.
    pub livemode: bool,
    /// The time the resource was created and measured in seconds since the
    /// Unix epoch.
    pub created_at: Timestamp,
    /// The time the resource was updated and measured in seconds since the
    /// Unix epoch.
    pub updated_at: Timestamp,
    /// A three-letter ISO currency code in uppercase. As of the moment, we
    /// only support PHP.
    pub currency: Option<Currency>,
}

/// Optional variant for Customer. This is only used for responses in billing
/// statements API.
#[derive(Debug, Clone, PartialEq, Eq)]
pub struct OptionalCustomer {
    /// Unique identifier for the resource. The prefix is `cus_`.
    pub id: Option<CustomerId>,
    /// The customer's prefix used to generate unique billing statement
    /// numbers.
    pub billing_statement_prefix: Option<String>,
    /// The customer's e-mail address.
    pub email: Option<String>,
    /// The customer's name.
    pub name: Option<String>,
    /// The suffix of the customer's next billing statement number, e.g. 0001.
    pub next_billing_statement_sequence_number: Option<String>,
    /// A set of key-value pairs attached to the resource, for storing
    /// additional information about it.
    pub metadata: Option<Metadata>,
    /// The value is `true` if the resource's mode is live or the value is
    /// `false` if the resource is in test mode.
    pub livemode: Option<bool>,
    /// The time the resource was created and measured in seconds since the
    /// Unix epoch.
    pub created_at: Option<Timestamp>,
    /// The time the resource was updated and measured in seconds since the
    /// Unix epoch.
    pub updated_at: Option<Timestamp>,
    /// A three-letter ISO currency code in uppercase. As of the moment, we
    /// only support PHP.
    pub currency: Option<Currency>,
}

/// Query parameters when creating a customer.
#[derive(Debug, Default, Clone)]
pub struct CreateCustomer {
    /// The customer's e-mail address.
    pub email: String,
    /// The customer's name.
    pub name: String,
    /// The customer's prefix used to generate unique billing statement
    /// numbers. Allows 3-15 uppercase letters or numbers.
    pub billing_statement_prefix: Option<String>,
    /// The sequence number used as a suffix when creating the customer's next
    /// billing statement number. Defaults to 1.
    pub next_billing_statement_sequence_number: Option<String>,
    /// A set of key-value pairs attached to the resource, for storing
    /// additional information about it.
    pub metadata: Option<Metadata>,
    /// A three-letter ISO currency code in uppercase. As of the moment, we
    /// only support PHP.
    pub currency: Currency,
}

impl CreateCustomer {
    /// Creates a new [`CreateCustomer`] instance.
    #[must_use]
    pub fn new(email: impl IntoText, name: impl IntoText, currency: Currency) -> (r: Self)
        ensures
            r.email@ == email.text(),
            r.name@ == name.text(),
            r.billing_statement_prefix is None,
            r.next_billing_statement_sequence_number is None,
            r.metadata is None,
            r.currency == currency,
    {
        CreateCustomer {
            email: email.into_text(),
            name: name.into_text(),
            billing_statement_prefix: None,
            next_billing_statement_sequence_number: None,
            metadata: None,
            currency,
        }
    }

    /// Sets the billing statement prefix in the query params when creating a
    /// customer.
    pub fn billing_statement_prefix(self, billing_statement_prefix: impl IntoText) -> (r: Self)
        ensures
            opt_text_view(r.billing_statement_prefix) == Some(billing_statement_prefix.text()),
            r == (CreateCustomer {
                billing_statement_prefix: r.billing_statement_prefix,
                ..self
            }),
    {
        let mut r = self;
        r.billing_statement_prefix = Some(billing_statement_prefix.into_text());
        r
    }

    /// Sets the next billing statement sequence number in the query params
    /// when creating a customer.
    pub fn next_billing_statement_sequence_number(
        self,
        next_billing_statement_sequence_number: impl IntoText,
    ) -> (r: Self)
        ensures
            opt_text_view(r.next_billing_statement_sequence_number) == Some(next_billing_statement_sequence_number.text()),
            r == (CreateCustomer {
                next_billing_statement_sequence_number: r.next_billing_statement_sequence_number,
                ..self
            }),
    {
        let mut r = self;
        r.next_billing_statement_sequence_number = Some(next_billing_statement_sequence_number.into_text());
        r
    }

    /// Sets metadata in the query parameters.
    pub fn metadata(self, metadata: Metadata) -> (r: Self)
        ensures
            r == (CreateCustomer { metadata: Some(metadata), ..self }),
    {
        let mut r = self;
        r.metadata = Some(metadata);
        r
    }
}

/// Query parameters when updating a customer.
#[derive(Debug, Clone)]
pub struct UpdateCustomer {
    /// The customer's prefix used to generate unique billing statement
    /// numbers. Allows 3-15 uppercase letters or numbers.
    pub billing_statement_prefix: Option<String>,
    /// The sequence number used as a suffix when creating the customer's next
    /// billing statement number. Defaults to 1.
    pub next_billing_statement_sequence_number: Option<String>,
    /// The customer's e-mail address.
    pub email: Option<String>,
    /// The customer's name.
    pub name: Option<String>,
    /// A set of key-value pairs attached to the resource, for storing
    /// additional information about it.
    pub metadata: Option<Metadata>,
    /// A three-letter ISO currency code in uppercase. As of the moment, we
    /// only support PHP.
    pub currency: Option<Currency>,
}

impl UpdateCustomer {
    /// Creates a new [`UpdateCustomer`] instance.
    #[must_use]
    pub fn new() -> (r: Self)
        ensures
            r.billing_statement_prefix is None,
            r.next_billing_statement_sequence_number is None,
            r.email is None,
            r.name is None,
            r.metadata is None,
            r.currency is None,
    {
        UpdateCustomer {
            billing_statement_prefix: None,
            next_billing_statement_sequence_number: None,
            email: None,
            name: None,
            metadata: None,
            currency: None,
        }
    }

    /// Sets the billing statement prefix in the query params when updating a
    /// customer.
    pub fn billing_statement_prefix(self, billing_statement_prefix: impl IntoText) -> (r: Self)
        ensures
            opt_text_view(r.billing_statement_prefix) == Some(billing_statement_prefix.text()),
            r == (UpdateCustomer {
                billing_statement_prefix: r.billing_statement_prefix,
                ..self
            }),
    {
        let mut r = self;
        r.billing_statement_prefix = Some(billing_statement_prefix.into_text());
        r
    }

    /// Sets the next billing statement sequence number in the query params
    /// when updating a customer.
    pub fn next_billing_statement_sequence_number(
        self,
        next_billing_statement_sequence_number: impl IntoText,
    ) -> (r: Self)
        ensures
            opt_text_view(r.next_billing_statement_sequence_number) == Some(next_billing_statement_sequence_number.text()),
            r == (UpdateCustomer {
                next_billing_statement_sequence_number: r.next_billing_statement_sequence_number,
                ..self
            }),
    {
        let mut r = self;
        r.next_billing_statement_sequence_number = Some(next_billing_statement_sequence_number.into_text());
        r
    }

    /// Sets the email in query params when updating a customer.
    pub fn email(self, email: impl IntoText) -> (r: Self)
        ensures
            opt_text_view(r.email) == Some(email.text()),
            r == (UpdateCustomer { email: r.email, ..self }),
    {
        let mut r = self;
        r.email = Some(email.into_text());
        r
    }

    /// Sets the name in query params when updating a customer.
    pub fn name(self, name: impl IntoText) -> (r: Self)
        ensures
            opt_text_view(r.name) == Some(name.text()),
            r == (UpdateCustomer { name: r.name, ..self }),
    {
        let mut r = self;
        r.name = Some(name.into_text());
        r
    }

    /// Sets metadata in the query parameters.
    pub fn metadata(self, metadata: Metadata) -> (r: Self)
        ensures
            r == (UpdateCustomer { metadata: Some(metadata), ..self }),
    {
        let mut r = self;
        r.metadata = Some(metadata);
        r
    }

    /// Sets the currency in the query parameters.
    pub fn currency(self, currency: Currency) -> (r: Self)
        ensures
            r == (UpdateCustomer { currency: Some(currency), ..self }),
    {
        let mut r = self;
        r.currency = Some(currency);
        r
    }
}

impl Default for UpdateCustomer {
    /// The same as [`UpdateCustomer::new`].
    fn default() -> (r: Self)
        ensures
            r.billing_statement_prefix is None,
            r.next_billing_statement_sequence_number is None,
            r.email is None,
            r.name is None,
            r.metadata is None,
            r.currency is None,
    {
        UpdateCustomer::new()
    }
}

/// Query parameters when listing customers.
#[derive(Debug, Clone)]
pub struct CustomerListParams {
    /// Baseline pagination fields such as `limit`, `before`, and `after`.
    pub list_params: ListParams,
    /// The customer's e-mail address.
    pub email: Option<String>,
    /// The customer's name.
    pub name: Option<String>,
    /// A set of key-value pairs attached to the resource, for storing
    /// additional information about it.
    pub metadata: Option<Metadata>,
}

impl CustomerListParams {
    /// Creates a new [`CustomerListParams`] instance.
    #[must_use]
    pub fn new() -> (r: Self)
        ensures
            r.list_params.limit is None,
            r.list_params.after is None,
            r.list_params.before is None,
            r.email is None,
            r.name is None,
            r.metadata is None,
    {
        CustomerListParams {
            list_params: ListParams::new(),
            email: None,
            name: None,
            metadata: None,
        }
    }

    /// Sets the email in query params when listing customers.
    pub fn email(self, email: impl IntoText) -> (r: Self)
        ensures
            opt_text_view(r.email) == Some(email.text()),
            r == (CustomerListParams { email: r.email, ..self }),
    {
        let mut r = self;
        r.email = Some(email.into_text());
        r
    }

    /// Sets the name in query params when listing customers.
    pub fn name(self, name: impl IntoText) -> (r: Self)
        ensures
            opt_text_view(r.name) == Some(name.text()),
            r == (CustomerListParams { name: r.name, ..self }),
    {
        let mut r = self;
        r.name = Some(name.into_text());
        r
    }

    /// Sets metadata in the query parameters.
    pub fn metadata(self, metadata: Metadata) -> (r: Self)
        ensures
            r == (CustomerListParams { metadata: Some(metadata), ..self }),
    {
        let mut r = self;
        r.metadata = Some(metadata);
        r
    }
}

impl Default for CustomerListParams {
    /// The same as [`CustomerListParams::new`].
    fn default() -> (r: Self)
        ensures
            r.list_params.limit is None,
            r.list_params.after is None,
            r.list_params.before is None,
            r.email is None,
            r.name is None,
            r.metadata is None,
    {
        CustomerListParams::new()
    }
}

} // verus!
