//! The resources of the API: for each one its data types, the parameters of
//! its calls with their builders, and the requests of its endpoints.

pub mod billing_statement_line_items;
pub mod billing_statements;
pub mod checkout_sessions;
pub mod customers;
pub mod payment_intents;
pub mod payouts;
pub mod refunds;
pub mod webhooks;
