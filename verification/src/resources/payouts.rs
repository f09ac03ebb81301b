//! Payouts: transfers of funds to your bank account.

use vstd::prelude::*;
use vstd::string::StringExecFns;
use crate::request::{Method, Request};
use crate::types::ids::{PayoutId, PayoutTransactionId};
use crate::types::pagination::ListParams;
use crate::types::timestamp::Timestamp;

verus! {

/// The endpoints of payouts.
#[derive(Debug, Clone, Copy, PartialEq, Eq, Structural)]
pub struct Payouts {}

impl Payouts {
    /// The endpoints of this resource.
    #[must_use]
    pub fn new() -> (r: Self)
        ensures
            r == (Payouts {}),
    {
        Payouts {}
    }

    /// Lists the transactions of a payout: `GET /payouts/:id/transactions`.
    pub fn list_transactions(
        &self,
        id: &PayoutId,
        params: Option<ListParams>,
    ) -> (r: Request<Option<ListParams>>)
        ensures
            r.method == Method::Get,
            r.path@ == "/payouts/"@ + id@ + "/transactions"@,
            r.payload == params,
    {
        Request {
            method: Method::Get,
            path: "/payouts/".to_owned().concat(id.as_str()).concat("/transactions"),
            payload: params,
        }
    }
}

/// A payout: a net amount of money settled to your nominated bank account,
/// made according to the payout schedule of the merchant account.
#[derive(Debug, Clone, PartialEq, Eq)]
pub struct Payout {
    /// Unique identifier for the resource. The prefix is `po_`.
    pub id: PayoutId,
    /// The bank account that you nominated for your merchant account.
    pub destination: Option<PayoutDestination>,
    /// The final computed amount that will be transferred to the bank
    /// account, in cents.
    pub net_amount: Option<u64>,
    /// The status of the payout.
    pub status: PayoutStatus,
    /// The amount, a positive integer in the smallest currency unit, cents: ₱
    /// 120.50 is 12050. The minimum amount is ₱ 20 (2000 in cents) and the
    /// maximum amount is ₱ 59,999,999.99 (5999999999 in cents).
    pub amount: u64,
    /// The value is `true` if the resource's mode is live or the value is
    /// `false` if the resource is in test mode.
    pub livemode: bool,
    /// The time the resource was created and measured in seconds since the
    /// Unix epoch.
    pub created_at: Timestamp,
    /// The time the resource was updated and measured in seconds since the
    /// Unix epoch.
    pub updated_at: Timestamp,
}

/// The status of a [`Payout`].
#[derive(Debug, Clone, Copy, PartialEq, Eq, Hash, Structural)]
pub enum PayoutStatus {
    /// The payout is currently pending.
    Pending,
    /// The payout is in transit.
    InTransit,
    /// The payout failed.
    Failed,
    /// The payout was cancelled.
    Cancelled,
}

/// The bank account that you nominated for your merchant account.
#[derive(Debug, Clone, PartialEq, Eq)]
pub struct PayoutDestination {
    /// The account name of the bank account.
    pub account_name: String,
    /// The account number of the bank account.
    pub account_number: String,
    /// The name of the bank.
    pub bank_name: String,
}

/// The transaction type of a [`PayoutTransaction`].
#[derive(Debug, Clone, Copy, PartialEq, Eq, Hash, Structural)]
pub enum PayoutTransactionType {
    /// The transaction is a payment.
    Payment,
    /// The transaction is a refund.
    Refund,
    /// The transaction is an adjustment.
    Adjustment,
}

/// A line item of a payout. Every payout transaction belongs to a payout.
#[derive(Debug, Clone, PartialEq, Eq)]
pub struct PayoutTransaction {
    /// Unique identifier for the resource. The prefix is `po_txn_`.
    pub id: PayoutTransactionId,
    /// The net amount of the payout transaction, in cents.
    pub net_amount: u64,
    /// The identifier of the payment, refund or adjustment that the
    /// transaction stands for.
    pub transaction_id: PayoutTransactionId,
    /// The transaction type of the payout transaction.
    pub transaction_type: PayoutTransactionType,
    /// The amount, a positive integer in the smallest currency unit, cents: ₱
    /// 120.50 is 12050. The minimum amount is ₱ 20 (2000 in cents) and the
    /// maximum amount is ₱ 59,999,999.99 (5999999999 in cents).
    pub amount: u64,
    /// The time the resource was created and measured in seconds since the
    /// Unix epoch.
    pub created_at: Timestamp,
    /// The time the resource was updated and measured in seconds since the
    /// Unix epoch.
    pub updated_at: Timestamp,
}

} // verus!
