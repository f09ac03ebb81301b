//! Payment methods and their options.

use vstd::prelude::*;

verus! {

/// A payment method that a payment can be made with.
#[derive(Debug, Clone, Copy, PartialEq, Eq, Hash, Structural)]
pub enum PaymentMethod {
    /// Payment by card.
    Card,
    /// Payment through GCash.
    GCash,
    /// Payment through Maya.
    Maya,
    /// Payment through QR Ph.
    QRPh,
}

/// How a card payment is captured.
#[derive(Debug, Clone, Copy, PartialEq, Eq, Hash, Structural)]
pub enum CaptureMethod {
    /// The payment is captured when it is authorized.
    Automatic,
    /// The payment is held and captured later.
    Manual,
}

/// Options of the card payment method.
#[derive(Debug, Clone, PartialEq, Eq, Default)]
pub struct CardOptions {
    /// How the card payment is captured.
    pub capture_type: Option<CaptureMethod>,
    /// The bank identification numbers that are allowed.
    pub allowed_bins: Option<Vec<String>>,
    /// The card fundings that are allowed.
    pub allowed_funding: Option<Vec<String>>,
}

/// A set of key-value pairs that can modify the behavior of the payment
/// method attached to a payment intent.
#[derive(Debug, Clone, PartialEq, Eq, Default)]
pub struct PaymentMethodOptions {
    /// Options of the card payment method.
    pub card: Option<CardOptions>,
}

} // verus!
