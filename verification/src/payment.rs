use vstd::prelude::*;

verus! {

/// The tri-state outcome a payment provider reports for a charge.
#[derive(Clone, Copy, Debug, PartialEq, Eq, Structural)]
pub enum PaymentStatus {
    Pending,
    Successful,
    Failed,
}

/// What the payment gateway returns for one charge attempt.
///
/// Only `status` and `transaction_id` are consumed by the settlement
/// workflow; the echoed amount and currency are kept for the caller.
#[derive(Clone, Debug, PartialEq)]
pub struct PaymentResult {
    pub transaction_id: String,
    pub amount: u64,
    pub currency: String,
    pub status: PaymentStatus,
}

/// The status that a provider's status word denotes. Unknown words are
/// read as `Pending`, the safe non-final reading.
pub open spec fn spec_payment_status(word: Seq<char>) -> PaymentStatus {
    if word == "successful"@ {
        PaymentStatus::Successful
    } else if word == "failed"@ {
        PaymentStatus::Failed
    } else {
        PaymentStatus::Pending
    }
}

/// Reads a provider's status word, as the payment provider spells it.
pub fn payment_status_from_str(word: &str) -> (r: PaymentStatus)
    ensures
        r == spec_payment_status(word@),
{
    let owned = word.to_owned();
    if owned == String::from_str("successful") {
        PaymentStatus::Successful
    } else if owned == String::from_str("failed") {
        PaymentStatus::Failed
    } else {
        PaymentStatus::Pending
    }
}

/// The interface of a payment provider: charge an amount, in a currency,
/// against an opaque card token. Implemented outside this library by the
/// provider adapters; the settlement workflow consumes its outcome as a
/// value.
pub trait PaymentGateway {
    fn charge(&self, amount: u64, currency: String, token: String) -> Result<
        PaymentResult,
        crate::errors::GatewayFault,
    >;
}

} // verus!
