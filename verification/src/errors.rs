use vstd::prelude::*;

verus! {

/// The failure taxonomy of the order and payment workflows.
///
/// Every workflow returns one of these variants to its caller; the HTTP
/// layer maps each to a response code. Internal causes (repository or
/// provider messages) are deliberately not carried along.
#[derive(Clone, Copy, Debug, PartialEq, Eq, Structural)]
pub enum WorkflowError {
    /// The order or customer the command names does not exist.
    NotFound,
    /// A guarded state-machine transition was attempted from the wrong status.
    InvalidTransition,
    /// Settlement was requested for an order that is already `Paid`.
    AlreadyPaid,
    /// The payment gateway answered, but reported a non-successful charge.
    PaymentFailed,
    /// The payment gateway could not be reached or failed at the transport level.
    PaymentGatewayError,
    /// A repository operation failed.
    PersistenceError,
}

/// The failure taxonomy of the account workflows (registration, login,
/// promotion). These sit outside the order lifecycle and keep their own
/// variants.
#[derive(Clone, Copy, Debug, PartialEq, Eq, Structural)]
pub enum AccountError {
    /// No account matches the given name and password.
    InvalidCredentials,
    /// Registration was attempted under a username that already exists.
    UsernameTaken,
    /// The password hasher failed, or a stored hash could not be parsed.
    Hashing,
    /// A repository operation failed.
    Persistence,
    /// The user the command names does not exist.
    NotFound,
    /// A stored user record carries no identifier.
    MissingId,
}

/// A repository operation that failed, as the workflows see it: the
/// cause stays at the persistence boundary.
#[derive(Clone, Copy, Debug, PartialEq, Eq, Structural)]
pub struct PersistenceFault;

/// A payment-gateway call that failed at the transport level, before the
/// provider could report a charge outcome.
#[derive(Clone, Copy, Debug, PartialEq, Eq, Structural)]
pub struct GatewayFault;

/// A notification that could not be delivered.
#[derive(Clone, Copy, Debug, PartialEq, Eq, Structural)]
pub struct NotifyFault;

/// The failure taxonomy of the value-object constructors.
#[derive(Clone, Copy, Debug, PartialEq, Eq, Structural)]
pub enum ValidationError {
    /// A price must not be negative.
    NegativePrice,
    /// A license plate must not be empty.
    EmptyLicensePlate,
}

} // verus!
