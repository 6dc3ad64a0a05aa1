use vstd::prelude::*;

verus! {

/// Typed failure of a ledger operation. Every failing operation returns one
/// of these and leaves the store unchanged; no error is ever downgraded to a
/// default value.
#[derive(Clone, Copy, Debug, PartialEq, Eq, Structural)]
pub enum ContractError {
    /// Account creation named an account that already exists.
    AlreadyExists,
    /// An account or owner-index lookup missed.
    NotFound,
    /// The requesting identity does not match the stored owner or controller.
    Unauthorized,
    /// A debit asked for more than the account holds.
    InsufficientBalance,
    /// An identity reference did not pass the host's address validation.
    InvalidAddress,
    /// A balance computation left the representable range.
    ArithmeticOverflow,
}

} // verus!
