use vstd::prelude::*;

verus! {

/// The ways a wallet operation can fail.
#[derive(Debug, Clone, PartialEq, Eq)]
pub enum GatewayError {
    /// Text that does not decode to an account address.
    InvalidAddress,
    /// Key material that is not a well-formed keypair.
    InvalidKey,
    /// The remote node could not be reached.
    RemoteUnavailable,
    /// The remote node holds no account for the address.
    AccountNotFound,
    /// The remote node refused a submitted transaction.
    SubmissionFailed { reason: String },
    /// The key material belongs to another address than the claimed sender.
    AuthorizationMismatch,
    /// A whole-currency amount does not fit in the smallest unit.
    AmountOverflow,
    /// An event arrived that the current step of a protocol does not expect.
    OutOfOrder,
}

} // verus!
