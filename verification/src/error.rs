//! Error taxonomy: validation failures (relationship and plan checks) and
//! execution failures (a collaborator call reports failure).

use vstd::prelude::*;

verus! {

/// A check on caller-supplied inputs failed before any value moved.
#[derive(Clone, Copy, Debug, PartialEq, Eq, Structural)]
pub enum ValidationError {
    /// A claimed identity does not match the re-derived program address.
    AddressMismatch,
    /// An account's owning program is not the one its role requires.
    WrongOwner,
    /// A token account's mint is not the one its role requires.
    MintMismatch,
    /// A token account's recorded authority is not the verified derived address.
    UnauthorizedAuthority,
    /// An account claimed as signer carries no signer attestation.
    MissingSignature,
    /// The amounts list and the recipient list differ in length.
    LengthMismatch,
    /// The amounts do not sum to the claimed total.
    SumMismatch,
    /// Summing the amounts overflows the integer range.
    AmountOverflow,
    /// An empty transfer plan, which the routing policy rejects.
    EmptyPlan,
}

/// Which collaborator a failed call was addressed to.
#[derive(Clone, Copy, Debug, PartialEq, Eq, Structural)]
pub enum CollaboratorKind {
    TokenTransfer,
    Swap,
    Bridge,
}

/// A collaborator call failed after validation had passed.
#[derive(Clone, Copy, Debug, PartialEq, Eq, Structural)]
pub enum ExecutionError {
    /// The named collaborator reported failure; the whole call aborts.
    CollaboratorFailed(CollaboratorKind),
    /// The account-creation primitive found the derived account already exists.
    AlreadyExists,
}

/// Any failure of one processed operation; the first failing step wins.
#[derive(Clone, Copy, Debug, PartialEq, Eq, Structural)]
pub enum OperationError {
    Validation(ValidationError),
    Execution(ExecutionError),
}

} // verus!
