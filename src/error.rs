use vstd::prelude::*;

verus! {

/// A failure reported by the ledger while it applies a change.
#[derive(Clone, Copy, Debug, PartialEq, Eq, Structural)]
pub enum LedgerError {
    /// A balance or a supply would leave the range of `u64`.
    ArithmeticOverflow,
}

/// Why an operation was refused. Every refusal leaves all state unchanged.
#[derive(Clone, Copy, Debug, PartialEq, Eq, Structural)]
pub enum GatewayError {
    // the accounts bound to the operation do not fit together
    MintAccountMismatch,
    AccountNotWritable,
    InvalidProgram,
    // the presented authority is not the one required
    UnauthorizedMint,
    UnauthorizedTransfer,
    UnauthorizedBurn,
    UnauthorizedFreeze,
    FreezeAuthorityDisabled,
    // the state of the accounts does not allow the change
    InsufficientFunds,
    AccountFrozen,
    InvalidAmount,
    // passed on from the ledger
    Ledger(LedgerError),
}

/// The kind of a refusal, so that callers can tell the groups apart.
#[derive(Clone, Copy, Debug, PartialEq, Eq, Structural)]
pub enum ErrorKind {
    Validation,
    Authorization,
    State,
    Ledger,
}

impl GatewayError {
    pub open spec fn spec_kind(self) -> ErrorKind {
        match self {
            GatewayError::MintAccountMismatch
            | GatewayError::AccountNotWritable
            | GatewayError::InvalidProgram => ErrorKind::Validation,
            GatewayError::UnauthorizedMint
            | GatewayError::UnauthorizedTransfer
            | GatewayError::UnauthorizedBurn
            | GatewayError::UnauthorizedFreeze
            | GatewayError::FreezeAuthorityDisabled => ErrorKind::Authorization,
            GatewayError::InsufficientFunds
            | GatewayError::AccountFrozen
            | GatewayError::InvalidAmount => ErrorKind::State,
            GatewayError::Ledger(_) => ErrorKind::Ledger,
        }
    }

    pub fn kind(&self) -> (r: ErrorKind)
        ensures
            r == self.spec_kind(),
    {
        match self {
            GatewayError::MintAccountMismatch
            | GatewayError::AccountNotWritable
            | GatewayError::InvalidProgram => ErrorKind::Validation,
            GatewayError::UnauthorizedMint
            | GatewayError::UnauthorizedTransfer
            | GatewayError::UnauthorizedBurn
            | GatewayError::UnauthorizedFreeze
            | GatewayError::FreezeAuthorityDisabled => ErrorKind::Authorization,
            GatewayError::InsufficientFunds
            | GatewayError::AccountFrozen
            | GatewayError::InvalidAmount => ErrorKind::State,
            GatewayError::Ledger(_) => ErrorKind::Ledger,
        }
    }
}

/// The result that a first failing check (or none) gives.
pub open spec fn outcome(first_failure: Option<GatewayError>) -> Result<(), GatewayError> {
    match first_failure {
        Some(e) => Err(e),
        None => Ok(()),
    }
}

} // verus!
