//! Why a settlement, or one of its steps, was refused.
use vstd::prelude::*;

verus! {

/// Every error aborts the whole settlement; none is retried.
#[derive(Debug, Clone, Copy, PartialEq, Eq, Structural)]
pub enum EscrowError {
    /// The vault's authority is not the address derived from the escrow's
    /// maker, seed and bump, or the escrow belongs to another maker.
    AuthorizationMismatch,
    /// An account or mint holds another asset type than the escrow names.
    AssetTypeMismatch,
    /// An account is not held by the party that must hold or sign for it.
    OwnerMismatch,
    /// A checked transfer named other decimals than the mint declares.
    DecimalsMismatch,
    /// The source of a transfer holds less than the amount.
    InsufficientBalance,
    /// An account that still holds tokens was to be closed.
    NonEmptyAccountOnClose,
    /// The escrow record or its vault does not exist (any more).
    AccountNotFound,
    /// A balance would exceed the largest `u64`.
    Overflow,
}

} // verus!
