//! The two ledger operations that settlement is built from: a checked token
//! transfer and the closing of a token account.
use vstd::prelude::*;
use crate::address::{Address, same_address};
use crate::error::EscrowError;

verus! {

/// A token account: a balance of one asset type (its mint), held by `owner`.
#[derive(Debug, Clone, Copy, PartialEq, Eq)]
pub struct TokenAccount {
    pub mint: Address,
    pub owner: Address,
    pub amount: u64,
}

/// An asset type: its address and the number of decimals it declares.
#[derive(Debug, Clone, Copy, PartialEq, Eq)]
pub struct Mint {
    pub key: Address,
    pub decimals: u8,
}

/// `a` with `amount` taken off its balance.
pub open spec fn debited(a: TokenAccount, amount: u64) -> TokenAccount {
    TokenAccount { amount: (a.amount - amount) as u64, ..a }
}

/// `a` with `amount` added to its balance.
pub open spec fn credited(a: TokenAccount, amount: u64) -> TokenAccount {
    TokenAccount { amount: (a.amount + amount) as u64, ..a }
}

/// Why moving `amount` of `mint` from `from` to `to`, signed by `authority`
/// and stated with `decimals`, is refused; `None` where it goes through.
pub open spec fn transfer_error(
    from: TokenAccount,
    to: TokenAccount,
    mint: Mint,
    authority: Seq<u8>,
    amount: u64,
    decimals: u8,
) -> Option<EscrowError> {
    if from.mint@ != mint.key@ || to.mint@ != mint.key@ {
        Some(EscrowError::AssetTypeMismatch)
    } else if decimals != mint.decimals {
        Some(EscrowError::DecimalsMismatch)
    } else if from.owner@ != authority {
        Some(EscrowError::OwnerMismatch)
    } else if from.amount < amount {
        Some(EscrowError::InsufficientBalance)
    } else if to.amount + amount > u64::MAX {
        Some(EscrowError::Overflow)
    } else {
        None
    }
}

/// Moves `amount` tokens of `mint` from `from` to `to`, authorized by
/// `authority`; on an error neither account changes.
pub fn transfer_checked(
    from: &mut TokenAccount,
    to: &mut TokenAccount,
    mint: &Mint,
    authority: &Address,
    amount: u64,
    decimals: u8,
) -> (r: Result<(), EscrowError>)
    ensures
        match transfer_error(*old(from), *old(to), *mint, authority@, amount, decimals) {
            Some(e) => r == Err::<(), EscrowError>(e) && *final(from) == *old(from) && *final(to)
                == *old(to),
            None => r is Ok && *final(from) == debited(*old(from), amount) && *final(to) == credited(
                *old(to),
                amount,
            ),
        },
{
    if !same_address(&from.mint, &mint.key) || !same_address(&to.mint, &mint.key) {
        return Err(EscrowError::AssetTypeMismatch);
    }
    if decimals != mint.decimals {
        return Err(EscrowError::DecimalsMismatch);
    }
    if !same_address(&from.owner, authority) {
        return Err(EscrowError::OwnerMismatch);
    }
    if from.amount < amount {
        return Err(EscrowError::InsufficientBalance);
    }
    if to.amount > u64::MAX - amount {
        return Err(EscrowError::Overflow);
    }
    from.amount = from.amount - amount;
    to.amount = to.amount + amount;
    Ok(())
}

/// Why closing `account` (which holds `lamports` of storage deposit) on the
/// signature of `authority`, with the deposit sent to a balance of
/// `destination`, is refused; `None` where it goes through.
pub open spec fn close_error(
    account: TokenAccount,
    authority: Seq<u8>,
    lamports: u64,
    destination: u64,
) -> Option<EscrowError> {
    if account.owner@ != authority {
        Some(EscrowError::OwnerMismatch)
    } else if account.amount != 0 {
        Some(EscrowError::NonEmptyAccountOnClose)
    } else if destination + lamports > u64::MAX {
        Some(EscrowError::Overflow)
    } else {
        None
    }
}

/// Checks that `account` may be closed and credits its storage deposit
/// `lamports` to `destination`; the caller then drops the account. On an
/// error `destination` does not change.
pub fn close_account(
    account: &TokenAccount,
    lamports: u64,
    authority: &Address,
    destination: &mut u64,
) -> (r: Result<(), EscrowError>)
    ensures
        match close_error(*account, authority@, lamports, *old(destination)) {
            Some(e) => r == Err::<(), EscrowError>(e) && *final(destination) == *old(destination),
            None => r is Ok && *final(destination) == *old(destination) + lamports,
        },
{
    if !same_address(&account.owner, authority) {
        return Err(EscrowError::OwnerMismatch);
    }
    if account.amount != 0 {
        return Err(EscrowError::NonEmptyAccountOnClose);
    }
    if *destination > u64::MAX - lamports {
        return Err(EscrowError::Overflow);
    }
    *destination = *destination + lamports;
    Ok(())
}

} // verus!
