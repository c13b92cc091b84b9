//! The settlement ("take") of an escrow: the accounts it touches, each of
//! its steps, and the whole settlement as one all-or-nothing step.
use vstd::prelude::*;
use crate::address::{Address, same_address, derive_authority, escrow_authority};
use crate::error::EscrowError;
use crate::ledger::{
    TokenAccount, Mint, transfer_checked, close_account, transfer_error, close_error, debited,
    credited,
};

verus! {

/// The record of an open trade: the maker offers the vault's tokens of
/// `mint_a` for `receive` tokens of `mint_b`.
#[derive(Debug, Clone, Copy, PartialEq, Eq)]
pub struct Escrow {
    pub seed: u64,
    pub maker: Address,
    pub mint_a: Address,
    pub mint_b: Address,
    pub receive: u64,
    pub bump: u8,
}

/// The ledger state that a settlement reads and writes. An account that does
/// not exist (yet, or any more) is `None`; a `*_lamports` field is the storage
/// deposit an account holds.
#[derive(Debug, Clone, Copy, PartialEq, Eq)]
pub struct Take {
    pub program_id: Address,
    pub taker: Address,
    pub maker: Address,
    pub maker_lamports: u64,
    pub mint_a: Mint,
    pub mint_b: Mint,
    pub escrow: Option<Escrow>,
    pub escrow_lamports: u64,
    pub taker_ata_a: Option<TokenAccount>,
    pub taker_ata_b: TokenAccount,
    pub maker_ata_b: Option<TokenAccount>,
    pub vault: Option<TokenAccount>,
    pub vault_lamports: u64,
}

/// The bytes of an optional address.
pub open spec fn opt_view(a: Option<Address>) -> Option<Seq<u8>> {
    match a {
        Some(x) => Some(x@),
        None => None,
    }
}

/// The authority derived from the record's maker, seed and bump under the
/// program of `t`; `None` where there is no record or no such address.
pub open spec fn authority_of(t: Take) -> Option<Seq<u8>> {
    match t.escrow {
        Some(e) => escrow_authority(t.program_id@, e.maker@, e.seed, e.bump),
        None => None,
    }
}

/// A step that returned `r` took `pre` to `post` as `expected` says: to the
/// state it gives, or, on its error, to no change at all.
pub open spec fn outcome(
    r: Result<(), EscrowError>,
    pre: Take,
    post: Take,
    expected: Result<Take, EscrowError>,
) -> bool {
    match expected {
        Ok(t) => r is Ok && post == t,
        Err(e) => r == Err::<(), EscrowError>(e) && post == pre,
    }
}

/// The balance of an account, zero where it does not exist.
pub open spec fn balance(a: Option<TokenAccount>) -> int {
    match a {
        Some(x) => x.amount as int,
        None => 0,
    }
}

/// The existing account in `slot`, which must hold `mint` for `owner`, or a
/// new empty one.
pub open spec fn ensure_account_result(
    slot: Option<TokenAccount>,
    mint: Address,
    owner: Address,
) -> Result<TokenAccount, EscrowError> {
    match slot {
        Some(a) => if a.mint@ != mint@ {
            Err(EscrowError::AssetTypeMismatch)
        } else if a.owner@ != owner@ {
            Err(EscrowError::OwnerMismatch)
        } else {
            Ok(a)
        },
        None => Ok(TokenAccount { mint, owner, amount: 0 }),
    }
}

/// The account checks that precede the transfers, given the derived
/// authority `auth`, and the taker's asset-A and maker's asset-B accounts
/// created where they are missing.
pub open spec fn validate_result(t: Take, auth: Option<Seq<u8>>) -> Result<Take, EscrowError> {
    match (t.escrow, t.vault) {
        (Some(e), Some(v)) => if e.maker@ != t.maker@ || auth != Some(v.owner@) {
            Err(EscrowError::AuthorizationMismatch)
        } else if t.mint_a.key@ != e.mint_a@ || t.mint_b.key@ != e.mint_b@ || v.mint@ != e.mint_a@
            || t.taker_ata_b.mint@ != e.mint_b@ {
            Err(EscrowError::AssetTypeMismatch)
        } else if t.taker_ata_b.owner@ != t.taker@ {
            Err(EscrowError::OwnerMismatch)
        } else {
            match ensure_account_result(t.taker_ata_a, t.mint_a.key, t.taker) {
                Err(err) => Err(err),
                Ok(ta) => match ensure_account_result(t.maker_ata_b, t.mint_b.key, t.maker) {
                    Err(err) => Err(err),
                    Ok(mb) => Ok(Take { taker_ata_a: Some(ta), maker_ata_b: Some(mb), ..t }),
                },
            }
        },
        _ => Err(EscrowError::AccountNotFound),
    }
}

/// The payment: `receive` tokens of the record's asset B from the taker to
/// the record's maker, signed by the taker.
pub open spec fn maker_transfer_result(t: Take) -> Result<Take, EscrowError> {
    match (t.escrow, t.maker_ata_b) {
        (Some(e), Some(_)) if e.maker@ != t.maker@ => Err(EscrowError::AuthorizationMismatch),
        (Some(e), Some(_)) if t.mint_b.key@ != e.mint_b@ => Err(EscrowError::AssetTypeMismatch),
        (Some(e), Some(mb)) => match transfer_error(
            t.taker_ata_b,
            mb,
            t.mint_b,
            t.taker@,
            e.receive,
            t.mint_b.decimals,
        ) {
            Some(err) => Err(err),
            None => Ok(
                Take {
                    taker_ata_b: debited(t.taker_ata_b, e.receive),
                    maker_ata_b: Some(credited(mb, e.receive)),
                    ..t
                },
            ),
        },
        _ => Err(EscrowError::AccountNotFound),
    }
}

/// The release: the vault's whole balance of the record's asset A to the
/// taker, signed by the derived authority `auth`.
pub open spec fn vault_transfer_result(t: Take, auth: Option<Seq<u8>>) -> Result<Take, EscrowError> {
    match (t.escrow, t.vault, t.taker_ata_a) {
        (Some(e), Some(v), Some(ta)) => if e.maker@ != t.maker@ || auth != Some(v.owner@) {
            Err(EscrowError::AuthorizationMismatch)
        } else if t.mint_a.key@ != e.mint_a@ || v.mint@ != e.mint_a@ {
            Err(EscrowError::AssetTypeMismatch)
        } else {
            match transfer_error(v, ta, t.mint_a, v.owner@, v.amount, t.mint_a.decimals) {
                Some(err) => Err(err),
                None => Ok(
                    Take {
                        vault: Some(debited(v, v.amount)),
                        taker_ata_a: Some(credited(ta, v.amount)),
                        ..t
                    },
                ),
            }
        },
        _ => Err(EscrowError::AccountNotFound),
    }
}

/// The teardown: the empty vault is removed, signed by the derived authority
/// `auth`, and its deposit goes to the record's maker.
pub open spec fn close_vault_result(t: Take, auth: Option<Seq<u8>>) -> Result<Take, EscrowError> {
    match (t.escrow, t.vault) {
        (Some(e), Some(v)) => if e.maker@ != t.maker@ || auth != Some(v.owner@) {
            Err(EscrowError::AuthorizationMismatch)
        } else {
            match close_error(v, v.owner@, t.vault_lamports, t.maker_lamports) {
                Some(err) => Err(err),
                None => Ok(
                    Take {
                        vault: None,
                        vault_lamports: 0,
                        maker_lamports: (t.maker_lamports + t.vault_lamports) as u64,
                        ..t
                    },
                ),
            }
        },
        _ => Err(EscrowError::AccountNotFound),
    }
}

/// The escrow record is removed and its deposit goes to the maker.
pub open spec fn close_escrow_result(t: Take) -> Result<Take, EscrowError> {
    match t.escrow {
        Some(_) => if t.maker_lamports + t.escrow_lamports > u64::MAX {
            Err(EscrowError::Overflow)
        } else {
            Ok(
                Take {
                    escrow: None,
                    escrow_lamports: 0,
                    maker_lamports: (t.maker_lamports + t.escrow_lamports) as u64,
                    ..t
                },
            )
        },
        None => Err(EscrowError::AccountNotFound),
    }
}

/// The whole settlement under the derived authority `auth`: the checks, the
/// payment, the release, the teardown of the vault and of the record, in
/// that order; the first error ends it.
pub open spec fn settle_result(t: Take, auth: Option<Seq<u8>>) -> Result<Take, EscrowError> {
    match validate_result(t, auth) {
        Err(e) => Err(e),
        Ok(t1) => match maker_transfer_result(t1) {
            Err(e) => Err(e),
            Ok(t2) => match vault_transfer_result(t2, auth) {
                Err(e) => Err(e),
                Ok(t3) => match close_vault_result(t3, auth) {
                    Err(e) => Err(e),
                    Ok(t4) => close_escrow_result(t4),
                },
            },
        },
    }
}

/// The account in `slot` if it holds `mint` for `owner`, or a new empty one.
pub fn ensure_account(slot: Option<TokenAccount>, mint: &Address, owner: &Address) -> (r: Result<
    TokenAccount,
    EscrowError,
>)
    ensures
        r == ensure_account_result(slot, *mint, *owner),
{
    match slot {
        Some(a) => {
            if !same_address(&a.mint, mint) {
                Err(EscrowError::AssetTypeMismatch)
            } else if !same_address(&a.owner, owner) {
                Err(EscrowError::OwnerMismatch)
            } else {
                Ok(a)
            }
        },
        None => Ok(TokenAccount { mint: *mint, owner: *owner, amount: 0 }),
    }
}

impl Take {
    /// The derived authority of this escrow, computed from the record.
    fn derived_authority(&self) -> (r: Option<Address>)
        ensures
            opt_view(r) == authority_of(*self),
    {
        match self.escrow {
            Some(e) => derive_authority(&self.program_id, &e.maker, e.seed, e.bump),
            None => None,
        }
    }

    /// Checks the accounts against the record and the derived authority
    /// `authority`, and creates the taker's asset-A and the maker's asset-B
    /// accounts where they are missing.
    pub fn validate_accounts(&mut self, authority: Option<Address>) -> (r: Result<(), EscrowError>)
        ensures
            outcome(r, *old(self), *final(self), validate_result(*old(self), opt_view(authority))),
    {
        let e = match self.escrow {
            Some(e) => e,
            None => return Err(EscrowError::AccountNotFound),
        };
        let v = match self.vault {
            Some(v) => v,
            None => return Err(EscrowError::AccountNotFound),
        };
        if !same_address(&e.maker, &self.maker) {
            return Err(EscrowError::AuthorizationMismatch);
        }
        match authority {
            Some(a) => {
                if !same_address(&a, &v.owner) {
                    return Err(EscrowError::AuthorizationMismatch);
                }
            },
            None => return Err(EscrowError::AuthorizationMismatch),
        }
        if !same_address(&self.mint_a.key, &e.mint_a) || !same_address(&self.mint_b.key, &e.mint_b)
            || !same_address(&v.mint, &e.mint_a) || !same_address(&self.taker_ata_b.mint, &e.mint_b) {
            return Err(EscrowError::AssetTypeMismatch);
        }
        if !same_address(&self.taker_ata_b.owner, &self.taker) {
            return Err(EscrowError::OwnerMismatch);
        }
        let ta = match ensure_account(self.taker_ata_a, &self.mint_a.key, &self.taker) {
            Ok(a) => a,
            Err(err) => return Err(err),
        };
        let mb = match ensure_account(self.maker_ata_b, &self.mint_b.key, &self.maker) {
            Ok(a) => a,
            Err(err) => return Err(err),
        };
        self.taker_ata_a = Some(ta);
        self.maker_ata_b = Some(mb);
        Ok(())
    }

    /// The payment: moves `receive` tokens of asset B from the taker's account
    /// to the maker's, signed by the taker.
    pub fn maker_transfer(&mut self) -> (r: Result<(), EscrowError>)
        ensures
            outcome(r, *old(self), *final(self), maker_transfer_result(*old(self))),
    {
        let e = match self.escrow {
            Some(e) => e,
            None => return Err(EscrowError::AccountNotFound),
        };
        let mut mb = match self.maker_ata_b {
            Some(a) => a,
            None => return Err(EscrowError::AccountNotFound),
        };
        if !same_address(&e.maker, &self.maker) {
            return Err(EscrowError::AuthorizationMismatch);
        }
        if !same_address(&self.mint_b.key, &e.mint_b) {
            return Err(EscrowError::AssetTypeMismatch);
        }
        let receive = e.receive;
        let mut tb = self.taker_ata_b;
        let r = transfer_checked(&mut tb, &mut mb, &self.mint_b, &self.taker, receive, self.mint_b.decimals);
        if r.is_ok() {
            self.taker_ata_b = tb;
            self.maker_ata_b = Some(mb);
        }
        r
    }

    /// The release: moves the vault's whole current balance of asset A to
    /// the taker, signed by the authority derived from the record.
    pub fn vault_transfer(&mut self) -> (r: Result<(), EscrowError>)
        ensures
            outcome(r, *old(self), *final(self), vault_transfer_result(*old(self), authority_of(*old(self)))),
    {
        let authority = self.derived_authority();
        self.vault_transfer_as(authority)
    }

    /// The release, signed by `authority`.
    pub fn vault_transfer_as(&mut self, authority: Option<Address>) -> (r: Result<(), EscrowError>)
        ensures
            outcome(r, *old(self), *final(self), vault_transfer_result(*old(self), opt_view(authority))),
    {
        let e = match self.escrow {
            Some(e) => e,
            None => return Err(EscrowError::AccountNotFound),
        };
        let mut v = match self.vault {
            Some(v) => v,
            None => return Err(EscrowError::AccountNotFound),
        };
        let mut ta = match self.taker_ata_a {
            Some(a) => a,
            None => return Err(EscrowError::AccountNotFound),
        };
        let signer = match authority {
            Some(a) => a,
            None => return Err(EscrowError::AuthorizationMismatch),
        };
        if !same_address(&e.maker, &self.maker) || !same_address(&signer, &v.owner) {
            return Err(EscrowError::AuthorizationMismatch);
        }
        if !same_address(&self.mint_a.key, &e.mint_a) || !same_address(&v.mint, &e.mint_a) {
            return Err(EscrowError::AssetTypeMismatch);
        }
        let amount = v.amount;
        let r = transfer_checked(&mut v, &mut ta, &self.mint_a, &signer, amount, self.mint_a.decimals);
        if r.is_ok() {
            self.vault = Some(v);
            self.taker_ata_a = Some(ta);
        }
        r
    }

    /// The teardown: removes the empty vault, signed by the authority derived
    /// from the record, and credits its deposit to the maker.
    pub fn close_vault(&mut self) -> (r: Result<(), EscrowError>)
        ensures
            outcome(r, *old(self), *final(self), close_vault_result(*old(self), authority_of(*old(self)))),
    {
        let authority = self.derived_authority();
        self.close_vault_as(authority)
    }

    /// The teardown, signed by `authority`.
    pub fn close_vault_as(&mut self, authority: Option<Address>) -> (r: Result<(), EscrowError>)
        ensures
            outcome(r, *old(self), *final(self), close_vault_result(*old(self), opt_view(authority))),
    {
        let e = match self.escrow {
            Some(e) => e,
            None => return Err(EscrowError::AccountNotFound),
        };
        let v = match self.vault {
            Some(v) => v,
            None => return Err(EscrowError::AccountNotFound),
        };
        let signer = match authority {
            Some(a) => a,
            None => return Err(EscrowError::AuthorizationMismatch),
        };
        if !same_address(&e.maker, &self.maker) || !same_address(&signer, &v.owner) {
            return Err(EscrowError::AuthorizationMismatch);
        }
        let mut lamports = self.maker_lamports;
        let r = close_account(&v, self.vault_lamports, &signer, &mut lamports);
        if r.is_ok() {
            self.maker_lamports = lamports;
            self.vault = None;
            self.vault_lamports = 0;
        }
        r
    }

    /// Removes the escrow record and credits its deposit to the maker.
    pub fn close_escrow(&mut self) -> (r: Result<(), EscrowError>)
        ensures
            outcome(r, *old(self), *final(self), close_escrow_result(*old(self))),
    {
        if self.escrow.is_none() {
            return Err(EscrowError::AccountNotFound);
        }
        if self.maker_lamports > u64::MAX - self.escrow_lamports {
            return Err(EscrowError::Overflow);
        }
        self.maker_lamports = self.maker_lamports + self.escrow_lamports;
        self.escrow = None;
        self.escrow_lamports = 0;
        Ok(())
    }

    /// Runs every step of the settlement in order and stops at the first
    /// error, leaving what the earlier steps did.
    fn run_steps(&mut self, authority: Option<Address>) -> (r: Result<(), EscrowError>)
        ensures
            match settle_result(*old(self), opt_view(authority)) {
                Ok(t) => r is Ok && *final(self) == t,
                Err(e) => r == Err::<(), EscrowError>(e),
            },
    {
        let r = self.validate_accounts(authority);
        if r.is_err() {
            return r;
        }
        let r = self.maker_transfer();
        if r.is_err() {
            return r;
        }
        let r = self.vault_transfer_as(authority);
        if r.is_err() {
            return r;
        }
        let r = self.close_vault_as(authority);
        if r.is_err() {
            return r;
        }
        self.close_escrow()
    }

    /// Settles the escrow with `authority` as the derived signer: all of the
    /// settlement's effects, or, on an error, none.
    pub fn settle_with(&mut self, authority: Option<Address>) -> (r: Result<(), EscrowError>)
        ensures
            outcome(r, *old(self), *final(self), settle_result(*old(self), opt_view(authority))),
    {
        let mut next = *self;
        match next.run_steps(authority) {
            Ok(()) => {
                *self = next;
                Ok(())
            },
            Err(e) => Err(e),
        }
    }

    /// Settles the escrow, signing for the vault with the authority derived
    /// from the record: all of the settlement's effects, or, on an error,
    /// none.
    pub fn settle(&mut self) -> (r: Result<(), EscrowError>)
        ensures
            outcome(r, *old(self), *final(self), settle_result(*old(self), authority_of(*old(self)))),
    {
        let authority = self.derived_authority();
        self.settle_with(authority)
    }
}

} // verus!
