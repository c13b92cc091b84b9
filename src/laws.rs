//! What every settlement guarantees, stated over the model of `take`.
use vstd::prelude::*;
use crate::error::EscrowError;
use crate::take::{
    Take, balance, outcome, settle_result, maker_transfer_result, vault_transfer_result,
    close_vault_result,
};

verus! {

/// A settlement either shows all of its effects afterwards (the taker paid,
/// the vault emptied into the taker's account and closed, the record closed)
/// or none of them: the state after a failed attempt is the state before it.
pub proof fn settle_all_or_nothing(
    pre: Take,
    post: Take,
    r: Result<(), EscrowError>,
    auth: Option<Seq<u8>>,
)
    requires
        outcome(r, pre, post, settle_result(pre, auth)),
    ensures
        r is Err ==> post == pre,
        r is Ok ==> {
            &&& pre.escrow is Some && pre.vault is Some
            &&& post.taker_ata_b.amount == pre.taker_ata_b.amount - pre.escrow->Some_0.receive
            &&& balance(post.taker_ata_a) == balance(pre.taker_ata_a) + pre.vault->Some_0.amount
            &&& post.vault is None
            &&& post.escrow is None
        },
{
}

/// Conservation: the taker's asset-B balance falls and the maker's rises by
/// exactly `receive`; the taker's asset-A balance rises by exactly the
/// vault's balance before settlement; the vault and the record are gone, and
/// both deposits went to the maker.
pub proof fn settle_conserves(t: Take, auth: Option<Seq<u8>>)
    requires
        settle_result(t, auth) is Ok,
    ensures
        t.escrow is Some && t.vault is Some,
        ({
            let post = settle_result(t, auth)->Ok_0;
            let e = t.escrow->Some_0;
            let v = t.vault->Some_0;
            &&& post.taker_ata_b.amount == t.taker_ata_b.amount - e.receive
            &&& balance(post.maker_ata_b) == balance(t.maker_ata_b) + e.receive
            &&& balance(post.taker_ata_a) == balance(t.taker_ata_a) + v.amount
            &&& post.vault is None
            &&& post.escrow is None
            &&& post.maker_lamports == t.maker_lamports + t.vault_lamports + t.escrow_lamports
        }),
{
}

/// A vault whose recorded authority is not the signer derived from the
/// record's maker, seed and bump is never released: settlement fails with
/// `AuthorizationMismatch`.
pub proof fn settle_requires_derived_authority(t: Take, auth: Option<Seq<u8>>)
    requires
        t.escrow is Some,
        t.vault is Some,
        auth != Some(t.vault->Some_0.owner@),
    ensures
        settle_result(t, auth) == Err::<Take, EscrowError>(EscrowError::AuthorizationMismatch),
{
}

/// A settled escrow cannot be settled again: the record and the vault no
/// longer resolve, whatever signer a second attempt brings.
pub proof fn settle_is_destructive(t: Take, auth: Option<Seq<u8>>, again: Option<Seq<u8>>)
    requires
        settle_result(t, auth) is Ok,
    ensures
        settle_result(settle_result(t, auth)->Ok_0, again) == Err::<Take, EscrowError>(
            EscrowError::AccountNotFound,
        ),
{
}

/// The payment step on its own: where the accounts hold the record's asset
/// B for the right parties, the taker holds at least `receive`, and the
/// maker's new balance fits in a `u64`, it succeeds and moves exactly
/// `receive` from the taker to the maker.
pub proof fn payment_moves_receive(t: Take)
    requires
        t.escrow is Some,
        t.maker_ata_b is Some,
        t.escrow->Some_0.maker@ == t.maker@,
        t.mint_b.key@ == t.escrow->Some_0.mint_b@,
        t.taker_ata_b.mint@ == t.mint_b.key@,
        t.maker_ata_b->Some_0.mint@ == t.mint_b.key@,
        t.taker_ata_b.owner@ == t.taker@,
        t.taker_ata_b.amount >= t.escrow->Some_0.receive,
        t.maker_ata_b->Some_0.amount + t.escrow->Some_0.receive <= u64::MAX,
    ensures
        maker_transfer_result(t) matches Ok(post) && {
            &&& post.taker_ata_b.amount == t.taker_ata_b.amount - t.escrow->Some_0.receive
            &&& balance(post.maker_ata_b) == balance(t.maker_ata_b) + t.escrow->Some_0.receive
        },
{
}

/// The release step on its own: where the vault and the taker's account
/// hold the record's asset A, `auth` is the vault's authority, and the
/// taker's new balance fits in a `u64`, it succeeds, empties the vault and
/// adds its whole balance to the taker's.
pub proof fn release_sweeps_vault(t: Take, auth: Option<Seq<u8>>)
    requires
        t.escrow is Some,
        t.vault is Some,
        t.taker_ata_a is Some,
        t.escrow->Some_0.maker@ == t.maker@,
        auth == Some(t.vault->Some_0.owner@),
        t.mint_a.key@ == t.escrow->Some_0.mint_a@,
        t.vault->Some_0.mint@ == t.mint_a.key@,
        t.taker_ata_a->Some_0.mint@ == t.mint_a.key@,
        t.taker_ata_a->Some_0.amount + t.vault->Some_0.amount <= u64::MAX,
    ensures
        vault_transfer_result(t, auth) matches Ok(post) && {
            &&& post.vault is Some && post.vault->Some_0.amount == 0
            &&& balance(post.taker_ata_a) == balance(t.taker_ata_a) + t.vault->Some_0.amount
        },
{
}

/// The teardown step on its own: an empty vault signed for by its authority
/// is removed, and the maker receives its deposit, where the sum fits in a
/// `u64`.
pub proof fn teardown_removes_empty_vault(t: Take, auth: Option<Seq<u8>>)
    requires
        t.escrow is Some,
        t.vault is Some,
        t.escrow->Some_0.maker@ == t.maker@,
        auth == Some(t.vault->Some_0.owner@),
        t.vault->Some_0.amount == 0,
        t.maker_lamports + t.vault_lamports <= u64::MAX,
    ensures
        close_vault_result(t, auth) matches Ok(post) && {
            &&& post.vault is None
            &&& post.maker_lamports == t.maker_lamports + t.vault_lamports
        },
{
}

} // verus!
