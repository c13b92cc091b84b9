use anchor_lang::prelude::Pubkey;
use escrow_take::address::{derive_authority, same_address, seed_le_bytes, signer_seeds, Address};
use escrow_take::error::EscrowError;
use escrow_take::ledger::{close_account, transfer_checked, Mint, TokenAccount};
use escrow_take::take::{ensure_account, Escrow, Take};

const PROGRAM: Address = [7u8; 32];
const MAKER: Address = [1u8; 32];
const TAKER: Address = [2u8; 32];
const MINT_A: Address = [10u8; 32];
const MINT_B: Address = [11u8; 32];

fn canonical(maker: &Address, seed: u64) -> (Address, u8) {
    let mut bump: u8 = 255;
    loop {
        if let Some(a) = derive_authority(&PROGRAM, maker, seed, bump) {
            return (a, bump);
        }
        bump -= 1;
    }
}

fn open_trade(seed: u64, offered: u64, receive: u64, taker_b: u64) -> Take {
    let (authority, bump) = canonical(&MAKER, seed);
    Take {
        program_id: PROGRAM,
        taker: TAKER,
        maker: MAKER,
        maker_lamports: 5_000,
        mint_a: Mint { key: MINT_A, decimals: 6 },
        mint_b: Mint { key: MINT_B, decimals: 9 },
        escrow: Some(Escrow { seed, maker: MAKER, mint_a: MINT_A, mint_b: MINT_B, receive, bump }),
        escrow_lamports: 300,
        taker_ata_a: None,
        taker_ata_b: TokenAccount { mint: MINT_B, owner: TAKER, amount: taker_b },
        maker_ata_b: None,
        vault: Some(TokenAccount { mint: MINT_A, owner: authority, amount: offered }),
        vault_lamports: 200,
    }
}

#[test]
fn derived_authority_matches_program_address() {
    let (authority, bump) = canonical(&MAKER, 42);
    let (pda, expected_bump) = Pubkey::find_program_address(
        &[b"escrow", &MAKER, &42u64.to_le_bytes()],
        &Pubkey::new_from_array(PROGRAM),
    );
    assert_eq!(bump, expected_bump);
    assert_eq!(authority, pda.to_bytes());
    assert_ne!(authority, MAKER);
    assert_ne!(authority, PROGRAM);
}

#[test]
fn derived_authority_depends_on_seed() {
    let (a, _) = canonical(&MAKER, 42);
    let (b, _) = canonical(&MAKER, 43);
    assert_ne!(a, b);
}

#[test]
fn seed_bytes_are_little_endian() {
    assert_eq!(seed_le_bytes(42), vec![42, 0, 0, 0, 0, 0, 0, 0]);
    assert_eq!(seed_le_bytes(0x0102_0304_0506_0708), vec![8, 7, 6, 5, 4, 3, 2, 1]);
    assert_eq!(seed_le_bytes(u64::MAX), vec![255; 8]);
}

#[test]
fn signer_seeds_layout() {
    let seeds = signer_seeds(&MAKER, 42, 254);
    assert_eq!(seeds.len(), 4);
    assert_eq!(seeds[0], b"escrow".to_vec());
    assert_eq!(seeds[1], MAKER.to_vec());
    assert_eq!(seeds[2], 42u64.to_le_bytes().to_vec());
    assert_eq!(seeds[3], vec![254]);
}

#[test]
fn addresses_compare_bytewise() {
    let mut b = MAKER;
    assert!(same_address(&MAKER, &b));
    b[31] = 0;
    assert!(!same_address(&MAKER, &b));
}

#[test]
fn settle_swaps_both_legs() {
    let mut t = open_trade(42, 1_000, 500, 500);
    assert_eq!(t.settle(), Ok(()));
    assert_eq!(t.taker_ata_a, Some(TokenAccount { mint: MINT_A, owner: TAKER, amount: 1_000 }));
    assert_eq!(t.taker_ata_b.amount, 0);
    assert_eq!(t.maker_ata_b, Some(TokenAccount { mint: MINT_B, owner: MAKER, amount: 500 }));
    assert_eq!(t.vault, None);
    assert_eq!(t.escrow, None);
    assert_eq!(t.maker_lamports, 5_500);
    assert_eq!(t.vault_lamports, 0);
    assert_eq!(t.escrow_lamports, 0);
}

#[test]
fn settle_insufficient_funds_changes_nothing() {
    let mut t = open_trade(42, 1_000, 500, 400);
    let before = t;
    assert_eq!(t.settle(), Err(EscrowError::InsufficientBalance));
    assert_eq!(t, before);
}

#[test]
fn settle_twice_fails() {
    let mut t = open_trade(42, 1_000, 500, 500);
    assert_eq!(t.settle(), Ok(()));
    let after = t;
    assert_eq!(t.settle(), Err(EscrowError::AccountNotFound));
    assert_eq!(t, after);
}

#[test]
fn settle_rejects_foreign_vault_authority() {
    let mut t = open_trade(42, 1_000, 500, 500);
    t.vault = Some(TokenAccount { mint: MINT_A, owner: MAKER, amount: 1_000 });
    let before = t;
    assert_eq!(t.settle(), Err(EscrowError::AuthorizationMismatch));
    assert_eq!(t, before);
}

#[test]
fn settle_rejects_wrong_bump_or_seed() {
    let mut t = open_trade(42, 1_000, 500, 500);
    if let Some(e) = t.escrow.as_mut() {
        e.seed = 43;
    }
    assert_eq!(t.settle(), Err(EscrowError::AuthorizationMismatch));
}

#[test]
fn settle_rejects_other_maker() {
    let mut t = open_trade(42, 1_000, 500, 500);
    t.maker = [3u8; 32];
    assert_eq!(t.settle(), Err(EscrowError::AuthorizationMismatch));
}

#[test]
fn settle_rejects_wrong_mint() {
    let mut t = open_trade(42, 1_000, 500, 500);
    t.taker_ata_b.mint = MINT_A;
    let before = t;
    assert_eq!(t.settle(), Err(EscrowError::AssetTypeMismatch));
    assert_eq!(t, before);
}

#[test]
fn settle_rejects_foreign_taker_account() {
    let mut t = open_trade(42, 1_000, 500, 500);
    t.taker_ata_b.owner = MAKER;
    assert_eq!(t.settle(), Err(EscrowError::OwnerMismatch));
}

#[test]
fn settle_rejects_existing_account_of_wrong_mint() {
    let mut t = open_trade(42, 1_000, 500, 500);
    t.maker_ata_b = Some(TokenAccount { mint: MINT_A, owner: MAKER, amount: 0 });
    assert_eq!(t.settle(), Err(EscrowError::AssetTypeMismatch));
}

#[test]
fn settle_keeps_existing_balances() {
    let mut t = open_trade(42, 1_000, 500, 800);
    t.taker_ata_a = Some(TokenAccount { mint: MINT_A, owner: TAKER, amount: 7 });
    t.maker_ata_b = Some(TokenAccount { mint: MINT_B, owner: MAKER, amount: 20 });
    assert_eq!(t.settle(), Ok(()));
    assert_eq!(t.taker_ata_a.unwrap().amount, 1_007);
    assert_eq!(t.taker_ata_b.amount, 300);
    assert_eq!(t.maker_ata_b.unwrap().amount, 520);
}

#[test]
fn settle_releases_live_vault_balance() {
    let mut t = open_trade(42, 1_000, 500, 500);
    if let Some(v) = t.vault.as_mut() {
        v.amount = 1_250;
    }
    assert_eq!(t.settle(), Ok(()));
    assert_eq!(t.taker_ata_a.unwrap().amount, 1_250);
}

#[test]
fn settle_overflowing_maker_balance_fails() {
    let mut t = open_trade(42, 1_000, 500, 500);
    t.maker_ata_b = Some(TokenAccount { mint: MINT_B, owner: MAKER, amount: u64::MAX });
    let before = t;
    assert_eq!(t.settle(), Err(EscrowError::Overflow));
    assert_eq!(t, before);
}

#[test]
fn settle_with_given_authority() {
    let (authority, _) = canonical(&MAKER, 42);
    let mut t = open_trade(42, 1_000, 500, 500);
    let before = t;
    assert_eq!(t.settle_with(None), Err(EscrowError::AuthorizationMismatch));
    assert_eq!(t.settle_with(Some(MAKER)), Err(EscrowError::AuthorizationMismatch));
    assert_eq!(t, before);
    assert_eq!(t.settle_with(Some(authority)), Ok(()));
    assert_eq!(t.vault, None);
}

#[test]
fn steps_one_by_one() {
    let mut t = open_trade(42, 1_000, 500, 500);
    assert_eq!(t.maker_transfer(), Err(EscrowError::AccountNotFound));
    let (authority, _) = canonical(&MAKER, 42);
    assert_eq!(t.validate_accounts(Some(authority)), Ok(()));
    assert_eq!(t.close_vault(), Err(EscrowError::NonEmptyAccountOnClose));
    assert_eq!(t.maker_transfer(), Ok(()));
    assert_eq!(t.maker_ata_b.unwrap().amount, 500);
    assert_eq!(t.vault_transfer(), Ok(()));
    assert_eq!(t.vault.unwrap().amount, 0);
    assert_eq!(t.taker_ata_a.unwrap().amount, 1_000);
    assert_eq!(t.close_vault(), Ok(()));
    assert_eq!(t.vault, None);
    assert_eq!(t.maker_lamports, 5_200);
    assert_eq!(t.vault_transfer(), Err(EscrowError::AccountNotFound));
    assert_eq!(t.close_escrow(), Ok(()));
    assert_eq!(t.maker_lamports, 5_500);
    assert_eq!(t.close_escrow(), Err(EscrowError::AccountNotFound));
}

#[test]
fn vault_transfer_as_rejects_other_signer() {
    let mut t = open_trade(42, 1_000, 500, 500);
    t.taker_ata_a = Some(TokenAccount { mint: MINT_A, owner: TAKER, amount: 0 });
    assert_eq!(t.vault_transfer_as(Some(TAKER)), Err(EscrowError::AuthorizationMismatch));
    assert_eq!(t.close_vault_as(Some(TAKER)), Err(EscrowError::AuthorizationMismatch));
}

#[test]
fn transfer_checked_errors() {
    let mint = Mint { key: MINT_B, decimals: 9 };
    let mut from = TokenAccount { mint: MINT_B, owner: TAKER, amount: 10 };
    let mut to = TokenAccount { mint: MINT_B, owner: MAKER, amount: 5 };
    assert_eq!(transfer_checked(&mut from, &mut to, &mint, &TAKER, 4, 6), Err(EscrowError::DecimalsMismatch));
    assert_eq!(transfer_checked(&mut from, &mut to, &mint, &MAKER, 4, 9), Err(EscrowError::OwnerMismatch));
    assert_eq!(transfer_checked(&mut from, &mut to, &mint, &TAKER, 11, 9), Err(EscrowError::InsufficientBalance));
    let other = Mint { key: MINT_A, decimals: 9 };
    assert_eq!(transfer_checked(&mut from, &mut to, &other, &TAKER, 4, 9), Err(EscrowError::AssetTypeMismatch));
    assert_eq!((from.amount, to.amount), (10, 5));
    assert_eq!(transfer_checked(&mut from, &mut to, &mint, &TAKER, 10, 9), Ok(()));
    assert_eq!((from.amount, to.amount), (0, 15));
}

#[test]
fn close_account_errors() {
    let full = TokenAccount { mint: MINT_A, owner: TAKER, amount: 1 };
    let empty = TokenAccount { mint: MINT_A, owner: TAKER, amount: 0 };
    let mut dest: u64 = 100;
    assert_eq!(close_account(&full, 50, &TAKER, &mut dest), Err(EscrowError::NonEmptyAccountOnClose));
    assert_eq!(close_account(&empty, 50, &MAKER, &mut dest), Err(EscrowError::OwnerMismatch));
    let mut high = u64::MAX;
    assert_eq!(close_account(&empty, 50, &TAKER, &mut high), Err(EscrowError::Overflow));
    assert_eq!(dest, 100);
    assert_eq!(close_account(&empty, 50, &TAKER, &mut dest), Ok(()));
    assert_eq!(dest, 150);
}

#[test]
fn ensure_account_creates_or_checks() {
    assert_eq!(ensure_account(None, &MINT_A, &TAKER), Ok(TokenAccount { mint: MINT_A, owner: TAKER, amount: 0 }));
    let held = TokenAccount { mint: MINT_A, owner: TAKER, amount: 9 };
    assert_eq!(ensure_account(Some(held), &MINT_A, &TAKER), Ok(held));
    assert_eq!(ensure_account(Some(held), &MINT_B, &TAKER), Err(EscrowError::AssetTypeMismatch));
    assert_eq!(ensure_account(Some(held), &MINT_A, &MAKER), Err(EscrowError::OwnerMismatch));
}

#[test]
fn payment_step_checks_recorded_asset_b() {
    let other: Address = [12u8; 32];
    let mut t = open_trade(42, 1_000, 500, 500);
    t.mint_b = Mint { key: other, decimals: 9 };
    t.taker_ata_b.mint = other;
    t.maker_ata_b = Some(TokenAccount { mint: other, owner: MAKER, amount: 0 });
    let before = t;
    assert_eq!(t.maker_transfer(), Err(EscrowError::AssetTypeMismatch));
    assert_eq!(t, before);
}

#[test]
fn release_step_checks_recorded_asset_a() {
    let other: Address = [12u8; 32];
    let mut t = open_trade(42, 1_000, 500, 500);
    t.mint_a = Mint { key: other, decimals: 6 };
    t.taker_ata_a = Some(TokenAccount { mint: other, owner: TAKER, amount: 0 });
    if let Some(v) = t.vault.as_mut() {
        v.mint = other;
    }
    let before = t;
    assert_eq!(t.vault_transfer(), Err(EscrowError::AssetTypeMismatch));
    assert_eq!(t, before);
}

#[test]
fn steps_check_recorded_maker() {
    let mut t = open_trade(42, 1_000, 500, 500);
    t.maker = [3u8; 32];
    t.taker_ata_a = Some(TokenAccount { mint: MINT_A, owner: TAKER, amount: 0 });
    t.maker_ata_b = Some(TokenAccount { mint: MINT_B, owner: [3u8; 32], amount: 0 });
    if let Some(v) = t.vault.as_mut() {
        v.amount = 0;
    }
    let before = t;
    assert_eq!(t.maker_transfer(), Err(EscrowError::AuthorizationMismatch));
    assert_eq!(t.vault_transfer(), Err(EscrowError::AuthorizationMismatch));
    assert_eq!(t.close_vault(), Err(EscrowError::AuthorizationMismatch));
    assert_eq!(t, before);
}
