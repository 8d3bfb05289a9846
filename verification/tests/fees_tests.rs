use coin_flip::errors::ErrorCode;
use coin_flip::fees::calc_fee;
use coin_flip::token::{transfer_tokens, TokenAccount};
use coin_flip::keys::Pubkey;
use coin_flip::utils::{create_or_allocate_account_raw, create_program_token_account_if_not_present};

fn key(byte: u8) -> Pubkey {
    Pubkey { bytes: [byte; 32] }
}

fn account(balance: u64) -> TokenAccount {
    TokenAccount { address: key(1), owner: key(2), mint: key(3), amount: balance }
}

#[test]
fn fee_is_the_floored_percentage() {
    assert_eq!(calc_fee(100, 5), 5);
    assert_eq!(calc_fee(100, 0), 0);
    assert_eq!(calc_fee(100, 100), 100);
    assert_eq!(calc_fee(99, 5), 4); // floor(4.95)
    assert_eq!(calc_fee(1, 99), 0);
    assert_eq!(calc_fee(u64::MAX, 100), u64::MAX);
    assert_eq!(calc_fee(u64::MAX, 50), u64::MAX / 2);
}

#[test]
fn transfers_move_exact_amounts_or_nothing() {
    let mut from = account(100);
    let mut to = account(7);
    transfer_tokens(&mut from, &mut to, 40).expect("transfer");
    assert_eq!(from.amount, 60);
    assert_eq!(to.amount, 47);

    assert!(matches!(
        transfer_tokens(&mut from, &mut to, 61),
        Err(ErrorCode::InsufficientFunds)
    ));
    assert_eq!(from.amount, 60);
    assert_eq!(to.amount, 47);

    let mut rich = account(u64::MAX);
    let mut small = account(10);
    assert!(matches!(
        transfer_tokens(&mut small, &mut rich, 1),
        Err(ErrorCode::NumericalOverflow)
    ));
    assert_eq!(rich.amount, u64::MAX);
    assert_eq!(small.amount, 10);
}

#[test]
fn reserve_funding_tops_up_to_the_minimum() {
    let mut account_lamports: u64 = 300;
    let mut payer: u64 = 10_000;
    create_or_allocate_account_raw(1_000, &mut account_lamports, &mut payer).expect("fund");
    assert_eq!(account_lamports, 1_000);
    assert_eq!(payer, 9_300);

    // Already at the minimum: nothing moves.
    create_or_allocate_account_raw(1_000, &mut account_lamports, &mut payer).expect("no-op");
    assert_eq!(account_lamports, 1_000);
    assert_eq!(payer, 9_300);

    // A zero rent minimum still demands one unit of reserve.
    let mut empty: u64 = 0;
    create_or_allocate_account_raw(0, &mut empty, &mut payer).expect("minimum one");
    assert_eq!(empty, 1);
    assert_eq!(payer, 9_299);

    let mut fresh: u64 = 0;
    let mut broke: u64 = 5;
    assert!(matches!(
        create_or_allocate_account_raw(1_000, &mut fresh, &mut broke),
        Err(ErrorCode::InsufficientFunds)
    ));
    assert_eq!(fresh, 0);
    assert_eq!(broke, 5);
}

#[test]
fn provisioning_skips_native_and_existing_records() {
    let mut record = None;
    let mut record_lamports: u64 = 0;
    let mut payer: u64 = 10_000;

    // Native asset: nothing to create.
    create_program_token_account_if_not_present(
        &mut record,
        &key(9),
        &mut record_lamports,
        &mut payer,
        &key(4),
        &key(5),
        1_000,
        true,
    )
    .expect("native no-op");
    assert_eq!(record, None);
    assert_eq!(payer, 10_000);

    // Non-native and absent: created empty with the given owner.
    create_program_token_account_if_not_present(
        &mut record,
        &key(9),
        &mut record_lamports,
        &mut payer,
        &key(4),
        &key(5),
        1_000,
        false,
    )
    .expect("provision");
    let created = record.expect("record exists");
    assert_eq!(created.address, key(9));
    assert_eq!(created.mint, key(4));
    assert_eq!(created.owner, key(5));
    assert_eq!(created.amount, 0);
    assert_eq!(record_lamports, 1_000);
    assert_eq!(payer, 9_000);

    // Present: a duplicate invocation never double-charges.
    create_program_token_account_if_not_present(
        &mut record,
        &key(9),
        &mut record_lamports,
        &mut payer,
        &key(4),
        &key(5),
        1_000,
        false,
    )
    .expect("idempotent");
    assert_eq!(record, Some(created));
    assert_eq!(payer, 9_000);
}
