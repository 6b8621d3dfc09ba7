use anchor_lang::prelude::Pubkey;
use streaming::key::Key;
use streaming::schedule::{is_valid_schedule, vested_amount};
use streaming::stream::{
    available_for_withdrawal, create_stream, withdraw, CreateStream, ErrorCode, StreamError,
    Streaming, TokenAccount, Withdraw,
};

const T: i64 = 1_700_000_000;

fn key(b: u8) -> Key {
    Key::new([b; 32])
}

fn program() -> Key {
    key(200)
}

/// The escrow address and the nonce whose derived address exists.
fn escrow_and_nonce() -> (Key, u8, Key) {
    let escrow = key(7);
    let program_id = Pubkey::new_from_array(program().bytes);
    let (authority, nonce) = Pubkey::find_program_address(&[&escrow.bytes], &program_id);
    let _ = authority;
    let derived =
        Pubkey::create_program_address(&[&escrow.bytes, &[nonce]], &program_id).unwrap();
    (escrow, nonce, Key::new(derived.to_bytes()))
}

fn create_ctx(owner: Key, now: i64, signed: bool) -> CreateStream {
    let (escrow, _, _) = escrow_and_nonce();
    CreateStream {
        streaming: escrow,
        vault: TokenAccount { key: key(3), mint: key(4), owner },
        depositor: key(5),
        depositor_authority: key(6),
        depositor_authority_is_signer: signed,
        program_id: program(),
        now,
    }
}

fn new_stream(deposit: u64, start: i64, end: i64) -> (Streaming, Key, u8, Key) {
    let (escrow, nonce, authority) = escrow_and_nonce();
    let ctx = create_ctx(authority, start - 100, true);
    let (s, _) = create_stream(&ctx, key(9), deposit, start, end, nonce).unwrap();
    (s, escrow, nonce, authority)
}

fn withdraw_ctx(s: Streaming, escrow: Key, authority: Key, now: i64) -> Withdraw {
    Withdraw {
        streaming: s,
        streaming_key: escrow,
        beneficiary: s.beneficiary,
        beneficiary_is_signer: true,
        vault: s.vault,
        vault_authority: authority,
        receiver_vault: key(11),
        program_id: program(),
        now,
    }
}

#[test]
fn schedule_accepts_only_ordered_and_late_enough() {
    assert!(is_valid_schedule(T + 60, T + 61, T));
    assert!(!is_valid_schedule(T + 59, T + 1000, T));
    assert!(!is_valid_schedule(T + 100, T + 100, T));
    assert!(!is_valid_schedule(T + 200, T + 100, T));
    assert!(is_valid_schedule(i64::MAX - 1, i64::MAX, i64::MIN));
    assert!(!is_valid_schedule(i64::MIN, i64::MIN + 1, i64::MAX));
}

#[test]
fn vesting_scenario_linear() {
    assert_eq!(vested_amount(1_000_000, T, T + 1000, T + 500), 500_000);
    assert_eq!(vested_amount(1_000_000, T, T + 1000, T - 1), 0);
    assert_eq!(vested_amount(1_000_000, T, T + 1000, T + 1000), 1_000_000);
    assert_eq!(vested_amount(1_000_000, T, T + 1000, T + 5000), 1_000_000);
}

#[test]
fn vesting_rounds_down_and_never_decreases() {
    assert_eq!(vested_amount(10, 0, 3, 1), 3);
    assert_eq!(vested_amount(u64::MAX, i64::MIN, i64::MAX, 0), 1u64 << 63);
    let mut last = 0;
    for now in (T - 10)..(T + 1010) {
        let v = vested_amount(777_777, T, T + 1000, now);
        assert!(v >= last);
        last = v;
    }
    assert_eq!(last, 777_777);
}

#[test]
fn create_stream_records_escrow_and_deposit_transfer() {
    let (escrow, nonce, authority) = escrow_and_nonce();
    let ctx = create_ctx(authority, T - 60, true);
    let (s, t) = create_stream(&ctx, key(9), 1_000, T, T + 1000, nonce).unwrap();
    assert_eq!(s.beneficiary.bytes, [9; 32]);
    assert_eq!(s.grantor.bytes, [6; 32]);
    assert_eq!(s.mint.bytes, [4; 32]);
    assert_eq!(s.vault.bytes, [3; 32]);
    assert_eq!(s.original_deposit_size, 1_000);
    assert_eq!(s.outstanding, 1_000);
    assert_eq!(s.created_ts, T - 60);
    assert_eq!((s.start_ts, s.end_ts, s.nonce), (T, T + 1000, nonce));
    assert_eq!(t.from.bytes, [5; 32]);
    assert_eq!(t.to.bytes, [3; 32]);
    assert_eq!(t.authority.bytes, [6; 32]);
    assert_eq!(t.amount, 1_000);
    assert!(t.signer_seeds.is_none());
    let _ = escrow;
}

#[test]
fn create_stream_rejects_zero_deposit() {
    let (_, nonce, authority) = escrow_and_nonce();
    let ctx = create_ctx(authority, T - 100, true);
    let r = create_stream(&ctx, key(9), 0, T, T + 1000, nonce);
    assert_eq!(r.unwrap_err(), StreamError::Program(ErrorCode::InvalidDepositAmount));
    let r = create_stream(&ctx, key(9), 0, T + 1000, T, nonce);
    assert_eq!(r.unwrap_err(), StreamError::Program(ErrorCode::InvalidDepositAmount));
}

#[test]
fn create_stream_rejects_foreign_vault() {
    let (escrow, nonce, _) = escrow_and_nonce();
    let ctx = create_ctx(key(8), T - 100, true);
    let r = create_stream(&ctx, key(9), 1_000, T, T + 1000, nonce);
    assert_eq!(r.unwrap_err(), StreamError::Program(ErrorCode::InvalidVaultAuthority));
    // The escrow's own address is not its vault authority.
    let ctx = create_ctx(escrow, T - 100, true);
    let r = create_stream(&ctx, key(9), 0, T, T + 1000, nonce);
    assert_eq!(r.unwrap_err(), StreamError::Program(ErrorCode::InvalidVaultAuthority));
}

#[test]
fn create_stream_rejects_bad_schedule_and_missing_signature() {
    let (_, nonce, authority) = escrow_and_nonce();
    let ctx = create_ctx(authority, T - 59, true);
    let r = create_stream(&ctx, key(9), 1_000, T, T + 1000, nonce);
    assert_eq!(r.unwrap_err(), StreamError::Program(ErrorCode::InvalidSchedule));
    let ctx = create_ctx(authority, T - 100, true);
    let r = create_stream(&ctx, key(9), 1_000, T, T, nonce);
    assert_eq!(r.unwrap_err(), StreamError::Program(ErrorCode::InvalidSchedule));
    let ctx = create_ctx(authority, T - 100, false);
    let r = create_stream(&ctx, key(9), 1_000, T, T + 1000, nonce);
    assert_eq!(r.unwrap_err(), StreamError::ConstraintSigner);
}

#[test]
fn vault_owner_check_uses_derived_address() {
    let (_, nonce, authority) = escrow_and_nonce();
    assert_eq!(create_ctx(authority, T, true).valid_vault_owner(nonce), Ok(()));
    assert_eq!(
        create_ctx(authority, T, true).valid_vault_owner(nonce.wrapping_add(1)),
        Err(StreamError::Program(ErrorCode::InvalidVaultAuthority))
    );
}

#[test]
fn withdraw_pays_vested_part_and_tracks_outstanding() {
    let (s, escrow, nonce, authority) = new_stream(1_000_000, T, T + 1000);
    let mut ctx = withdraw_ctx(s, escrow, authority, T + 500);
    assert_eq!(available_for_withdrawal(&ctx), 500_000);
    let t = withdraw(&mut ctx, 200_000).unwrap();
    assert_eq!(t.from.bytes, s.vault.bytes);
    assert_eq!(t.to.bytes, [11; 32]);
    assert_eq!(t.authority.bytes, authority.bytes);
    assert_eq!(t.amount, 200_000);
    let (seed_key, seed_nonce) = t.signer_seeds.unwrap();
    assert_eq!((seed_key.bytes, seed_nonce), (escrow.bytes, nonce));
    assert_eq!(ctx.streaming.outstanding, 800_000);
    assert_eq!(available_for_withdrawal(&ctx), 300_000);
    ctx.now = T - 1;
    assert_eq!(available_for_withdrawal(&ctx), 0);
}

#[test]
fn withdraw_rejects_more_than_available() {
    let (s, escrow, _, authority) = new_stream(1_000_000, T, T + 1000);
    let mut ctx = withdraw_ctx(s, escrow, authority, T + 500);
    let r = withdraw(&mut ctx, 500_001);
    assert_eq!(r.unwrap_err(), StreamError::Program(ErrorCode::InvalidWithdrawAmount));
    assert_eq!(ctx.streaming.outstanding, 1_000_000);
    ctx.now = T - 1;
    let r = withdraw(&mut ctx, 1);
    assert_eq!(r.unwrap_err(), StreamError::Program(ErrorCode::InvalidWithdrawAmount));
}

#[test]
fn second_full_withdrawal_at_same_time_fails() {
    let (s, escrow, _, authority) = new_stream(1_000_000, T, T + 1000);
    let mut ctx = withdraw_ctx(s, escrow, authority, T + 1000);
    assert_eq!(withdraw(&mut ctx, 1_000_000).unwrap().amount, 1_000_000);
    assert_eq!(ctx.streaming.outstanding, 0);
    let r = withdraw(&mut ctx, 1_000_000);
    assert_eq!(r.unwrap_err(), StreamError::Program(ErrorCode::InvalidWithdrawAmount));
    let r = withdraw(&mut ctx, 1);
    assert_eq!(r.unwrap_err(), StreamError::Program(ErrorCode::InvalidWithdrawAmount));
    assert_eq!(ctx.streaming.outstanding, 0);
}

#[test]
fn withdraw_checks_accounts_and_signature() {
    let (s, escrow, _, authority) = new_stream(1_000_000, T, T + 1000);
    let mut ctx = withdraw_ctx(s, escrow, authority, T + 1000);
    ctx.beneficiary = key(12);
    assert_eq!(withdraw(&mut ctx, 1).unwrap_err(), StreamError::ConstraintHasOne);
    let mut ctx = withdraw_ctx(s, escrow, authority, T + 1000);
    ctx.vault = key(12);
    assert_eq!(withdraw(&mut ctx, 1).unwrap_err(), StreamError::ConstraintHasOne);
    let mut ctx = withdraw_ctx(s, escrow, authority, T + 1000);
    ctx.beneficiary_is_signer = false;
    assert_eq!(withdraw(&mut ctx, 1).unwrap_err(), StreamError::ConstraintSigner);
    let mut ctx = withdraw_ctx(s, escrow, authority, T + 1000);
    ctx.vault_authority = escrow;
    assert_eq!(withdraw(&mut ctx, 1).unwrap_err(), StreamError::ConstraintSeeds);
    assert_eq!(ctx.streaming.outstanding, 1_000_000);
}

#[test]
fn key_comparison_is_bytewise() {
    let mut b = [1u8; 32];
    assert!(Key::new(b).same_as(&Key::new(b)));
    b[31] = 2;
    assert!(!Key::new(b).same_as(&key(1)));
}

#[test]
fn zero_withdrawal_refused_when_more_withdrawn_than_vested() {
    let (s, escrow, _, authority) = new_stream(1_000_000, T, T + 1000);
    let mut ctx = withdraw_ctx(s, escrow, authority, T + 500);
    withdraw(&mut ctx, 500_000).unwrap();
    ctx.now = T - 1;
    assert_eq!(available_for_withdrawal(&ctx), 0);
    let r = withdraw(&mut ctx, 0);
    assert_eq!(r.unwrap_err(), StreamError::Program(ErrorCode::InvalidWithdrawAmount));
    assert_eq!(ctx.streaming.outstanding, 500_000);
    ctx.now = T + 500;
    assert_eq!(withdraw(&mut ctx, 0).unwrap().amount, 0);
    ctx.now = T + 1000;
    assert_eq!(available_for_withdrawal(&ctx), 500_000);
}
