use vstd::prelude::*;
use crate::key::{Key, program_address, create_program_address};
use crate::schedule::{
    MIN_LEAD_SECONDS, schedule_ok, vested, is_valid_schedule, vested_amount, lemma_vested_monotonic,
};

verus! {

/// The error codes that the escrow's own checks report.
#[derive(Clone, Copy, Debug, PartialEq, Eq, Structural)]
pub enum ErrorCode {
    /// Kept for compatibility; no check reports it.
    InvalidTimestamp,
    /// Kept for compatibility; no check reports it.
    InvalidGod,
    InvalidVaultAuthority,
    InvalidDepositAmount,
    InvalidSchedule,
    InvalidWithdrawAmount,
}

/// Why an operation was refused: one of the escrow's error codes, or an
/// account constraint that the request did not meet.
#[derive(Clone, Copy, Debug, PartialEq, Eq, Structural)]
pub enum StreamError {
    Program(ErrorCode),
    /// A required signature is missing.
    ConstraintSigner,
    /// An account does not match the one that the escrow records.
    ConstraintHasOne,
    /// The vault authority is not the one derived from the escrow.
    ConstraintSeeds,
}

/// The persisted state of one escrow.
#[derive(Clone, Copy, Debug)]
pub struct Streaming {
    /// The address that can withdraw from the escrow.
    pub beneficiary: Key,
    /// The address that funded the escrow.
    pub grantor: Key,
    /// The mint of the locked tokens.
    pub mint: Key,
    /// The token account that holds the locked balance.
    pub vault: Key,
    /// The amount deposited at creation.
    pub original_deposit_size: u64,
    /// The part of the deposit not withdrawn yet.
    pub outstanding: u64,
    pub created_ts: i64,
    pub start_ts: i64,
    pub end_ts: i64,
    /// The seed from which the vault's authority is derived.
    pub nonce: u8,
}

impl Streaming {
    /// The invariants of an escrow: a positive deposit, a schedule that was
    /// valid at creation, and no more withdrawn than was deposited.
    pub open spec fn wf(&self) -> bool {
        &&& self.original_deposit_size > 0
        &&& self.outstanding <= self.original_deposit_size
        &&& self.start_ts < self.end_ts
        &&& self.start_ts - self.created_ts >= MIN_LEAD_SECONDS
    }

    /// What has been withdrawn so far.
    pub open spec fn withdrawn(&self) -> int {
        self.original_deposit_size - self.outstanding
    }

    /// The vested amount at `now`.
    pub open spec fn vested_at(&self, now: int) -> int {
        vested(self.original_deposit_size as int, self.start_ts as int, self.end_ts as int, now)
    }

    /// What the beneficiary may still withdraw at `now`: the vested amount
    /// less what was withdrawn, never below zero.
    pub open spec fn withdrawable(&self, now: int) -> int {
        if self.vested_at(now) > self.withdrawn() {
            self.vested_at(now) - self.withdrawn()
        } else {
            0
        }
    }
}

/// What the escrow reads of a token account.
#[derive(Clone, Copy, Debug)]
pub struct TokenAccount {
    /// The token account's own address.
    pub key: Key,
    pub mint: Key,
    /// The authority that may move tokens out of it.
    pub owner: Key,
}

/// A token transfer for the token program to carry out.
#[derive(Clone, Copy, Debug)]
pub struct TokenTransfer {
    pub from: Key,
    pub to: Key,
    pub authority: Key,
    pub amount: u64,
    /// The escrow address and nonce to sign with, where the authority is the
    /// escrow's derived address rather than a signer of the request.
    pub signer_seeds: Option<(Key, u8)>,
}

/// The accounts of a request to create an escrow.
#[derive(Clone, Copy, Debug)]
pub struct CreateStream {
    /// The address of the escrow being created.
    pub streaming: Key,
    /// The token account that will hold the deposit.
    pub vault: TokenAccount,
    /// The token account the deposit comes from.
    pub depositor: Key,
    /// The authority over `depositor`.
    pub depositor_authority: Key,
    pub depositor_authority_is_signer: bool,
    /// The address of the escrow program.
    pub program_id: Key,
    /// The current time.
    pub now: i64,
}

/// The accounts of a withdrawal request.
#[derive(Clone, Copy, Debug)]
pub struct Withdraw {
    pub streaming: Streaming,
    /// The escrow's own address.
    pub streaming_key: Key,
    pub beneficiary: Key,
    pub beneficiary_is_signer: bool,
    pub vault: Key,
    /// The authority over the vault, derived from the escrow.
    pub vault_authority: Key,
    /// The token account that receives the payout.
    pub receiver_vault: Key,
    /// The address of the escrow program.
    pub program_id: Key,
    /// The current time.
    pub now: i64,
}

/// The vault is controlled by the authority derived from the escrow's
/// address and `nonce`.
pub open spec fn vault_owned_by_escrow(ctx: CreateStream, nonce: u8) -> bool {
    program_address(ctx.streaming@, nonce, ctx.program_id@) == Some(ctx.vault.owner@)
}

pub open spec fn deposit_transfer_of(ctx: CreateStream, amount: u64) -> TokenTransfer {
    TokenTransfer {
        from: ctx.depositor,
        to: ctx.vault.key,
        authority: ctx.depositor_authority,
        amount,
        signer_seeds: None,
    }
}

pub open spec fn payout_transfer_of(ctx: Withdraw, amount: u64) -> TokenTransfer {
    TokenTransfer {
        from: ctx.vault,
        to: ctx.receiver_vault,
        authority: ctx.vault_authority,
        amount,
        signer_seeds: Some((ctx.streaming_key, ctx.streaming.nonce)),
    }
}

/// The escrow that a successful creation records.
pub open spec fn new_streaming(
    ctx: CreateStream,
    beneficiary: Key,
    original_deposit_size: u64,
    start_ts: i64,
    end_ts: i64,
    nonce: u8,
) -> Streaming {
    Streaming {
        beneficiary,
        grantor: ctx.depositor_authority,
        mint: ctx.vault.mint,
        vault: ctx.vault.key,
        original_deposit_size,
        outstanding: original_deposit_size,
        created_ts: ctx.now,
        start_ts,
        end_ts,
        nonce,
    }
}

/// The outcome of a creation request: the first check that fails decides
/// the error; otherwise the new escrow and the deposit transfer.
pub open spec fn create_outcome(
    ctx: CreateStream,
    beneficiary: Key,
    original_deposit_size: u64,
    start_ts: i64,
    end_ts: i64,
    nonce: u8,
) -> Result<(Streaming, TokenTransfer), StreamError> {
    if !ctx.depositor_authority_is_signer {
        Err(StreamError::ConstraintSigner)
    } else if !vault_owned_by_escrow(ctx, nonce) {
        Err(StreamError::Program(ErrorCode::InvalidVaultAuthority))
    } else if original_deposit_size == 0 {
        Err(StreamError::Program(ErrorCode::InvalidDepositAmount))
    } else if !schedule_ok(start_ts as int, end_ts as int, ctx.now as int) {
        Err(StreamError::Program(ErrorCode::InvalidSchedule))
    } else {
        Ok(
            (
                new_streaming(ctx, beneficiary, original_deposit_size, start_ts, end_ts, nonce),
                deposit_transfer_of(ctx, original_deposit_size),
            ),
        )
    }
}

/// The request is signed by the escrow's beneficiary, names the escrow's
/// vault, and names the vault authority derived from the escrow.
pub open spec fn withdraw_authorized(ctx: Withdraw) -> bool {
    &&& ctx.beneficiary@ == ctx.streaming.beneficiary@
    &&& ctx.vault@ == ctx.streaming.vault@
    &&& ctx.beneficiary_is_signer
    &&& program_address(ctx.streaming_key@, ctx.streaming.nonce, ctx.program_id@) == Some(
        ctx.vault_authority@,
    )
}

/// The outcome of a withdrawal request: the first check that fails decides
/// the error; otherwise the payout transfer. The limit is the vested amount
/// less what was already withdrawn, which may be negative (a clock that reads
/// earlier than at a past payout): then every amount, zero included, is
/// refused.
pub open spec fn withdraw_outcome(ctx: Withdraw, amount: u64) -> Result<TokenTransfer, StreamError> {
    if ctx.beneficiary@ != ctx.streaming.beneficiary@ || ctx.vault@ != ctx.streaming.vault@ {
        Err(StreamError::ConstraintHasOne)
    } else if !ctx.beneficiary_is_signer {
        Err(StreamError::ConstraintSigner)
    } else if program_address(ctx.streaming_key@, ctx.streaming.nonce, ctx.program_id@) != Some(
        ctx.vault_authority@,
    ) {
        Err(StreamError::ConstraintSeeds)
    } else if amount > ctx.streaming.vested_at(ctx.now as int) - ctx.streaming.withdrawn() {
        Err(StreamError::Program(ErrorCode::InvalidWithdrawAmount))
    } else {
        Ok(payout_transfer_of(ctx, amount))
    }
}

/// The request's state after a withdrawal: a successful one lowers the
/// escrow's outstanding amount by `amount`; a refused one changes nothing.
pub open spec fn after_withdraw(ctx: Withdraw, amount: u64) -> Withdraw {
    if withdraw_outcome(ctx, amount) is Ok {
        Withdraw {
            streaming: Streaming {
                outstanding: (ctx.streaming.outstanding - amount) as u64,
                ..ctx.streaming
            },
            ..ctx
        }
    } else {
        ctx
    }
}

impl CreateStream {
    /// Checks that the vault is controlled by the authority derived from
    /// the escrow's address and `nonce`, so that no other escrow can take
    /// custody of it.
    pub fn valid_vault_owner(&self, nonce: u8) -> (r: Result<(), StreamError>)
        ensures
            r is Ok <==> vault_owned_by_escrow(*self, nonce),
            r is Err ==> r == Err::<(), StreamError>(
                StreamError::Program(ErrorCode::InvalidVaultAuthority),
            ),
    {
        match create_program_address(&self.streaming, nonce, &self.program_id) {
            Ok(vault_authority) => {
                if self.vault.owner.same_as(&vault_authority) {
                    Ok(())
                } else {
                    Err(StreamError::Program(ErrorCode::InvalidVaultAuthority))
                }
            },
            Err(_) => Err(StreamError::Program(ErrorCode::InvalidVaultAuthority)),
        }
    }

    /// The transfer of the deposit from the depositor into the vault,
    /// authorised by the depositor's signature.
    pub fn deposit_transfer(&self, amount: u64) -> (r: TokenTransfer)
        ensures
            r == deposit_transfer_of(*self, amount),
    {
        TokenTransfer {
            from: self.depositor,
            to: self.vault.key,
            authority: self.depositor_authority,
            amount,
            signer_seeds: None,
        }
    }
}

impl Withdraw {
    /// The transfer of `amount` from the vault to the receiver, signed for
    /// by the escrow's derived authority.
    pub fn payout_transfer(&self, amount: u64) -> (r: TokenTransfer)
        ensures
            r == payout_transfer_of(*self, amount),
    {
        TokenTransfer {
            from: self.vault,
            to: self.receiver_vault,
            authority: self.vault_authority,
            amount,
            signer_seeds: Some((self.streaming_key, self.streaming.nonce)),
        }
    }
}

/// Creates an escrow: checks the depositor's signature, the vault's
/// authority, the deposit and the schedule, in that order, and on success
/// returns the new escrow, holding the whole deposit as outstanding, and the
/// transfer of the deposit into the vault.
pub fn create_stream(
    ctx: &CreateStream,
    beneficiary: Key,
    original_deposit_size: u64,
    start_ts: i64,
    end_ts: i64,
    nonce: u8,
) -> (r: Result<(Streaming, TokenTransfer), StreamError>)
    ensures
        r == create_outcome(*ctx, beneficiary, original_deposit_size, start_ts, end_ts, nonce),
        r matches Ok((s, _)) ==> s.wf(),
{
    if !ctx.depositor_authority_is_signer {
        return Err(StreamError::ConstraintSigner);
    }
    match ctx.valid_vault_owner(nonce) {
        Ok(()) => {},
        Err(e) => {
            return Err(e);
        },
    }
    if original_deposit_size == 0 {
        return Err(StreamError::Program(ErrorCode::InvalidDepositAmount));
    }
    if !is_valid_schedule(start_ts, end_ts, ctx.now) {
        return Err(StreamError::Program(ErrorCode::InvalidSchedule));
    }
    let streaming = Streaming {
        beneficiary,
        grantor: ctx.depositor_authority,
        mint: ctx.vault.mint,
        vault: ctx.vault.key,
        original_deposit_size,
        outstanding: original_deposit_size,
        created_ts: ctx.now,
        start_ts,
        end_ts,
        nonce,
    };
    let transfer = ctx.deposit_transfer(original_deposit_size);
    Ok((streaming, transfer))
}

/// How much of the escrow's deposit the beneficiary may withdraw now: the
/// vested amount less what was already withdrawn, or zero.
pub fn available_for_withdrawal(ctx: &Withdraw) -> (r: u64)
    requires
        ctx.streaming.wf(),
    ensures
        r as int == ctx.streaming.withdrawable(ctx.now as int),
        r <= ctx.streaming.outstanding,
{
    let s = &ctx.streaming;
    let vested_now = vested_amount(s.original_deposit_size, s.start_ts, s.end_ts, ctx.now);
    proof {
        lemma_vested_monotonic(s.original_deposit_size, s.start_ts, s.end_ts, ctx.now, ctx.now);
    }
    let withdrawn: u64 = s.original_deposit_size - s.outstanding;
    if vested_now > withdrawn {
        vested_now - withdrawn
    } else {
        0
    }
}

/// Withdraws `amount` for the beneficiary: checks that the request names the
/// escrow's beneficiary and vault, is signed by the beneficiary and names the
/// derived vault authority, then that `amount` does not exceed the vested
/// amount less what was already withdrawn; on success lowers the outstanding amount and returns the
/// payout transfer. A refused request changes nothing.
pub fn withdraw(ctx: &mut Withdraw, amount: u64) -> (r: Result<TokenTransfer, StreamError>)
    requires
        old(ctx).streaming.wf(),
    ensures
        r == withdraw_outcome(*old(ctx), amount),
        *final(ctx) == after_withdraw(*old(ctx), amount),
        final(ctx).streaming.wf(),
{
    if !ctx.beneficiary.same_as(&ctx.streaming.beneficiary) || !ctx.vault.same_as(
        &ctx.streaming.vault,
    ) {
        return Err(StreamError::ConstraintHasOne);
    }
    if !ctx.beneficiary_is_signer {
        return Err(StreamError::ConstraintSigner);
    }
    match create_program_address(&ctx.streaming_key, ctx.streaming.nonce, &ctx.program_id) {
        Ok(vault_authority) => {
            if !ctx.vault_authority.same_as(&vault_authority) {
                return Err(StreamError::ConstraintSeeds);
            }
        },
        Err(_) => {
            return Err(StreamError::ConstraintSeeds);
        },
    }
    let s = &ctx.streaming;
    let vested_now = vested_amount(s.original_deposit_size, s.start_ts, s.end_ts, ctx.now);
    proof {
        lemma_vested_monotonic(s.original_deposit_size, s.start_ts, s.end_ts, ctx.now, ctx.now);
    }
    let withdrawn: u64 = s.original_deposit_size - s.outstanding;
    if vested_now < withdrawn || amount > vested_now - withdrawn {
        return Err(StreamError::Program(ErrorCode::InvalidWithdrawAmount));
    }
    let transfer = ctx.payout_transfer(amount);
    ctx.streaming.outstanding = ctx.streaming.outstanding - amount;
    Ok(transfer)
}

/// An over-withdrawal is refused: for an authorised request on a valid
/// escrow, any amount above the vested amount fails with
/// `InvalidWithdrawAmount`.
pub proof fn lemma_over_withdrawal_rejected(ctx: Withdraw, amount: u64)
    requires
        ctx.streaming.wf(),
        withdraw_authorized(ctx),
        amount > ctx.streaming.vested_at(ctx.now as int),
    ensures
        withdraw_outcome(ctx, amount) == Err::<TokenTransfer, StreamError>(
            StreamError::Program(ErrorCode::InvalidWithdrawAmount),
        ),
{
}

/// A zero deposit is refused: a creation request that is signed and names a
/// vault controlled by the escrow fails with `InvalidDepositAmount` when the
/// deposit is zero, whatever the schedule.
pub proof fn lemma_zero_deposit_rejected(
    ctx: CreateStream,
    beneficiary: Key,
    start_ts: i64,
    end_ts: i64,
    nonce: u8,
)
    requires
        ctx.depositor_authority_is_signer,
        vault_owned_by_escrow(ctx, nonce),
    ensures
        create_outcome(ctx, beneficiary, 0, start_ts, end_ts, nonce) == Err::<
            (Streaming, TokenTransfer),
            StreamError,
        >(StreamError::Program(ErrorCode::InvalidDepositAmount)),
{
}

/// A vault under any other authority is refused: a signed creation request
/// whose vault is not controlled by the authority derived from the escrow
/// fails with `InvalidVaultAuthority`, whatever the deposit and schedule.
pub proof fn lemma_foreign_vault_rejected(
    ctx: CreateStream,
    beneficiary: Key,
    original_deposit_size: u64,
    start_ts: i64,
    end_ts: i64,
    nonce: u8,
)
    requires
        ctx.depositor_authority_is_signer,
        !vault_owned_by_escrow(ctx, nonce),
    ensures
        create_outcome(ctx, beneficiary, original_deposit_size, start_ts, end_ts, nonce) == Err::<
            (Streaming, TokenTransfer),
            StreamError,
        >(StreamError::Program(ErrorCode::InvalidVaultAuthority)),
{
}

/// Nothing is paid twice: once a withdrawal of everything available has
/// succeeded, a second withdrawal of any positive amount at the same time
/// fails with `InvalidWithdrawAmount`.
pub proof fn lemma_second_withdrawal_rejected(ctx: Withdraw, first: u64, second: u64)
    requires
        ctx.streaming.wf(),
        first == ctx.streaming.withdrawable(ctx.now as int),
        withdraw_outcome(ctx, first) is Ok,
        second > 0,
    ensures
        after_withdraw(ctx, first).streaming.withdrawable(ctx.now as int) == 0,
        withdraw_outcome(after_withdraw(ctx, first), second) == Err::<TokenTransfer, StreamError>(
            StreamError::Program(ErrorCode::InvalidWithdrawAmount),
        ),
{
    let s = ctx.streaming;
    lemma_vested_monotonic(s.original_deposit_size, s.start_ts, s.end_ts, ctx.now, ctx.now);
}

/// Once the schedule has ended, everything not yet withdrawn is available:
/// the whole deposit where nothing has been withdrawn.
pub proof fn lemma_fully_vested_available(s: Streaming, now: i64)
    requires
        s.wf(),
        now >= s.end_ts,
    ensures
        s.withdrawable(now as int) == s.outstanding,
        s.outstanding == s.original_deposit_size ==> s.withdrawable(now as int)
            == s.original_deposit_size,
{
}

} // verus!
