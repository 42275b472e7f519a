use vstd::prelude::*;

use crate::address::{same_address, Address};

verus! {

/// Lifecycle of an escrow. `Released`, `Refunded` and `Resolved` are terminal.
#[derive(Clone, Copy, Debug, PartialEq, Eq, Structural)]
pub enum EscrowStatus {
    Created,
    Released,
    Refunded,
    Disputed,
    Resolved,
}

#[derive(Clone, Copy, Debug, PartialEq, Eq, Structural)]
pub enum TransactionError {
    InvalidAmount,
    InvalidReleaseTime,
    UnauthorizedRelease,
    UnauthorizedRefund,
    UnauthorizedDispute,
    UnauthorizedResolution,
    InvalidEscrowStatus,
    InvalidShares,
}

/// Custodied value tied to one match.
#[derive(Clone, Copy, Debug, PartialEq, Eq)]
pub struct Escrow {
    pub match_id: Address,
    pub consumer: Address,
    pub provider: Address,
    pub amount: u64,
    /// Earliest time at which anyone, not only the consumer, may release.
    pub release_time: i64,
    pub status: EscrowStatus,
    pub created_at: i64,
    pub updated_at: i64,
}

/// The transfers out of the custody balance that a settlement requires.
/// A zero amount means that no transfer is made to that party.
#[derive(Clone, Copy, Debug, PartialEq, Eq, Structural)]
pub struct Payout {
    pub to_consumer: u64,
    pub to_provider: u64,
}

impl Payout {
    pub open spec fn total(self) -> int {
        self.to_consumer + self.to_provider
    }
}

impl Escrow {
    pub open spec fn wf(self) -> bool {
        self.amount > 0
    }

    pub open spec fn is_terminal(self) -> bool {
        self.status == EscrowStatus::Released || self.status == EscrowStatus::Refunded
            || self.status == EscrowStatus::Resolved
    }

    /// What the escrow's custody balance holds: the full amount until a
    /// terminal settlement empties it.
    pub open spec fn custody_balance(self) -> int {
        if self.is_terminal() {
            0
        } else {
            self.amount as int
        }
    }

    pub open spec fn with_status(self, status: EscrowStatus, now: i64) -> Escrow {
        Escrow { status, updated_at: now, ..self }
    }
}

pub open spec fn no_payout() -> Payout {
    Payout { to_consumer: 0, to_provider: 0 }
}

/// The consumer's part of a split: the consumer's percentage of the
/// amount, rounded down.
pub open spec fn consumer_part(amount: u64, consumer_share: u8) -> int {
    (amount as int * consumer_share as int) / 100
}

pub open spec fn create_escrow_result(
    match_id: Address,
    consumer: Address,
    provider: Address,
    amount: u64,
    release_time: i64,
    now: i64,
) -> Result<Escrow, TransactionError> {
    if amount == 0 {
        Err(TransactionError::InvalidAmount)
    } else if release_time <= now {
        Err(TransactionError::InvalidReleaseTime)
    } else {
        Ok(
            Escrow {
                match_id,
                consumer,
                provider,
                amount,
                release_time,
                status: EscrowStatus::Created,
                created_at: now,
                updated_at: now,
            },
        )
    }
}

pub open spec fn release_result(e: Escrow, caller: Address, now: i64) -> Result<
    (Escrow, Payout),
    TransactionError,
> {
    if e.status != EscrowStatus::Created {
        Err(TransactionError::InvalidEscrowStatus)
    } else if now < e.release_time && caller != e.consumer {
        Err(TransactionError::UnauthorizedRelease)
    } else {
        Ok(
            (
                e.with_status(EscrowStatus::Released, now),
                Payout { to_consumer: 0, to_provider: e.amount },
            ),
        )
    }
}

pub open spec fn refund_result(e: Escrow, caller: Address, arbitrator: Address, now: i64) -> Result<
    (Escrow, Payout),
    TransactionError,
> {
    if e.status != EscrowStatus::Created {
        Err(TransactionError::InvalidEscrowStatus)
    } else if caller != e.provider && caller != arbitrator {
        Err(TransactionError::UnauthorizedRefund)
    } else {
        Ok(
            (
                e.with_status(EscrowStatus::Refunded, now),
                Payout { to_consumer: e.amount, to_provider: 0 },
            ),
        )
    }
}

pub open spec fn dispute_result(e: Escrow, caller: Address, now: i64) -> Result<
    (Escrow, Payout),
    TransactionError,
> {
    if e.status != EscrowStatus::Created {
        Err(TransactionError::InvalidEscrowStatus)
    } else if caller != e.consumer && caller != e.provider {
        Err(TransactionError::UnauthorizedDispute)
    } else {
        Ok((e.with_status(EscrowStatus::Disputed, now), no_payout()))
    }
}

pub open spec fn resolve_result(
    e: Escrow,
    caller: Address,
    arbitrator: Address,
    consumer_share: u8,
    provider_share: u8,
    now: i64,
) -> Result<(Escrow, Payout), TransactionError> {
    if e.status != EscrowStatus::Disputed {
        Err(TransactionError::InvalidEscrowStatus)
    } else if caller != arbitrator {
        Err(TransactionError::UnauthorizedResolution)
    } else if consumer_share + provider_share != 100 {
        Err(TransactionError::InvalidShares)
    } else {
        let c = consumer_part(e.amount, consumer_share);
        Ok(
            (
                e.with_status(EscrowStatus::Resolved, now),
                Payout { to_consumer: c as u64, to_provider: (e.amount - c) as u64 },
            ),
        )
    }
}

/// Checks the inputs and builds a new escrow in `Created`. The caller moves
/// `amount` from the consumer into the escrow's custody balance in the same
/// atomic step; if that debit fails, the record must be discarded.
pub fn create_escrow(
    match_id: Address,
    consumer: Address,
    provider: Address,
    amount: u64,
    release_time: i64,
    now: i64,
) -> (r: Result<Escrow, TransactionError>)
    ensures
        r == create_escrow_result(match_id, consumer, provider, amount, release_time, now),
        amount == 0 ==> r == Err::<Escrow, TransactionError>(TransactionError::InvalidAmount),
        amount > 0 && release_time <= now ==> r == Err::<Escrow, TransactionError>(
            TransactionError::InvalidReleaseTime,
        ),
        r is Ok ==> r->Ok_0.wf() && r->Ok_0.custody_balance() == amount,
{
    if amount == 0 {
        return Err(TransactionError::InvalidAmount);
    }
    if release_time <= now {
        return Err(TransactionError::InvalidReleaseTime);
    }
    Ok(
        Escrow {
            match_id,
            consumer,
            provider,
            amount,
            release_time,
            status: EscrowStatus::Created,
            created_at: now,
            updated_at: now,
        },
    )
}

/// Pays the full custody balance to the provider. Before `release_time` only
/// the consumer may do this; from `release_time` on, anyone may.
pub fn release_funds(escrow: &mut Escrow, caller: &Address, now: i64) -> (r: Result<
    Payout,
    TransactionError,
>)
    ensures
        match r {
            Ok(p) => release_result(*old(escrow), *caller, now) == Ok::<(Escrow, Payout), TransactionError>((*final(escrow), p)),
            Err(err) => release_result(*old(escrow), *caller, now) == Err::<(Escrow, Payout), TransactionError>(err)
                && *final(escrow) == *old(escrow),
        },
{
    if escrow.status != EscrowStatus::Created {
        return Err(TransactionError::InvalidEscrowStatus);
    }
    if now < escrow.release_time && !same_address(caller, &escrow.consumer) {
        return Err(TransactionError::UnauthorizedRelease);
    }
    escrow.status = EscrowStatus::Released;
    escrow.updated_at = now;
    Ok(Payout { to_consumer: 0, to_provider: escrow.amount })
}

/// Pays the full custody balance back to the consumer; the provider or the
/// designated arbitrator may do this.
pub fn refund_escrow(escrow: &mut Escrow, caller: &Address, arbitrator: &Address, now: i64) -> (r:
    Result<Payout, TransactionError>)
    ensures
        match r {
            Ok(p) => refund_result(*old(escrow), *caller, *arbitrator, now) == Ok::<(Escrow, Payout), TransactionError>((*final(escrow), p)),
            Err(err) => refund_result(*old(escrow), *caller, *arbitrator, now) == Err::<(Escrow, Payout), TransactionError>(err)
                && *final(escrow) == *old(escrow),
        },
{
    if escrow.status != EscrowStatus::Created {
        return Err(TransactionError::InvalidEscrowStatus);
    }
    if !same_address(caller, &escrow.provider) && !same_address(caller, arbitrator) {
        return Err(TransactionError::UnauthorizedRefund);
    }
    escrow.status = EscrowStatus::Refunded;
    escrow.updated_at = now;
    Ok(Payout { to_consumer: escrow.amount, to_provider: 0 })
}

/// Freezes the escrow for arbitration; the consumer or the provider may do
/// this. No funds move.
pub fn dispute_escrow(escrow: &mut Escrow, caller: &Address, now: i64) -> (r: Result<
    (),
    TransactionError,
>)
    ensures
        match r {
            Ok(_) => dispute_result(*old(escrow), *caller, now) == Ok::<(Escrow, Payout), TransactionError>((*final(escrow), no_payout())),
            Err(err) => dispute_result(*old(escrow), *caller, now) == Err::<(Escrow, Payout), TransactionError>(err)
                && *final(escrow) == *old(escrow),
        },
{
    if escrow.status != EscrowStatus::Created {
        return Err(TransactionError::InvalidEscrowStatus);
    }
    if !same_address(caller, &escrow.consumer) && !same_address(caller, &escrow.provider) {
        return Err(TransactionError::UnauthorizedDispute);
    }
    escrow.status = EscrowStatus::Disputed;
    escrow.updated_at = now;
    Ok(())
}

/// Splits `amount` by the consumer's percentage: the consumer's part is
/// rounded down and the provider receives the rest.
pub fn split_amount(amount: u64, consumer_share: u8) -> (r: (u64, u64))
    requires
        consumer_share <= 100,
    ensures
        r.0 == consumer_part(amount, consumer_share),
        r.1 == amount - consumer_part(amount, consumer_share),
        r.0 + r.1 == amount,
{
    proof {
        assert(consumer_part(amount, consumer_share) <= amount) by (nonlinear_arith)
            requires
                consumer_share <= 100,
                consumer_part(amount, consumer_share) == (amount as int * consumer_share as int)
                    / 100,
        ;
        assert(amount as int * consumer_share as int <= u64::MAX as int * 100) by (nonlinear_arith)
            requires
                consumer_share <= 100,
        ;
    }
    let product: u128 = amount as u128 * consumer_share as u128;
    let consumer_amount: u64 = (product / 100) as u64;
    (consumer_amount, amount - consumer_amount)
}

/// Settles a disputed escrow: the arbitrator names the consumer's and the
/// provider's percentages, which must add up to 100, and the custody balance
/// is split between them with nothing left over.
pub fn resolve_dispute(
    escrow: &mut Escrow,
    caller: &Address,
    arbitrator: &Address,
    consumer_share: u8,
    provider_share: u8,
    now: i64,
) -> (r: Result<Payout, TransactionError>)
    ensures
        match r {
            Ok(p) => resolve_result(*old(escrow), *caller, *arbitrator, consumer_share, provider_share, now)
                == Ok::<(Escrow, Payout), TransactionError>((*final(escrow), p)),
            Err(err) => resolve_result(*old(escrow), *caller, *arbitrator, consumer_share, provider_share, now)
                == Err::<(Escrow, Payout), TransactionError>(err) && *final(escrow) == *old(escrow),
        },
{
    if escrow.status != EscrowStatus::Disputed {
        return Err(TransactionError::InvalidEscrowStatus);
    }
    if !same_address(caller, arbitrator) {
        return Err(TransactionError::UnauthorizedResolution);
    }
    if consumer_share as u16 + provider_share as u16 != 100 {
        return Err(TransactionError::InvalidShares);
    }
    let (to_consumer, to_provider) = split_amount(escrow.amount, consumer_share);
    escrow.status = EscrowStatus::Resolved;
    escrow.updated_at = now;
    Ok(Payout { to_consumer, to_provider })
}


/// One attempted operation on an escrow, with the caller's identity and the
/// time at which it is made.
pub enum EscrowCall {
    Release { caller: Address, now: i64 },
    Refund { caller: Address, arbitrator: Address, now: i64 },
    Dispute { caller: Address, now: i64 },
    Resolve {
        caller: Address,
        arbitrator: Address,
        consumer_share: u8,
        provider_share: u8,
        now: i64,
    },
}

pub open spec fn escrow_step(e: Escrow, call: EscrowCall) -> Result<(Escrow, Payout), TransactionError> {
    match call {
        EscrowCall::Release { caller, now } => release_result(e, caller, now),
        EscrowCall::Refund { caller, arbitrator, now } => refund_result(e, caller, arbitrator, now),
        EscrowCall::Dispute { caller, now } => dispute_result(e, caller, now),
        EscrowCall::Resolve { caller, arbitrator, consumer_share, provider_share, now } =>
            resolve_result(e, caller, arbitrator, consumer_share, provider_share, now),
    }
}

/// The escrow after a sequence of attempts; a failed attempt changes nothing.
pub open spec fn escrow_after(e: Escrow, calls: Seq<EscrowCall>) -> Escrow
    decreases calls.len(),
{
    if calls.len() == 0 {
        e
    } else {
        let prev = escrow_after(e, calls.drop_last());
        match escrow_step(prev, calls.last()) {
            Ok((next, _)) => next,
            Err(_) => prev,
        }
    }
}

/// Everything paid out of custody over a sequence of attempts.
pub open spec fn paid_out(e: Escrow, calls: Seq<EscrowCall>) -> int
    decreases calls.len(),
{
    if calls.len() == 0 {
        0
    } else {
        let prev = escrow_after(e, calls.drop_last());
        paid_out(e, calls.drop_last()) + match escrow_step(prev, calls.last()) {
            Ok((_, p)) => p.total(),
            Err(_) => 0,
        }
    }
}

/// How many attempts in a sequence moved any funds out of custody.
pub open spec fn payout_count(e: Escrow, calls: Seq<EscrowCall>) -> nat
    decreases calls.len(),
{
    if calls.len() == 0 {
        0
    } else {
        let prev = escrow_after(e, calls.drop_last());
        payout_count(e, calls.drop_last()) + match escrow_step(prev, calls.last()) {
            Ok((_, p)) => if p.total() != 0 { 1nat } else { 0nat },
            Err(_) => 0nat,
        }
    }
}

/// Every successful operation either moves nothing and keeps the custody
/// balance, or pays out the whole custody balance and leaves the escrow
/// terminal with an empty custody balance. The parties and the amount never
/// change.
pub proof fn lemma_settlement_all_or_nothing(e: Escrow, call: EscrowCall)
    requires
        e.wf(),
    ensures
        escrow_step(e, call) matches Ok((next, p)) ==> {
            &&& next.wf()
            &&& next.amount == e.amount
            &&& next.consumer == e.consumer
            &&& next.provider == e.provider
            &&& next.match_id == e.match_id
            &&& ((p == no_payout() && !next.is_terminal() && next.custody_balance()
                == e.custody_balance()) || (p.total() == e.custody_balance()
                && e.custody_balance() == e.amount && next.is_terminal()
                && next.custody_balance() == 0))
        },
{
    match call {
        EscrowCall::Resolve { caller, arbitrator, consumer_share, provider_share, now } => {
            if consumer_share + provider_share == 100 {
                lemma_split_is_exact(e.amount, consumer_share, provider_share);
            }
        },
        _ => {},
    }
}

/// Once an escrow is released, refunded or resolved, every further attempt
/// fails with the status error and changes nothing.
pub proof fn lemma_terminal_is_final(e: Escrow, call: EscrowCall)
    requires
        e.is_terminal(),
    ensures
        escrow_step(e, call) == Err::<(Escrow, Payout), TransactionError>(
            TransactionError::InvalidEscrowStatus,
        ),
{
}

/// Over any sequence of attempts on a live escrow, what was paid out plus
/// what custody still holds is the escrowed amount; at most one attempt pays
/// anything; and the escrow ends terminal exactly when that one payout, of
/// the whole amount, has happened.
pub proof fn lemma_funds_move_once(e: Escrow, calls: Seq<EscrowCall>)
    requires
        e.wf(),
        !e.is_terminal(),
    ensures
        escrow_after(e, calls).wf(),
        escrow_after(e, calls).amount == e.amount,
        paid_out(e, calls) + escrow_after(e, calls).custody_balance() == e.amount,
        payout_count(e, calls) <= 1,
        escrow_after(e, calls).is_terminal() <==> payout_count(e, calls) == 1,
        escrow_after(e, calls).is_terminal() ==> paid_out(e, calls) == e.amount,
    decreases calls.len(),
{
    if calls.len() > 0 {
        let init = calls.drop_last();
        lemma_funds_move_once(e, init);
        let prev = escrow_after(e, init);
        lemma_settlement_all_or_nothing(prev, calls.last());
        if prev.is_terminal() {
            lemma_terminal_is_final(prev, calls.last());
        }
    }
}

/// A resolution splits the custody balance exactly: for any shares that add
/// up to 100, edge shares included, the two parts add up to the amount and
/// neither exceeds it.
pub proof fn lemma_split_is_exact(amount: u64, consumer_share: u8, provider_share: u8)
    requires
        consumer_share + provider_share == 100,
    ensures
        0 <= consumer_part(amount, consumer_share) <= amount,
        consumer_part(amount, consumer_share) + (amount - consumer_part(amount, consumer_share))
            == amount,
        consumer_share == 0 ==> consumer_part(amount, consumer_share) == 0,
        consumer_share == 100 ==> consumer_part(amount, consumer_share) == amount,
{
    assert(0 <= consumer_part(amount, consumer_share) <= amount) by (nonlinear_arith)
        requires
            consumer_share <= 100,
            consumer_part(amount, consumer_share) == (amount as int * consumer_share as int) / 100,
    ;
}

/// A disputed escrow, resolved by the arbitrator with shares that add up to
/// 100, pays out exactly the escrowed amount.
pub proof fn lemma_resolution_pays_all(
    e: Escrow,
    arbitrator: Address,
    consumer_share: u8,
    provider_share: u8,
    now: i64,
)
    requires
        e.status == EscrowStatus::Disputed,
        consumer_share + provider_share == 100,
    ensures
        resolve_result(e, arbitrator, arbitrator, consumer_share, provider_share, now) matches Ok(
            (next, p),
        ) && p.total() == e.amount && next.status == EscrowStatus::Resolved
            && p.to_consumer == consumer_part(e.amount, consumer_share),
{
    lemma_split_is_exact(e.amount, consumer_share, provider_share);
}

/// Before the release time only the consumer may release; from the release
/// time on, anyone may.
pub proof fn lemma_release_time_gate(e: Escrow, caller: Address, now: i64)
    requires
        e.status == EscrowStatus::Created,
    ensures
        now < e.release_time && caller != e.consumer ==> release_result(e, caller, now) == Err::<
            (Escrow, Payout),
            TransactionError,
        >(TransactionError::UnauthorizedRelease),
        now >= e.release_time || caller == e.consumer ==> release_result(e, caller, now) is Ok,
{
}

} // verus!
