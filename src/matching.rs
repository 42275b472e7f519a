use vstd::prelude::*;

use crate::address::{same_address, Address};

verus! {

/// Lifecycle of a match. The happy path is
/// `Created -> ConsumerAccepted -> Confirmed -> Completed`; a match that is not
/// yet confirmed may go to `Rejected`. `Disputed` is never entered by the
/// operations here: disputes are carried by the escrow.
#[derive(Clone, Copy, Debug, PartialEq, Eq, Structural)]
pub enum MatchStatus {
    Created,
    ConsumerAccepted,
    Confirmed,
    Rejected,
    Completed,
    Disputed,
}

#[derive(Clone, Copy, Debug, PartialEq, Eq, Structural)]
pub enum MatchingError {
    InvalidTimeRange,
    InvalidPrice,
    UnauthorizedConsumerAction,
    UnauthorizedProviderAction,
    UnauthorizedRejection,
    InvalidMatchStatus,
    CannotRejectActiveMatch,
    InvalidMatchStatusForCompletion,
}

/// A proposed or contracted pairing of one demand and one resource.
#[derive(Clone, Copy, Debug, PartialEq, Eq)]
pub struct Match {
    pub demand: Address,
    pub resource: Address,
    pub consumer: Address,
    pub provider: Address,
    /// Who proposed the match; may be a third party.
    pub matcher: Address,
    pub start_time: i64,
    pub end_time: i64,
    pub price_per_hour: u64,
    pub total_price: u64,
    /// Match quality, 0 to 100.
    pub match_score: u8,
    pub escrow_amount: u64,
    pub status: MatchStatus,
    pub created_at: i64,
    pub updated_at: i64,
}

impl Match {
    pub open spec fn wf(self) -> bool {
        &&& self.end_time > self.start_time
        &&& self.price_per_hour > 0
        &&& self.total_price > 0
    }

    pub open spec fn with_status(self, status: MatchStatus, now: i64) -> Match {
        Match { status, updated_at: now, ..self }
    }
}

/// The edges of the match lifecycle.
pub open spec fn match_edge(from: MatchStatus, to: MatchStatus) -> bool {
    ||| from == MatchStatus::Created && to == MatchStatus::ConsumerAccepted
    ||| from == MatchStatus::ConsumerAccepted && to == MatchStatus::Confirmed
    ||| from == MatchStatus::Confirmed && to == MatchStatus::Completed
    ||| from == MatchStatus::Created && to == MatchStatus::Rejected
    ||| from == MatchStatus::ConsumerAccepted && to == MatchStatus::Rejected
}

pub open spec fn create_match_result(
    demand: Address,
    resource: Address,
    consumer: Address,
    provider: Address,
    matcher: Address,
    start_time: i64,
    end_time: i64,
    price_per_hour: u64,
    total_price: u64,
    match_score: u8,
    escrow_amount: u64,
    now: i64,
) -> Result<Match, MatchingError> {
    if end_time <= start_time {
        Err(MatchingError::InvalidTimeRange)
    } else if price_per_hour == 0 || total_price == 0 {
        Err(MatchingError::InvalidPrice)
    } else {
        Ok(
            Match {
                demand,
                resource,
                consumer,
                provider,
                matcher,
                start_time,
                end_time,
                price_per_hour,
                total_price,
                match_score,
                escrow_amount,
                status: MatchStatus::Created,
                created_at: now,
                updated_at: now,
            },
        )
    }
}

pub open spec fn accept_consumer_result(m: Match, caller: Address, now: i64) -> Result<
    Match,
    MatchingError,
> {
    if caller != m.consumer {
        Err(MatchingError::UnauthorizedConsumerAction)
    } else if m.status != MatchStatus::Created {
        Err(MatchingError::InvalidMatchStatus)
    } else {
        Ok(m.with_status(MatchStatus::ConsumerAccepted, now))
    }
}

pub open spec fn accept_provider_result(m: Match, caller: Address, now: i64) -> Result<
    Match,
    MatchingError,
> {
    if caller != m.provider {
        Err(MatchingError::UnauthorizedProviderAction)
    } else if m.status != MatchStatus::ConsumerAccepted {
        Err(MatchingError::InvalidMatchStatus)
    } else {
        Ok(m.with_status(MatchStatus::Confirmed, now))
    }
}

pub open spec fn reject_result(m: Match, caller: Address, now: i64) -> Result<Match, MatchingError> {
    if caller != m.consumer && caller != m.provider {
        Err(MatchingError::UnauthorizedRejection)
    } else if m.status != MatchStatus::Created && m.status != MatchStatus::ConsumerAccepted {
        Err(MatchingError::CannotRejectActiveMatch)
    } else {
        Ok(m.with_status(MatchStatus::Rejected, now))
    }
}

pub open spec fn complete_result(m: Match, caller: Address, now: i64) -> Result<
    Match,
    MatchingError,
> {
    if caller != m.provider {
        Err(MatchingError::UnauthorizedProviderAction)
    } else if m.status != MatchStatus::Confirmed {
        Err(MatchingError::InvalidMatchStatusForCompletion)
    } else {
        Ok(m.with_status(MatchStatus::Completed, now))
    }
}

/// Validates a proposal and writes it as a new match in `Created`.
/// No funds move here.
pub fn create_match(
    demand: Address,
    resource: Address,
    consumer: Address,
    provider: Address,
    matcher: Address,
    start_time: i64,
    end_time: i64,
    price_per_hour: u64,
    total_price: u64,
    match_score: u8,
    escrow_amount: u64,
    now: i64,
) -> (r: Result<Match, MatchingError>)
    ensures
        r == create_match_result(
            demand,
            resource,
            consumer,
            provider,
            matcher,
            start_time,
            end_time,
            price_per_hour,
            total_price,
            match_score,
            escrow_amount,
            now,
        ),
        r is Ok ==> r->Ok_0.wf(),
{
    if end_time <= start_time {
        return Err(MatchingError::InvalidTimeRange);
    }
    if price_per_hour == 0 || total_price == 0 {
        return Err(MatchingError::InvalidPrice);
    }
    Ok(
        Match {
            demand,
            resource,
            consumer,
            provider,
            matcher,
            start_time,
            end_time,
            price_per_hour,
            total_price,
            match_score,
            escrow_amount,
            status: MatchStatus::Created,
            created_at: now,
            updated_at: now,
        },
    )
}

/// The consumer accepts a freshly created match.
pub fn accept_match_consumer(match_record: &mut Match, caller: &Address, now: i64) -> (r: Result<
    (),
    MatchingError,
>)
    ensures
        match r {
            Ok(_) => accept_consumer_result(*old(match_record), *caller, now) == Ok::<Match, MatchingError>(*final(match_record)),
            Err(err) => accept_consumer_result(*old(match_record), *caller, now) == Err::<Match, MatchingError>(err)
                && *final(match_record) == *old(match_record),
        },
{
    if !same_address(caller, &match_record.consumer) {
        return Err(MatchingError::UnauthorizedConsumerAction);
    }
    if match_record.status != MatchStatus::Created {
        return Err(MatchingError::InvalidMatchStatus);
    }
    match_record.status = MatchStatus::ConsumerAccepted;
    match_record.updated_at = now;
    Ok(())
}

/// The provider accepts a match that the consumer has already accepted,
/// which confirms it. The provider never accepts first.
pub fn accept_match_provider(match_record: &mut Match, caller: &Address, now: i64) -> (r: Result<
    (),
    MatchingError,
>)
    ensures
        match r {
            Ok(_) => accept_provider_result(*old(match_record), *caller, now) == Ok::<Match, MatchingError>(*final(match_record)),
            Err(err) => accept_provider_result(*old(match_record), *caller, now) == Err::<Match, MatchingError>(err)
                && *final(match_record) == *old(match_record),
        },
{
    if !same_address(caller, &match_record.provider) {
        return Err(MatchingError::UnauthorizedProviderAction);
    }
    if match_record.status != MatchStatus::ConsumerAccepted {
        return Err(MatchingError::InvalidMatchStatus);
    }
    match_record.status = MatchStatus::Confirmed;
    match_record.updated_at = now;
    Ok(())
}

/// Either party rejects a match that is not yet confirmed.
pub fn reject_match(match_record: &mut Match, caller: &Address, now: i64) -> (r: Result<
    (),
    MatchingError,
>)
    ensures
        match r {
            Ok(_) => reject_result(*old(match_record), *caller, now) == Ok::<Match, MatchingError>(*final(match_record)),
            Err(err) => reject_result(*old(match_record), *caller, now) == Err::<Match, MatchingError>(err)
                && *final(match_record) == *old(match_record),
        },
{
    if !same_address(caller, &match_record.consumer) && !same_address(
        caller,
        &match_record.provider,
    ) {
        return Err(MatchingError::UnauthorizedRejection);
    }
    if match_record.status != MatchStatus::Created && match_record.status
        != MatchStatus::ConsumerAccepted {
        return Err(MatchingError::CannotRejectActiveMatch);
    }
    match_record.status = MatchStatus::Rejected;
    match_record.updated_at = now;
    Ok(())
}

/// The provider marks a confirmed match as completed.
pub fn complete_match(match_record: &mut Match, caller: &Address, now: i64) -> (r: Result<
    (),
    MatchingError,
>)
    ensures
        match r {
            Ok(_) => complete_result(*old(match_record), *caller, now) == Ok::<Match, MatchingError>(*final(match_record)),
            Err(err) => complete_result(*old(match_record), *caller, now) == Err::<Match, MatchingError>(err)
                && *final(match_record) == *old(match_record),
        },
{
    if !same_address(caller, &match_record.provider) {
        return Err(MatchingError::UnauthorizedProviderAction);
    }
    if match_record.status != MatchStatus::Confirmed {
        return Err(MatchingError::InvalidMatchStatusForCompletion);
    }
    match_record.status = MatchStatus::Completed;
    match_record.updated_at = now;
    Ok(())
}


/// One attempted operation on a match, with the caller's identity and the
/// time at which it is made.
pub enum MatchCall {
    AcceptConsumer { caller: Address, now: i64 },
    AcceptProvider { caller: Address, now: i64 },
    Reject { caller: Address, now: i64 },
    Complete { caller: Address, now: i64 },
}

pub open spec fn match_step(m: Match, call: MatchCall) -> Result<Match, MatchingError> {
    match call {
        MatchCall::AcceptConsumer { caller, now } => accept_consumer_result(m, caller, now),
        MatchCall::AcceptProvider { caller, now } => accept_provider_result(m, caller, now),
        MatchCall::Reject { caller, now } => reject_result(m, caller, now),
        MatchCall::Complete { caller, now } => complete_result(m, caller, now),
    }
}

/// The states a match passes through over a sequence of attempts, starting
/// with `m`; a failed attempt leaves the match as it was.
pub open spec fn match_history(m: Match, calls: Seq<MatchCall>) -> Seq<Match>
    decreases calls.len(),
{
    if calls.len() == 0 {
        seq![m]
    } else {
        let prev = match_history(m, calls.drop_last());
        let last = prev.last();
        prev.push(
            match match_step(last, calls.last()) {
                Ok(next) => next,
                Err(_) => last,
            },
        )
    }
}

/// Every successful operation moves the match along one edge of the
/// lifecycle, stamps the time, and keeps every other field, the parties
/// included.
pub proof fn lemma_step_follows_edge(m: Match, call: MatchCall)
    ensures
        match_step(m, call) matches Ok(next) ==> {
            &&& match_edge(m.status, next.status)
            &&& next == m.with_status(next.status, next.updated_at)
        },
{
}

/// Along any history, each state is the previous one or follows it by an edge
/// of the lifecycle, and the parties never change.
pub proof fn lemma_history_follows_edges(m: Match, calls: Seq<MatchCall>)
    ensures
        match_history(m, calls).len() == calls.len() + 1,
        match_history(m, calls)[0] == m,
        forall|i: int|
            0 <= i < calls.len() ==> {
                let a = #[trigger] match_history(m, calls)[i];
                let b = match_history(m, calls)[i + 1];
                &&& (b == a || match_edge(a.status, b.status))
                &&& b.consumer == a.consumer
                &&& b.provider == a.provider
            },
    decreases calls.len(),
{
    if calls.len() > 0 {
        let init = calls.drop_last();
        lemma_history_follows_edges(m, init);
        let prev = match_history(m, init);
        lemma_step_follows_edge(prev.last(), calls.last());
        assert forall|i: int| 0 <= i < calls.len() implies {
            let a = #[trigger] match_history(m, calls)[i];
            let b = match_history(m, calls)[i + 1];
            &&& (b == a || match_edge(a.status, b.status))
            &&& b.consumer == a.consumer
            &&& b.provider == a.provider
        } by {
            if i < init.len() {
                assert(match_history(m, calls)[i] == prev[i]);
                assert(match_history(m, calls)[i + 1] == prev[i + 1]);
            }
        }
    }
}

/// A match that starts in `Created` is never `Confirmed` or `Completed`
/// without having been `ConsumerAccepted` at some earlier point.
pub proof fn lemma_confirmation_needs_consumer_acceptance(
    m: Match,
    calls: Seq<MatchCall>,
    j: int,
)
    requires
        m.status == MatchStatus::Created,
        0 <= j <= calls.len(),
        match_history(m, calls)[j].status == MatchStatus::Confirmed
            || match_history(m, calls)[j].status == MatchStatus::Completed,
    ensures
        exists|i: int|
            0 <= i < j && #[trigger] match_history(m, calls)[i].status
                == MatchStatus::ConsumerAccepted,
    decreases j,
{
    lemma_history_follows_edges(m, calls);
    let h = match_history(m, calls);
    assert(j > 0);
    let a = h[j - 1];
    if a.status == MatchStatus::ConsumerAccepted {
        assert(h[j - 1].status == MatchStatus::ConsumerAccepted);
    } else {
        lemma_confirmation_needs_consumer_acceptance(m, calls, j - 1);
    }
}

} // verus!
