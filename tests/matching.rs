use calctra_settlement::{
    accept_match_consumer, accept_match_provider, complete_match, create_match, reject_match,
    same_address, Address, Match, MatchStatus, MatchingError,
};

fn addr(tag: u8) -> Address {
    Address::new([tag; 32])
}

fn consumer() -> Address {
    addr(1)
}

fn provider() -> Address {
    addr(2)
}

fn stranger() -> Address {
    addr(9)
}

fn new_match() -> Match {
    create_match(addr(10), addr(11), consumer(), provider(), addr(3), 100, 200, 10, 1000, 87, 1000, 50)
        .unwrap()
}

#[test]
fn address_comparison() {
    let mut bytes = [7u8; 32];
    assert!(same_address(&Address::new(bytes), &Address::new(bytes)));
    bytes[31] = 8;
    assert!(!same_address(&Address::new([7u8; 32]), &Address::new(bytes)));
    bytes[31] = 7;
    bytes[0] = 0;
    assert!(!same_address(&Address::new([7u8; 32]), &Address::new(bytes)));
}

#[test]
fn create_match_records_the_proposal() {
    let m = new_match();
    assert_eq!(m.status, MatchStatus::Created);
    assert_eq!(m.consumer, consumer());
    assert_eq!(m.provider, provider());
    assert_eq!(m.matcher, addr(3));
    assert_eq!(m.start_time, 100);
    assert_eq!(m.end_time, 200);
    assert_eq!(m.price_per_hour, 10);
    assert_eq!(m.total_price, 1000);
    assert_eq!(m.match_score, 87);
    assert_eq!(m.escrow_amount, 1000);
    assert_eq!(m.created_at, 50);
    assert_eq!(m.updated_at, 50);
}

#[test]
fn create_match_rejects_bad_time_range() {
    let r = create_match(addr(10), addr(11), consumer(), provider(), addr(3), 200, 200, 10, 1000, 0, 0, 0);
    assert_eq!(r, Err(MatchingError::InvalidTimeRange));
    let r = create_match(addr(10), addr(11), consumer(), provider(), addr(3), 201, 200, 10, 1000, 0, 0, 0);
    assert_eq!(r, Err(MatchingError::InvalidTimeRange));
}

#[test]
fn create_match_rejects_zero_prices() {
    let r = create_match(addr(10), addr(11), consumer(), provider(), addr(3), 100, 200, 0, 1000, 0, 0, 0);
    assert_eq!(r, Err(MatchingError::InvalidPrice));
    let r = create_match(addr(10), addr(11), consumer(), provider(), addr(3), 100, 200, 10, 0, 0, 0, 0);
    assert_eq!(r, Err(MatchingError::InvalidPrice));
}

#[test]
fn happy_path_reaches_completed() {
    let mut m = new_match();
    assert_eq!(accept_match_consumer(&mut m, &consumer(), 60), Ok(()));
    assert_eq!(m.status, MatchStatus::ConsumerAccepted);
    assert_eq!(m.updated_at, 60);
    assert_eq!(accept_match_provider(&mut m, &provider(), 70), Ok(()));
    assert_eq!(m.status, MatchStatus::Confirmed);
    assert_eq!(complete_match(&mut m, &provider(), 210), Ok(()));
    assert_eq!(m.status, MatchStatus::Completed);
    assert_eq!(m.updated_at, 210);
    assert_eq!(m.created_at, 50);
}

#[test]
fn provider_cannot_accept_first() {
    let mut m = new_match();
    let before = m;
    assert_eq!(accept_match_provider(&mut m, &provider(), 60), Err(MatchingError::InvalidMatchStatus));
    assert_eq!(m, before);
}

#[test]
fn only_the_consumer_accepts_for_the_consumer() {
    let mut m = new_match();
    assert_eq!(
        accept_match_consumer(&mut m, &provider(), 60),
        Err(MatchingError::UnauthorizedConsumerAction)
    );
    assert_eq!(m.status, MatchStatus::Created);
    assert_eq!(accept_match_consumer(&mut m, &consumer(), 60), Ok(()));
    assert_eq!(
        accept_match_consumer(&mut m, &consumer(), 61),
        Err(MatchingError::InvalidMatchStatus)
    );
    assert_eq!(
        accept_match_provider(&mut m, &consumer(), 62),
        Err(MatchingError::UnauthorizedProviderAction)
    );
    assert_eq!(m.updated_at, 60);
}

#[test]
fn reject_before_confirmation() {
    let mut m = new_match();
    assert_eq!(reject_match(&mut m, &stranger(), 60), Err(MatchingError::UnauthorizedRejection));
    assert_eq!(reject_match(&mut m, &provider(), 60), Ok(()));
    assert_eq!(m.status, MatchStatus::Rejected);

    let mut m = new_match();
    accept_match_consumer(&mut m, &consumer(), 60).unwrap();
    assert_eq!(reject_match(&mut m, &consumer(), 61), Ok(()));
    assert_eq!(m.status, MatchStatus::Rejected);
    assert_eq!(
        accept_match_provider(&mut m, &provider(), 62),
        Err(MatchingError::InvalidMatchStatus)
    );
}

#[test]
fn confirmed_match_cannot_be_rejected() {
    let mut m = new_match();
    accept_match_consumer(&mut m, &consumer(), 60).unwrap();
    accept_match_provider(&mut m, &provider(), 61).unwrap();
    assert_eq!(reject_match(&mut m, &consumer(), 62), Err(MatchingError::CannotRejectActiveMatch));
    assert_eq!(m.status, MatchStatus::Confirmed);
}

#[test]
fn completion_needs_confirmation_and_provider() {
    let mut m = new_match();
    assert_eq!(
        complete_match(&mut m, &provider(), 60),
        Err(MatchingError::InvalidMatchStatusForCompletion)
    );
    accept_match_consumer(&mut m, &consumer(), 60).unwrap();
    accept_match_provider(&mut m, &provider(), 61).unwrap();
    assert_eq!(
        complete_match(&mut m, &consumer(), 62),
        Err(MatchingError::UnauthorizedProviderAction)
    );
    assert_eq!(complete_match(&mut m, &provider(), 63), Ok(()));
    assert_eq!(
        complete_match(&mut m, &provider(), 64),
        Err(MatchingError::InvalidMatchStatusForCompletion)
    );
}

#[test]
fn statuses_follow_only_lifecycle_edges() {
    // Try every operation from every reachable state and check that each
    // success moves along one lifecycle edge.
    let edge = |a: MatchStatus, b: MatchStatus| {
        matches!(
            (a, b),
            (MatchStatus::Created, MatchStatus::ConsumerAccepted)
                | (MatchStatus::ConsumerAccepted, MatchStatus::Confirmed)
                | (MatchStatus::Confirmed, MatchStatus::Completed)
                | (MatchStatus::Created, MatchStatus::Rejected)
                | (MatchStatus::ConsumerAccepted, MatchStatus::Rejected)
        )
    };
    let mut states = vec![new_match()];
    let mut seen = 0;
    while seen < states.len() {
        let m = states[seen];
        seen += 1;
        for who in [consumer(), provider(), stranger()] {
            let mut ops: Vec<Match> = Vec::new();
            let mut a = m;
            if accept_match_consumer(&mut a, &who, 1).is_ok() {
                ops.push(a);
            }
            let mut b = m;
            if accept_match_provider(&mut b, &who, 1).is_ok() {
                ops.push(b);
            }
            let mut c = m;
            if reject_match(&mut c, &who, 1).is_ok() {
                ops.push(c);
            }
            let mut d = m;
            if complete_match(&mut d, &who, 1).is_ok() {
                ops.push(d);
            }
            for next in ops {
                assert!(edge(m.status, next.status));
                if !states.iter().any(|s| s.status == next.status) {
                    states.push(next);
                }
            }
        }
    }
    assert_eq!(states.len(), 5);
}
