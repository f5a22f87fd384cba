use clarity::{Address, PrivateKey};
use valset_relay::{Action, Event, GasCost, Outcome, Phase, RelayCycle, Severity, Valset, ValsetMember};

type Confirms = Vec<u8>;

fn key() -> PrivateKey {
    PrivateKey::from_bytes([7u8; 32]).unwrap()
}

fn valset(nonce: u64) -> Valset {
    Valset {
        nonce,
        members: vec![
            ValsetMember { power: 3000, eth_address: Some(Address::from([nonce as u8; 20])) },
            ValsetMember { power: 1000, eth_address: None },
        ],
    }
}

fn cost() -> GasCost {
    GasCost { gas_price: 20_000_000_000, gas_used: 150_000 }
}

/// Feeds the answers one by one and records every call the cycle asks for,
/// the first one included.
fn run(events: Vec<Event<Confirms>>) -> (RelayCycle<Confirms>, Vec<Action>) {
    let (mut cycle, first) = RelayCycle::new(key());
    let mut calls = vec![first];
    for e in events {
        let (next, call) = cycle.step(e);
        cycle = next;
        calls.push(call);
    }
    (cycle, calls)
}

fn count(calls: &[Action], pred: fn(&Action) -> bool) -> usize {
    calls.iter().filter(|a| pred(a)).count()
}

fn is_estimate(a: &Action) -> bool {
    matches!(a, Action::EstimateCost { .. })
}

fn is_submit(a: &Action) -> bool {
    matches!(a, Action::Submit { .. })
}

#[test]
fn scenario_a_latest_confirmed_is_relayed() {
    let signer = key().to_address();
    let (cycle, calls) = run(vec![
        Event::Valsets(Some(vec![valset(5), valset(4), valset(3)])),
        Event::Confirms(None),
        Event::Confirms(Some(vec![4, 4])),
        Event::CurrentValset(Some(valset(3))),
        Event::Estimate(Some(cost())),
    ]);
    assert_eq!(
        calls,
        vec![
            Action::ListValsets,
            Action::FetchConfirms { nonce: 5 },
            Action::FetchConfirms { nonce: 4 },
            Action::FetchCurrentValset { signer },
            Action::EstimateCost { candidate_nonce: 4, current_nonce: 3 },
            Action::Submit { candidate_nonce: 4, current_nonce: 3, cost: cost() },
        ]
    );
    match &cycle.phase {
        Phase::Submitting { candidate, current, confirms, cost: c } => {
            assert_eq!(*candidate, valset(4));
            assert_eq!(*current, valset(3));
            assert_eq!(*confirms, vec![4, 4]);
            assert_eq!(*c, cost());
        }
        _ => panic!("expected the cycle to be submitting"),
    }
    let (_, last) = cycle.step(Event::Submission(true));
    assert_eq!(last, Action::Stop { outcome: Outcome::Submitted });
}

#[test]
fn scenario_b_destination_current_means_no_calls() {
    let (_, calls) = run(vec![
        Event::Valsets(Some(vec![valset(5)])),
        Event::Confirms(Some(vec![5])),
        Event::CurrentValset(Some(valset(5))),
    ]);
    assert_eq!(count(&calls, is_estimate), 0);
    assert_eq!(count(&calls, is_submit), 0);
    assert_eq!(calls.last(), Some(&Action::Stop { outcome: Outcome::UpToDate }));
}

#[test]
fn scenario_c_source_query_failure_stops_quietly() {
    let (_, calls) = run(vec![Event::Valsets(None)]);
    assert_eq!(
        calls,
        vec![Action::ListValsets, Action::Stop { outcome: Outcome::ValsetQueryFailed }]
    );
    assert_eq!(Outcome::ValsetQueryFailed.severity(), Severity::Trace);
}

#[test]
fn scenario_d_destination_query_failure_aborts() {
    let signer = key().to_address();
    let (_, calls) = run(vec![
        Event::Valsets(Some(vec![valset(5)])),
        Event::Confirms(Some(vec![5])),
        Event::CurrentValset(None),
    ]);
    assert_eq!(
        calls,
        vec![
            Action::ListValsets,
            Action::FetchConfirms { nonce: 5 },
            Action::FetchCurrentValset { signer },
            Action::Stop { outcome: Outcome::CurrentValsetUnavailable },
        ]
    );
    assert_eq!(Outcome::CurrentValsetUnavailable.severity(), Severity::Error);
}

#[test]
fn scenario_e_failed_estimate_means_no_submission() {
    let (_, calls) = run(vec![
        Event::Valsets(Some(vec![valset(5)])),
        Event::Confirms(Some(vec![5])),
        Event::CurrentValset(Some(valset(2))),
        Event::Estimate(None),
    ]);
    assert_eq!(count(&calls, is_estimate), 1);
    assert_eq!(count(&calls, is_submit), 0);
    assert_eq!(calls.last(), Some(&Action::Stop { outcome: Outcome::EstimateFailed }));
    assert_eq!(Outcome::EstimateFailed.severity(), Severity::Error);
}

#[test]
fn first_confirmed_set_wins_and_later_ones_are_not_asked() {
    let (cycle, calls) = run(vec![
        Event::Valsets(Some(vec![valset(9), valset(8), valset(7), valset(6)])),
        Event::Confirms(None),
        Event::Confirms(Some(vec![8])),
    ]);
    assert_eq!(count(&calls, |a| matches!(a, Action::FetchConfirms { .. })), 2);
    assert!(!calls.contains(&Action::FetchConfirms { nonce: 7 }));
    match &cycle.phase {
        Phase::FetchingCurrent { candidate, confirms } => {
            assert_eq!(candidate.nonce, 8);
            assert_eq!(*confirms, vec![8]);
        }
        _ => panic!("expected the cycle to read the destination next"),
    }
}

#[test]
fn empty_source_list_makes_no_estimate_or_submission() {
    let (_, calls) = run(vec![
        Event::Valsets(Some(vec![])),
        Event::CurrentValset(Some(valset(1))),
        Event::Estimate(Some(cost())),
        Event::Submission(true),
    ]);
    assert_eq!(count(&calls, is_estimate), 0);
    assert_eq!(count(&calls, is_submit), 0);
    assert!(calls[1..].iter().all(|a| *a == Action::Stop { outcome: Outcome::NoValsets }));
    assert_eq!(Outcome::NoValsets.severity(), Severity::Trace);
}

#[test]
fn destination_ahead_of_candidate_is_up_to_date() {
    let (_, calls) = run(vec![
        Event::Valsets(Some(vec![valset(4)])),
        Event::Confirms(Some(vec![4])),
        Event::CurrentValset(Some(valset(6))),
        Event::Estimate(Some(cost())),
    ]);
    assert_eq!(count(&calls, is_estimate), 0);
    assert_eq!(count(&calls, is_submit), 0);
    assert_eq!(Outcome::UpToDate.severity(), Severity::Trace);
}

#[test]
fn stale_destination_gets_one_estimate_and_one_submission() {
    let (_, calls) = run(vec![
        Event::Valsets(Some(vec![valset(10), valset(9)])),
        Event::Confirms(Some(vec![10])),
        Event::CurrentValset(Some(valset(9))),
        Event::Estimate(Some(cost())),
        Event::Submission(false),
        Event::Estimate(Some(cost())),
        Event::Submission(true),
    ]);
    assert_eq!(count(&calls, is_estimate), 1);
    assert_eq!(count(&calls, is_submit), 1);
    let e = calls.iter().position(is_estimate).unwrap();
    let s = calls.iter().position(is_submit).unwrap();
    assert_eq!(s, e + 1);
    assert_eq!(calls.last(), Some(&Action::Stop { outcome: Outcome::SubmitFailed }));
    assert_eq!(Outcome::SubmitFailed.severity(), Severity::Error);
}

#[test]
fn no_confirmed_set_is_an_error() {
    let (_, calls) = run(vec![
        Event::Valsets(Some(vec![valset(3), valset(2)])),
        Event::Confirms(None),
        Event::Confirms(None),
    ]);
    assert_eq!(
        calls,
        vec![
            Action::ListValsets,
            Action::FetchConfirms { nonce: 3 },
            Action::FetchConfirms { nonce: 2 },
            Action::Stop { outcome: Outcome::NoConfirmedValset },
        ]
    );
    assert_eq!(Outcome::NoConfirmedValset.severity(), Severity::Error);
}

#[test]
fn answer_to_another_call_ends_the_cycle() {
    let (_, calls) = run(vec![
        Event::Valsets(Some(vec![valset(3)])),
        Event::Estimate(Some(cost())),
        Event::Confirms(Some(vec![3])),
    ]);
    assert_eq!(count(&calls, is_estimate), 0);
    assert_eq!(calls[2], Action::Stop { outcome: Outcome::UnexpectedEvent });
    assert_eq!(calls[3], Action::Stop { outcome: Outcome::UnexpectedEvent });
    assert_eq!(Outcome::UnexpectedEvent.severity(), Severity::Error);
}

#[test]
fn successful_submission_is_informational() {
    assert_eq!(Outcome::Submitted.severity(), Severity::Info);
}

#[test]
fn destination_is_read_as_the_key_owner() {
    let other = PrivateKey::from_bytes([9u8; 32]).unwrap();
    assert_ne!(key().to_address(), other.to_address());
    let (_, calls) = run(vec![
        Event::Valsets(Some(vec![valset(2)])),
        Event::Confirms(Some(vec![2])),
    ]);
    assert_eq!(calls[2], Action::FetchCurrentValset { signer: key().to_address() });
    assert_ne!(calls[2], Action::FetchCurrentValset { signer: other.to_address() });
}

#[test]
fn gas_cost_total_is_price_times_used() {
    assert_eq!(cost().total(), Some(3_000_000_000_000_000));
    assert_eq!(GasCost { gas_price: 0, gas_used: 21_000 }.total(), Some(0));
    assert_eq!(GasCost { gas_price: u128::MAX, gas_used: 1 }.total(), Some(u128::MAX));
    assert_eq!(GasCost { gas_price: u128::MAX, gas_used: 2 }.total(), None);
}
