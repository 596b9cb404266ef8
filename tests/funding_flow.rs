use wallet_gateway::error::GatewayError;
use wallet_gateway::funding::{
    FundingAction, FundingEvent, FundingPoll, FundingReport, FundingStage, MAX_POLLS, POLL_INTERVAL_MS,
};
use wallet_gateway::requests::GetAirdrop;

const WALLET: &str = "SysvarRent111111111111111111111111111111111";

fn started(sol: u64) -> FundingPoll {
    let (p, a) = FundingPoll::start(&GetAirdrop { wallet: String::from(WALLET), sol }).unwrap();
    assert_eq!(a, FundingAction::QueryBalance);
    assert_eq!(p.stage, FundingStage::ReadBefore);
    p
}

/// Runs the confirmation against scripted balances; the faucet answers `faucet_ok`.
fn run(sol: u64, faucet_ok: bool, balances: &[u64]) -> (FundingAction, usize, usize) {
    let mut p = started(sol);
    let mut reads = 0usize;
    let mut sleeps = 0usize;
    let mut event = FundingEvent::Balance(balances[0]);
    reads += 1;
    for _ in 0..100 {
        let (n, a) = p.step(event);
        p = n;
        event = match a {
            FundingAction::QueryBalance => {
                let b = balances[reads.min(balances.len() - 1)];
                reads += 1;
                FundingEvent::Balance(b)
            }
            FundingAction::RequestFunds { .. } => {
                if faucet_ok { FundingEvent::FaucetAccepted } else { FundingEvent::FaucetFailed }
            }
            FundingAction::Sleep { millis } => {
                assert_eq!(millis, POLL_INTERVAL_MS);
                sleeps += 1;
                FundingEvent::Slept
            }
            done => return (done, reads, sleeps),
        };
    }
    panic!("confirmation did not finish");
}

#[test]
fn requests_amount_in_smallest_units() {
    let p = started(1);
    let (n, a) = p.step(FundingEvent::Balance(5));
    assert_eq!(a, FundingAction::RequestFunds { lamports: 1_000_000_000 });
    assert_eq!(n.before, 5);
}

#[test]
fn reports_credit_as_soon_as_it_is_seen() {
    let b = 42u64;
    let (a, reads, sleeps) = run(1, true, &[b, b, b + 1_000_000_000]);
    assert_eq!(a, FundingAction::Report(FundingReport { before: b, after: b + 1_000_000_000, faucet_accepted: true }));
    assert_eq!(reads, 3);
    assert_eq!(sleeps, 2);
}

#[test]
fn reports_unchanged_balance_after_bounded_wait() {
    let b = 7u64;
    let (a, reads, sleeps) = run(1, true, &[b]);
    assert_eq!(a, FundingAction::Report(FundingReport { before: b, after: b, faucet_accepted: true }));
    assert_eq!(sleeps as u64, MAX_POLLS);
    assert_eq!(reads as u64, MAX_POLLS + 1);
    assert_eq!(MAX_POLLS * POLL_INTERVAL_MS, 10_000);
}

#[test]
fn faucet_failure_still_reports_balances() {
    let (a, _, sleeps) = run(1, false, &[0]);
    assert_eq!(a, FundingAction::Report(FundingReport { before: 0, after: 0, faucet_accepted: false }));
    assert_eq!(sleeps as u64, MAX_POLLS);
}

#[test]
fn balance_failure_is_reported() {
    let p = started(1);
    let (n, a) = p.step(FundingEvent::BalanceFailed(GatewayError::RemoteUnavailable));
    assert_eq!(a, FundingAction::Fail(GatewayError::RemoteUnavailable));
    assert_eq!(n.stage, FundingStage::Finished);
    let (n, _) = p.step(FundingEvent::Balance(3));
    let (n, _) = n.step(FundingEvent::FaucetAccepted);
    let (n, _) = n.step(FundingEvent::Slept);
    let (_, a) = n.step(FundingEvent::BalanceFailed(GatewayError::AccountNotFound));
    assert_eq!(a, FundingAction::Fail(GatewayError::AccountNotFound));
}

#[test]
fn out_of_order_event_ends_confirmation() {
    let p = started(1);
    let (n, a) = p.step(FundingEvent::Slept);
    assert_eq!(a, FundingAction::Fail(GatewayError::OutOfOrder));
    assert_eq!(n.stage, FundingStage::Finished);
    let (_, a) = n.step(FundingEvent::Balance(1));
    assert_eq!(a, FundingAction::Fail(GatewayError::OutOfOrder));
}

#[test]
fn start_rejects_bad_input() {
    let r = FundingPoll::start(&GetAirdrop { wallet: String::from("nope"), sol: 1 });
    assert_eq!(r, Err(GatewayError::InvalidAddress));
    let r = FundingPoll::start(&GetAirdrop { wallet: String::from(WALLET), sol: u64::MAX });
    assert_eq!(r, Err(GatewayError::AmountOverflow));
}

#[test]
fn faucet_answer_changes_only_the_flag() {
    let (accepted, _, _) = run(1, true, &[10, 10, 10, 30]);
    let (refused, _, _) = run(1, false, &[10, 10, 10, 30]);
    assert_eq!(accepted, FundingAction::Report(FundingReport { before: 10, after: 30, faucet_accepted: true }));
    assert_eq!(refused, FundingAction::Report(FundingReport { before: 10, after: 30, faucet_accepted: false }));
}

#[test]
fn one_unit_request_reports_prior_balance() {
    let b = 500u64;
    let (credited, _, _) = run(1, true, &[b, b + 1_000_000_000]);
    assert_eq!(credited, FundingAction::Report(FundingReport { before: b, after: b + 1_000_000_000, faucet_accepted: true }));
    let (pending, _, _) = run(1, true, &[b]);
    assert_eq!(pending, FundingAction::Report(FundingReport { before: b, after: b, faucet_accepted: true }));
}
