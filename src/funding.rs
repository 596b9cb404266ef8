use vstd::prelude::*;
use crate::address::{parse_address, spec_parse_address, Address};
use crate::error::GatewayError;
use crate::requests::GetAirdrop;
use crate::transfer::{lamports_of_sol, spec_lamports_of_sol};

verus! {

/// Milliseconds to wait between two balance reads after a funds request.
pub const POLL_INTERVAL_MS: u64 = 1000;

/// Most waits after a funds request; with the interval this bounds the whole
/// wait at ten seconds.
pub const MAX_POLLS: u64 = 10;

/// Where a funding confirmation stands.
#[derive(Debug, Clone, Copy, PartialEq, Eq)]
pub enum FundingStage {
    /// Waiting for the balance before the request.
    ReadBefore,
    /// Waiting for the faucet's answer.
    RequestFunds,
    /// Waiting for a wait interval to end.
    Waiting,
    /// Waiting for a balance read after the request.
    ReadAfter,
    /// Done; nothing more is expected.
    Finished,
}

/// The balances observed around a funds request.
#[derive(Debug, Clone, Copy, PartialEq, Eq)]
pub struct FundingReport {
    pub before: u64,
    pub after: u64,
    /// Whether the faucet accepted the request (it may still be pending).
    pub faucet_accepted: bool,
}

/// What the caller must do next.
#[derive(Debug, Clone, PartialEq, Eq)]
pub enum FundingAction {
    /// Read the address's balance and hand back `Balance` or `BalanceFailed`.
    QueryBalance,
    /// Ask the faucet for `lamports` and hand back `FaucetAccepted` or `FaucetFailed`.
    RequestFunds { lamports: u64 },
    /// Wait `millis` milliseconds and hand back `Slept`.
    Sleep { millis: u64 },
    /// Done: the observed balances.
    Report(FundingReport),
    /// Done: the operation failed.
    Fail(GatewayError),
}

/// What happened when the caller performed the last action.
#[derive(Debug, Clone, PartialEq, Eq)]
pub enum FundingEvent {
    Balance(u64),
    BalanceFailed(GatewayError),
    FaucetAccepted,
    FaucetFailed,
    Slept,
}

/// A funding confirmation in progress.
#[derive(Debug, Clone, Copy, PartialEq, Eq)]
pub struct FundingPoll {
    pub address: Address,
    pub lamports: u64,
    pub stage: FundingStage,
    pub before: u64,
    pub faucet_accepted: bool,
    /// Waits still allowed after the one in progress or next due.
    pub polls_left: u64,
}

impl FundingPoll {
    pub open spec fn wf(&self) -> bool {
        self.polls_left < MAX_POLLS
    }

    /// Steps left before the confirmation is finished, at most.
    pub open spec fn remaining(&self) -> nat {
        match self.stage {
            FundingStage::ReadBefore => 4 + 2 * self.polls_left as nat,
            FundingStage::RequestFunds => 3 + 2 * self.polls_left as nat,
            FundingStage::Waiting => 2 + 2 * self.polls_left as nat,
            FundingStage::ReadAfter => 1 + 2 * self.polls_left as nat,
            FundingStage::Finished => 0,
        }
    }

    /// Wait actions still to be asked for before the end, at most.
    pub open spec fn waits_left(&self) -> nat {
        match self.stage {
            FundingStage::ReadBefore | FundingStage::RequestFunds => 1 + self.polls_left as nat,
            FundingStage::Waiting | FundingStage::ReadAfter => self.polls_left as nat,
            FundingStage::Finished => 0,
        }
    }

    /// The transition on `e`: the next state and the action it asks for.
    pub open spec fn spec_step(self, e: FundingEvent) -> (FundingPoll, FundingAction) {
        let done = FundingPoll { stage: FundingStage::Finished, ..self };
        match (self.stage, e) {
            (FundingStage::ReadBefore, FundingEvent::Balance(b)) => (
                FundingPoll { stage: FundingStage::RequestFunds, before: b, ..self },
                FundingAction::RequestFunds { lamports: self.lamports },
            ),
            (FundingStage::RequestFunds, FundingEvent::FaucetAccepted) => (
                FundingPoll { stage: FundingStage::Waiting, faucet_accepted: true, ..self },
                FundingAction::Sleep { millis: POLL_INTERVAL_MS },
            ),
            (FundingStage::RequestFunds, FundingEvent::FaucetFailed) => (
                FundingPoll { stage: FundingStage::Waiting, faucet_accepted: false, ..self },
                FundingAction::Sleep { millis: POLL_INTERVAL_MS },
            ),
            (FundingStage::Waiting, FundingEvent::Slept) => (
                FundingPoll { stage: FundingStage::ReadAfter, ..self },
                FundingAction::QueryBalance,
            ),
            (FundingStage::ReadAfter, FundingEvent::Balance(b)) =>
                if b != self.before || self.polls_left == 0 {
                    (done, FundingAction::Report(FundingReport {
                        before: self.before,
                        after: b,
                        faucet_accepted: self.faucet_accepted,
                    }))
                } else {
                    (
                        FundingPoll {
                            stage: FundingStage::Waiting,
                            polls_left: (self.polls_left - 1) as u64,
                            ..self
                        },
                        FundingAction::Sleep { millis: POLL_INTERVAL_MS },
                    )
                },
            (FundingStage::ReadBefore, FundingEvent::BalanceFailed(err)) => (done, FundingAction::Fail(err)),
            (FundingStage::ReadAfter, FundingEvent::BalanceFailed(err)) => (done, FundingAction::Fail(err)),
            _ => (done, FundingAction::Fail(GatewayError::OutOfOrder)),
        }
    }
}

/// What `FundingPoll::start` yields for a request: the address and the
/// amount in smallest units.
pub open spec fn spec_start(wallet: Seq<char>, sol: u64) -> Result<(Seq<u8>, u64), GatewayError> {
    match spec_parse_address(wallet) {
        Err(e) => Err(e),
        Ok(a) => match spec_lamports_of_sol(sol) {
            Err(e) => Err(e),
            Ok(l) => Ok((a, l)),
        },
    }
}

impl FundingPoll {
    /// Starts a funding confirmation for a request: validates the address
    /// and amount, then asks for the balance before the request.
    pub fn start(req: &GetAirdrop) -> (r: Result<(FundingPoll, FundingAction), GatewayError>)
        ensures
            match r {
                Ok((p, a)) => spec_start(req.wallet@, req.sol)
                    == Ok::<(Seq<u8>, u64), GatewayError>((p.address@, p.lamports))
                    && p.wf() && p.stage == FundingStage::ReadBefore && !p.faucet_accepted
                    && p.before == 0 && p.polls_left == MAX_POLLS - 1
                    && p.waits_left() == MAX_POLLS && a == FundingAction::QueryBalance,
                Err(e) => spec_start(req.wallet@, req.sol) == Err::<(Seq<u8>, u64), GatewayError>(e),
            },
    {
        let address = match parse_address(req.wallet.as_str()) {
            Ok(a) => a,
            Err(e) => return Err(e),
        };
        let lamports = match lamports_of_sol(req.sol) {
            Ok(l) => l,
            Err(e) => return Err(e),
        };
        let p = FundingPoll {
            address,
            lamports,
            stage: FundingStage::ReadBefore,
            before: 0,
            faucet_accepted: false,
            polls_left: MAX_POLLS - 1,
        };
        Ok((p, FundingAction::QueryBalance))
    }

    /// Advances the confirmation on the outcome of the last action.
    pub fn step(&self, e: FundingEvent) -> (r: (FundingPoll, FundingAction))
        requires
            self.wf(),
        ensures
            r == self.spec_step(e),
            r.0.wf(),
    {
        let done = FundingPoll { stage: FundingStage::Finished, ..*self };
        match (self.stage, e) {
            (FundingStage::ReadBefore, FundingEvent::Balance(b)) => (
                FundingPoll { stage: FundingStage::RequestFunds, before: b, ..*self },
                FundingAction::RequestFunds { lamports: self.lamports },
            ),
            (FundingStage::RequestFunds, FundingEvent::FaucetAccepted) => (
                FundingPoll { stage: FundingStage::Waiting, faucet_accepted: true, ..*self },
                FundingAction::Sleep { millis: POLL_INTERVAL_MS },
            ),
            (FundingStage::RequestFunds, FundingEvent::FaucetFailed) => (
                FundingPoll { stage: FundingStage::Waiting, faucet_accepted: false, ..*self },
                FundingAction::Sleep { millis: POLL_INTERVAL_MS },
            ),
            (FundingStage::Waiting, FundingEvent::Slept) => (
                FundingPoll { stage: FundingStage::ReadAfter, ..*self },
                FundingAction::QueryBalance,
            ),
            (FundingStage::ReadAfter, FundingEvent::Balance(b)) => {
                if b != self.before || self.polls_left == 0 {
                    (done, FundingAction::Report(FundingReport {
                        before: self.before,
                        after: b,
                        faucet_accepted: self.faucet_accepted,
                    }))
                } else {
                    (
                        FundingPoll {
                            stage: FundingStage::Waiting,
                            polls_left: self.polls_left - 1,
                            ..*self
                        },
                        FundingAction::Sleep { millis: POLL_INTERVAL_MS },
                    )
                }
            },
            (FundingStage::ReadBefore, FundingEvent::BalanceFailed(err)) => (done, FundingAction::Fail(err)),
            (FundingStage::ReadAfter, FundingEvent::BalanceFailed(err)) => (done, FundingAction::Fail(err)),
            _ => (done, FundingAction::Fail(GatewayError::OutOfOrder)),
        }
    }
}

/// Every step of an unfinished confirmation either finishes it or brings it
/// strictly closer to the end, whatever the faucet answered; only a wait
/// action uses up one of the bounded waits, and a finished confirmation
/// reports balances read from the node (never negative).
pub proof fn lemma_funding_step_bounded(p: FundingPoll, e: FundingEvent)
    requires
        p.wf(),
        p.stage != FundingStage::Finished,
    ensures
        ({
            let (n, a) = p.spec_step(e);
            &&& n.wf()
            &&& n.remaining() < p.remaining()
            &&& (n.stage == FundingStage::Finished <==> (a is Report || a is Fail))
            &&& a is Sleep ==> a->millis == POLL_INTERVAL_MS && n.waits_left() + 1 == p.waits_left()
            &&& !(a is Sleep) ==> n.waits_left() <= p.waits_left()
            &&& a matches FundingAction::Report(rep) ==> rep.before == p.before && rep.before >= 0 && rep.after >= 0
            &&& n.address == p.address && n.lamports == p.lamports
            &&& p.stage != FundingStage::ReadBefore ==> n.before == p.before
        }),
{
}

/// The two confirmations differ at most in whether the faucet accepted.
pub open spec fn same_but_faucet(p: FundingPoll, q: FundingPoll) -> bool {
    FundingPoll { faucet_accepted: q.faucet_accepted, ..p } == q
}

/// The action with any faucet outcome in a report replaced by `accepted`.
pub open spec fn with_faucet(a: FundingAction, accepted: bool) -> FundingAction {
    match a {
        FundingAction::Report(rep) => FundingAction::Report(FundingReport { faucet_accepted: accepted, ..rep }),
        _ => a,
    }
}

/// Whether the faucet accepted or refused the request changes nothing but
/// that flag: both answers lead to the same wait and to states that differ
/// only in the flag.
pub proof fn lemma_faucet_outcome_irrelevant(p: FundingPoll)
    requires
        p.stage == FundingStage::RequestFunds,
    ensures
        p.spec_step(FundingEvent::FaucetAccepted).1 == p.spec_step(FundingEvent::FaucetFailed).1,
        same_but_faucet(p.spec_step(FundingEvent::FaucetAccepted).0, p.spec_step(FundingEvent::FaucetFailed).0),
{
}

/// Two confirmations that differ only in the faucet flag stay so on every
/// event, and ask for the same actions, reports alike but for the flag: the
/// balances reported never depend on the faucet's answer.
pub proof fn lemma_step_ignores_faucet(p: FundingPoll, q: FundingPoll, e: FundingEvent)
    requires
        same_but_faucet(p, q),
    ensures
        same_but_faucet(p.spec_step(e).0, q.spec_step(e).0),
        with_faucet(p.spec_step(e).1, q.faucet_accepted) == q.spec_step(e).1,
{
}

} // verus!
