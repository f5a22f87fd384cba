use crate::valset::{GasCost, Valset};
use clarity::{Address, PrivateKey};
use vstd::prelude::*;

verus! {

/// How a relay cycle ended.
#[derive(Clone, Copy, Debug, PartialEq, Eq, Structural)]
pub enum Outcome {
    /// The source chain could not list its validator sets.
    ValsetQueryFailed,
    /// The source chain has no validator set yet.
    NoValsets,
    /// No listed validator set has a retrievable confirmation bundle.
    NoConfirmedValset,
    /// The destination chain's active validator set could not be read.
    CurrentValsetUnavailable,
    /// The destination chain already holds the candidate or a later set.
    UpToDate,
    /// The update could not be priced, so it was not sent.
    EstimateFailed,
    /// The update transaction was accepted.
    Submitted,
    /// The update transaction failed; the next cycle tries again.
    SubmitFailed,
    /// An answer arrived that does not answer the pending call.
    UnexpectedEvent,
}

/// How loudly an outcome is worth reporting.
#[derive(Clone, Copy, Debug, PartialEq, Eq, Structural)]
pub enum Severity {
    Trace,
    Info,
    Error,
}

/// The severity of each outcome.
pub open spec fn severity_of(o: Outcome) -> Severity {
    match o {
        Outcome::ValsetQueryFailed | Outcome::NoValsets | Outcome::UpToDate => Severity::Trace,
        Outcome::Submitted => Severity::Info,
        _ => Severity::Error,
    }
}

impl Outcome {
    /// Bootstrap conditions and an up-to-date destination are routine;
    /// every other way a cycle stops short is an error.
    pub fn severity(&self) -> (r: Severity)
        ensures
            r == severity_of(*self),
    {
        match self {
            Outcome::ValsetQueryFailed | Outcome::NoValsets | Outcome::UpToDate => Severity::Trace,
            Outcome::Submitted => Severity::Info,
            _ => Severity::Error,
        }
    }
}

/// The remote call that a cycle asks for next.
#[derive(Clone, Copy, Debug, PartialEq, Eq)]
pub enum Action {
    /// List the source chain's validator sets, most recent first.
    ListValsets,
    /// Fetch the confirmation bundle of the set with this nonce.
    FetchConfirms { nonce: u64 },
    /// Read the validator set active on the destination chain.
    FetchCurrentValset { signer: Address },
    /// Price the update from the current set to the candidate.
    EstimateCost { candidate_nonce: u64, current_nonce: u64 },
    /// Send the update from the current set to the candidate.
    Submit { candidate_nonce: u64, current_nonce: u64, cost: GasCost },
    /// Make no further call: the cycle is over.
    Stop { outcome: Outcome },
}

/// The answer to the last [`Action`]. `None` (or `false`) stands for a
/// failed or timed-out remote call, or for a set that has no confirmation
/// bundle yet.
pub enum Event<C> {
    Valsets(Option<Vec<Valset>>),
    Confirms(Option<C>),
    CurrentValset(Option<Valset>),
    Estimate(Option<GasCost>),
    Submission(bool),
}

/// Where a cycle stands. `C` is the confirmation bundle, which the cycle
/// carries from the source chain to the estimate and the submission
/// without looking into it.
pub enum Phase<C> {
    ListingValsets,
    /// `asked` is the set whose confirmations were requested; `rest` are the
    /// sets listed after it, not yet asked about.
    FetchingConfirms { asked: Valset, rest: Vec<Valset> },
    FetchingCurrent { candidate: Valset, confirms: C },
    Estimating { candidate: Valset, current: Valset, confirms: C },
    Submitting { candidate: Valset, current: Valset, confirms: C, cost: GasCost },
    Finished { outcome: Outcome },
}

/// The mathematical model of a [`Phase`]: the same, with sequences for vectors.
pub enum Stage<C> {
    ListingValsets,
    FetchingConfirms { asked: Valset, rest: Seq<Valset> },
    FetchingCurrent { candidate: Valset, confirms: C },
    Estimating { candidate: Valset, current: Valset, confirms: C },
    Submitting { candidate: Valset, current: Valset, confirms: C, cost: GasCost },
    Finished { outcome: Outcome },
}

impl<C> View for Phase<C> {
    type V = Stage<C>;

    open spec fn view(&self) -> Stage<C> {
        match self {
            Phase::ListingValsets => Stage::ListingValsets,
            Phase::FetchingConfirms { asked, rest } => Stage::FetchingConfirms {
                asked: *asked,
                rest: rest@,
            },
            Phase::FetchingCurrent { candidate, confirms } => Stage::FetchingCurrent {
                candidate: *candidate,
                confirms: *confirms,
            },
            Phase::Estimating { candidate, current, confirms } => Stage::Estimating {
                candidate: *candidate,
                current: *current,
                confirms: *confirms,
            },
            Phase::Submitting { candidate, current, confirms, cost } => Stage::Submitting {
                candidate: *candidate,
                current: *current,
                confirms: *confirms,
                cost: *cost,
            },
            Phase::Finished { outcome } => Stage::Finished { outcome: *outcome },
        }
    }
}

/// The stage a cycle starts in.
pub open spec fn initial_stage<C>() -> Stage<C> {
    Stage::ListingValsets
}

/// The stage that the answer `e` moves stage `s` to.
pub open spec fn next_stage<C>(s: Stage<C>, e: Event<C>) -> Stage<C> {
    match s {
        Stage::ListingValsets => match e {
            Event::Valsets(None) => Stage::Finished { outcome: Outcome::ValsetQueryFailed },
            Event::Valsets(Some(sets)) => if sets@.len() == 0 {
                Stage::Finished { outcome: Outcome::NoValsets }
            } else {
                Stage::FetchingConfirms { asked: sets@[0], rest: sets@.drop_first() }
            },
            _ => Stage::Finished { outcome: Outcome::UnexpectedEvent },
        },
        Stage::FetchingConfirms { asked, rest } => match e {
            Event::Confirms(Some(c)) => Stage::FetchingCurrent { candidate: asked, confirms: c },
            Event::Confirms(None) => if rest.len() == 0 {
                Stage::Finished { outcome: Outcome::NoConfirmedValset }
            } else {
                Stage::FetchingConfirms { asked: rest[0], rest: rest.drop_first() }
            },
            _ => Stage::Finished { outcome: Outcome::UnexpectedEvent },
        },
        Stage::FetchingCurrent { candidate, confirms } => match e {
            Event::CurrentValset(None) => Stage::Finished {
                outcome: Outcome::CurrentValsetUnavailable,
            },
            Event::CurrentValset(Some(current)) => if candidate.nonce > current.nonce {
                Stage::Estimating { candidate, current, confirms }
            } else {
                Stage::Finished { outcome: Outcome::UpToDate }
            },
            _ => Stage::Finished { outcome: Outcome::UnexpectedEvent },
        },
        Stage::Estimating { candidate, current, confirms } => match e {
            Event::Estimate(None) => Stage::Finished { outcome: Outcome::EstimateFailed },
            Event::Estimate(Some(cost)) => Stage::Submitting { candidate, current, confirms, cost },
            _ => Stage::Finished { outcome: Outcome::UnexpectedEvent },
        },
        Stage::Submitting { .. } => match e {
            Event::Submission(true) => Stage::Finished { outcome: Outcome::Submitted },
            Event::Submission(false) => Stage::Finished { outcome: Outcome::SubmitFailed },
            _ => Stage::Finished { outcome: Outcome::UnexpectedEvent },
        },
        Stage::Finished { outcome } => Stage::Finished { outcome },
    }
}

/// The call that a cycle in stage `s`, signing as `signer`, asks for.
pub open spec fn pending_call<C>(signer: Address, s: Stage<C>) -> Action {
    match s {
        Stage::ListingValsets => Action::ListValsets,
        Stage::FetchingConfirms { asked, .. } => Action::FetchConfirms { nonce: asked.nonce },
        Stage::FetchingCurrent { .. } => Action::FetchCurrentValset { signer },
        Stage::Estimating { candidate, current, .. } => Action::EstimateCost {
            candidate_nonce: candidate.nonce,
            current_nonce: current.nonce,
        },
        Stage::Submitting { candidate, current, cost, .. } => Action::Submit {
            candidate_nonce: candidate.nonce,
            current_nonce: current.nonce,
            cost,
        },
        Stage::Finished { outcome } => Action::Stop { outcome },
    }
}

/// One relay cycle of a relayer that signs as `signer`.
pub struct RelayCycle<C> {
    pub signer: Address,
    pub phase: Phase<C>,
}

impl<C> RelayCycle<C> {
    /// Starts a cycle for the relayer holding `key`; the first call it asks
    /// for is the listing of the source chain's validator sets.
    pub fn new(key: PrivateKey) -> (r: (RelayCycle<C>, Action))
        ensures
            r.0.phase@ == initial_stage::<C>(),
            r.1 == Action::ListValsets,
    {
        (RelayCycle { signer: key.to_address(), phase: Phase::ListingValsets }, Action::ListValsets)
    }
    /// Feeds the answer to the pending call into the cycle, and returns the
    /// cycle in its next phase with the call that it asks for now.
    ///
    /// The listed sets are asked about in the order given, and the first one
    /// whose confirmations arrive is the candidate; later ones are not asked
    /// about. An estimate is asked for only when the candidate's nonce is
    /// above the destination's, and a submission only after an estimate
    /// arrived. A finished cycle stays finished.
    pub fn step(self, e: Event<C>) -> (r: (RelayCycle<C>, Action))
        ensures
            r.0.signer == self.signer,
            r.0.phase@ == next_stage(self.phase@, e),
            r.1 == pending_call(self.signer, r.0.phase@),
    {
        let signer = self.signer;
        let unexpected = Phase::Finished { outcome: Outcome::UnexpectedEvent };
        let phase = match self.phase {
            Phase::ListingValsets => match e {
                Event::Valsets(None) => Phase::Finished { outcome: Outcome::ValsetQueryFailed },
                Event::Valsets(Some(sets)) => {
                    let mut sets = sets;
                    if sets.len() == 0 {
                        Phase::Finished { outcome: Outcome::NoValsets }
                    } else {
                        let asked = sets.remove(0);
                        assert(sets@ =~= e->Valsets_0->Some_0@.drop_first());
                        Phase::FetchingConfirms { asked, rest: sets }
                    }
                },
                _ => unexpected,
            },
            Phase::FetchingConfirms { asked, rest } => match e {
                Event::Confirms(Some(c)) => Phase::FetchingCurrent { candidate: asked, confirms: c },
                Event::Confirms(None) => {
                    let ghost old_rest = rest@;
                    let mut rest = rest;
                    if rest.len() == 0 {
                        Phase::Finished { outcome: Outcome::NoConfirmedValset }
                    } else {
                        let next = rest.remove(0);
                        assert(rest@ =~= old_rest.drop_first());
                        Phase::FetchingConfirms { asked: next, rest }
                    }
                },
                _ => unexpected,
            },
            Phase::FetchingCurrent { candidate, confirms } => match e {
                Event::CurrentValset(None) => Phase::Finished {
                    outcome: Outcome::CurrentValsetUnavailable,
                },
                Event::CurrentValset(Some(current)) => {
                    if candidate.nonce > current.nonce {
                        Phase::Estimating { candidate, current, confirms }
                    } else {
                        Phase::Finished { outcome: Outcome::UpToDate }
                    }
                },
                _ => unexpected,
            },
            Phase::Estimating { candidate, current, confirms } => match e {
                Event::Estimate(None) => Phase::Finished { outcome: Outcome::EstimateFailed },
                Event::Estimate(Some(cost)) => Phase::Submitting {
                    candidate,
                    current,
                    confirms,
                    cost,
                },
                _ => unexpected,
            },
            Phase::Submitting { .. } => match e {
                Event::Submission(true) => Phase::Finished { outcome: Outcome::Submitted },
                Event::Submission(false) => Phase::Finished { outcome: Outcome::SubmitFailed },
                _ => unexpected,
            },
            Phase::Finished { outcome } => Phase::Finished { outcome },
        };
        let action = call_for(signer, &phase);
        (RelayCycle { signer, phase }, action)
    }
}

/// The call that `phase` asks for.
fn call_for<C>(signer: Address, phase: &Phase<C>) -> (r: Action)
    ensures
        r == pending_call(signer, phase@),
{
    match phase {
        Phase::ListingValsets => Action::ListValsets,
        Phase::FetchingConfirms { asked, .. } => Action::FetchConfirms { nonce: asked.nonce },
        Phase::FetchingCurrent { .. } => Action::FetchCurrentValset { signer },
        Phase::Estimating { candidate, current, .. } => Action::EstimateCost {
            candidate_nonce: candidate.nonce,
            current_nonce: current.nonce,
        },
        Phase::Submitting { candidate, current, cost, .. } => Action::Submit {
            candidate_nonce: candidate.nonce,
            current_nonce: current.nonce,
            cost: *cost,
        },
        Phase::Finished { outcome } => Action::Stop { outcome: *outcome },
    }
}

} // verus!
