//! What holds of every run of a relay cycle, whatever the answers.
//!
//! A run is the sequence `evs` of answers fed to `RelayCycle::step` one
//! after another, starting from `RelayCycle::new`. The cycle's `n`-th call
//! is `call_at(signer, evs, n)`, and `evs[n]` answers it.
use crate::cycle::{initial_stage, next_stage, pending_call, Action, Event, Outcome, Stage};
use crate::valset::Valset;
use clarity::Address;
use vstd::prelude::*;

verus! {

/// The stage a cycle has reached after the first `n` answers of `evs`.
pub open spec fn stage_after<C>(evs: Seq<Event<C>>, n: nat) -> Stage<C>
    decreases n,
{
    if n == 0 {
        initial_stage()
    } else {
        next_stage(stage_after(evs, (n - 1) as nat), evs[n - 1])
    }
}

/// The call a cycle makes after the first `n` answers of `evs`.
pub open spec fn call_at<C>(signer: Address, evs: Seq<Event<C>>, n: nat) -> Action {
    pending_call(signer, stage_after(evs, n))
}

/// How far along its course a stage is; no answer moves a cycle back.
spec fn progress<C>(s: Stage<C>) -> nat {
    match s {
        Stage::ListingValsets => 0,
        Stage::FetchingConfirms { .. } => 1,
        Stage::FetchingCurrent { .. } => 2,
        Stage::Estimating { .. } => 3,
        Stage::Submitting { .. } => 4,
        Stage::Finished { .. } => 5,
    }
}

/// The candidate held at an estimate or a submission is ahead of the
/// destination's current set.
spec fn relays_forward<C>(s: Stage<C>) -> bool {
    match s {
        Stage::Estimating { candidate, current, .. } => candidate.nonce > current.nonce,
        Stage::Submitting { candidate, current, .. } => candidate.nonce > current.nonce,
        _ => true,
    }
}

proof fn lemma_step_progress<C>(s: Stage<C>, e: Event<C>)
    ensures
        progress(s) <= progress(next_stage(s, e)),
        progress(s) == 3 || progress(s) == 4 ==> progress(s) < progress(next_stage(s, e)),
        relays_forward(s) ==> relays_forward(next_stage(s, e)),
{
}

proof fn lemma_progress_monotone<C>(evs: Seq<Event<C>>, i: nat, j: nat)
    requires
        i <= j <= evs.len(),
    ensures
        progress(stage_after(evs, i)) <= progress(stage_after(evs, j)),
    decreases j - i,
{
    if i < j {
        lemma_progress_monotone(evs, i, (j - 1) as nat);
        lemma_step_progress(stage_after(evs, (j - 1) as nat), evs[j - 1]);
    }
}

/// Every estimate and every submission that a cycle asks for moves the
/// destination from a lower nonce to a strictly higher one: where the
/// destination's nonce is at or above the candidate's, neither is asked for.
pub proof fn lemma_relays_only_forward<C>(signer: Address, evs: Seq<Event<C>>, n: nat)
    requires
        n <= evs.len(),
    ensures
        call_at(signer, evs, n) matches Action::EstimateCost { candidate_nonce, current_nonce }
            ==> candidate_nonce > current_nonce,
        call_at(signer, evs, n) matches Action::Submit { candidate_nonce, current_nonce, .. }
            ==> candidate_nonce > current_nonce,
{
    lemma_stage_relays_forward(evs, n);
}

proof fn lemma_stage_relays_forward<C>(evs: Seq<Event<C>>, n: nat)
    requires
        n <= evs.len(),
    ensures
        relays_forward(stage_after(evs, n)),
    decreases n,
{
    if n > 0 {
        lemma_stage_relays_forward(evs, (n - 1) as nat);
        lemma_step_progress(stage_after(evs, (n - 1) as nat), evs[n - 1]);
    }
}

/// A cycle asks for at most one estimate and at most one submission.
pub proof fn lemma_at_most_one_estimate_and_submission<C>(
    signer: Address,
    evs: Seq<Event<C>>,
    i: nat,
    j: nat,
)
    requires
        i <= j <= evs.len(),
    ensures
        call_at(signer, evs, i) is EstimateCost && call_at(signer, evs, j) is EstimateCost ==> i
            == j,
        call_at(signer, evs, i) is Submit && call_at(signer, evs, j) is Submit ==> i == j,
{
    if i < j {
        lemma_step_progress(stage_after(evs, i), evs[i as int]);
        lemma_progress_monotone(evs, i + 1, j);
    }
}

/// A submission is asked for only right after the answer to an estimate
/// of the same update arrived with a cost, and it carries that cost; the
/// candidate, the current set and the confirmations are the ones that were
/// priced.
pub proof fn lemma_submission_follows_estimate<C>(signer: Address, evs: Seq<Event<C>>, j: nat)
    requires
        j <= evs.len(),
        call_at(signer, evs, j) is Submit,
    ensures
        j >= 1,
        call_at(signer, evs, (j - 1) as nat) matches Action::EstimateCost {
            candidate_nonce,
            current_nonce,
        } && call_at(signer, evs, j) matches Action::Submit {
            candidate_nonce: c,
            current_nonce: u,
            cost,
        } && c == candidate_nonce && u == current_nonce && evs[j - 1] == Event::<C>::Estimate(
            Some(cost),
        ),
        stage_after(evs, (j - 1) as nat) matches Stage::Estimating { candidate, current, confirms }
            && stage_after(evs, j) matches Stage::Submitting {
            candidate: c2,
            current: u2,
            confirms: f2,
            ..
        } && c2 == candidate && u2 == current && f2 == confirms,
{
    if j == 0 {
        assert(stage_after(evs, 0) == initial_stage::<C>());
    }
}

/// Once a cycle has finished it makes no call but the stop, and its outcome
/// does not change.
pub proof fn lemma_finished_stays_finished<C>(evs: Seq<Event<C>>, i: nat, j: nat)
    requires
        i <= j <= evs.len(),
        stage_after(evs, i) is Finished,
    ensures
        stage_after(evs, j) == stage_after(evs, i),
    decreases j - i,
{
    if i < j {
        lemma_finished_stays_finished(evs, i, (j - 1) as nat);
    }
}

/// A cycle whose listing of validator sets fails, or comes back empty,
/// makes no call after it but the stop: no confirmations, no estimate, no
/// submission.
pub proof fn lemma_no_valsets_no_calls<C>(signer: Address, evs: Seq<Event<C>>, n: nat)
    requires
        1 <= n <= evs.len(),
        evs[0] matches Event::Valsets(listed) && (listed is None || listed->Some_0@.len() == 0),
    ensures
        call_at(signer, evs, n) == (Action::Stop {
            outcome: if evs[0]->Valsets_0 is None {
                Outcome::ValsetQueryFailed
            } else {
                Outcome::NoValsets
            },
        }),
{
    assert(stage_after(evs, 0) == initial_stage::<C>());
    assert(stage_after(evs, 1) is Finished);
    lemma_finished_stays_finished(evs, 1, n);
}

proof fn lemma_scan_prefix<C>(evs: Seq<Event<C>>, sets: Vec<Valset>, i: nat)
    requires
        1 <= i <= sets@.len(),
        i <= evs.len(),
        evs[0] == Event::<C>::Valsets(Some(sets)),
        forall|m: int| 1 <= m < i ==> evs[m] == Event::<C>::Confirms(None),
    ensures
        stage_after(evs, i) == (Stage::<C>::FetchingConfirms {
            asked: sets@[i - 1],
            rest: sets@.skip(i as int),
        }),
    decreases i,
{
    if i == 1 {
        assert(stage_after(evs, 0) == initial_stage::<C>());
        assert(sets@.drop_first() =~= sets@.skip(1));
    } else {
        lemma_scan_prefix(evs, sets, (i - 1) as nat);
        assert(sets@.skip(i - 1).drop_first() =~= sets@.skip(i as int));
    }
}

/// The listed sets are asked about one by one in the order listed, and the
/// first one whose confirmation bundle arrives becomes the candidate, with
/// that bundle. No later set is asked about, whether or not it has
/// confirmations.
pub proof fn lemma_first_confirmed_is_candidate<C>(
    signer: Address,
    evs: Seq<Event<C>>,
    sets: Vec<Valset>,
    k: nat,
    confirms: C,
)
    requires
        k < sets@.len(),
        k + 2 <= evs.len(),
        evs[0] == Event::<C>::Valsets(Some(sets)),
        forall|m: int| 1 <= m <= k ==> evs[m] == Event::<C>::Confirms(None),
        evs[k + 1 as int] == Event::<C>::Confirms(Some(confirms)),
    ensures
        forall|i: nat|
            1 <= i <= k + 1 ==> call_at(signer, evs, i) == (Action::FetchConfirms {
                nonce: sets@[i - 1].nonce,
            }),
        stage_after(evs, k + 2) == (Stage::FetchingCurrent { candidate: sets@[k as int], confirms }),
        forall|m: nat|
            k + 2 <= m <= evs.len() ==> !(call_at(signer, evs, m) is FetchConfirms),
{
    assert forall|i: nat| 1 <= i <= k + 1 implies call_at(signer, evs, i) == (Action::FetchConfirms {
        nonce: sets@[i - 1].nonce,
    }) by {
        lemma_scan_prefix(evs, sets, i);
    }
    lemma_scan_prefix(evs, sets, k + 1);
    assert forall|m: nat| k + 2 <= m <= evs.len() implies !(call_at(
        signer,
        evs,
        m,
    ) is FetchConfirms) by {
        lemma_progress_monotone(evs, k + 2, m);
    }
}

/// What the destination's answer decides: a set behind the candidate brings
/// an estimate of the update between the two, and an estimate that arrives
/// brings the submission of that update at that cost; a set at or above the
/// candidate ends the cycle as up to date.
pub proof fn lemma_destination_answer<C>(
    signer: Address,
    evs: Seq<Event<C>>,
    n: nat,
    current: Valset,
)
    requires
        n + 1 <= evs.len(),
        stage_after(evs, n) is FetchingCurrent,
        evs[n as int] == Event::<C>::CurrentValset(Some(current)),
    ensures
        ({
            let candidate = stage_after(evs, n)->FetchingCurrent_candidate;
            &&& candidate.nonce > current.nonce ==> call_at(signer, evs, n + 1) == (
            Action::EstimateCost { candidate_nonce: candidate.nonce, current_nonce: current.nonce })
            &&& candidate.nonce > current.nonce && n + 2 <= evs.len() ==> (evs[n + 1 as int] matches Event::<
                C,
            >::Estimate(Some(cost)) ==> call_at(signer, evs, n + 2) == (Action::Submit {
                candidate_nonce: candidate.nonce,
                current_nonce: current.nonce,
                cost,
            }))
            &&& candidate.nonce <= current.nonce ==> stage_after(evs, n + 1) == (Stage::<
                C,
            >::Finished { outcome: Outcome::UpToDate })
        }),
{
}

/// Where no listed set has a retrievable confirmation bundle, the cycle asks
/// about each of them once and then ends without a candidate.
pub proof fn lemma_no_confirmed_valset<C>(evs: Seq<Event<C>>, sets: Vec<Valset>)
    requires
        sets@.len() >= 1,
        sets@.len() + 1 <= evs.len(),
        evs[0] == Event::<C>::Valsets(Some(sets)),
        forall|m: int| 1 <= m <= sets@.len() ==> evs[m] == Event::<C>::Confirms(None),
    ensures
        stage_after(evs, sets@.len() + 1) == (Stage::<C>::Finished {
            outcome: Outcome::NoConfirmedValset,
        }),
{
    lemma_scan_prefix(evs, sets, sets@.len());
}

} // verus!
