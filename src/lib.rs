//! Decision core of a validator-set relayer.
//!
//! A relay cycle decides whether the validator set installed on the
//! destination chain is behind the latest quorum-confirmed set of the source
//! chain, and if so asks for a cost estimate and then for the submission of
//! the update. The cycle is a state machine: every remote call is an
//! [`Action`] that the caller performs, and its answer comes back as an
//! [`Event`].

mod cycle;
mod laws;
mod signer;
mod valset;

pub use cycle::{
    initial_stage, next_stage, pending_call, severity_of, Action, Event, Outcome, Phase, RelayCycle,
    Severity, Stage,
};
pub use laws::{
    call_at, lemma_at_most_one_estimate_and_submission, lemma_destination_answer,
    lemma_finished_stays_finished, lemma_first_confirmed_is_candidate, lemma_no_confirmed_valset,
    lemma_no_valsets_no_calls,
    lemma_relays_only_forward, lemma_submission_follows_estimate, stage_after,
};
pub use valset::{GasCost, Valset, ValsetMember};
