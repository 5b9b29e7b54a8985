//! The responses the library hands to its callers: the per-tick metrics
//! payload, the on-demand pet-state query, and the cleanup summary. The
//! transport that carries them (events, windows, locks) lives outside this
//! crate; these functions compute what is sent.

use crate::monitor::{metrics_of, push_sample, Metrics, RawReading, SystemMonitor};
use crate::pet::{description_of, emoji_of, pet_state_of, Pet, PetState};
use vstd::prelude::*;
use vstd::string::StringExecFns;

verus! {

/// Response containing current system metrics
pub struct MetricsResponse {
    pub metrics: Metrics,
    pub pet_state: PetState,
    pub pet_emoji: String,
    pub pet_description: String,
}

/// Response containing pet state information
pub struct PetStateResponse {
    pub state: PetState,
    pub emoji: String,
    pub description: String,
}

/// Response from cleanup operation
pub struct CleanupResponse {
    pub success: bool,
    pub deleted_mb: u64,
    pub message: String,
}

/// A metrics response is fully determined by the pet state and metrics it
/// reports: the strings are derived from the state alone.
pub open spec fn metrics_response_matches(r: MetricsResponse, m: Metrics, s: PetState) -> bool {
    &&& r.metrics == m
    &&& r.pet_state == s
    &&& r.pet_emoji@ == emoji_of(s)
    &&& r.pet_description@ == description_of(s)
}

/// A pet-state response is fully determined by the pet it was read from.
pub open spec fn pet_state_response_matches(r: PetStateResponse, p: Pet) -> bool {
    &&& r.state == p.spec_state()
    &&& r.emoji@ == emoji_of(p.spec_state())
    &&& r.description@ == description_of(p.spec_state())
}

/// One sampling-and-classification pass: compute the metrics snapshot from
/// the raw reading (smoothing the CPU sample into the monitor's window),
/// classify it, overwrite the pet's state, and report both with the derived
/// label strings. This is what both the periodic tick and the on-demand
/// metrics query publish.
pub fn get_metrics(monitor: &mut SystemMonitor, pet: &mut Pet, reading: &RawReading) -> (r:
    MetricsResponse)
    requires
        old(monitor).wf(),
        reading.cpu_percent <= 100,
    ensures
        final(monitor).wf(),
        final(monitor).history() == push_sample(old(monitor).history(), reading.cpu_percent),
        r.metrics == metrics_of(old(monitor).history(), *reading),
        r.metrics.valid(),
        r.pet_state == pet_state_of(r.metrics),
        final(pet).spec_state() == r.pet_state,
        metrics_response_matches(r, r.metrics, r.pet_state),
{
    let metrics = monitor.get_metrics(reading);
    let pet_state = pet.update(&metrics);

    MetricsResponse {
        metrics,
        pet_state,
        pet_emoji: String::from_str(pet.get_emoji()),
        pet_description: String::from_str(pet.get_icon_description()),
    }
}

/// The on-demand "get state only" query: report the cached pet state with
/// its label strings, refreshing nothing.
pub fn get_pet_state(pet: &Pet) -> (r: PetStateResponse)
    ensures
        pet_state_response_matches(r, *pet),
{
    PetStateResponse {
        state: pet.get_state(),
        emoji: String::from_str(pet.get_emoji()),
        description: String::from_str(pet.get_icon_description()),
    }
}

/// Reading the state twice without an intervening update yields identical
/// responses: the query result is a function of the pet's state alone.
pub proof fn lemma_get_pet_state_idempotent(p: Pet, r1: PetStateResponse, r2: PetStateResponse)
    requires
        pet_state_response_matches(r1, p),
        pet_state_response_matches(r2, p),
    ensures
        r1.state == r2.state,
        r1.emoji@ == r2.emoji@,
        r1.description@ == r2.description@,
{
}

/// Fold a cleanup outcome into the aggregate success flag and the count of
/// megabytes actually freed: a failed batch reports success `false` and no
/// bytes freed. The human-readable message is passed through untouched.
pub fn summarize_cleanup(outcome: Result<u64, String>, message: String) -> (r: CleanupResponse)
    ensures
        r.success == outcome is Ok,
        outcome matches Ok(mb) ==> r.deleted_mb == mb,
        outcome is Err ==> r.deleted_mb == 0,
        r.message@ == message@,
{
    match outcome {
        Ok(deleted_mb) => CleanupResponse { success: true, deleted_mb, message },
        Err(_) => CleanupResponse { success: false, deleted_mb: 0, message },
    }
}

} // verus!
