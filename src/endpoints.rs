//! The bodies of the endpoints that answer without calling anything else.

use crate::reply::Reply;
use crate::shutdown::{lemma_first_fire_wins, recorded_start, FireOutcome, ShutdownCoordinator, TriggerSource};
use crate::text::{decimal, decimal_text, parse_unsigned, push_decimal, unsigned_value};
use vstd::prelude::*;

verus! {

/// The pause used when the query does not name one, in milliseconds.
pub const DEFAULT_DELAY_MS: u64 = 500;

/// The pause that a query asks for: the whole query read as a `u64`, or the
/// default when there is no query or it does not read as one.
pub open spec fn delay_of(query: Option<Seq<char>>) -> u64 {
    match query {
        Some(q) => match unsigned_value(q, u64::MAX as int) {
            Some(v) => v as u64,
            None => DEFAULT_DELAY_MS,
        },
        None => DEFAULT_DELAY_MS,
    }
}

pub open spec fn pause_message(millis: u64) -> Seq<char> {
    "Paused for "@ + decimal(millis as nat) + " ms."@
}

pub open spec fn shutdown_message(outcome: FireOutcome) -> Seq<char> {
    match outcome {
        FireOutcome::Initiated => "Initiating graceful shutdown"@,
        FireOutcome::AlreadyInProgress => "Graceful shutdown already in progress"@,
    }
}

/// The greeting served at the root.
pub fn index() -> (r: Reply)
    ensures
        r.is(200, "Hello from `/`"@),
{
    Reply::new(200, "Hello from `/`")
}

/// Echoes the listening port.
pub fn port(port_number: u16) -> (r: Reply)
    ensures
        r.is(200, decimal(port_number as nat)),
{
    Reply { status: 200, body: decimal_text(port_number as u64) }
}

/// How long the pause endpoint waits for the given query string.
pub fn pause_delay(query: Option<&str>) -> (r: u64)
    ensures
        r == delay_of(
            match query {
                Some(q) => Some(q@),
                None => None,
            },
        ),
{
    match query {
        Some(q) => match parse_unsigned(q, u64::MAX) {
            Some(v) => v,
            None => DEFAULT_DELAY_MS,
        },
        None => DEFAULT_DELAY_MS,
    }
}

/// The reply of the pause endpoint once it has waited `millis` milliseconds.
pub fn pause(millis: u64) -> (r: Reply)
    ensures
        r.is(200, pause_message(millis)),
{
    let mut body = String::from_str("Paused for ");
    push_decimal(&mut body, millis);
    body.append(" ms.");
    Reply { status: 200, body }
}

/// The administrative shutdown: fires its trigger at time `now` and reports
/// whether this call began the drain or one was already under way.
pub fn shutdown(coordinator: &mut ShutdownCoordinator, now: u64) -> (r: Reply)
    requires
        old(coordinator).wf(),
    ensures
        final(coordinator).wf(),
        *final(coordinator) == old(coordinator).fire_spec(TriggerSource::Administrative, now).0,
        r.is(200, shutdown_message(old(coordinator).fire_spec(TriggerSource::Administrative, now).1)),
{
    match coordinator.fire(TriggerSource::Administrative, now) {
        FireOutcome::Initiated => Reply::new(200, "Initiating graceful shutdown"),
        FireOutcome::AlreadyInProgress => Reply::new(200, "Graceful shutdown already in progress"),
    }
}

/// Any number of administrative shutdown calls, at times `times`, on a fresh
/// coordinator: the first reply reads "Initiating graceful shutdown", every
/// later one "Graceful shutdown already in progress", and the one recorded
/// start is the first call's time.
pub proof fn lemma_admin_shutdowns_initiate_once(s: ShutdownCoordinator, times: Seq<u64>)
    requires
        s.is_initial(),
        times.len() > 0,
    ensures
        ({
            let fires = times.map_values(|t: u64| (TriggerSource::Administrative, t));
            let (last, outcomes) = s.fire_all(fires);
            &&& outcomes.len() == times.len()
            &&& shutdown_message(outcomes[0]) == "Initiating graceful shutdown"@
            &&& forall|i: int| 1 <= i < outcomes.len()
                ==> shutdown_message(#[trigger] outcomes[i]) == "Graceful shutdown already in progress"@
            &&& recorded_start(last.phase) == Some(times[0])
        }),
{
    let fires = times.map_values(|t: u64| (TriggerSource::Administrative, t));
    lemma_first_fire_wins(s, fires);
    assert(fires[0] == (TriggerSource::Administrative, times[0]));
}

} // verus!
