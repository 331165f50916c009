//! The aggregator: orchestrates the two downstream dependency calls for
//! one inbound request, applies the per-dependency fallback policy, and
//! merges the surviving models into a single response.
//!
//! The aggregate succeeds if and only if every dependency resolves to
//! success or fallback; the first failure aborts the aggregate with that
//! dependency's error.  A timeout of the routing dependency is the only
//! accepted form of partial success, and it is encoded at the individual
//! call, not at the aggregate.

use crate::codec::{extract, extract_spec, format_traceparent, inject, Carrier};
use crate::downstream::{classify, outcome_to_result, DependencyReply};
use crate::outcome::{is_success_status, CallOutcome, ErrorKind};
use crate::route::{choose_prefix, chosen_prefix};
use crate::timesvc::TimeModel;
use vstd::prelude::*;

verus! {

/// The routing dependency's response model as the aggregator consumes it.
#[derive(Debug)]
pub struct ServiceAModel {
    pub key_one: String,
    pub key_two: String,
}

/// The merged response model returned for one inbound request.
#[derive(Debug)]
pub struct ExternalModel {
    pub key_one: String,
    pub key_two: String,
    pub key_time: i64,
}

/// The routing dependency's designated timeout status.
pub const ROUTE_TIMEOUT_STATUS: u16 = 504;

/// The synthesized degraded value substituted for a routing-dependency
/// timeout.
pub open spec fn is_timed_out_model(m: ServiceAModel) -> bool {
    m.key_one@ == "Timed out"@ && m.key_two@ == "Timed out"@
}

pub fn timed_out_model() -> (m: ServiceAModel)
    ensures
        is_timed_out_model(m),
{
    ServiceAModel {
        key_one: String::from_str("Timed out"),
        key_two: String::from_str("Timed out"),
    }
}

/// What the aggregator's routing-dependency call returns for each reply:
/// the designated timeout status degrades to the placeholder, any other
/// non-success status or a malformed body surfaces a bad request, and a
/// transport failure a server error.
pub open spec fn service_a_rel(
    reply: DependencyReply<ServiceAModel>,
    r: Result<ServiceAModel, u16>,
) -> bool {
    match reply {
        DependencyReply::Unreachable => r == Err::<ServiceAModel, u16>(500u16),
        DependencyReply::Http(status, body) => {
            if status == ROUTE_TIMEOUT_STATUS {
                r matches Ok(m) && is_timed_out_model(m)
            } else if !is_success_status(status) {
                r == Err::<ServiceAModel, u16>(400u16)
            } else {
                match body {
                    Some(m) => r == Ok::<ServiceAModel, u16>(m),
                    None => r == Err::<ServiceAModel, u16>(400u16),
                }
            }
        },
    }
}

/// One call to the routing dependency, classified under its fallback
/// policy and collapsed to what the inbound caller sees.
pub fn get_service_a(reply: DependencyReply<ServiceAModel>) -> (r: Result<ServiceAModel, u16>)
    ensures
        service_a_rel(reply, r),
{
    let outcome = classify(reply, Some((ROUTE_TIMEOUT_STATUS, timed_out_model())));
    outcome_to_result(outcome)
}

/// What the aggregator's time-dependency call returns for each reply: no
/// fallback policy here, every non-success status is a hard failure.
pub open spec fn service_c_rel(
    reply: DependencyReply<TimeModel>,
    r: Result<TimeModel, u16>,
) -> bool {
    match reply {
        DependencyReply::Unreachable => r == Err::<TimeModel, u16>(500u16),
        DependencyReply::Http(status, body) => {
            if !is_success_status(status) {
                r == Err::<TimeModel, u16>(400u16)
            } else {
                match body {
                    Some(m) => r == Ok::<TimeModel, u16>(m),
                    None => r == Err::<TimeModel, u16>(400u16),
                }
            }
        },
    }
}

/// One call to the time dependency, classified and collapsed.
pub fn get_service_c(reply: DependencyReply<TimeModel>) -> (r: Result<TimeModel, u16>)
    ensures
        service_c_rel(reply, r),
{
    let outcome = classify(reply, None);
    outcome_to_result(outcome)
}

/// Field-level composition of the merged response: named fields from each
/// dependency's model into one typed sink.
pub open spec fn merged_models(am: ServiceAModel, cm: TimeModel, em: ExternalModel) -> bool {
    em.key_one == am.key_one && em.key_two == am.key_two && em.key_time == cm.key_time
}

/// Merge stage once the routing model is in hand.
pub open spec fn merge_second(
    am: ServiceAModel,
    c: CallOutcome<TimeModel>,
    r: Result<ExternalModel, ErrorKind>,
) -> bool {
    match c {
        CallOutcome::Failure(k) => r == Err::<ExternalModel, ErrorKind>(k),
        CallOutcome::Success(cm) => r matches Ok(em) && merged_models(am, cm, em),
        CallOutcome::Fallback(cm) => r matches Ok(em) && merged_models(am, cm, em),
    }
}

/// The merge policy over classified outcomes: success if and only if every
/// dependency resolved to success or fallback; the first failure aborts
/// with that dependency's error kind.
pub fn merge(a: CallOutcome<ServiceAModel>, c: CallOutcome<TimeModel>) -> (r: Result<
    ExternalModel,
    ErrorKind,
>)
    ensures
        match a {
            CallOutcome::Failure(k) => r == Err::<ExternalModel, ErrorKind>(k),
            CallOutcome::Success(am) => merge_second(am, c, r),
            CallOutcome::Fallback(am) => merge_second(am, c, r),
        },
{
    let am = match a {
        CallOutcome::Success(m) => m,
        CallOutcome::Fallback(m) => m,
        CallOutcome::Failure(k) => {
            return Err(k);
        },
    };
    let cm = match c {
        CallOutcome::Success(m) => m,
        CallOutcome::Fallback(m) => m,
        CallOutcome::Failure(k) => {
            return Err(k);
        },
    };
    Ok(ExternalModel { key_one: am.key_one, key_two: am.key_two, key_time: cm.key_time })
}

/// The aggregate's second stage at the view level: what the response is
/// once the routing fields are fixed.
pub open spec fn c_stage(
    k1: Seq<char>,
    k2: Seq<char>,
    reply_c: DependencyReply<TimeModel>,
    r: Result<ExternalModel, u16>,
) -> bool {
    match reply_c {
        DependencyReply::Unreachable => r == Err::<ExternalModel, u16>(500u16),
        DependencyReply::Http(status, body) => {
            if !is_success_status(status) {
                r == Err::<ExternalModel, u16>(400u16)
            } else {
                match body {
                    Some(cm) => r matches Ok(em) && em.key_one@ == k1 && em.key_two@ == k2
                        && em.key_time == cm.key_time,
                    None => r == Err::<ExternalModel, u16>(400u16),
                }
            }
        },
    }
}

/// The whole aggregate, as a relation between the two dependency replies
/// and the response surfaced to the inbound caller.
pub open spec fn handler_rel(
    reply_a: DependencyReply<ServiceAModel>,
    reply_c: DependencyReply<TimeModel>,
    r: Result<ExternalModel, u16>,
) -> bool {
    match reply_a {
        DependencyReply::Unreachable => r == Err::<ExternalModel, u16>(500u16),
        DependencyReply::Http(status, body) => {
            if status == ROUTE_TIMEOUT_STATUS {
                c_stage("Timed out"@, "Timed out"@, reply_c, r)
            } else if !is_success_status(status) {
                r == Err::<ExternalModel, u16>(400u16)
            } else {
                match body {
                    Some(am) => c_stage(am.key_one@, am.key_two@, reply_c, r),
                    None => r == Err::<ExternalModel, u16>(400u16),
                }
            }
        },
    }
}

/// One aggregate request: classifies both dependency replies and merges
/// the surviving models.  The first failure aborts the aggregate with its
/// surfaced status; no partial response is ever returned.
pub fn handler(
    reply_a: DependencyReply<ServiceAModel>,
    reply_c: DependencyReply<TimeModel>,
) -> (r: Result<ExternalModel, u16>)
    ensures
        handler_rel(reply_a, reply_c, r),
{
    let am = match get_service_a(reply_a) {
        Ok(m) => m,
        Err(e) => {
            return Err(e);
        },
    };
    let cm = match get_service_c(reply_c) {
        Ok(m) => m,
        Err(e) => {
            return Err(e);
        },
    };
    Ok(ExternalModel { key_one: am.key_one, key_two: am.key_two, key_time: cm.key_time })
}

/// One outbound request as planned by the aggregator: where to call and
/// which carrier to send.
#[derive(Debug)]
pub struct OutboundRequest {
    pub url: String,
    pub carrier: Carrier,
}

pub fn service_a_url(host: &str, prefix: &str) -> (u: String)
    ensures
        u@ == host@ + "/route?p="@ + prefix@,
{
    String::from_str(host).concat("/route?p=").concat(prefix)
}

pub fn service_c_url(host: &str) -> (u: String)
    ensures
        u@ == host@ + "/time"@,
{
    String::from_str(host).concat("/time")
}

/// The carrier planned for an outbound call: the inbound context,
/// re-injected afresh; or empty when the inbound carrier held none.
pub open spec fn planned_carrier(inbound: Carrier, out: Carrier) -> bool {
    match extract_spec(inbound) {
        Some(t) => out.traceparent matches Some(s) && s@ == format_traceparent(t),
        None => out.traceparent is None,
    }
}

/// Plans the two dependency calls for one inbound request: the effective
/// prefix is expanded into the routing URL, and the inbound trace context
/// — extracted once — is injected afresh into each outbound carrier.  A
/// malformed or absent inbound `traceparent` never stops the request: the
/// calls are simply planned without a parent context.
pub fn plan_calls(inbound: &Carrier, name: Option<String>, host_a: &str, host_c: &str) -> (r: (
    OutboundRequest,
    OutboundRequest,
))
    ensures
        r.0.url@ == host_a@ + "/route?p="@ + chosen_prefix(name),
        r.1.url@ == host_c@ + "/time"@,
        planned_carrier(*inbound, r.0.carrier),
        planned_carrier(*inbound, r.1.carrier),
{
    let ctx = extract(inbound);
    let carrier_a = match &ctx {
        Some(t) => inject(t),
        None => Carrier { traceparent: None },
    };
    let carrier_c = match &ctx {
        Some(t) => inject(t),
        None => Carrier { traceparent: None },
    };
    let prefix = choose_prefix(name);
    let url_a = service_a_url(host_a, prefix.as_str());
    let url_c = service_c_url(host_c);
    (
        OutboundRequest { url: url_a, carrier: carrier_a },
        OutboundRequest { url: url_c, carrier: carrier_c },
    )
}

/// A routing-dependency timeout degrades, it never fails the aggregate:
/// when the time dependency resolves, the response carries the fixed
/// placeholder strings for the routing fields.  (When the time dependency
/// itself fails — say it is unreachable — the aggregate fails for that
/// reason alone; those inputs are left out here.)
pub proof fn lemma_timeout_never_fails_aggregate(
    body_a: Option<ServiceAModel>,
    status_c: u16,
    cm: TimeModel,
    r: Result<ExternalModel, u16>,
)
    requires
        is_success_status(status_c),
        handler_rel(
            DependencyReply::Http(ROUTE_TIMEOUT_STATUS, body_a),
            DependencyReply::Http(status_c, Some(cm)),
            r,
        ),
    ensures
        r matches Ok(em) && em.key_one@ == "Timed out"@ && em.key_two@ == "Timed out"@
            && em.key_time == cm.key_time,
{
}

/// Any other non-success status from the routing dependency fails the
/// whole aggregate with a bad request, regardless of the state of the
/// time dependency.
pub proof fn lemma_rejection_fails_aggregate(
    status_a: u16,
    body_a: Option<ServiceAModel>,
    reply_c: DependencyReply<TimeModel>,
    r: Result<ExternalModel, u16>,
)
    requires
        !is_success_status(status_a),
        status_a != ROUTE_TIMEOUT_STATUS,
        handler_rel(DependencyReply::Http(status_a, body_a), reply_c, r),
    ensures
        r == Err::<ExternalModel, u16>(400u16),
{
}

/// A non-success status from the time dependency likewise leaves no
/// aggregate success, whatever the routing dependency produced.
pub proof fn lemma_second_rejection_fails_aggregate(
    reply_a: DependencyReply<ServiceAModel>,
    status_c: u16,
    body_c: Option<TimeModel>,
    r: Result<ExternalModel, u16>,
)
    requires
        !is_success_status(status_c),
        handler_rel(reply_a, DependencyReply::Http(status_c, body_c), r),
    ensures
        r is Err,
{
}

/// Idempotence: identical dependency replies yield structurally identical
/// aggregate responses, field for field.  The time field varies only
/// through the time dependency's reply, which is part of the input here.
pub proof fn lemma_aggregate_idempotent(
    reply_a: DependencyReply<ServiceAModel>,
    reply_c: DependencyReply<TimeModel>,
    r1: Result<ExternalModel, u16>,
    r2: Result<ExternalModel, u16>,
)
    requires
        handler_rel(reply_a, reply_c, r1),
        handler_rel(reply_a, reply_c, r2),
    ensures
        match (r1, r2) {
            (Ok(a), Ok(b)) => a.key_one@ == b.key_one@ && a.key_two@ == b.key_two@
                && a.key_time == b.key_time,
            (Err(a), Err(b)) => a == b,
            _ => false,
        },
{
}

} // verus!
