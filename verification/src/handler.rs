//! The request handler's decisions, one step per phase: gate the inbound
//! method, accept or reject the parsed body, and conclude from the probe's
//! outcome. The surrounding runtime performs each planned action (reading
//! the body, issuing the HEAD probe, sending the reply) and hands the
//! result back to the next step.

use vstd::prelude::*;

use crate::check::evaluate;
use crate::check::observed_content_type;
use crate::check::spec_is_ok;
use crate::check::spec_observed;
use crate::message::CheckRequest;
use crate::message::CheckResponse;

verus! {

/// The failures a request can be answered with. A verdict, by contrast,
/// is carried with status 200 whatever its boolean says: the status
/// codes are reserved for the request failing, not the check.
pub enum Rejection {
    /// The inbound method is not the designated submission method.
    MethodNotAllowed,
    /// The inbound body did not parse as a request.
    BadRequest,
    /// The outbound probe failed, so no verdict could be made.
    ProbeFailed,
}

pub open spec fn spec_status_of(rejection: Rejection) -> u16 {
    match rejection {
        Rejection::MethodNotAllowed => 405,
        Rejection::BadRequest => 400,
        Rejection::ProbeFailed => 500,
    }
}

/// The HTTP status that reports this failure to the caller.
pub fn status_of(rejection: &Rejection) -> (status: u16)
    ensures
        status == spec_status_of(*rejection),
{
    match rejection {
        Rejection::MethodNotAllowed => 405,
        Rejection::BadRequest => 400,
        Rejection::ProbeFailed => 500,
    }
}

/// What to do with an inbound request, decided from its method alone,
/// before the body is touched.
pub enum MethodPlan {
    /// The designated submission method: go on to read the body.
    ReadBody,
    /// Any other method: answer the failure; the body is never read.
    Reject { rejection: Rejection },
}

/// What to do once the body has been read, decided from whether it
/// parsed as a well-formed request.
pub enum BodyPlan {
    /// The body parsed: issue a HEAD probe to the request's URL.
    Probe { request: CheckRequest },
    /// The body did not parse: answer the failure; no probe is planned.
    Reject { rejection: Rejection },
}

/// How the outbound probe ended.
pub enum ProbeOutcome {
    /// The resource answered; its `Content-Type` header's value, or
    /// `None` when it sent no such header.
    Reached { header: Option<String> },
    /// The resource could not be reached or read.
    Failed,
}

/// The reply owed to the caller after the probe.
pub enum Reply {
    /// Status 200 whatever the verdict says: the boolean carries it.
    Verdict { response: CheckResponse },
    /// The check could not be completed: answer the failure, no verdict.
    Reject { rejection: Rejection },
}

pub open spec fn spec_plan_for_method(is_designated: bool) -> MethodPlan {
    if is_designated {
        MethodPlan::ReadBody
    } else {
        MethodPlan::Reject { rejection: Rejection::MethodNotAllowed }
    }
}

/// Gate the inbound request on its method: only the designated
/// submission method proceeds to the body.
pub fn plan_for_method(is_designated: bool) -> (plan: MethodPlan)
    ensures
        plan == spec_plan_for_method(is_designated),
{
    if is_designated {
        MethodPlan::ReadBody
    } else {
        MethodPlan::Reject { rejection: Rejection::MethodNotAllowed }
    }
}

pub open spec fn spec_plan_for_body(parsed: Option<CheckRequest>) -> BodyPlan {
    match parsed {
        Some(request) => BodyPlan::Probe { request },
        None => BodyPlan::Reject { rejection: Rejection::BadRequest },
    }
}

/// Accept or reject the body: a request that parsed is probed as it
/// stands, one that did not is rejected before any network work.
pub fn plan_for_body(parsed: Option<CheckRequest>) -> (plan: BodyPlan)
    ensures
        plan == spec_plan_for_body(parsed),
{
    match parsed {
        Some(request) => BodyPlan::Probe { request },
        None => BodyPlan::Reject { rejection: Rejection::BadRequest },
    }
}

/// Conclude the check from the probe's outcome: a transport failure is
/// surfaced as-is, never retried and never turned into a verdict; an
/// answer is evaluated against the request's criteria, an absent header
/// counting as the empty content type.
pub fn conclude(request: CheckRequest, outcome: ProbeOutcome) -> (reply: Reply)
    ensures
        (match outcome {
            ProbeOutcome::Failed => reply == (Reply::Reject {
                rejection: Rejection::ProbeFailed,
            }),
            ProbeOutcome::Reached { header } => reply matches Reply::Verdict { response }
                && response.content_type@ == spec_observed(header)
                && response.expected_types == request.expected_types
                && response.expected_main_types == request.expected_main_types
                && response.is_ok == spec_is_ok(
                spec_observed(header),
                request.expected_types.deep_view(),
                request.expected_main_types.deep_view(),
            ),
        }),
{
    match outcome {
        ProbeOutcome::Reached { header } => {
            let content_type = observed_content_type(header);
            let response = evaluate(
                content_type,
                request.expected_types,
                request.expected_main_types,
            );
            Reply::Verdict { response }
        },
        ProbeOutcome::Failed => Reply::Reject { rejection: Rejection::ProbeFailed },
    }
}

/// A body that does not parse is answered with the client error alone:
/// the plan it yields carries no request and no URL, so no probe can
/// follow from it.
pub proof fn malformed_body_never_probes()
    ensures
        spec_plan_for_body(None) == (BodyPlan::Reject { rejection: Rejection::BadRequest }),
        spec_status_of(Rejection::BadRequest) == 400,
        !(spec_plan_for_body(None) matches BodyPlan::Probe { request }),
{
}

/// A request on any method but the designated one is answered 405 from
/// the method alone: the plan never asks for the body, so nothing is
/// parsed and nothing is probed.
pub proof fn undesignated_method_never_reads(is_designated: bool)
    requires
        !is_designated,
    ensures
        spec_plan_for_method(is_designated) == (MethodPlan::Reject {
            rejection: Rejection::MethodNotAllowed,
        }),
        spec_status_of(Rejection::MethodNotAllowed) == 405,
        spec_plan_for_method(is_designated) != MethodPlan::ReadBody,
{
}

} // verus!
