//! Mapping router results to HTTP replies.
//!
//! A successful route answers `200` with a JSON body carrying the
//! generated text; any routing error answers `500` with a JSON error
//! body whose reason names what failed (for a both-providers-down
//! failure, both candidates' reasons); an unknown path answers `404`.
//! The bodies are built, and stated, character for character.

use crate::model_router::FailureReason;
use crate::model_router::GenFailure;
use crate::model_router::ProviderName;
use crate::model_router::RouteError;
use crate::text::json_escape;
use crate::text::spec_json_escaped;
use vstd::prelude::*;
use vstd::string::StringExecFns;

verus! {

/// One HTTP answer: a status code and a JSON body.
pub struct HttpReply {
    pub status: u16,
    pub body: String,
}

/// The wire name of a provider.
pub open spec fn spec_provider_text(p: ProviderName) -> Seq<char> {
    match p {
        ProviderName::OpenAi => "openai"@,
        ProviderName::Cohere => "cohere"@,
        ProviderName::NoneKnown => "none"@,
    }
}

/// Name a provider for an error body.
pub fn provider_text(p: ProviderName) -> (r: &'static str)
    ensures
        r@ == spec_provider_text(p),
{
    match p {
        ProviderName::OpenAi => "openai",
        ProviderName::Cohere => "cohere",
        ProviderName::NoneKnown => "none",
    }
}

/// The wording of one health-check failure reason.
pub open spec fn spec_fail_text(r: FailureReason) -> Seq<char> {
    match r {
        FailureReason::UnknownProvider => "unknown provider"@,
        FailureReason::Incident => "status incident"@,
        FailureReason::TimedOut => "timed out"@,
        FailureReason::TransportFailed => "transport failed"@,
        FailureReason::MalformedStatus => "malformed status"@,
    }
}

fn fail_text(r: FailureReason) -> (t: &'static str)
    ensures
        t@ == spec_fail_text(r),
{
    match r {
        FailureReason::UnknownProvider => "unknown provider",
        FailureReason::Incident => "status incident",
        FailureReason::TimedOut => "timed out",
        FailureReason::TransportFailed => "transport failed",
        FailureReason::MalformedStatus => "malformed status",
    }
}

/// The wording of one generation failure cause.
pub open spec fn spec_gen_text(c: GenFailure) -> Seq<char> {
    match c {
        GenFailure::TimedOut => "timed out"@,
        GenFailure::TransportFailed => "transport failed"@,
        GenFailure::Malformed => "malformed response"@,
    }
}

fn gen_text(c: GenFailure) -> (t: &'static str)
    ensures
        t@ == spec_gen_text(c),
{
    match c {
        GenFailure::TimedOut => "timed out",
        GenFailure::TransportFailed => "transport failed",
        GenFailure::Malformed => "malformed response",
    }
}

/// The reason line of an error body.  A both-providers-down failure
/// names both candidates' reasons.
pub open spec fn spec_error_text(e: RouteError) -> Seq<char> {
    match e {
        RouteError::TransportError => "transport error"@,
        RouteError::UnknownProvider => "unknown provider"@,
        RouteError::ProviderUnavailable { provider, reason } => "provider "@
            + spec_provider_text(provider) + " unavailable: "@ + spec_fail_text(reason),
        RouteError::AllProvidersDown { primary, secondary } => "all providers down: primary "@
            + spec_fail_text(primary) + ", secondary "@ + spec_fail_text(secondary),
        RouteError::GenerationFailed { provider, cause } => "generation failed for "@
            + spec_provider_text(provider) + ": "@ + spec_gen_text(cause),
        RouteError::MalformedRequest => "malformed request"@,
    }
}

/// Spell an error out for an error body.
pub fn error_text(e: &RouteError) -> (r: String)
    ensures
        r@ == spec_error_text(*e),
{
    match e {
        RouteError::TransportError => String::from_str("transport error"),
        RouteError::UnknownProvider => String::from_str("unknown provider"),
        RouteError::ProviderUnavailable { provider, reason } => {
            let mut out = String::from_str("provider ");
            out.append(provider_text(*provider));
            out.append(" unavailable: ");
            out.append(fail_text(*reason));
            proof {
                assert(out@ =~= spec_error_text(*e));
            }
            out
        },
        RouteError::AllProvidersDown { primary, secondary } => {
            let mut out = String::from_str("all providers down: primary ");
            out.append(fail_text(*primary));
            out.append(", secondary ");
            out.append(fail_text(*secondary));
            proof {
                assert(out@ =~= spec_error_text(*e));
            }
            out
        },
        RouteError::GenerationFailed { provider, cause } => {
            let mut out = String::from_str("generation failed for ");
            out.append(provider_text(*provider));
            out.append(": ");
            out.append(gen_text(*cause));
            proof {
                assert(out@ =~= spec_error_text(*e));
            }
            out
        },
        RouteError::MalformedRequest => String::from_str("malformed request"),
    }
}

/// The success body: a JSON object with the generated text under
/// `response`, escaped as a JSON string.
pub open spec fn spec_ok_body(text: Seq<char>) -> Seq<char> {
    "{\"response\":\""@ + spec_json_escaped(text) + "\"}"@
}

/// The error body: a JSON object with an `error` status and the
/// spelled-out reason.
pub open spec fn spec_error_body(e: RouteError) -> Seq<char> {
    "{\"status\":\"error\",\"reason\":\""@ + spec_error_text(e) + "\"}"@
}

/// Answer one routed request: `200` with the generated text on
/// success, `500` with the spelled-out error otherwise.
pub fn respond(result: Result<String, RouteError>) -> (r: HttpReply)
    ensures
        result matches Ok(text) ==> r.status == 200 && r.body@ == spec_ok_body(text@),
        result matches Err(e) ==> r.status == 500 && r.body@ == spec_error_body(e),
{
    match result {
        Ok(text) => {
            let mut body = String::from_str("{\"response\":\"");
            let escaped = json_escape(text.as_str());
            body.append(escaped.as_str());
            body.append("\"}");
            proof {
                assert(body@ =~= spec_ok_body(text@));
            }
            HttpReply { status: 200, body }
        },
        Err(e) => {
            let mut body = String::from_str("{\"status\":\"error\",\"reason\":\"");
            let reason = error_text(&e);
            body.append(reason.as_str());
            body.append("\"}");
            proof {
                assert(body@ =~= spec_error_body(e));
            }
            HttpReply { status: 500, body }
        },
    }
}

/// The answer for a path the relay does not serve.
pub fn not_found() -> (r: HttpReply)
    ensures
        r.status == 404,
        r.body@ == "{\"status\":\"error\",\"reason\":\"Resource was not found.\"}"@,
{
    HttpReply {
        status: 404,
        body: String::from_str("{\"status\":\"error\",\"reason\":\"Resource was not found.\"}"),
    }
}

} // verus!
