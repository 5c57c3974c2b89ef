use vstd::prelude::*;
use crate::gemini::{request_body_json, spec_url, GeminiService};
use crate::text::is_blank;
use crate::types::{CommitMessageResponse, ErrorResponse, GitDiffRequest};

verus! {

/// What the handler decides before any network traffic: either reject the
/// request outright, or call the provider at `url` with `body`.
pub enum CommitPlan {
    Reject { status: u16, error: ErrorResponse },
    Call { url: String, body: String },
}

/// How the handler replies once the outcome of generation is known.
pub enum CommitReply {
    Success { status: u16, body: CommitMessageResponse },
    Failure { status: u16, error: ErrorResponse },
}

/// The credential a request runs with, resolved in strict precedence order:
/// a key on the request body wins; failing that, the platform's environment
/// binding; failing that, the process environment; failing all three, the
/// empty string, which the handler rejects.
pub open spec fn resolve_credential(
    req_key: Option<Seq<char>>,
    env_key: Option<Seq<char>>,
    proc_key: Option<Seq<char>>,
) -> Seq<char> {
    match req_key {
        Some(k) => k,
        None => match env_key {
            Some(k) => k,
            None => match proc_key {
                Some(k) => k,
                None => Seq::empty(),
            },
        },
    }
}

/// Credential precedence: a request-supplied key always overrides both
/// environment sources; without one, the platform binding is used even
/// ahead of the process environment; with no source at all the credential
/// is empty.
pub proof fn lemma_credential_precedence(
    req_key: Option<Seq<char>>,
    env_key: Option<Seq<char>>,
    proc_key: Option<Seq<char>>,
)
    ensures
        match req_key {
            Some(k) => resolve_credential(req_key, env_key, proc_key) == k,
            None => match env_key {
                Some(k) => resolve_credential(req_key, env_key, proc_key) == k,
                None => match proc_key {
                    Some(k) => resolve_credential(req_key, env_key, proc_key) == k,
                    None => resolve_credential(req_key, env_key, proc_key) == Seq::<char>::empty(),
                },
            },
        },
{
}

/// Validates the parsed request and resolves the credential, exactly as the
/// inbound endpoint behaves: a missing payload is invalid JSON, a blank diff
/// is rejected whatever else the request carries, an empty credential is
/// rejected, and otherwise the provider call is fully prepared.
pub fn plan_generate_commit(
    parsed: Option<GitDiffRequest>,
    env_key: Option<String>,
    proc_key: Option<String>,
) -> (r: CommitPlan)
    ensures
        match parsed {
            None => match r {
                CommitPlan::Reject { status, error } => status == 400 && error.error@
                    == "Invalid JSON in request body"@,
                _ => false,
            },
            Some(req) => {
                let key = resolve_credential(
                    req.gemini_api_key.deep_view(),
                    env_key.deep_view(),
                    proc_key.deep_view(),
                );
                if is_blank(req.diff@) {
                    match r {
                        CommitPlan::Reject { status, error } => status == 400 && error.error@
                            == "Empty diff provided"@,
                        _ => false,
                    }
                } else if key.len() == 0 {
                    match r {
                        CommitPlan::Reject { status, error } => status == 400 && error.error@
                            == "No Gemini API key provided. Set GEMINI_API_KEY environment variable or include in request."@,
                        _ => false,
                    }
                } else {
                    match r {
                        CommitPlan::Call { url, body } => url@ == spec_url(key) && body@
                            == request_body_json(req.diff@),
                        _ => false,
                    }
                }
            },
        },
{
    let req = match parsed {
        Some(req) => req,
        None => {
            return CommitPlan::Reject {
                status: 400,
                error: ErrorResponse { error: String::from_str("Invalid JSON in request body") },
            };
        },
    };
    if crate::text::str_is_blank(req.diff.as_str()) {
        return CommitPlan::Reject {
            status: 400,
            error: ErrorResponse { error: String::from_str("Empty diff provided") },
        };
    }
    let api_key: String = match req.gemini_api_key {
        Some(k) => k,
        None => match env_key {
            Some(k) => k,
            None => match proc_key {
                Some(k) => k,
                None => String::new(),
            },
        },
    };
    if api_key.as_str().unicode_len() == 0 {
        return CommitPlan::Reject {
            status: 400,
            error: ErrorResponse {
                error: String::from_str(
                    "No Gemini API key provided. Set GEMINI_API_KEY environment variable or include in request.",
                ),
            },
        };
    }
    let url = GeminiService::request_url(api_key.as_str());
    let body = GeminiService::request_body(req.diff.as_str());
    CommitPlan::Call { url, body }
}

/// Maps the outcome of generation to the HTTP reply: success becomes 200
/// with the message and the provider label, failure becomes 500 with the
/// cause appended to a fixed prefix.
pub fn commit_reply(outcome: Result<String, String>) -> (r: CommitReply)
    ensures
        match outcome {
            Ok(m) => match r {
                CommitReply::Success { status, body } => status == 200 && body.commit_message@
                    == m@ && body.service_used@ == "Gemini"@,
                _ => false,
            },
            Err(e) => match r {
                CommitReply::Failure { status, error } => status == 500 && error.error@
                    == "Failed to generate commit message: "@ + e@,
                _ => false,
            },
        },
{
    match outcome {
        Ok(m) => CommitReply::Success {
            status: 200,
            body: CommitMessageResponse {
                commit_message: m,
                service_used: String::from_str("Gemini"),
            },
        },
        Err(e) => {
            let mut msg = String::from_str("Failed to generate commit message: ");
            msg.append(e.as_str());
            CommitReply::Failure { status: 500, error: ErrorResponse { error: msg } }
        },
    }
}

} // verus!
