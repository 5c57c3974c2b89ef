use commitgen::gemini::GeminiService;
use commitgen::handler::{commit_reply, plan_generate_commit, CommitPlan, CommitReply};
use commitgen::types::{
    GeminiCandidate, GeminiContentResponse, GeminiPartResponse, GeminiResponse, GitDiffRequest,
};

fn request(diff: &str, key: Option<&str>) -> GitDiffRequest {
    GitDiffRequest { diff: diff.to_string(), gemini_api_key: key.map(|k| k.to_string()) }
}

fn reject_of(plan: CommitPlan) -> (u16, String) {
    match plan {
        CommitPlan::Reject { status, error } => (status, error.error),
        CommitPlan::Call { .. } => panic!("expected a rejection"),
    }
}

fn call_of(plan: CommitPlan) -> (String, String) {
    match plan {
        CommitPlan::Call { url, body } => (url, body),
        CommitPlan::Reject { status, error } => {
            panic!("expected a call, got {} {}", status, error.error)
        },
    }
}

#[test]
fn invalid_json_is_rejected() {
    let (status, error) = reject_of(plan_generate_commit(None, Some("k".to_string()), None));
    assert_eq!(status, 400);
    assert_eq!(error, "Invalid JSON in request body");
}

#[test]
fn empty_diff_is_rejected_regardless_of_keys() {
    for key in [None, Some("k")] {
        for diff in ["", "   ", "\n\t "] {
            let parsed = Some(request(diff, key));
            let (status, error) =
                reject_of(plan_generate_commit(parsed, Some("env".to_string()), None));
            assert_eq!(status, 400);
            assert_eq!(error, "Empty diff provided");
        }
    }
}

#[test]
fn missing_key_everywhere_is_rejected() {
    let parsed = Some(request("+ added line", None));
    let (status, error) = reject_of(plan_generate_commit(parsed, None, None));
    assert_eq!(status, 400);
    assert_eq!(
        error,
        "No Gemini API key provided. Set GEMINI_API_KEY environment variable or include in request."
    );
}

#[test]
fn request_key_overrides_environment() {
    let parsed = Some(request("+ x", Some("request-key")));
    let (url, _) = call_of(plan_generate_commit(
        parsed,
        Some("env-key".to_string()),
        Some("proc-key".to_string()),
    ));
    assert!(url.ends_with("?key=request-key"));
}

#[test]
fn environment_binding_used_when_request_has_no_key() {
    let parsed = Some(request("+ x", None));
    let (url, _) = call_of(plan_generate_commit(
        parsed,
        Some("env-key".to_string()),
        Some("proc-key".to_string()),
    ));
    assert!(url.ends_with("?key=env-key"));
}

#[test]
fn process_environment_is_last_resort() {
    let parsed = Some(request("+ x", None));
    let (url, _) = call_of(plan_generate_commit(parsed, None, Some("proc-key".to_string())));
    assert!(url.ends_with("?key=proc-key"));
}

#[test]
fn empty_request_key_is_rejected_not_replaced() {
    let parsed = Some(request("+ x", Some("")));
    let (status, error) =
        reject_of(plan_generate_commit(parsed, Some("env-key".to_string()), None));
    assert_eq!(status, 400);
    assert!(error.contains("No Gemini API key provided"));
}

#[test]
fn plan_prepares_url_and_body() {
    let parsed = Some(request("+ added line", Some("k")));
    let (url, body) = call_of(plan_generate_commit(parsed, None, None));
    assert_eq!(
        url,
        "https://generativelanguage.googleapis.com/v1beta/models/gemini-2.0-flash:generateContent?key=k"
    );
    assert_eq!(body, GeminiService::request_body("+ added line"));
}

#[test]
fn successful_generation_replies_200() {
    match commit_reply(Ok("feat: add login".to_string())) {
        CommitReply::Success { status, body } => {
            assert_eq!(status, 200);
            assert_eq!(body.commit_message, "feat: add login");
            assert_eq!(body.service_used, "Gemini");
        },
        CommitReply::Failure { .. } => panic!("expected success"),
    }
}

#[test]
fn failed_generation_replies_500() {
    match commit_reply(Err("No commit message generated".to_string())) {
        CommitReply::Failure { status, error } => {
            assert_eq!(status, 500);
            assert_eq!(error.error, "Failed to generate commit message: No commit message generated");
        },
        CommitReply::Success { .. } => panic!("expected failure"),
    }
}

#[test]
fn scenario_no_key_anywhere() {
    let parsed = Some(request("+ added line", None));
    let (status, error) = reject_of(plan_generate_commit(parsed, None, None));
    assert_eq!(status, 400);
    assert!(error.contains("No Gemini API key provided"));
    assert!(error.contains("API key") || error.contains("GEMINI_API_KEY"));
}

#[test]
fn scenario_upstream_quota_failure() {
    let parsed = Some(request("- old\n+ new", Some("k")));
    let (_url, _body) = call_of(plan_generate_commit(parsed, None, None));
    let upstream = GeminiService::check_upstream_status(503, "quota exceeded").unwrap_err();
    match commit_reply(Err(upstream)) {
        CommitReply::Failure { status, error } => {
            assert_eq!(status, 500);
            assert_eq!(
                error.error,
                "Failed to generate commit message: API request failed with status 503: quota exceeded"
            );
        },
        CommitReply::Success { .. } => panic!("expected failure"),
    }
}

#[test]
fn scenario_upstream_success() {
    let parsed = Some(request("+ login form", Some("k")));
    let (_url, _body) = call_of(plan_generate_commit(parsed, None, None));
    assert!(GeminiService::check_upstream_status(200, "").is_ok());
    let resp = GeminiResponse {
        candidates: vec![GeminiCandidate {
            content: GeminiContentResponse {
                parts: vec![GeminiPartResponse { text: "feat: \u{2728}Add login".to_string() }],
            },
        }],
    };
    let message = GeminiService::extract_commit_message(&resp);
    match commit_reply(message) {
        CommitReply::Success { status, body } => {
            assert_eq!(status, 200);
            assert_eq!(body.commit_message, "feat: \u{2728}Add login");
            assert_eq!(body.service_used, "Gemini");
        },
        CommitReply::Failure { .. } => panic!("expected success"),
    }
}

#[test]
fn scenario_empty_candidates_surface_as_500() {
    let resp = GeminiResponse { candidates: vec![] };
    let outcome = GeminiService::extract_commit_message(&resp);
    match commit_reply(outcome) {
        CommitReply::Failure { status, error } => {
            assert_eq!(status, 500);
            assert_eq!(error.error, "Failed to generate commit message: No commit message generated");
        },
        CommitReply::Success { .. } => panic!("expected failure"),
    }
}
