//! The resolution pipeline end to end: planning, classification, the
//! decision on each fetch outcome, and the not-found recovery flow.

use context7_docs::pipeline::derive_search_term;
use context7_docs::types::{
    DocRequest, FetchDecision, FetchOutcome, SearchOutcome, SearchResult, ServiceConfig,
};
use context7_docs::Context7Tool;

fn request(library: &str) -> DocRequest {
    DocRequest { library: String::from(library), topic: None, version: None, page: None }
}

fn config(api_key: Option<&str>) -> ServiceConfig {
    ServiceConfig {
        api_key: api_key.map(String::from),
        base_url: Context7Tool::default_base_url(),
    }
}

fn suggestion(id: &str, stars: Option<u64>, tenths: Option<u64>) -> SearchResult {
    SearchResult { id: String::from(id), stars, trust_score_tenths: tenths, description: None }
}

#[test]
fn search_term_uses_text_after_last_slash() {
    assert_eq!(derive_search_term("vercel/next.js"), "next.js");
    assert_eq!(derive_search_term("react"), "react");
    assert_eq!(derive_search_term("owner/"), "");
    assert_eq!(derive_search_term("a/b/c"), "c");
}

#[test]
fn successful_fetch_formats_the_body() {
    let req = request("vercel/next.js");
    let outcome = Context7Tool::classify_response(200, String::from("# Hello"));
    match Context7Tool::on_fetch(&req, outcome) {
        FetchDecision::Done(r) => {
            assert!(!r.is_error);
            assert!(r.text.contains("# Hello"));
            assert!(r.text.contains("# vercel/next.js Documentation"));
        }
        FetchDecision::Search => panic!("a success must finish the resolution"),
    }
}

#[test]
fn blank_body_reports_no_documentation() {
    let req = request("react");
    for body in ["", "   ", " \t\r\n "] {
        let outcome = Context7Tool::classify_response(204, String::from(body));
        match Context7Tool::on_fetch(&req, outcome) {
            FetchDecision::Done(r) => {
                assert!(!r.is_error);
                assert_eq!(r.text, "no documentation found");
            }
            FetchDecision::Search => panic!("a success must finish the resolution"),
        }
    }
}

#[test]
fn not_found_with_one_suggestion_lists_it() {
    let req = request("vercel/nxt.js");
    let outcome = Context7Tool::classify_response(404, String::from("not found"));
    assert!(matches!(outcome, FetchOutcome::NotFound));
    match Context7Tool::on_fetch(&req, outcome) {
        FetchDecision::Done(_) => panic!("a 404 must trigger the recovery search"),
        FetchDecision::Search => {}
    }
    let found = SearchOutcome::Results(vec![suggestion("/vercel/next.js", Some(5000), Some(92))]);
    let r = Context7Tool::on_search(&req, found);
    assert!(!r.is_error);
    assert!(r.text.contains("1. **vercel/next.js** (Stars: 5.0K | Score: 9.2)"));
    assert!(r.text.ends_with(
        "Retry with a full library identifier, for example:\n```json\n{ \"library\": \"vercel/next.js\", \"topic\": \"core\" }\n```\n"
    ));
}

#[test]
fn failed_search_degrades_to_no_suggestions_without_error() {
    let req = request("vercel/nxt.js");
    let r = Context7Tool::on_search(&req, SearchOutcome::Failed);
    assert!(!r.is_error);
    assert_eq!(r.text, Context7Tool::format_not_found_no_suggestions("vercel/nxt.js"));
}

#[test]
fn empty_search_results_degrade_to_no_suggestions_without_error() {
    let req = request("nxt");
    let r = Context7Tool::on_search(&req, SearchOutcome::Results(Vec::new()));
    assert!(!r.is_error);
    assert_eq!(r.text, Context7Tool::format_not_found_no_suggestions("nxt"));
}

#[test]
fn suggestions_are_limited_to_five() {
    let req = request("x");
    let results: Vec<SearchResult> =
        (1..=6).map(|i| suggestion(&format!("owner/repo{i}"), None, None)).collect();
    let r = Context7Tool::on_search(&req, SearchOutcome::Results(results));
    assert!(!r.is_error);
    assert!(r.text.contains("5. **owner/repo5**"));
    assert!(!r.text.contains("repo6"));
}

#[test]
fn rate_limit_mentions_credential() {
    let req = request("react");
    let outcome = Context7Tool::classify_response(429, String::from("slow down"));
    match Context7Tool::on_fetch(&req, outcome) {
        FetchDecision::Done(r) => {
            assert!(r.is_error);
            assert_eq!(r.text, "rate limit reached, configure an API key for a higher rate limit");
        }
        FetchDecision::Search => panic!("a 429 must finish the resolution as an error"),
    }
}

#[test]
fn unauthorized_and_server_errors_are_flagged() {
    let req = request("react");
    match Context7Tool::on_fetch(&req, Context7Tool::classify_response(401, String::new())) {
        FetchDecision::Done(r) => {
            assert!(r.is_error);
            assert_eq!(r.text, "API key invalid or expired, check the configuration");
        }
        FetchDecision::Search => panic!("a 401 must finish the resolution as an error"),
    }
    match Context7Tool::on_fetch(&req, Context7Tool::classify_response(502, String::from("bad gateway"))) {
        FetchDecision::Done(r) => {
            assert!(r.is_error);
            assert_eq!(r.text, "service error: bad gateway");
        }
        FetchDecision::Search => panic!("a 502 must finish the resolution as an error"),
    }
}

#[test]
fn transport_failure_surfaces_its_cause() {
    let req = request("react");
    let outcome = FetchOutcome::TransportError(String::from("connection timed out"));
    match Context7Tool::on_fetch(&req, outcome) {
        FetchDecision::Done(r) => {
            assert!(r.is_error);
            assert_eq!(r.text, "connection timed out");
        }
        FetchDecision::Search => panic!("a transport failure must finish the resolution"),
    }
}

#[test]
fn configuration_failure_is_the_only_early_exit() {
    let r = Context7Tool::config_error("no configuration file");
    assert!(r.is_error);
    assert_eq!(r.text, "configuration error: no configuration file");
}

#[test]
fn fetch_plan_carries_url_params_credential_and_timeout() {
    let cfg = config(Some("test-api-key"));
    let req = DocRequest {
        library: String::from("vercel/next.js"),
        topic: Some(String::from("routing")),
        version: Some(String::from("v15")),
        page: Some(3),
    };
    let plan = Context7Tool::plan_fetch(&cfg, &req);
    assert_eq!(plan.url, "https://context7.com/api/v2/docs/code/vercel/next.js");
    assert_eq!(plan.params.len(), 3);
    assert_eq!(plan.params[0], (String::from("topic"), String::from("routing")));
    assert_eq!(plan.params[1], (String::from("version"), String::from("v15")));
    assert_eq!(plan.params[2], (String::from("page"), String::from("3")));
    assert_eq!(plan.bearer.as_deref(), Some("test-api-key"));
    assert_eq!(plan.timeout_secs, 30);
}

#[test]
fn fetch_plan_omits_absent_fields() {
    let cfg = config(None);
    let plan = Context7Tool::plan_fetch(&cfg, &request("react"));
    assert_eq!(plan.url, "https://context7.com/api/v2/docs/code/react");
    assert!(plan.params.is_empty());
    assert!(plan.bearer.is_none());
}

#[test]
fn search_plan_uses_derived_term_and_short_timeout() {
    let cfg = config(None);
    let plan = Context7Tool::plan_search(&cfg, &request("vercel/next.js"));
    assert_eq!(plan.url, "https://context7.com/api/v2/search");
    assert_eq!(plan.params, vec![(String::from("query"), String::from("next.js"))]);
    assert!(plan.bearer.is_none());
    assert_eq!(plan.timeout_secs, 15);
}

#[test]
fn search_plan_keeps_the_empty_term_of_a_trailing_slash() {
    let cfg = config(None);
    let plan = Context7Tool::plan_search(&cfg, &request("owner/"));
    assert_eq!(plan.params, vec![(String::from("query"), String::new())]);
}

#[test]
fn identical_requests_produce_identical_text() {
    let run = || {
        let req = request("vercel/next.js");
        let outcome = Context7Tool::classify_response(200, String::from("fixed content"));
        match Context7Tool::on_fetch(&req, outcome) {
            FetchDecision::Done(r) => r.text,
            FetchDecision::Search => panic!("a success must finish the resolution"),
        }
    };
    assert_eq!(run(), run());
}
