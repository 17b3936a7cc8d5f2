//! Tests of the retry controller, the response classification, the
//! aggregator, and the configuration.

use llm_status::config::Config;
use llm_status::fetcher::{
    all_providers, backoff_delay_ms, failure_outcome, is_success_status,
    outcome_from_api_response, Aggregator, FailureKind, FetchOutcome, LlmProvider, RetryDecision,
    RetryState,
};
use llm_status::json::{JsonField, JsonValue};
use llm_status::models::StatusIndicator;

#[test]
fn provider_urls_and_names() {
    assert_eq!(
        LlmProvider::OpenAI.api_url(),
        "https://status.openai.com/api/v2/summary.json"
    );
    assert_eq!(
        LlmProvider::Anthropic.api_url(),
        "https://status.anthropic.com/api/v2/summary.json"
    );
    assert_eq!(
        LlmProvider::DeepSeek.api_url(),
        "https://status.deepseek.com/api/v2/summary.json"
    );
    assert_eq!(LlmProvider::Google.api_url(), "https://aistudio.google.com/status");
    assert_eq!(LlmProvider::OpenAI.name(), "OpenAI");
    assert_eq!(LlmProvider::Google.name(), "Google");
}

#[test]
fn provider_parsing_ignores_ascii_case() {
    assert_eq!(LlmProvider::from_str("openai"), Some(LlmProvider::OpenAI));
    assert_eq!(LlmProvider::from_str("OPENAI"), Some(LlmProvider::OpenAI));
    assert_eq!(LlmProvider::from_str("Anthropic"), Some(LlmProvider::Anthropic));
    assert_eq!(LlmProvider::from_str("deepSeek"), Some(LlmProvider::DeepSeek));
    assert_eq!(LlmProvider::from_str("GOOGLE"), Some(LlmProvider::Google));
    assert_eq!(LlmProvider::from_str("mistral"), None);
    assert_eq!(LlmProvider::from_str(""), None);
}

#[test]
fn only_google_is_scraped() {
    assert!(LlmProvider::Google.requires_scraping());
    assert!(!LlmProvider::OpenAI.requires_scraping());
    assert!(!LlmProvider::Anthropic.requires_scraping());
    assert!(!LlmProvider::DeepSeek.requires_scraping());
}

#[test]
fn retry_backoff_is_square_law_and_monotonic() {
    assert_eq!(backoff_delay_ms(1), 1000);
    assert_eq!(backoff_delay_ms(2), 4000);
    assert!(backoff_delay_ms(1) <= backoff_delay_ms(2));
    assert!(backoff_delay_ms(2) <= backoff_delay_ms(3));
}

#[test]
fn three_failures_exhaust_the_retry_budget() {
    let mut retry = RetryState::new();
    assert!(retry.can_attempt());
    let first = retry.on_failure();
    assert_eq!(first, RetryDecision::RetryAfter { delay_ms: 1000 });
    assert!(retry.can_attempt());
    let second = retry.on_failure();
    assert_eq!(second, RetryDecision::RetryAfter { delay_ms: 4000 });
    assert!(retry.can_attempt());
    let third = retry.on_failure();
    assert_eq!(third, RetryDecision::GiveUp { attempts_made: 3 });
    assert!(!retry.can_attempt());
}

#[test]
fn three_consecutive_500s_fail_with_that_status_after_three_attempts() {
    let mut retry = RetryState::new();
    let mut attempts = 0;
    let mut delays: Vec<u64> = Vec::new();
    let last = loop {
        attempts += 1;
        let outcome = outcome_from_api_response(500, None);
        assert!(matches!(outcome, FetchOutcome::Failure(_)));
        match retry.on_failure() {
            RetryDecision::RetryAfter { delay_ms } => delays.push(delay_ms),
            RetryDecision::GiveUp { attempts_made } => {
                assert_eq!(attempts_made, 3);
                break outcome;
            }
        }
    };
    assert_eq!(attempts, 3);
    assert_eq!(delays, [1000, 4000]);
    assert!(delays[0] >= 1000 && delays[1] >= 4000);
    assert!(delays[0] <= delays[1]);
    match last {
        FetchOutcome::Failure(f) => assert_eq!(f.kind, FailureKind::HttpStatus(500)),
        FetchOutcome::Success(_) => panic!("a 500 response must fail"),
    }
}

#[test]
fn status_code_classification() {
    assert!(is_success_status(200));
    assert!(is_success_status(204));
    assert!(is_success_status(299));
    assert!(!is_success_status(199));
    assert!(!is_success_status(300));
    assert!(!is_success_status(404));
    assert!(!is_success_status(500));
}

#[test]
fn http_500_yields_http_status_failure() {
    let outcome = outcome_from_api_response(500, None);
    match outcome {
        FetchOutcome::Failure(f) => {
            assert_eq!(f.kind, FailureKind::HttpStatus(500));
            assert_eq!(f.message, "HTTP status 500");
        }
        FetchOutcome::Success(_) => panic!("a 500 response must fail"),
    }
}

#[test]
fn unparsable_body_yields_decode_failure() {
    let outcome = outcome_from_api_response(200, None);
    match outcome {
        FetchOutcome::Failure(f) => {
            assert_eq!(f.kind, FailureKind::Decode);
            assert_eq!(f.message, "response body is not valid JSON");
        }
        FetchOutcome::Success(_) => panic!("an unparsable body must fail"),
    }
}

#[test]
fn malformed_body_yields_decode_failure() {
    let body = JsonValue::Object(vec![JsonField {
        key: "page".to_string(),
        value: JsonValue::Null,
    }]);
    let outcome = outcome_from_api_response(200, Some(&body));
    match outcome {
        FetchOutcome::Failure(f) => assert_eq!(f.kind, FailureKind::Decode),
        FetchOutcome::Success(_) => panic!("a malformed body must fail"),
    }
}

fn minimal_summary_tree() -> JsonValue {
    let page = JsonValue::Object(vec![
        JsonField { key: "id".to_string(), value: JsonValue::Text("p".to_string()) },
        JsonField { key: "name".to_string(), value: JsonValue::Text("N".to_string()) },
        JsonField { key: "url".to_string(), value: JsonValue::Text("https://x".to_string()) },
        JsonField { key: "updated_at".to_string(), value: JsonValue::Text("t".to_string()) },
    ]);
    let status = JsonValue::Object(vec![
        JsonField { key: "indicator".to_string(), value: JsonValue::Text("none".to_string()) },
        JsonField {
            key: "description".to_string(),
            value: JsonValue::Text("All Systems Operational".to_string()),
        },
    ]);
    JsonValue::Object(vec![
        JsonField { key: "page".to_string(), value: page },
        JsonField { key: "components".to_string(), value: JsonValue::Array(vec![]) },
        JsonField { key: "status".to_string(), value: status },
    ])
}

#[test]
fn well_formed_body_yields_success() {
    let body = minimal_summary_tree();
    let outcome = outcome_from_api_response(200, Some(&body));
    match outcome {
        FetchOutcome::Success(s) => {
            assert_eq!(s.page.id, "p");
            assert_eq!(s.status.indicator, StatusIndicator::NoImpact);
        }
        FetchOutcome::Failure(_) => panic!("a well-formed body must decode"),
    }
}

#[test]
fn failure_outcomes_carry_kind_and_message() {
    for kind in [
        FailureKind::Network,
        FailureKind::Scrape,
        FailureKind::SessionUnavailable,
    ] {
        match failure_outcome(kind, "it broke".to_string()) {
            FetchOutcome::Failure(f) => {
                assert_eq!(f.kind, kind);
                assert_eq!(f.message, "it broke");
            }
            FetchOutcome::Success(_) => panic!("failure_outcome must fail"),
        }
    }
}

fn run_poll_cycle(fail_all: bool) -> llm_status::fetcher::PollResults {
    let mut agg = Aggregator::new();
    while let Some(provider) = agg.next_source() {
        let outcome = if fail_all {
            failure_outcome(FailureKind::Network, format!("{} unreachable", provider.name()))
        } else if provider.requires_scraping() {
            failure_outcome(FailureKind::SessionUnavailable, "no browser".to_string())
        } else {
            outcome_from_api_response(200, Some(&minimal_summary_tree()))
        };
        agg.record(outcome);
    }
    assert!(agg.is_complete());
    agg.into_results()
}

#[test]
fn one_outcome_per_source_even_when_all_fail() {
    let results = run_poll_cycle(true);
    assert_eq!(results.entries.len(), all_providers().len());
    let names: Vec<&str> = results.entries.iter().map(|e| e.source.as_str()).collect();
    assert_eq!(names, ["OpenAI", "Anthropic", "DeepSeek", "Google"]);
    assert_eq!(results.success_count(), 0);
    assert_eq!(results.failure_count(), 4);
}

#[test]
fn failures_do_not_stop_other_sources() {
    let results = run_poll_cycle(false);
    assert_eq!(results.entries.len(), 4);
    assert_eq!(results.success_count(), 3);
    assert_eq!(results.failure_count(), 1);
    match results.get("Google") {
        Some(FetchOutcome::Failure(f)) => assert_eq!(f.kind, FailureKind::SessionUnavailable),
        _ => panic!("the scraped source must have a failure entry"),
    }
    match results.get("OpenAI") {
        Some(FetchOutcome::Success(_)) => {}
        _ => panic!("the API sources must have success entries"),
    }
    assert!(results.get("Mistral").is_none());
}

#[test]
fn consecutive_poll_cycles_are_independent() {
    let first = run_poll_cycle(false);
    let first_names: Vec<String> = first.entries.iter().map(|e| e.source.clone()).collect();
    let first_successes = first.success_count();
    let second = run_poll_cycle(true);
    // The second cycle's outcomes differ entirely; the first result set is
    // untouched by running it.
    assert_eq!(second.success_count(), 0);
    assert_eq!(first.success_count(), first_successes);
    let names_again: Vec<String> = first.entries.iter().map(|e| e.source.clone()).collect();
    assert_eq!(first_names, names_again);
}

#[test]
fn default_config_values() {
    let config = Config::default();
    assert_eq!(config.status_file, "frontend/status.json");
    assert_eq!(config.frontend_port, 5959);
    assert_eq!(config.frontend_dir, "frontend");
    assert_eq!(config.refresh_interval_secs, 300);
    assert_eq!(config.server_bind_addr, "0.0.0.0");
    assert_eq!(config.server_address(), "0.0.0.0:5959");
    assert_eq!(config.local_url(), "http://localhost:5959");
    assert_eq!(config.refresh_interval(), std::time::Duration::from_secs(300));
}
