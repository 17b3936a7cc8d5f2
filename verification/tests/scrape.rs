//! Tests of the scraped source: vocabulary maps, selector-fallback and
//! pairing decisions, snapshot assembly, and the session state machine.

use llm_status::google::{
    extract_google_status, latest_day_status, overall_from_candidates, ready_decision,
    services_from_page, GoogleAIStudioStatus, GoogleOverallStatus, GoogleServiceInfo,
    GoogleServiceStatus, ReadyDecision, ScrapeAction, ScrapeEvent, ScrapeState,
};
use llm_status::models::{ComponentStatus, StatusIndicator};

#[test]
fn overall_vocabulary_maps_known_phrases() {
    for (text, expected) in [
        ("All Systems Operational", GoogleOverallStatus::Operational),
        ("Degraded Performance", GoogleOverallStatus::DegradedPerformance),
        ("Partial Outage", GoogleOverallStatus::PartialOutage),
        ("Major Outage", GoogleOverallStatus::MajorOutage),
    ] {
        assert_eq!(GoogleOverallStatus::from_status_text(text), expected);
    }
}

#[test]
fn overall_vocabulary_trims_and_ignores_case() {
    assert_eq!(
        GoogleOverallStatus::from_status_text("  all systems OPERATIONAL \n"),
        GoogleOverallStatus::Operational
    );
    assert_eq!(
        GoogleOverallStatus::from_status_text("\tMAJOR outage "),
        GoogleOverallStatus::MajorOutage
    );
}

#[test]
fn overall_vocabulary_is_total() {
    for text in ["", "Everything is on fire", "operational", "All Systems", "状态未知"] {
        assert_eq!(
            GoogleOverallStatus::from_status_text(text),
            GoogleOverallStatus::Unknown
        );
    }
}

#[test]
fn class_vocabulary_is_total_and_ordered() {
    assert_eq!(
        GoogleServiceStatus::from_class("xap-inline-dialog timeline-day severity-major"),
        GoogleServiceStatus::MajorOutage
    );
    assert_eq!(
        GoogleServiceStatus::from_class("timeline-day severity-moderate"),
        GoogleServiceStatus::PartialOutage
    );
    assert_eq!(
        GoogleServiceStatus::from_class("timeline-day severity-minor"),
        GoogleServiceStatus::Degraded
    );
    assert_eq!(
        GoogleServiceStatus::from_class("timeline-day operational"),
        GoogleServiceStatus::Operational
    );
    assert_eq!(
        GoogleServiceStatus::from_class("timeline-day"),
        GoogleServiceStatus::Unknown
    );
    // Severity tokens take precedence over the operational marker.
    assert_eq!(
        GoogleServiceStatus::from_class("operational severity-major"),
        GoogleServiceStatus::MajorOutage
    );
}

#[test]
fn last_day_indicator_decides() {
    let days = vec![
        Some("timeline-day operational".to_string()),
        Some("timeline-day severity-minor".to_string()),
    ];
    assert_eq!(latest_day_status(&days), GoogleServiceStatus::Degraded);
    assert_eq!(
        latest_day_status(&days).to_component_status(),
        ComponentStatus::DegradedPerformance
    );
}

#[test]
fn missing_day_indicators_mean_unknown() {
    let empty: Vec<Option<String>> = vec![];
    assert_eq!(latest_day_status(&empty), GoogleServiceStatus::Unknown);
    let no_class = vec![Some("timeline-day operational".to_string()), None];
    assert_eq!(latest_day_status(&no_class), GoogleServiceStatus::Unknown);
}

#[test]
fn first_usable_headline_wins() {
    let texts = vec![
        None,
        Some("".to_string()),
        Some("   ".to_string()),
        Some("Partial Outage".to_string()),
        Some("Major Outage".to_string()),
    ];
    assert_eq!(overall_from_candidates(&texts), GoogleOverallStatus::PartialOutage);
}

#[test]
fn whole_chain_miss_degrades_to_unknown() {
    let texts: Vec<Option<String>> = vec![None, Some(" ".to_string()), None];
    assert_eq!(overall_from_candidates(&texts), GoogleOverallStatus::Unknown);
    let empty: Vec<Option<String>> = vec![];
    assert_eq!(overall_from_candidates(&empty), GoogleOverallStatus::Unknown);
}

fn operational_days() -> Vec<Option<String>> {
    vec![Some("timeline-day operational".to_string())]
}

#[test]
fn count_mismatch_uses_shorter_length() {
    let names = vec![
        "Gemini API".to_string(),
        "AI Studio".to_string(),
        "Files API".to_string(),
        "Tuning".to_string(),
    ];
    let dashboards = vec![
        operational_days(),
        vec![Some("timeline-day severity-minor".to_string())],
        vec![],
    ];
    let services = services_from_page(&names, &dashboards);
    assert_eq!(services.len(), 3);
    assert_eq!(services[0].name, "Gemini API");
    assert_eq!(services[1].name, "AI Studio");
    assert_eq!(services[2].name, "Files API");
    assert_eq!(services[0].status, GoogleServiceStatus::Operational);
    assert_eq!(services[1].status, GoogleServiceStatus::Degraded);
    assert_eq!(services[2].status, GoogleServiceStatus::Unknown);
}

#[test]
fn blank_names_are_skipped() {
    let names = vec!["A".to_string(), "   ".to_string(), "C".to_string()];
    let dashboards = vec![operational_days(), operational_days(), operational_days()];
    let services = services_from_page(&names, &dashboards);
    assert_eq!(services.len(), 2);
    assert_eq!(services[0].name, "A");
    assert_eq!(services[1].name, "C");
}

#[test]
fn snapshot_assembly_normalizes_extraction() {
    let status = GoogleAIStudioStatus {
        overall_status: GoogleOverallStatus::DegradedPerformance,
        services: vec![
            GoogleServiceInfo {
                name: "Gemini API".to_string(),
                status: GoogleServiceStatus::Operational,
            },
            GoogleServiceInfo {
                name: "AI Studio".to_string(),
                status: GoogleServiceStatus::MajorOutage,
            },
        ],
        timestamp: "2024-05-01T10:00:00+00:00".to_string(),
    };
    let summary = status.into_status_page_summary();
    assert_eq!(summary.page.id, "google-ai-studio");
    assert_eq!(summary.page.name, "Google AI Studio");
    assert_eq!(summary.page.url, "https://aistudio.google.com/status");
    assert_eq!(summary.page.updated_at, "2024-05-01T10:00:00+00:00");
    assert_eq!(summary.page.time_zone.as_deref(), Some("UTC"));
    assert_eq!(summary.components.len(), 2);
    assert_eq!(summary.components[0].id, "google-service-0");
    assert_eq!(summary.components[1].id, "google-service-1");
    assert_eq!(summary.components[0].name, "Gemini API");
    assert_eq!(summary.components[0].status, ComponentStatus::Operational);
    assert_eq!(summary.components[1].status, ComponentStatus::MajorOutage);
    assert_eq!(summary.components[0].position, 0);
    assert_eq!(summary.components[1].position, 1);
    assert_eq!(summary.components[0].created_at, "2024-05-01T10:00:00+00:00");
    assert!(summary.incidents.is_empty());
    assert!(summary.scheduled_maintenances.is_empty());
    assert_eq!(summary.status.indicator, StatusIndicator::Minor);
    assert_eq!(summary.status.description, "Degraded Performance");
}

#[test]
fn extraction_builds_from_raw_readings() {
    let overall_texts = vec![None, Some("Major Outage".to_string())];
    let names = vec!["Gemini API".to_string()];
    let dashboards = vec![vec![Some("timeline-day severity-major".to_string())]];
    let g = extract_google_status(
        &overall_texts,
        &names,
        &dashboards,
        "2024-05-01T10:00:00+00:00".to_string(),
    );
    assert_eq!(g.overall_status, GoogleOverallStatus::MajorOutage);
    assert_eq!(g.services.len(), 1);
    assert_eq!(g.services[0].status, GoogleServiceStatus::MajorOutage);
    assert_eq!(g.timestamp, "2024-05-01T10:00:00+00:00");
}

#[test]
fn teardown_happens_once_after_failures() {
    let mut closes = 0;
    let mut state = ScrapeState::start();
    for _ in 0..5 {
        let (next, action) = state.step(ScrapeEvent::AttemptFailed("boom".to_string()));
        state = next;
        match action {
            Some(ScrapeAction::CloseSession { result }) => {
                closes += 1;
                assert!(result.is_err());
            }
            Some(ScrapeAction::RetryAfterDelay { pause_ms, settle_ms }) => {
                assert_eq!(pause_ms, 3000);
                assert_eq!(settle_ms, 2000);
            }
            None => {}
        }
    }
    assert_eq!(closes, 1);
    assert_eq!(state, ScrapeState::Finished);
}

#[test]
fn teardown_happens_once_after_late_success() {
    let status = GoogleAIStudioStatus {
        overall_status: GoogleOverallStatus::Operational,
        services: vec![],
        timestamp: "t".to_string(),
    };
    let mut closes = 0;
    let mut state = ScrapeState::start();
    let (next, action) = state.step(ScrapeEvent::AttemptFailed("session opened, extract threw".to_string()));
    state = next;
    assert!(matches!(action, Some(ScrapeAction::RetryAfterDelay { .. })));
    let (next, action) = state.step(ScrapeEvent::AttemptSucceeded(status.into_status_page_summary()));
    state = next;
    match action {
        Some(ScrapeAction::CloseSession { result }) => {
            closes += 1;
            assert!(result.is_ok());
        }
        _ => panic!("success must tear the session down"),
    }
    // The machine is finished; nothing further is ordered, so the teardown
    // cannot repeat.
    let (next, action) = state.step(ScrapeEvent::AttemptFailed("late".to_string()));
    assert!(action.is_none());
    assert_eq!(next, ScrapeState::Finished);
    assert_eq!(closes, 1);
}

#[test]
fn readiness_never_fails_hard() {
    assert_eq!(ready_decision("complete", 0), ReadyDecision::Ready);
    assert_eq!(ready_decision("complete", 9), ReadyDecision::Ready);
    assert_eq!(
        ready_decision("interactive", 0),
        ReadyDecision::PollAgain { delay_ms: 500 }
    );
    assert_eq!(ready_decision("loading", 9), ReadyDecision::ProceedAnyway);
}
