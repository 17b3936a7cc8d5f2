//! Tests of the JSON wire-shape decoder: a well-formed summary decodes with
//! component length and order kept; malformed documents are rejected whole.

use llm_status::json::{decode_summary, JsonField, JsonValue};
use llm_status::models::{ComponentStatus, IncidentImpact, IncidentStatus, StatusIndicator};

/// Builds the library's JSON tree from a parsed `serde_json` value.
fn to_tree(v: &serde_json::Value) -> JsonValue {
    match v {
        serde_json::Value::Null => JsonValue::Null,
        serde_json::Value::Bool(b) => JsonValue::Bool(*b),
        serde_json::Value::Number(n) => JsonValue::Number(n.as_i64()),
        serde_json::Value::String(s) => JsonValue::Text(s.clone()),
        serde_json::Value::Array(items) => JsonValue::Array(items.iter().map(to_tree).collect()),
        serde_json::Value::Object(fields) => JsonValue::Object(
            fields
                .iter()
                .map(|(k, val)| JsonField { key: k.clone(), value: to_tree(val) })
                .collect(),
        ),
    }
}

fn parse(text: &str) -> JsonValue {
    let v: serde_json::Value = serde_json::from_str(text).expect("test document must parse");
    to_tree(&v)
}

const WELL_FORMED: &str = r#"{
  "page": {
    "id": "abcd1234",
    "name": "OpenAI",
    "url": "https://status.openai.com",
    "time_zone": "Etc/UTC",
    "updated_at": "2024-05-01T10:00:00.000Z"
  },
  "components": [
    {
      "id": "c1",
      "name": "API",
      "status": "operational",
      "created_at": "2020-01-01T00:00:00.000Z",
      "updated_at": "2024-05-01T09:00:00.000Z",
      "position": 1,
      "description": "The API",
      "showcase": true,
      "group_id": null,
      "group": false,
      "only_show_if_degraded": false
    },
    {
      "id": "c2",
      "name": "Playground",
      "status": "degraded_performance",
      "created_at": "2020-01-01T00:00:00.000Z",
      "updated_at": "2024-05-01T09:30:00.000Z",
      "position": 2,
      "description": null,
      "group_id": "g1",
      "group": null
    },
    {
      "id": "c3",
      "name": "Labs",
      "status": "some_new_status",
      "created_at": "2020-01-01T00:00:00.000Z",
      "updated_at": "2024-05-01T09:30:00.000Z",
      "position": 3,
      "description": null,
      "group_id": null
    }
  ],
  "incidents": [
    {
      "id": "i1",
      "name": "Elevated error rates",
      "status": "monitoring",
      "created_at": "2024-04-30T00:00:00.000Z",
      "updated_at": "2024-04-30T12:00:00.000Z",
      "monitoring_at": "2024-04-30T11:00:00.000Z",
      "resolved_at": null,
      "impact": "minor",
      "shortlink": "https://stspg.io/x",
      "page_id": "abcd1234",
      "incident_updates": [
        {
          "id": "u1",
          "status": "monitoring",
          "body": "A fix is in place.",
          "display_at": "2024-04-30T11:00:00.000Z",
          "affected_components": [
            { "code": "c1", "name": "API", "old_status": "degraded_performance", "new_status": "operational" }
          ],
          "delights_resolved": false
        }
      ],
      "scheduled_for": null,
      "scheduled_until": null,
      "automated": false
    }
  ],
  "scheduled_maintenances": [],
  "status": {
    "indicator": "minor",
    "description": "Partially Degraded Service"
  }
}"#;

#[test]
fn well_formed_summary_decodes() {
    let tree = parse(WELL_FORMED);
    let summary = decode_summary(&tree).expect("a well-formed document must decode");
    assert_eq!(summary.page.id, "abcd1234");
    assert_eq!(summary.page.name, "OpenAI");
    assert_eq!(summary.page.url, "https://status.openai.com");
    assert_eq!(summary.page.updated_at, "2024-05-01T10:00:00.000Z");
    assert_eq!(summary.page.time_zone.as_deref(), Some("Etc/UTC"));
    assert_eq!(summary.status.indicator, StatusIndicator::Minor);
    assert_eq!(summary.status.description, "Partially Degraded Service");
}

#[test]
fn components_keep_length_and_order() {
    let tree = parse(WELL_FORMED);
    let summary = decode_summary(&tree).expect("a well-formed document must decode");
    assert_eq!(summary.components.len(), 3);
    assert_eq!(summary.components[0].name, "API");
    assert_eq!(summary.components[1].name, "Playground");
    assert_eq!(summary.components[2].name, "Labs");
    assert_eq!(summary.components[0].status, ComponentStatus::Operational);
    assert_eq!(summary.components[1].status, ComponentStatus::DegradedPerformance);
    assert_eq!(summary.components[0].position, 1);
    assert_eq!(summary.components[1].position, 2);
    assert_eq!(summary.components[1].group_id.as_deref(), Some("g1"));
    assert_eq!(summary.components[1].description, None);
    assert!(!summary.components[1].only_show_if_degraded);
}

#[test]
fn unknown_component_status_maps_to_unknown() {
    let tree = parse(WELL_FORMED);
    let summary = decode_summary(&tree).expect("a well-formed document must decode");
    assert_eq!(summary.components[2].status, ComponentStatus::Unknown);
}

#[test]
fn incidents_decode_with_updates() {
    let tree = parse(WELL_FORMED);
    let summary = decode_summary(&tree).expect("a well-formed document must decode");
    assert_eq!(summary.incidents.len(), 1);
    let incident = &summary.incidents[0];
    assert_eq!(incident.name, "Elevated error rates");
    assert_eq!(incident.status, IncidentStatus::Monitoring);
    assert_eq!(incident.impact, IncidentImpact::Minor);
    assert_eq!(incident.resolved_at, None);
    assert_eq!(incident.incident_updates.len(), 1);
    let update = &incident.incident_updates[0];
    assert_eq!(update.body, "A fix is in place.");
    let affected = update.affected_components.as_ref().expect("affected components present");
    assert_eq!(affected.len(), 1);
    assert!(affected[0]
        .entries
        .iter()
        .any(|(k, v)| k == "code" && v == "c1"));
    assert_eq!(summary.scheduled_maintenances.len(), 0);
}

#[test]
fn missing_incident_arrays_default_to_empty() {
    let tree = parse(
        r#"{
            "page": { "id": "p", "name": "N", "url": "https://x", "updated_at": "t" },
            "components": [],
            "status": { "indicator": "none", "description": "All Systems Operational" }
        }"#,
    );
    let summary = decode_summary(&tree).expect("minimal document must decode");
    assert_eq!(summary.incidents.len(), 0);
    assert_eq!(summary.scheduled_maintenances.len(), 0);
    assert_eq!(summary.components.len(), 0);
    assert_eq!(summary.page.time_zone, None);
    assert_eq!(summary.status.indicator, StatusIndicator::NoImpact);
}

#[test]
fn missing_required_field_rejects_document() {
    let tree = parse(
        r#"{
            "components": [],
            "status": { "indicator": "none", "description": "ok" }
        }"#,
    );
    assert!(decode_summary(&tree).is_none());
}

#[test]
fn wrongly_typed_component_rejects_document() {
    let tree = parse(
        r#"{
            "page": { "id": "p", "name": "N", "url": "https://x", "updated_at": "t" },
            "components": [ { "id": "c", "name": "X", "status": 3,
                "created_at": "t", "updated_at": "t", "position": 1 } ],
            "status": { "indicator": "none", "description": "ok" }
        }"#,
    );
    assert!(decode_summary(&tree).is_none());
}

#[test]
fn non_object_document_rejected() {
    let tree = parse(r#"[1, 2, 3]"#);
    assert!(decode_summary(&tree).is_none());
    let tree = parse(r#""just a string""#);
    assert!(decode_summary(&tree).is_none());
}

#[test]
fn indicator_vocabulary_is_total() {
    for (wire, expected) in [
        ("none", StatusIndicator::NoImpact),
        ("minor", StatusIndicator::Minor),
        ("major", StatusIndicator::Major),
        ("critical", StatusIndicator::Critical),
        ("maintenance", StatusIndicator::Maintenance),
        ("something_else", StatusIndicator::Unknown),
        ("", StatusIndicator::Unknown),
    ] {
        assert_eq!(StatusIndicator::from_wire(wire), expected);
    }
}
