use native_usage::json::JsonValue;
use native_usage::normalize::parse_native_payload;
use native_usage::panel::PanelStatus;

fn obj(fields: Vec<(&str, JsonValue)>) -> JsonValue {
    JsonValue::Obj(fields.into_iter().map(|(k, v)| (k.to_string(), v)).collect())
}

#[test]
fn totals_default_to_zero_and_status_is_ok() {
    let payload = obj(vec![]);
    let p = parse_native_payload(&payload, "7d", "2024-01-01T00:00:00+00:00".to_string());
    assert_eq!(p.status, PanelStatus::Okay);
    assert_eq!(p.effective_range, "7d");
    assert!(p.message.is_none());
    let s = p.summary.unwrap();
    assert_eq!(s.total_requests, 0);
    assert_eq!(s.total_tokens, 0);
    assert!(p.rows.is_empty());
    assert_eq!(p.last_synced_at.as_deref(), Some("2024-01-01T00:00:00+00:00"));
}

#[test]
fn synthesizes_one_row_for_nonzero_totals_without_row_arrays() {
    let payload = obj(vec![
        ("total_requests", JsonValue::Int(42)),
        ("total_tokens", JsonValue::Int(100)),
    ]);
    let p = parse_native_payload(&payload, "30d", "t".to_string());
    let s = p.summary.unwrap();
    assert_eq!(s.total_requests, 42);
    assert_eq!(s.total_tokens, 100);
    assert_eq!(p.rows.len(), 1);
    assert_eq!(p.rows[0].source, "native");
    assert_eq!(p.rows[0].model, "all-models");
    assert!(p.rows[0].auth_index.is_none());
    assert_eq!(p.rows[0].requests, 42);
    assert_eq!(p.rows[0].tokens, 100);
}

#[test]
fn no_synthesis_when_totals_are_zero() {
    let payload = obj(vec![("total_requests", JsonValue::Int(0))]);
    let p = parse_native_payload(&payload, "30d", "t".to_string());
    assert!(p.rows.is_empty());
}

#[test]
fn rows_convert_with_alias_priorities_and_defaults() {
    let payload = obj(vec![(
        "models",
        JsonValue::Arr(vec![
            obj(vec![
                ("model", JsonValue::Str("m1".to_string())),
                ("provider", JsonValue::Str("p".to_string())),
                ("requests", JsonValue::Str("7".to_string())),
                ("tokens", JsonValue::Int(9)),
                ("auth_index", JsonValue::Int(2)),
            ]),
            JsonValue::Str("skipped".to_string()),
            obj(vec![]),
        ]),
    )]);
    let p = parse_native_payload(&payload, "today", "t".to_string());
    assert_eq!(p.rows.len(), 2);
    assert_eq!(p.rows[0].model, "m1");
    assert_eq!(p.rows[0].source, "p");
    assert_eq!(p.rows[0].requests, 7);
    assert_eq!(p.rows[0].tokens, 9);
    assert_eq!(p.rows[0].auth_index.as_deref(), Some("2"));
    assert_eq!(p.rows[1].model, "unknown");
    assert_eq!(p.rows[1].source, "native");
    assert_eq!(p.rows[1].requests, 0);
    assert_eq!(p.rows[1].tokens, 0);
    assert!(p.rows[1].auth_index.is_none());
}

#[test]
fn first_nonempty_array_candidate_wins_even_if_it_yields_no_rows() {
    // "rows" is present but holds no objects: it is still the row source,
    // and "items" is not consulted.
    let payload = obj(vec![
        ("rows", JsonValue::Arr(vec![JsonValue::Int(1)])),
        (
            "items",
            JsonValue::Arr(vec![obj(vec![("model", JsonValue::Str("m".to_string()))])]),
        ),
        ("total_requests", JsonValue::Int(3)),
    ]);
    let p = parse_native_payload(&payload, "30d", "t".to_string());
    // No rows converted, totals nonzero: the synthesis fallback applies.
    assert_eq!(p.rows.len(), 1);
    assert_eq!(p.rows[0].model, "all-models");
}

#[test]
fn empty_array_candidate_falls_through_to_the_next() {
    let payload = obj(vec![
        ("rows", JsonValue::Arr(vec![])),
        (
            "items",
            JsonValue::Arr(vec![obj(vec![("model", JsonValue::Str("m2".to_string()))])]),
        ),
    ]);
    let p = parse_native_payload(&payload, "30d", "t".to_string());
    assert_eq!(p.rows.len(), 1);
    assert_eq!(p.rows[0].model, "m2");
}

#[test]
fn row_array_found_by_depth_first_search() {
    let payload = obj(vec![(
        "data",
        obj(vec![(
            "rows",
            JsonValue::Arr(vec![obj(vec![("name", JsonValue::Str("deep".to_string()))])]),
        )]),
    )]);
    let p = parse_native_payload(&payload, "30d", "t".to_string());
    assert_eq!(p.rows.len(), 1);
    assert_eq!(p.rows[0].model, "deep");
}
