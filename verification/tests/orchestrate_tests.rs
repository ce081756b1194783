use native_usage::json::JsonValue;
use native_usage::normalize::parse_native_payload;
use native_usage::orchestrate::{decide_refresh, serve_cached_panel, settle_fetch_outcome, RefreshDecision};
use native_usage::panel::{
    apply_clamp_notice, make_unavailable_panel, CachedSnapshot, NativeUsagePanel, PanelStatus,
    UsageRangeQuery,
};

fn sample_panel(range: &str) -> NativeUsagePanel {
    let payload = JsonValue::Obj(vec![
        ("total_requests".to_string(), JsonValue::Int(10)),
        ("total_tokens".to_string(), JsonValue::Int(20)),
    ]);
    parse_native_payload(&payload, range, "2024-05-01T10:00:00+00:00".to_string())
}

fn snapshot(range: &str, ts: Option<i64>) -> CachedSnapshot {
    CachedSnapshot { panel: sample_panel(range), synced_ts: ts }
}

#[test]
fn fresh_cache_is_served_and_stale_cache_refreshes() {
    let t = 1_000_000;
    let cached = Some(snapshot("7d", Some(t)));
    assert_eq!(decide_refresh(false, &cached, t + 60), RefreshDecision::ServeCached);
    assert_eq!(decide_refresh(false, &cached, t), RefreshDecision::ServeCached);
    assert_eq!(decide_refresh(false, &cached, t + 61), RefreshDecision::Refresh);
    assert_eq!(decide_refresh(true, &cached, t), RefreshDecision::Refresh);
    assert_eq!(decide_refresh(false, &None, t), RefreshDecision::Refresh);
    assert_eq!(decide_refresh(false, &Some(snapshot("7d", None)), t), RefreshDecision::Refresh);
}

#[test]
fn served_cached_panel_is_unmodified_for_plain_ranges() {
    let p = serve_cached_panel(
        UsageRangeQuery::Last7Days,
        Some(snapshot("7d", Some(5))),
        "now".to_string(),
    );
    assert_eq!(p.status, PanelStatus::Okay);
    assert_eq!(p.effective_range, "7d");
    assert!(p.message.is_none());
    assert_eq!(p.summary.unwrap().total_requests, 10);
}

#[test]
fn serving_without_a_snapshot_synthesizes_a_not_fetched_panel() {
    let p = serve_cached_panel(UsageRangeQuery::Today, None, "now".to_string());
    assert_eq!(p.status, PanelStatus::Unavailable);
    assert_eq!(p.effective_range, "today");
    assert_eq!(p.message.as_deref(), Some("Native usage has not been fetched yet."));
    assert_eq!(p.last_synced_at.as_deref(), Some("now"));
}

#[test]
fn all_time_serves_the_30d_key_and_appends_the_clamp_notice() {
    assert_eq!(UsageRangeQuery::AllTime.effective_key(), "30d");
    assert_eq!(UsageRangeQuery::AllTime.as_key(), "all");
    let p = serve_cached_panel(
        UsageRangeQuery::AllTime,
        Some(snapshot("30d", Some(5))),
        "now".to_string(),
    );
    assert!(p
        .message
        .as_deref()
        .unwrap()
        .ends_with("Native panel is currently clamped to 30d."));

    let with_prior = apply_clamp_notice(
        UsageRangeQuery::AllTime,
        make_unavailable_panel("30d", "prior".to_string(), "now".to_string()),
    );
    assert_eq!(
        with_prior.message.as_deref(),
        Some("prior Native panel is currently clamped to 30d.")
    );

    let untouched = apply_clamp_notice(UsageRangeQuery::Today, sample_panel("today"));
    assert!(untouched.message.is_none());
}

#[test]
fn successful_fetch_is_returned_and_persisted() {
    let (p, persist) = settle_fetch_outcome(
        UsageRangeQuery::Last30Days,
        Some(snapshot("30d", Some(5))),
        Ok(sample_panel("30d")),
        "now".to_string(),
    );
    assert!(persist);
    assert_eq!(p.status, PanelStatus::Okay);
    assert!(p.message.is_none());
}

#[test]
fn failed_fetch_over_a_snapshot_serves_it_stale_without_persisting() {
    let (p, persist) = settle_fetch_outcome(
        UsageRangeQuery::Last30Days,
        Some(snapshot("30d", Some(5))),
        Err("connection refused".to_string()),
        "now".to_string(),
    );
    assert!(!persist);
    assert_eq!(p.status, PanelStatus::Stale);
    let msg = p.message.as_deref().unwrap();
    assert!(msg.contains("connection refused"));
    assert_eq!(
        msg,
        "Native refresh failed: connection refused. Showing most recent snapshot."
    );
    assert_eq!(p.summary.unwrap().total_requests, 10);
    assert_eq!(p.rows.len(), 1);
}

#[test]
fn failed_fetch_without_a_snapshot_persists_an_unavailable_panel() {
    let (p, persist) = settle_fetch_outcome(
        UsageRangeQuery::Last7Days,
        None,
        Err("boom".to_string()),
        "now".to_string(),
    );
    assert!(persist);
    assert_eq!(p.status, PanelStatus::Unavailable);
    assert!(p.summary.is_none());
    assert!(p.rows.is_empty());
    let msg = p.message.as_deref().unwrap();
    assert!(msg.contains("Native usage is unavailable:"));
    assert_eq!(msg, "Native usage is unavailable: boom");
    assert_eq!(p.last_synced_at.as_deref(), Some("now"));
}

#[test]
fn all_time_failure_messages_carry_the_clamp_notice_too() {
    let (p, _) = settle_fetch_outcome(
        UsageRangeQuery::AllTime,
        None,
        Err("boom".to_string()),
        "now".to_string(),
    );
    assert_eq!(
        p.message.as_deref(),
        Some("Native usage is unavailable: boom Native panel is currently clamped to 30d.")
    );
}
