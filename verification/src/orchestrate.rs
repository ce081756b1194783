//! The panel orchestrator's decision logic: serve the cached snapshot or
//! refresh, and reconcile a fetch outcome against the cache so that every
//! call ends in a well-formed panel.
//!
//! The surrounding shell performs the store reads/writes and the network
//! negotiation; every decision it acts on is made and specified here. The
//! second component of `settle_fetch_outcome`'s result says whether the
//! panel is to be persisted: a stale fallback is served without re-persisting
//! so that the older snapshot's timestamp keeps driving freshness.

use vstd::prelude::*;
use vstd::string::StringExecFns;
use crate::panel::{
    CachedSnapshot, NativeUsagePanel, PanelStatus, PanelV, SnapshotV, UsageRangeQuery,
    NATIVE_REFRESH_TTL_SECS, apply_clamp_notice, clamp_applied, clamp_notice,
    make_unavailable_panel, snapshot_view, unavailable_panel_spec, with_clamp_message,
};

verus! {

/// A snapshot is fresh iff it carries a synchronization timestamp no older
/// than the TTL.
pub open spec fn snapshot_fresh(cached: Option<SnapshotV>, now: i64) -> bool {
    match cached {
        Some(s) => match s.synced_ts {
            Some(ts) => now - ts <= NATIVE_REFRESH_TTL_SECS,
            None => false,
        },
        None => false,
    }
}

#[derive(Clone, Copy, PartialEq, Eq, Structural, Debug)]
pub enum RefreshDecision {
    ServeCached,
    Refresh,
}

/// The cached panel is served only when the caller did not force a refresh
/// and the snapshot is fresh.
pub open spec fn refresh_decision_spec(force_refresh: bool, cached: Option<SnapshotV>, now: i64) -> RefreshDecision {
    if !force_refresh && snapshot_fresh(cached, now) {
        RefreshDecision::ServeCached
    } else {
        RefreshDecision::Refresh
    }
}

pub fn decide_refresh(force_refresh: bool, cached: &Option<CachedSnapshot>, now: i64) -> (d: RefreshDecision)
    ensures
        d == refresh_decision_spec(force_refresh, snapshot_view(*cached), now),
{
    if force_refresh {
        return RefreshDecision::Refresh;
    }
    match cached {
        Some(s) => match s.synced_ts {
            Some(ts) => {
                if (now as i128) - (ts as i128) <= NATIVE_REFRESH_TTL_SECS as i128 {
                    RefreshDecision::ServeCached
                } else {
                    RefreshDecision::Refresh
                }
            },
            None => RefreshDecision::Refresh,
        },
        None => RefreshDecision::Refresh,
    }
}

pub open spec fn not_fetched_message() -> Seq<char> {
    "Native usage has not been fetched yet."@
}

/// What a serve-from-cache pass returns: the cached panel, or a synthesized
/// not-yet-fetched panel when no panel exists despite metadata, with the
/// clamp notice appended for all-time.
pub open spec fn cached_panel_spec(range: UsageRangeQuery, cached: Option<SnapshotV>, now_iso: Seq<char>) -> PanelV {
    let base = match cached {
        Some(s) => s.panel,
        None => unavailable_panel_spec(range.effective_spec(), not_fetched_message(), now_iso),
    };
    clamp_applied(range, base)
}

pub fn serve_cached_panel(range: UsageRangeQuery, cached: Option<CachedSnapshot>, now_iso: String) -> (p: NativeUsagePanel)
    ensures
        p@ == cached_panel_spec(range, snapshot_view(cached), now_iso@),
{
    let base = match cached {
        Some(s) => s.panel,
        None => make_unavailable_panel(
            range.effective_key(),
            String::from_str("Native usage has not been fetched yet."),
            now_iso,
        ),
    };
    apply_clamp_notice(range, base)
}

pub open spec fn stale_message(err: Seq<char>) -> Seq<char> {
    "Native refresh failed: "@ + err + ". Showing most recent snapshot."@
}

/// The cached panel re-labelled as stale after a failed refresh.
pub open spec fn stale_panel_spec(p: PanelV, err: Seq<char>) -> PanelV {
    PanelV { status: PanelStatus::Stale, message: Some(stale_message(err)), ..p }
}

pub open spec fn unavailable_message(err: Seq<char>) -> Seq<char> {
    "Native usage is unavailable: "@ + err
}

/// How a fetch outcome settles into the returned panel, and whether that
/// panel is persisted. Success persists; failure over an existing snapshot
/// serves it as stale without persisting; failure with no snapshot persists
/// a terminal unavailable panel.
pub open spec fn settle_spec(
    range: UsageRangeQuery,
    cached: Option<SnapshotV>,
    outcome: Result<PanelV, Seq<char>>,
    now_iso: Seq<char>,
) -> (PanelV, bool) {
    match outcome {
        Ok(p) => (clamp_applied(range, p), true),
        Err(err) => match cached {
            Some(s) => (clamp_applied(range, stale_panel_spec(s.panel, err)), false),
            None => (
                clamp_applied(
                    range,
                    unavailable_panel_spec(range.effective_spec(), unavailable_message(err), now_iso),
                ),
                true,
            ),
        },
    }
}

pub open spec fn outcome_view(outcome: Result<NativeUsagePanel, String>) -> Result<PanelV, Seq<char>> {
    match outcome {
        Ok(p) => Ok(p@),
        Err(e) => Err(e@),
    }
}

/// Settles a fetch outcome against the cache; the second component says
/// whether the returned panel is to be persisted.
pub fn settle_fetch_outcome(
    range: UsageRangeQuery,
    cached: Option<CachedSnapshot>,
    outcome: Result<NativeUsagePanel, String>,
    now_iso: String,
) -> (r: (NativeUsagePanel, bool))
    ensures
        (r.0@, r.1) == settle_spec(range, snapshot_view(cached), outcome_view(outcome), now_iso@),
{
    match outcome {
        Ok(p) => (apply_clamp_notice(range, p), true),
        Err(err) => match cached {
            Some(s) => {
                let NativeUsagePanel { status: _, effective_range, message: _, summary, rows, last_synced_at } = s.panel;
                let mut m = String::from_str("Native refresh failed: ");
                m.append(err.as_str());
                m.append(". Showing most recent snapshot.");
                let p = NativeUsagePanel {
                    status: PanelStatus::Stale,
                    effective_range,
                    message: Some(m),
                    summary,
                    rows,
                    last_synced_at,
                };
                proof {
                    assert(p@.rows =~= s.panel@.rows);
                    assert(p@.message == Some(stale_message(err@)));
                }
                (apply_clamp_notice(range, p), false)
            },
            None => {
                let mut m = String::from_str("Native usage is unavailable: ");
                m.append(err.as_str());
                let p = make_unavailable_panel(range.effective_key(), m, now_iso);
                (apply_clamp_notice(range, p), true)
            },
        },
    }
}

/// Decides against the clock: the cached panel is served only when it is
/// fresh at the moment of the call.
pub fn decide_refresh_now(force_refresh: bool, cached: &Option<CachedSnapshot>) -> (d: RefreshDecision)
    ensures
        exists|now: i64| d == refresh_decision_spec(force_refresh, snapshot_view(*cached), now),
{
    let now = crate::clock::now_timestamp();
    let d = decide_refresh(force_refresh, cached, now);
    proof {
        assert(d == refresh_decision_spec(force_refresh, snapshot_view(*cached), now));
    }
    d
}

/// `serve_cached_panel`, stamped with the current time where a panel must
/// be synthesized.
pub fn serve_cached_panel_now(range: UsageRangeQuery, cached: Option<CachedSnapshot>) -> (p: NativeUsagePanel)
    ensures
        exists|now_iso: Seq<char>| p@ == cached_panel_spec(range, snapshot_view(cached), now_iso),
{
    let ghost cached_v = snapshot_view(cached);
    let now_iso = crate::clock::now_rfc3339();
    let ghost now_iso_v = now_iso@;
    let p = serve_cached_panel(range, cached, now_iso);
    proof {
        assert(p@ == cached_panel_spec(range, cached_v, now_iso_v));
    }
    p
}

/// `settle_fetch_outcome`, stamping a terminal unavailable panel with the
/// current time.
pub fn settle_fetch_outcome_now(
    range: UsageRangeQuery,
    cached: Option<CachedSnapshot>,
    outcome: Result<NativeUsagePanel, String>,
) -> (r: (NativeUsagePanel, bool))
    ensures
        exists|now_iso: Seq<char>|
            (r.0@, r.1) == settle_spec(range, snapshot_view(cached), outcome_view(outcome), now_iso),
{
    let ghost cached_v = snapshot_view(cached);
    let ghost outcome_v = outcome_view(outcome);
    let now_iso = crate::clock::now_rfc3339();
    let ghost now_iso_v = now_iso@;
    let r = settle_fetch_outcome(range, cached, outcome, now_iso);
    proof {
        assert((r.0@, r.1) == settle_spec(range, cached_v, outcome_v, now_iso_v));
    }
    r
}

pub open spec fn ends_with(s: Seq<char>, suffix: Seq<char>) -> bool {
    suffix.len() <= s.len() && s.subrange(s.len() - suffix.len(), s.len() as int) == suffix
}

/// Freshness: a non-forced call over a snapshot synchronized at `t` with
/// `now <= t + TTL` serves the cached panel (unmodified aside from the
/// all-time clamp notice); past the TTL it refreshes.
pub proof fn lemma_freshness(range: UsageRangeQuery, force_refresh: bool, s: SnapshotV, t: i64, now: i64, now_iso: Seq<char>)
    requires
        s.synced_ts == Some(t),
    ensures
        !force_refresh && now - t <= NATIVE_REFRESH_TTL_SECS ==> {
            &&& refresh_decision_spec(force_refresh, Some(s), now) == RefreshDecision::ServeCached
            &&& cached_panel_spec(range, Some(s), now_iso) == clamp_applied(range, s.panel)
            &&& (!(range is AllTime) ==> cached_panel_spec(range, Some(s), now_iso) == s.panel)
        },
        now - t > NATIVE_REFRESH_TTL_SECS || force_refresh ==> refresh_decision_spec(
            force_refresh,
            Some(s),
            now,
        ) == RefreshDecision::Refresh,
{
}

/// All-time clamping: the all-time range resolves to the 30-day key for all
/// backend and cache activity, and any panel that passes through the clamp
/// ends its message with the exact clamp sentence.
pub proof fn lemma_all_time_clamp(p: PanelV)
    ensures
        UsageRangeQuery::AllTime.effective_spec() == "30d"@,
        clamp_applied(UsageRangeQuery::AllTime, p).message is Some,
        ends_with(clamp_applied(UsageRangeQuery::AllTime, p).message->Some_0, clamp_notice()),
{
    let m = clamp_applied(UsageRangeQuery::AllTime, p).message->Some_0;
    match p.message {
        Some(prior) => {
            assert(m == prior + " "@ + clamp_notice());
            assert(m.subrange(m.len() - clamp_notice().len(), m.len() as int) =~= clamp_notice());
        },
        None => {
            assert(m == clamp_notice());
            assert(m.subrange(0, m.len() as int) =~= clamp_notice());
        },
    }
}

/// Stale fallback: a failed refresh over an existing snapshot yields a stale
/// panel carrying the failure text, and nothing is persisted, so the stored
/// record keeps its timestamp.
pub proof fn lemma_stale_fallback(range: UsageRangeQuery, s: SnapshotV, err: Seq<char>, now_iso: Seq<char>)
    ensures
        ({
            let (p, persist) = settle_spec(range, Some(s), Err(err), now_iso);
            &&& persist == false
            &&& p.status == PanelStatus::Stale
            &&& (!(range is AllTime) ==> p.message == Some(stale_message(err)))
            &&& (range is AllTime ==> p.message == with_clamp_message(Some(stale_message(err))))
            &&& p.rows == s.panel.rows
            &&& p.summary == s.panel.summary
            &&& p.last_synced_at == s.panel.last_synced_at
        }),
{
}

/// No-cache unavailable path: a failed refresh with no snapshot yields an
/// unavailable panel whose message carries the failure text, and exactly
/// that panel is persisted.
pub proof fn lemma_unavailable_path(range: UsageRangeQuery, err: Seq<char>, now_iso: Seq<char>)
    ensures
        ({
            let (p, persist) = settle_spec(range, None, Err(err), now_iso);
            &&& persist == true
            &&& p.status == PanelStatus::Unavailable
            &&& p.summary is None
            &&& p.rows.len() == 0
            &&& (!(range is AllTime) ==> p.message == Some(unavailable_message(err)))
            &&& (range is AllTime ==> p.message == with_clamp_message(Some(unavailable_message(err))))
        }),
{
}

} // verus!
