//! The usage panel data model: summary, rows, panel, cached snapshot and
//! time range, with spec-level views and the panel builders shared by the
//! orchestrator and the normalizer.

use vstd::prelude::*;
use vstd::string::StringExecFns;

verus! {

/// Cached data is fresh for this many seconds after synchronization.
pub const NATIVE_REFRESH_TTL_SECS: i64 = 60;

#[derive(Clone, Copy, PartialEq, Eq, Structural, Debug)]
pub enum PanelStatus {
    Okay,
    Stale,
    Unavailable,
}

#[derive(Clone, Copy, PartialEq, Eq, Structural, Debug)]
pub struct NativeUsageSummary {
    pub total_requests: i64,
    pub total_tokens: i64,
}

/// One reporting line: where it came from, which model, an optional
/// per-account label, and its counts.
#[derive(Debug)]
pub struct NativeUsageRow {
    pub source: String,
    pub model: String,
    pub auth_index: Option<String>,
    pub requests: i64,
    pub tokens: i64,
}

/// Spec-level image of a row.
pub struct RowV {
    pub source: Seq<char>,
    pub model: Seq<char>,
    pub auth_index: Option<Seq<char>>,
    pub requests: i64,
    pub tokens: i64,
}

impl View for NativeUsageRow {
    type V = RowV;

    open spec fn view(&self) -> RowV {
        RowV {
            source: self.source@,
            model: self.model@,
            auth_index: match self.auth_index {
                Some(s) => Some(s@),
                None => None,
            },
            requests: self.requests,
            tokens: self.tokens,
        }
    }
}

/// The unit returned to callers: never an error, possibly marked stale or
/// unavailable.
#[derive(Debug)]
pub struct NativeUsagePanel {
    pub status: PanelStatus,
    pub effective_range: String,
    pub message: Option<String>,
    pub summary: Option<NativeUsageSummary>,
    pub rows: Vec<NativeUsageRow>,
    pub last_synced_at: Option<String>,
}

/// Spec-level image of a panel.
pub struct PanelV {
    pub status: PanelStatus,
    pub effective_range: Seq<char>,
    pub message: Option<Seq<char>>,
    pub summary: Option<NativeUsageSummary>,
    pub rows: Seq<RowV>,
    pub last_synced_at: Option<Seq<char>>,
}

impl View for NativeUsagePanel {
    type V = PanelV;

    open spec fn view(&self) -> PanelV {
        PanelV {
            status: self.status,
            effective_range: self.effective_range@,
            message: match self.message {
                Some(m) => Some(m@),
                None => None,
            },
            summary: self.summary,
            rows: self.rows@.map_values(|r: NativeUsageRow| r@),
            last_synced_at: match self.last_synced_at {
                Some(t) => Some(t@),
                None => None,
            },
        }
    }
}

/// A persisted envelope: the panel plus the synchronization timestamp used
/// for freshness checks (seconds since epoch).
#[derive(Debug)]
pub struct CachedSnapshot {
    pub panel: NativeUsagePanel,
    pub synced_ts: Option<i64>,
}

pub struct SnapshotV {
    pub panel: PanelV,
    pub synced_ts: Option<i64>,
}

impl View for CachedSnapshot {
    type V = SnapshotV;

    open spec fn view(&self) -> SnapshotV {
        SnapshotV { panel: self.panel@, synced_ts: self.synced_ts }
    }
}

pub open spec fn snapshot_view(c: Option<CachedSnapshot>) -> Option<SnapshotV> {
    match c {
        Some(s) => Some(s@),
        None => None,
    }
}

/// The closed set of logical time windows.
#[derive(Clone, Copy, PartialEq, Eq, Structural, Debug)]
pub enum UsageRangeQuery {
    Today,
    Last7Days,
    Last30Days,
    AllTime,
}

impl UsageRangeQuery {
    /// Canonical string form; the cache key.
    pub open spec fn key_spec(self) -> Seq<char> {
        match self {
            UsageRangeQuery::Today => "today"@,
            UsageRangeQuery::Last7Days => "7d"@,
            UsageRangeQuery::Last30Days => "30d"@,
            UsageRangeQuery::AllTime => "all"@,
        }
    }

    /// The range actually used for backend querying: all-time is a display
    /// concept only and resolves to the 30-day window.
    pub open spec fn effective_spec(self) -> Seq<char> {
        if self is AllTime {
            "30d"@
        } else {
            self.key_spec()
        }
    }

    pub fn as_key(&self) -> (r: &'static str)
        ensures
            r@ == self.key_spec(),
    {
        match self {
            UsageRangeQuery::Today => "today",
            UsageRangeQuery::Last7Days => "7d",
            UsageRangeQuery::Last30Days => "30d",
            UsageRangeQuery::AllTime => "all",
        }
    }

    pub fn effective_key(&self) -> (r: &'static str)
        ensures
            r@ == self.effective_spec(),
    {
        match self {
            UsageRangeQuery::AllTime => "30d",
            _ => self.as_key(),
        }
    }
}

pub open spec fn clamp_notice() -> Seq<char> {
    "Native panel is currently clamped to 30d."@
}

/// A clamped panel's message: the notice, after any prior message and a
/// separating space.
pub open spec fn with_clamp_message(msg: Option<Seq<char>>) -> Option<Seq<char>> {
    match msg {
        Some(m) => Some(m + " "@ + clamp_notice()),
        None => Some(clamp_notice()),
    }
}

/// The clamp notice is appended exactly when the requested range was
/// all-time.
pub open spec fn clamp_applied(range: UsageRangeQuery, p: PanelV) -> PanelV {
    if range is AllTime {
        PanelV { message: with_clamp_message(p.message), ..p }
    } else {
        p
    }
}

/// Appends the all-time clamp notice to the panel's message when the
/// requested range was all-time; otherwise returns the panel unchanged.
pub fn apply_clamp_notice(range: UsageRangeQuery, panel: NativeUsagePanel) -> (r: NativeUsagePanel)
    ensures
        r@ == clamp_applied(range, panel@),
{
    if matches!(range, UsageRangeQuery::AllTime) {
        let NativeUsagePanel { status, effective_range, message, summary, rows, last_synced_at } = panel;
        let new_message = match message {
            Some(m) => {
                let mut m = m;
                m.append(" ");
                m.append("Native panel is currently clamped to 30d.");
                Some(m)
            },
            None => Some(String::from_str("Native panel is currently clamped to 30d.")),
        };
        let r = NativeUsagePanel { status, effective_range, message: new_message, summary, rows, last_synced_at };
        proof {
            assert(r@.rows =~= panel@.rows);
            match panel@.message {
                Some(m) => {
                    assert(r@.message == Some(m + " "@ + clamp_notice()));
                },
                None => {},
            }
        }
        r
    } else {
        panel
    }
}

pub open spec fn unavailable_panel_spec(effective_range: Seq<char>, message: Seq<char>, now_iso: Seq<char>) -> PanelV {
    PanelV {
        status: PanelStatus::Unavailable,
        effective_range: effective_range,
        message: Some(message),
        summary: None,
        rows: Seq::empty(),
        last_synced_at: Some(now_iso),
    }
}

/// An unavailable panel: no summary, no rows, the given message, stamped
/// with the given synchronization time.
pub fn make_unavailable_panel(effective_range: &str, message: String, now_iso: String) -> (r: NativeUsagePanel)
    ensures
        r@ == unavailable_panel_spec(effective_range@, message@, now_iso@),
{
    let r = NativeUsagePanel {
        status: PanelStatus::Unavailable,
        effective_range: String::from_str(effective_range),
        message: Some(message),
        summary: None,
        rows: Vec::new(),
        last_synced_at: Some(now_iso),
    };
    proof {
        assert(r@.rows =~= Seq::<RowV>::empty());
    }
    r
}

} // verus!
