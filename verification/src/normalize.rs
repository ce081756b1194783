//! The payload normalizer: schema-tolerant extraction of a usage summary and
//! row list from an arbitrary JSON-like tree, by priority-ordered alias
//! lists and depth-first search.

use vstd::prelude::*;
use vstd::string::StringExecFns;
use crate::json::{
    JsonValue, find_in_value, find_first_i64_for_keys, find_i64_in_object, find_string_in_object,
    find_value_by_key, first_i64_for_keys, first_i64_in_fields, first_string_in_fields, key_views,
};
use crate::panel::{NativeUsagePanel, NativeUsageRow, NativeUsageSummary, PanelStatus, PanelV, RowV};

verus! {

pub open spec fn request_total_keys() -> Seq<Seq<char>> {
    seq!["total_requests"@, "request_count"@, "requests"@, "totalRequests"@]
}

pub open spec fn token_total_keys() -> Seq<Seq<char>> {
    seq!["total_tokens"@, "tokens"@, "token_count"@, "totalTokens"@]
}

pub open spec fn row_array_keys() -> Seq<Seq<char>> {
    seq!["rows"@, "items"@, "models"@, "model_usage"@, "usage_by_model"@, "by_model"@]
}

pub open spec fn row_model_keys() -> Seq<Seq<char>> {
    seq!["model"@, "model_name"@, "name"@]
}

pub open spec fn row_source_keys() -> Seq<Seq<char>> {
    seq!["source"@, "provider"@, "type"@]
}

pub open spec fn row_auth_keys() -> Seq<Seq<char>> {
    seq!["auth_index"@, "account_index"@, "authIndex"@, "accountIndex"@]
}

pub open spec fn row_request_keys() -> Seq<Seq<char>> {
    seq!["requests"@, "request_count"@, "count"@]
}

pub open spec fn row_token_keys() -> Seq<Seq<char>> {
    seq!["total_tokens"@, "tokens"@, "token_count"@, "totalTokens"@]
}

/// The row an object element converts to, with the documented defaults for
/// absent fields.
pub open spec fn row_of_fields(fields: Seq<(String, JsonValue)>) -> RowV {
    RowV {
        source: match first_string_in_fields(fields, row_source_keys()) {
            Some(s) => s,
            None => "native"@,
        },
        model: match first_string_in_fields(fields, row_model_keys()) {
            Some(s) => s,
            None => "unknown"@,
        },
        auth_index: first_string_in_fields(fields, row_auth_keys()),
        requests: match first_i64_in_fields(fields, row_request_keys()) {
            Some(n) => n,
            None => 0,
        },
        tokens: match first_i64_in_fields(fields, row_token_keys()) {
            Some(n) => n,
            None => 0,
        },
    }
}

/// Rows converted from an array: each object element in order, other
/// elements skipped.
pub open spec fn rows_of_items(items: Seq<JsonValue>) -> Seq<RowV>
    decreases items.len(),
{
    if items.len() == 0 {
        Seq::empty()
    } else {
        rows_of_items(items.drop_last()) + (match items.last() {
            JsonValue::Obj(f) => seq![row_of_fields(f@)],
            _ => Seq::<RowV>::empty(),
        })
    }
}

/// Row extraction: the first candidate array name whose first depth-first
/// occurrence is a non-empty array is the row source; its conversion is
/// final even when it yields no rows.
pub open spec fn find_rows_spec(v: JsonValue, keys: Seq<Seq<char>>) -> Seq<RowV>
    decreases keys.len(),
{
    if keys.len() == 0 {
        Seq::empty()
    } else {
        match find_in_value(v, keys[0]) {
            Some(JsonValue::Arr(items)) => if items@.len() > 0 {
                rows_of_items(items@)
            } else {
                find_rows_spec(v, keys.drop_first())
            },
            _ => find_rows_spec(v, keys.drop_first()),
        }
    }
}

pub open spec fn synthesized_row(total_requests: i64, total_tokens: i64) -> RowV {
    RowV {
        source: "native"@,
        model: "all-models"@,
        auth_index: None,
        requests: total_requests,
        tokens: total_tokens,
    }
}

/// The panel a payload normalizes to: totals by alias search (absence means
/// zero), rows from the first row source, and a single synthesized row when
/// no source produced rows yet a total is nonzero.
pub open spec fn normalized_panel_spec(v: JsonValue, effective_range: Seq<char>, now_iso: Seq<char>) -> PanelV {
    let total_requests = match first_i64_for_keys(v, request_total_keys()) {
        Some(n) => n,
        None => 0,
    };
    let total_tokens = match first_i64_for_keys(v, token_total_keys()) {
        Some(n) => n,
        None => 0,
    };
    let found = find_rows_spec(v, row_array_keys());
    let rows = if found.len() == 0 && (total_requests > 0 || total_tokens > 0) {
        seq![synthesized_row(total_requests, total_tokens)]
    } else {
        found
    };
    PanelV {
        status: PanelStatus::Okay,
        effective_range: effective_range,
        message: None,
        summary: Some(NativeUsageSummary { total_requests, total_tokens }),
        rows: rows,
        last_synced_at: Some(now_iso),
    }
}

fn row_from_fields(fields: &Vec<(String, JsonValue)>) -> (r: NativeUsageRow)
    ensures
        r@ == row_of_fields(fields@),
{
    let source_keys: &[&str] = &["source", "provider", "type"];
    let model_keys: &[&str] = &["model", "model_name", "name"];
    let auth_keys: &[&str] = &["auth_index", "account_index", "authIndex", "accountIndex"];
    let request_keys: &[&str] = &["requests", "request_count", "count"];
    let token_keys: &[&str] = &["total_tokens", "tokens", "token_count", "totalTokens"];
    proof {
        assert(key_views(source_keys@) =~= row_source_keys());
        assert(key_views(model_keys@) =~= row_model_keys());
        assert(key_views(auth_keys@) =~= row_auth_keys());
        assert(key_views(request_keys@) =~= row_request_keys());
        assert(key_views(token_keys@) =~= row_token_keys());
    }
    let source = match find_string_in_object(fields, source_keys) {
        Some(s) => s,
        None => String::from_str("native"),
    };
    let model = match find_string_in_object(fields, model_keys) {
        Some(s) => s,
        None => String::from_str("unknown"),
    };
    let auth_index = find_string_in_object(fields, auth_keys);
    let requests = match find_i64_in_object(fields, request_keys) {
        Some(n) => n,
        None => 0,
    };
    let tokens = match find_i64_in_object(fields, token_keys) {
        Some(n) => n,
        None => 0,
    };
    NativeUsageRow { source, model, auth_index, requests, tokens }
}

fn convert_rows(items: &Vec<JsonValue>) -> (r: Vec<NativeUsageRow>)
    ensures
        r@.map_values(|x: NativeUsageRow| x@) == rows_of_items(items@),
{
    let mut rows: Vec<NativeUsageRow> = Vec::new();
    proof {
        assert(rows@.map_values(|x: NativeUsageRow| x@) =~= rows_of_items(items@.subrange(0, 0)));
    }
    let mut i: usize = 0;
    while i < items.len()
        invariant
            i <= items@.len(),
            rows@.map_values(|x: NativeUsageRow| x@) == rows_of_items(items@.subrange(0, i as int)),
        decreases items@.len() - i,
    {
        let ghost prefix = items@.subrange(0, i as int);
        let ghost next = items@.subrange(0, i as int + 1);
        proof {
            assert(next.drop_last() =~= prefix);
            assert(next.last() == items@[i as int]);
        }
        match &items[i] {
            JsonValue::Obj(fields) => {
                let row = row_from_fields(fields);
                rows.push(row);
                proof {
                    assert(rows@.map_values(|x: NativeUsageRow| x@) =~= rows_of_items(next));
                }
            },
            _ => {
                proof {
                    assert(rows@.map_values(|x: NativeUsageRow| x@) =~= rows_of_items(next));
                }
            },
        }
        i = i + 1;
    }
    proof {
        assert(items@.subrange(0, items@.len() as int) =~= items@);
    }
    rows
}

/// Locates the row source and converts its elements.
fn find_rows(v: &JsonValue) -> (r: Vec<NativeUsageRow>)
    ensures
        r@.map_values(|x: NativeUsageRow| x@) == find_rows_spec(*v, row_array_keys()),
{
    let keys: &[&str] = &["rows", "items", "models", "model_usage", "usage_by_model", "by_model"];
    proof {
        assert(key_views(keys@) =~= row_array_keys());
        assert(key_views(keys@.skip(0)) =~= key_views(keys@));
    }
    let mut i: usize = 0;
    while i < keys.len()
        invariant
            i <= keys@.len(),
            key_views(keys@) == row_array_keys(),
            find_rows_spec(*v, row_array_keys()) == find_rows_spec(*v, key_views(keys@.skip(i as int))),
        decreases keys@.len() - i,
    {
        let ghost rest = key_views(keys@.skip(i as int));
        proof {
            assert(rest[0] == keys@[i as int]@);
            assert(rest.drop_first() =~= key_views(keys@.skip(i as int + 1)));
        }
        if let Some(found) = find_value_by_key(v, keys[i]) {
            if let JsonValue::Arr(items) = found {
                if items.len() > 0 {
                    return convert_rows(items);
                }
            }
        }
        i = i + 1;
    }
    proof {
        assert(key_views(keys@.skip(keys@.len() as int)).len() == 0);
    }
    let r: Vec<NativeUsageRow> = Vec::new();
    proof {
        assert(r@.map_values(|x: NativeUsageRow| x@) =~= Seq::<RowV>::empty());
    }
    r
}

/// Normalizes a payload tree into an `ok` panel for the given effective
/// range, stamped with the given synchronization time.
pub fn parse_native_payload(payload: &JsonValue, effective_range: &str, now_iso: String) -> (p: NativeUsagePanel)
    ensures
        p@ == normalized_panel_spec(*payload, effective_range@, now_iso@),
{
    let request_keys: &[&str] = &["total_requests", "request_count", "requests", "totalRequests"];
    let token_keys: &[&str] = &["total_tokens", "tokens", "token_count", "totalTokens"];
    proof {
        assert(key_views(request_keys@) =~= request_total_keys());
        assert(key_views(token_keys@) =~= token_total_keys());
    }
    let total_requests = match find_first_i64_for_keys(payload, request_keys) {
        Some(n) => n,
        None => 0,
    };
    let total_tokens = match find_first_i64_for_keys(payload, token_keys) {
        Some(n) => n,
        None => 0,
    };
    let mut rows = find_rows(payload);
    if rows.len() == 0 && (total_requests > 0 || total_tokens > 0) {
        proof {
            assert(rows@.map_values(|x: NativeUsageRow| x@).len() == 0);
        }
        rows.push(NativeUsageRow {
            source: String::from_str("native"),
            model: String::from_str("all-models"),
            auth_index: None,
            requests: total_requests,
            tokens: total_tokens,
        });
        proof {
            assert(rows@.map_values(|x: NativeUsageRow| x@) =~= seq![synthesized_row(total_requests, total_tokens)]);
        }
    }
    let p = NativeUsagePanel {
        status: PanelStatus::Okay,
        effective_range: String::from_str(effective_range),
        message: None,
        summary: Some(NativeUsageSummary { total_requests, total_tokens }),
        rows,
        last_synced_at: Some(now_iso),
    };
    p
}

} // verus!
