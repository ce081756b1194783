use native_usage::json::{
    coerce_i64, find_first_i64_for_keys, find_i64_in_object, find_string_in_object,
    find_value_by_key, parse_json, u64_as_i64, JsonValue,
};

fn obj(fields: Vec<(&str, JsonValue)>) -> JsonValue {
    JsonValue::Obj(fields.into_iter().map(|(k, v)| (k.to_string(), v)).collect())
}

#[test]
fn coercion_accepts_numbers_and_numeric_strings() {
    assert_eq!(coerce_i64(&JsonValue::Int(77)), Some(77));
    assert_eq!(coerce_i64(&JsonValue::Str("77".to_string())), Some(77));
    assert_eq!(coerce_i64(&JsonValue::Str("-12".to_string())), Some(-12));
    assert_eq!(coerce_i64(&JsonValue::Str("+8".to_string())), Some(8));
    assert_eq!(coerce_i64(&JsonValue::Str("12a".to_string())), None);
    assert_eq!(coerce_i64(&JsonValue::Str("".to_string())), None);
    assert_eq!(coerce_i64(&JsonValue::Bool(true)), None);
    assert_eq!(coerce_i64(&JsonValue::Null), None);
}

#[test]
fn coercion_of_string_matches_numeric_equivalent() {
    for n in [0i64, 7, 42, -1, i64::MAX, i64::MIN] {
        let rendered = format!("{}", n);
        assert_eq!(
            coerce_i64(&JsonValue::Str(rendered)),
            coerce_i64(&JsonValue::Int(n))
        );
    }
}

#[test]
fn coercion_rejects_out_of_range_strings() {
    assert_eq!(coerce_i64(&JsonValue::Str("9223372036854775807".to_string())), Some(i64::MAX));
    assert_eq!(coerce_i64(&JsonValue::Str("9223372036854775808".to_string())), None);
    assert_eq!(coerce_i64(&JsonValue::Str("-9223372036854775808".to_string())), Some(i64::MIN));
    assert_eq!(coerce_i64(&JsonValue::Str("-9223372036854775809".to_string())), None);
}

#[test]
fn unsigned_values_wrap_like_the_backend() {
    assert_eq!(u64_as_i64(5), 5);
    assert_eq!(u64_as_i64(u64::MAX), -1);
    assert_eq!(u64_as_i64(i64::MAX as u64), i64::MAX);
}

#[test]
fn own_keys_win_over_nested_values() {
    let payload = obj(vec![
        ("a", obj(vec![("tokens", JsonValue::Int(1))])),
        ("tokens", JsonValue::Int(2)),
    ]);
    let found = find_value_by_key(&payload, "tokens").unwrap();
    assert!(matches!(found, JsonValue::Int(2)));
}

#[test]
fn alias_priority_beats_traversal_depth() {
    // "request_count" stands earlier in the alias list than "requests", so
    // its nested occurrence wins over the top-level "requests".
    let payload = obj(vec![
        ("requests", JsonValue::Int(5)),
        ("nested", obj(vec![("request_count", JsonValue::Int(9))])),
    ]);
    let keys: &[&str] = &["total_requests", "request_count", "requests", "totalRequests"];
    assert_eq!(find_first_i64_for_keys(&payload, keys), Some(9));
}

#[test]
fn depth_first_search_descends_fields_in_order_then_arrays() {
    let payload = obj(vec![
        ("first", obj(vec![("needle", JsonValue::Int(1))])),
        ("second", obj(vec![("needle", JsonValue::Int(2))])),
    ]);
    let found = find_value_by_key(&payload, "needle").unwrap();
    assert!(matches!(found, JsonValue::Int(1)));

    let payload = obj(vec![(
        "list",
        JsonValue::Arr(vec![
            JsonValue::Int(0),
            obj(vec![("needle", JsonValue::Int(3))]),
        ]),
    )]);
    let found = find_value_by_key(&payload, "needle").unwrap();
    assert!(matches!(found, JsonValue::Int(3)));
}

#[test]
fn object_extractors_read_own_keys_only() {
    let fields: Vec<(String, JsonValue)> = vec![
        ("name".to_string(), JsonValue::Str("m1".to_string())),
        ("count".to_string(), JsonValue::Str("4".to_string())),
        ("deep".to_string(), obj(vec![("model", JsonValue::Str("hidden".to_string()))])),
    ];
    assert_eq!(
        find_string_in_object(&fields, &["model", "model_name", "name"]),
        Some("m1".to_string())
    );
    assert_eq!(find_i64_in_object(&fields, &["requests", "request_count", "count"]), Some(4));
    assert_eq!(find_string_in_object(&fields, &["missing"]), None);
}

#[test]
fn numbers_render_as_strings_when_a_string_is_wanted() {
    let fields: Vec<(String, JsonValue)> = vec![
        ("auth_index".to_string(), JsonValue::Int(-3)),
    ];
    assert_eq!(
        find_string_in_object(&fields, &["auth_index", "account_index", "authIndex", "accountIndex"]),
        Some("-3".to_string())
    );
}

#[test]
fn parse_json_builds_the_tree() {
    let tree = parse_json("{\"tokens\": \"77\", \"rows\": [{\"model\": \"m\"}]}").unwrap();
    let keys: &[&str] = &["total_tokens", "tokens", "token_count", "totalTokens"];
    assert_eq!(find_first_i64_for_keys(&tree, keys), Some(77));
    assert!(matches!(find_value_by_key(&tree, "model"), Some(JsonValue::Str(s)) if s.as_str() == "m"));
    assert!(parse_json("not json").is_err());
}

#[test]
fn parse_json_reads_numbers_in_every_representation() {
    let tree = parse_json("{\"a\": 7, \"b\": -2, \"c\": 3.6, \"d\": 18446744073709551615}").unwrap();
    assert_eq!(find_first_i64_for_keys(&tree, &["a"]), Some(7));
    assert_eq!(find_first_i64_for_keys(&tree, &["b"]), Some(-2));
    assert_eq!(find_first_i64_for_keys(&tree, &["c"]), Some(4));
    assert_eq!(find_first_i64_for_keys(&tree, &["d"]), Some(-1));
}
