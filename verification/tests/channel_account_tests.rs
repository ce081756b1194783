use native_usage::accounts::{account_from_json, delete_account};
use native_usage::json::JsonValue;
use native_usage::channel::{model_definitions_url, sanitize_channel};
use native_usage::text::{i64_to_dec, parse_i64, u64_to_dec};

#[test]
fn channels_are_trimmed_validated_and_lowercased() {
    assert_eq!(sanitize_channel("  My-Channel_1  "), Ok("my-channel_1".to_string()));
    assert_eq!(sanitize_channel("abc"), Ok("abc".to_string()));
    assert_eq!(sanitize_channel("ABC09"), Ok("abc09".to_string()));
    assert_eq!(sanitize_channel(""), Err("channel is required".to_string()));
    assert_eq!(sanitize_channel("   "), Err("channel is required".to_string()));
    assert_eq!(sanitize_channel("\u{2003}x\u{00A0}"), Ok("x".to_string()));
    assert_eq!(
        sanitize_channel("bad name"),
        Err("channel contains invalid characters".to_string())
    );
    assert_eq!(
        sanitize_channel("dot.name"),
        Err("channel contains invalid characters".to_string())
    );
    assert_eq!(
        sanitize_channel("caf\u{e9}"),
        Err("channel contains invalid characters".to_string())
    );
}

#[test]
fn model_definition_urls_embed_the_channel() {
    assert_eq!(
        model_definitions_url("gemini"),
        "http://127.0.0.1:8318/v0/management/model-definitions/gemini"
    );
}

#[test]
fn deletion_requires_a_json_extension() {
    let r = delete_account("/home/u/.cli-proxy-api", "/home/u/.cli-proxy-api/not-json.txt", Ok("/home/u/.cli-proxy-api/not-json.txt".to_string()));
    assert_eq!(r, Err("Only .json auth files can be deleted".to_string()));
    // A leading-dot file has no extension.
    let r = delete_account("/d", "/d/.json", Ok("/d/.json".to_string()));
    assert_eq!(r, Err("Only .json auth files can be deleted".to_string()));
    let r = delete_account("/d", "/d/noext", Ok("/d/noext".to_string()));
    assert_eq!(r, Err("Only .json auth files can be deleted".to_string()));
}

#[test]
fn deletion_refuses_paths_outside_the_auth_directory() {
    let r = delete_account("/home/u/.cli-proxy-api", "/home/u/outside.json", Ok("/home/u/outside.json".to_string()));
    assert_eq!(r, Err("Refusing to delete files outside auth directory".to_string()));
    // A sibling whose name merely extends the directory's is outside too.
    let r = delete_account("/home/u/.cli-proxy-api", "/home/u/.cli-proxy-apix/a.json", Ok("/home/u/.cli-proxy-apix/a.json".to_string()));
    assert_eq!(r, Err("Refusing to delete files outside auth directory".to_string()));
}

#[test]
fn deletion_accepts_json_files_inside_the_auth_directory() {
    let r = delete_account("/home/u/.cli-proxy-api", "/home/u/.cli-proxy-api/test.json", Ok("/home/u/.cli-proxy-api/test.json".to_string()));
    assert_eq!(r, Ok("/home/u/.cli-proxy-api/test.json".to_string()));
}

#[test]
fn deletion_surfaces_resolution_failures() {
    let r = delete_account("/d", "/d/missing.json", Err("No such file".to_string()));
    assert_eq!(
        r,
        Err("Failed to resolve target file path: No such file".to_string())
    );
}

fn account_obj(fields: Vec<(&str, &str)>) -> JsonValue {
    JsonValue::Obj(
        fields
            .into_iter()
            .map(|(k, v)| (k.to_string(), JsonValue::Str(v.to_string())))
            .collect(),
    )
}

#[test]
fn account_records_prefer_email_then_login_then_file_name() {
    let json = account_obj(vec![("type", "gemini"), ("email", "a@b"), ("login", "lg")]);
    let rec = account_from_json("f1".to_string(), "/d/f1.json".to_string(), &json).unwrap();
    assert_eq!(rec.service, "gemini");
    assert_eq!(rec.display_name, "a@b");

    let json = account_obj(vec![("type", "codex"), ("email", ""), ("login", "lg")]);
    let rec = account_from_json("f2".to_string(), "/d/f2.json".to_string(), &json).unwrap();
    assert_eq!(rec.display_name, "lg");

    let json = account_obj(vec![("type", "qwen")]);
    let rec = account_from_json("f3".to_string(), "/d/f3.json".to_string(), &json).unwrap();
    assert_eq!(rec.display_name, "f3");
    assert!(rec.email.is_none());
    assert!(rec.expired.is_none());
}

#[test]
fn files_without_a_string_type_yield_no_account() {
    let json = account_obj(vec![("email", "a@b")]);
    assert!(account_from_json("f".to_string(), "/d/f.json".to_string(), &json).is_none());
    let json = JsonValue::Obj(vec![("type".to_string(), JsonValue::Int(3))]);
    assert!(account_from_json("f".to_string(), "/d/f.json".to_string(), &json).is_none());
    let json = JsonValue::Str("gemini".to_string());
    assert!(account_from_json("f".to_string(), "/d/f.json".to_string(), &json).is_none());
}

#[test]
fn decimal_rendering_and_parsing_agree() {
    assert_eq!(u64_to_dec(0), "0");
    assert_eq!(u64_to_dec(1234567890123456789), "1234567890123456789");
    assert_eq!(i64_to_dec(-42), "-42");
    assert_eq!(i64_to_dec(i64::MIN), "-9223372036854775808");
    assert_eq!(parse_i64("007"), Some(7));
    assert_eq!(parse_i64("-0"), Some(0));
    assert_eq!(parse_i64(" 7"), None);
    assert_eq!(parse_i64("7 "), None);
    for n in [0i64, 1, -1, 99, i64::MAX, i64::MIN] {
        assert_eq!(parse_i64(&i64_to_dec(n)), Some(n));
    }
}
