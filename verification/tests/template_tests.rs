use ai_stats_rust_sdk::path_template::{find_missing_param, resolve_path, resolve_path_strict};
use ai_stats_rust_sdk::string_map::StringMap;

fn params(pairs: &[(&str, &str)]) -> StringMap {
    let mut map = StringMap::new();
    for (key, value) in pairs {
        map.insert(key.to_string(), value.to_string());
    }
    map
}

#[test]
fn single_placeholder_substituted() {
    let map = params(&[("video_id", "abc123")]);
    assert_eq!(resolve_path("/videos/{video_id}", &map), "/videos/abc123");
}

#[test]
fn placeholder_between_literals_substituted() {
    let map = params(&[("provider_id", "openai")]);
    assert_eq!(
        resolve_path("/health/providers/{provider_id}/derank", &map),
        "/health/providers/openai/derank"
    );
}

#[test]
fn several_placeholders_substituted_in_their_positions() {
    let map = params(&[("a", "one"), ("b", "two")]);
    assert_eq!(resolve_path("/x/{a}/y/{b}", &map), "/x/one/y/two");
}

#[test]
fn template_without_placeholders_unchanged() {
    let map = params(&[("unused", "value")]);
    assert_eq!(resolve_path("/chat/completions", &map), "/chat/completions");
}

#[test]
fn empty_template_resolves_empty() {
    let map = StringMap::new();
    assert_eq!(resolve_path("", &map), "");
}

#[test]
fn missing_parameter_resolves_to_empty_string() {
    let map = StringMap::new();
    assert_eq!(resolve_path("/videos/{video_id}", &map), "/videos/");
}

#[test]
fn empty_parameter_value_substituted() {
    let map = params(&[("id", "")]);
    assert_eq!(resolve_path("/batch/{id}", &map), "/batch/");
}

#[test]
fn unclosed_brace_kept_literally() {
    let map = params(&[("open", "value")]);
    assert_eq!(resolve_path("/files/{open", &map), "/files/{open");
}

#[test]
fn strict_resolution_succeeds_when_all_parameters_bound() {
    let map = params(&[("video_id", "abc123")]);
    assert_eq!(
        resolve_path_strict("/videos/{video_id}", &map),
        Ok("/videos/abc123".to_string())
    );
}

#[test]
fn strict_resolution_names_the_missing_parameter() {
    let map = StringMap::new();
    assert_eq!(
        resolve_path_strict("/videos/{video_id}", &map),
        Err("video_id".to_string())
    );
}

#[test]
fn find_missing_param_reports_an_unbound_placeholder() {
    let map = params(&[("a", "one")]);
    assert_eq!(find_missing_param("/x/{a}/y/{b}", &map), Some("b".to_string()));
}

#[test]
fn find_missing_param_none_when_all_bound() {
    let map = params(&[("a", "one"), ("b", "two")]);
    assert_eq!(find_missing_param("/x/{a}/y/{b}", &map), None);
}

#[test]
fn string_map_insert_and_get() {
    let map = params(&[("key", "value")]);
    assert_eq!(map.get("key"), Some(&"value".to_string()));
    assert_eq!(map.get("other"), None);
}

#[test]
fn string_map_insert_overwrites() {
    let mut map = StringMap::new();
    map.insert("key".to_string(), "first".to_string());
    map.insert("key".to_string(), "second".to_string());
    assert_eq!(map.get("key"), Some(&"second".to_string()));
    assert_eq!(map.entries().len(), 1);
}
