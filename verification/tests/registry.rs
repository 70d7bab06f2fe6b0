use config_registry::router::content_type;
use config_registry::router::http_request;
use config_registry::router::HttpRequest;
use config_registry::router::HttpResponse;
use config_registry::store::ConfigStore;

fn get(store: &ConfigStore, url: &str) -> HttpResponse {
    let req = HttpRequest {
        method: "GET".to_string(),
        url: url.to_string(),
        headers: vec![],
        body: vec![],
    };
    http_request(&req, store)
}

fn json_headers() -> Vec<(String, String)> {
    vec![("Content-Type".to_string(), "application/json".to_string())]
}

fn html_headers() -> Vec<(String, String)> {
    vec![("Content-Type".to_string(), "text/html".to_string())]
}

#[test]
fn add_then_read_config() {
    let mut store = ConfigStore::new();
    let msg = config_registry::add(&mut store, "1.0".to_string(), "{\"a\": 1}".to_string());
    assert_eq!(msg, "Added config for version 1.0");
    let resp = get(&store, "/config?version=1.0");
    assert_eq!(resp.status_code, 200);
    assert_eq!(resp.headers, json_headers());
    assert_eq!(resp.body, b"{\"a\":1}".to_vec());
}

#[test]
fn add_invalid_json_keeps_versions() {
    let mut store = ConfigStore::new();
    config_registry::add(&mut store, "1.0".to_string(), "{\"a\":1}".to_string());
    let msg = config_registry::add(&mut store, "2.0".to_string(), "not json".to_string());
    assert!(msg.starts_with("Invalid JSON: "));
    let resp = get(&store, "/versions");
    assert_eq!(resp.status_code, 200);
    assert_eq!(resp.body, b"[\"1.0\"]".to_vec());
}

#[test]
fn add_invalid_json_keeps_existing_document() {
    let mut store = ConfigStore::new();
    config_registry::add(&mut store, "1.0".to_string(), "{\"a\":1}".to_string());
    let msg = config_registry::add(&mut store, "1.0".to_string(), "{broken".to_string());
    assert!(msg.starts_with("Invalid JSON: "));
    assert_eq!(store.get_config("1.0".to_string()), Some("{\"a\":1}".to_string()));
}

#[test]
fn trim_and_overwrite() {
    let mut store = ConfigStore::new();
    let msg = config_registry::add(&mut store, " 1.0 ".to_string(), "{\"a\":1}".to_string());
    assert_eq!(msg, "Added config for version 1.0");
    assert_eq!(store.get_config("1.0".to_string()), Some("{\"a\":1}".to_string()));
    let resp = get(&store, "/versions");
    assert_eq!(resp.body, b"[\"1.0\"]".to_vec());
    config_registry::add(&mut store, "1.0".to_string(), "{\"a\":2}".to_string());
    let resp = get(&store, "/versions");
    assert_eq!(resp.body, b"[\"1.0\"]".to_vec());
    assert_eq!(store.get_config("1.0".to_string()), Some("{\"a\":2}".to_string()));
}

#[test]
fn config_missing_param_404() {
    let mut store = ConfigStore::new();
    config_registry::add(&mut store, "1.0".to_string(), "{\"a\":1}".to_string());
    let resp = get(&store, "/config");
    assert_eq!(resp.status_code, 404);
    assert_eq!(resp.headers, html_headers());
    assert_eq!(resp.body, b"Error: Required parameter is missing: version".to_vec());
}

#[test]
fn config_unknown_version_404() {
    let store = ConfigStore::new();
    let resp = get(&store, "/config?version=missing");
    assert_eq!(resp.status_code, 404);
    assert_eq!(resp.headers, html_headers());
    assert_eq!(resp.body, b"Error: Config not found for version: missing".to_vec());
}

#[test]
fn unknown_path_404() {
    let mut store = ConfigStore::new();
    config_registry::add(&mut store, "1.0".to_string(), "{\"a\":1}".to_string());
    let resp = get(&store, "/nonexistent-path");
    assert_eq!(resp.status_code, 404);
    assert_eq!(resp.headers, html_headers());
    assert_eq!(resp.body, b"Error: Unsupported path: /nonexistent-path".to_vec());
}

#[test]
fn versions_on_empty_store() {
    let store = ConfigStore::new();
    let resp = get(&store, "/versions");
    assert_eq!(resp.status_code, 200);
    assert_eq!(resp.headers, json_headers());
    assert_eq!(resp.body, b"[]".to_vec());
}

#[test]
fn repeated_read_is_identical() {
    let mut store = ConfigStore::new();
    config_registry::add(&mut store, "1.0".to_string(), "{\"a\":1}".to_string());
    config_registry::add(&mut store, "2.0".to_string(), "[1,2]".to_string());
    for url in ["/versions", "/config?version=1.0", "/config", "/odd"] {
        let r1 = get(&store, url);
        let r2 = get(&store, url);
        assert_eq!(r1.status_code, r2.status_code);
        assert_eq!(r1.headers, r2.headers);
        assert_eq!(r1.body, r2.body);
    }
}

#[test]
fn duplicate_parameter_last_wins() {
    let mut store = ConfigStore::new();
    config_registry::add(&mut store, "b".to_string(), "{\"x\":2}".to_string());
    let resp = get(&store, "/config?version=a&version=b");
    assert_eq!(resp.status_code, 200);
    assert_eq!(resp.body, b"{\"x\":2}".to_vec());
}

#[test]
fn query_value_is_percent_decoded() {
    let mut store = ConfigStore::new();
    config_registry::add(&mut store, "1.0".to_string(), "{\"a\":1}".to_string());
    let resp = get(&store, "/config?version=1%2E0");
    assert_eq!(resp.status_code, 200);
    assert_eq!(resp.body, b"{\"a\":1}".to_vec());
}

#[test]
fn unparsable_url_404() {
    let store = ConfigStore::new();
    let resp = get(&store, ":99999999");
    assert_eq!(resp.status_code, 404);
    assert_eq!(resp.headers, html_headers());
    assert_eq!(resp.body, b"Error: Failed to parse URL".to_vec());
}

#[test]
fn store_operations() {
    let mut store = ConfigStore::new();
    assert_eq!(store.get_keys(), Vec::<String>::new());
    assert_eq!(store.get_config("a".to_string()), None);
    store.put_config("a".to_string(), "{}".to_string());
    store.put_config("b".to_string(), "[]".to_string());
    store.put_config("a".to_string(), "[0]".to_string());
    let keys = store.get_keys();
    assert_eq!(keys.len(), 2);
    assert!(keys.contains(&"a".to_string()));
    assert!(keys.contains(&"b".to_string()));
    assert_eq!(store.get_config("a".to_string()), Some("[0]".to_string()));
    assert_eq!(store.get_config("b".to_string()), Some("[]".to_string()));
}

#[test]
fn content_type_builds_pair() {
    let h = content_type("application/json");
    assert_eq!(h.0, "Content-Type");
    assert_eq!(h.1, "application/json");
}

#[test]
fn canonicalization_rewrites_document() {
    let mut store = ConfigStore::new();
    config_registry::add(
        &mut store,
        "v".to_string(),
        "  {\n  \"b\" : [ 1 , 2 ]\n}  ".to_string(),
    );
    assert_eq!(store.get_config("v".to_string()), Some("{\"b\":[1,2]}".to_string()));
}
