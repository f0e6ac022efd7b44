use ai_stats_rust_sdk::client::{Client, Response, ResponseView, Transport};
use vstd::prelude::{Map, Seq};
use ai_stats_rust_sdk::client::normalize_base_url;
use ai_stats_rust_sdk::string_map::StringMap;

/// A transport that answers with status 200 and a body echoing the method,
/// URL and body it received, separated by newlines.
struct EchoTransport;

impl Transport for EchoTransport {
    fn on_request(
        &self,
        _method: Seq<char>,
        _url: Seq<char>,
        _body: Option<Seq<char>>,
        _headers: Map<Seq<char>, Seq<char>>,
    ) -> Result<ResponseView, Seq<char>> {
        unreachable!()
    }

    fn request(
        &self,
        method: &str,
        url: &str,
        body: Option<&str>,
        _headers: &StringMap,
    ) -> Result<Response, String> {
        let mut echoed = String::new();
        echoed.push_str(method);
        echoed.push('\n');
        echoed.push_str(url);
        echoed.push('\n');
        match body {
            Some(b) => echoed.push_str(b),
            None => echoed.push_str("<none>"),
        }
        Ok(Response { status: 200, body: echoed })
    }
}

/// A transport that answers with the value of one received header.
struct HeaderEchoTransport {
    key: &'static str,
}

impl Transport for HeaderEchoTransport {
    fn on_request(
        &self,
        _method: Seq<char>,
        _url: Seq<char>,
        _body: Option<Seq<char>>,
        _headers: Map<Seq<char>, Seq<char>>,
    ) -> Result<ResponseView, Seq<char>> {
        unreachable!()
    }

    fn request(
        &self,
        _method: &str,
        _url: &str,
        _body: Option<&str>,
        headers: &StringMap,
    ) -> Result<Response, String> {
        let value = match headers.get(self.key) {
            Some(v) => v.clone(),
            None => "<absent>".to_string(),
        };
        Ok(Response { status: 200, body: value })
    }
}

#[test]
fn base_url_single_trailing_slash_stripped() {
    let client = Client::new("https://api.example.com/".to_string(), EchoTransport);
    assert_eq!(client.base_url, "https://api.example.com");
}

#[test]
fn base_url_many_trailing_slashes_stripped() {
    let client = Client::new("https://api.example.com///".to_string(), EchoTransport);
    assert_eq!(client.base_url, "https://api.example.com");
}

#[test]
fn base_url_without_trailing_slash_unchanged() {
    let client = Client::new("https://api.example.com/v1".to_string(), EchoTransport);
    assert_eq!(client.base_url, "https://api.example.com/v1");
}

#[test]
fn base_url_all_slashes_becomes_empty() {
    let client = Client::new("///".to_string(), EchoTransport);
    assert_eq!(client.base_url, "");
}

#[test]
fn normalize_base_url_is_idempotent() {
    let once = normalize_base_url("https://api.example.com//");
    let twice = normalize_base_url(&once);
    assert_eq!(once, "https://api.example.com");
    assert_eq!(once, twice);
}

#[test]
fn request_delivers_method_url_and_missing_body() {
    let client = Client::new("https://api.example.com/".to_string(), EchoTransport);
    let response = client.request("GET", "/models", None).unwrap();
    assert_eq!(response.status, 200);
    assert_eq!(response.body, "GET\nhttps://api.example.com/models\n<none>");
}

#[test]
fn request_joins_base_and_path_with_one_slash() {
    let client = Client::new("https://api.example.com///".to_string(), EchoTransport);
    let response = client.request("POST", "/chat/completions", Some("{}")).unwrap();
    assert_eq!(response.body, "POST\nhttps://api.example.com/chat/completions\n{}");
}

#[test]
fn default_header_present_on_every_subsequent_request() {
    let mut client = Client::new(
        "https://api.example.com".to_string(),
        HeaderEchoTransport { key: "Authorization" },
    );
    client.headers.insert("Authorization".to_string(), "Bearer example-token".to_string());
    let first = client.request("GET", "/models", None).unwrap();
    let second = client.request("GET", "/credits", None).unwrap();
    assert_eq!(first.body, "Bearer example-token");
    assert_eq!(second.body, "Bearer example-token");
}

#[test]
fn default_header_overwrite_delivers_latest_value() {
    let mut client = Client::new(
        "https://api.example.com".to_string(),
        HeaderEchoTransport { key: "Authorization" },
    );
    client.headers.insert("Authorization".to_string(), "Bearer first".to_string());
    client.headers.insert("Authorization".to_string(), "Bearer second".to_string());
    let response = client.request("GET", "/models", None).unwrap();
    assert_eq!(response.body, "Bearer second");
}

#[test]
fn missing_header_not_invented() {
    let client = Client::new(
        "https://api.example.com".to_string(),
        HeaderEchoTransport { key: "Authorization" },
    );
    let response = client.request("GET", "/models", None).unwrap();
    assert_eq!(response.body, "<absent>");
}
