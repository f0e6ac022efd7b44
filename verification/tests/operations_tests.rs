use ai_stats_rust_sdk::client::{Client, Response, ResponseView, Transport};
use vstd::prelude::{Map, Seq};
use ai_stats_rust_sdk::operations;
use ai_stats_rust_sdk::string_map::StringMap;

/// A transport that answers with status 200 and a body echoing the method
/// and URL it received.
struct EchoTransport;

impl Transport for EchoTransport {
    fn on_request(
        &self,
        _method: Seq<char>,
        _url: Seq<char>,
        _body: Option<Seq<char>>,
        _headers: Map<Seq<char>, Seq<char>>,
    ) -> Result<ResponseView, Seq<char>> {
        unreachable!()
    }

    fn request(
        &self,
        method: &str,
        url: &str,
        _body: Option<&str>,
        _headers: &StringMap,
    ) -> Result<Response, String> {
        Ok(Response { status: 200, body: format!("{} {}", method, url) })
    }
}

/// A transport that always answers with one fixed status and body.
struct CannedTransport {
    status: u16,
    body: &'static str,
}

impl Transport for CannedTransport {
    fn on_request(
        &self,
        _method: Seq<char>,
        _url: Seq<char>,
        _body: Option<Seq<char>>,
        _headers: Map<Seq<char>, Seq<char>>,
    ) -> Result<ResponseView, Seq<char>> {
        unreachable!()
    }

    fn request(
        &self,
        _method: &str,
        _url: &str,
        _body: Option<&str>,
        _headers: &StringMap,
    ) -> Result<Response, String> {
        Ok(Response { status: self.status, body: self.body.to_string() })
    }
}

/// A transport that always fails to complete the exchange.
struct FailingTransport;

impl Transport for FailingTransport {
    fn on_request(
        &self,
        _method: Seq<char>,
        _url: Seq<char>,
        _body: Option<Seq<char>>,
        _headers: Map<Seq<char>, Seq<char>>,
    ) -> Result<ResponseView, Seq<char>> {
        unreachable!()
    }

    fn request(
        &self,
        _method: &str,
        _url: &str,
        _body: Option<&str>,
        _headers: &StringMap,
    ) -> Result<Response, String> {
        Err("connection refused".to_string())
    }
}

fn echo_client() -> Client<EchoTransport> {
    Client::new("https://api.example.com/".to_string(), EchoTransport)
}

fn sent(result: Result<Response, String>) -> String {
    result.unwrap().body
}

#[test]
fn no_query_is_empty() {
    let map = operations::no_query();
    assert_eq!(map.entries().len(), 0);
    assert_eq!(map.get("anything"), None);
}

#[test]
fn create_response_posts_responses() {
    let client = echo_client();
    let result = operations::createResponse(&client, &operations::no_query(), Some("{}"));
    assert_eq!(sent(result), "POST https://api.example.com/responses");
}

#[test]
fn list_models_gets_models() {
    let client = echo_client();
    let result = operations::listModels(&client, &operations::no_query(), None);
    assert_eq!(sent(result), "GET https://api.example.com/models");
}

#[test]
fn root_gets_bare_slash() {
    let client = echo_client();
    let result = operations::root(&client, &operations::no_query(), None);
    assert_eq!(sent(result), "GET https://api.example.com/");
}

#[test]
fn upload_file_posts_files() {
    let client = echo_client();
    let result = operations::uploadFile(&client, &operations::no_query(), Some("data"));
    assert_eq!(sent(result), "POST https://api.example.com/files");
}

#[test]
fn get_video_substitutes_video_id() {
    let client = echo_client();
    let mut map = StringMap::new();
    map.insert("video_id".to_string(), "abc123".to_string());
    let result = operations::getVideo(&client, &map, None);
    assert_eq!(sent(result), "GET https://api.example.com/videos/abc123");
}

#[test]
fn get_video_content_substitutes_before_suffix() {
    let client = echo_client();
    let mut map = StringMap::new();
    map.insert("video_id".to_string(), "abc123".to_string());
    let result = operations::getVideoContent(&client, &map, None);
    assert_eq!(sent(result), "GET https://api.example.com/videos/abc123/content");
}

#[test]
fn delete_video_uses_delete_method() {
    let client = echo_client();
    let mut map = StringMap::new();
    map.insert("video_id".to_string(), "abc123".to_string());
    let result = operations::deleteVideo(&client, &map, None);
    assert_eq!(sent(result), "DELETE https://api.example.com/videos/abc123");
}

#[test]
fn update_provisioning_key_uses_patch_method() {
    let client = echo_client();
    let mut map = StringMap::new();
    map.insert("id".to_string(), "key-1".to_string());
    let result = operations::updateProvisioningKey(&client, &map, Some("{}"));
    assert_eq!(sent(result), "PATCH https://api.example.com/management/keys/key-1");
}

#[test]
fn provider_derank_substitutes_in_the_middle() {
    let client = echo_client();
    let mut map = StringMap::new();
    map.insert("provider_id".to_string(), "openai".to_string());
    let result = operations::getProviderDerankStatus(&client, &map, None);
    assert_eq!(sent(result), "GET https://api.example.com/health/providers/openai/derank");
}

#[test]
fn regenerate_oauth_client_secret_substitutes_before_suffix() {
    let client = echo_client();
    let mut map = StringMap::new();
    map.insert("client_id".to_string(), "cid".to_string());
    let result = operations::regenerateOAuthClientSecret(&client, &map, None);
    assert_eq!(
        sent(result),
        "POST https://api.example.com/oauth-clients/cid/regenerate-secret"
    );
}

#[test]
fn missing_path_parameter_substitutes_empty_segment() {
    let client = echo_client();
    let result = operations::getVideo(&client, &operations::no_query(), None);
    assert_eq!(sent(result), "GET https://api.example.com/videos/");
}

#[test]
fn error_status_returned_as_ordinary_response() {
    let client = Client::new(
        "https://api.example.com".to_string(),
        CannedTransport { status: 404, body: "{\"error\":\"not found\"}" },
    );
    let response = operations::getCredits(&client, &operations::no_query(), None).unwrap();
    assert_eq!(response.status, 404);
    assert_eq!(response.body, "{\"error\":\"not found\"}");
}

#[test]
fn transport_failure_returned_as_error() {
    let client = Client::new("https://api.example.com".to_string(), FailingTransport);
    let result = operations::listProviders(&client, &operations::no_query(), None);
    assert_eq!(result.unwrap_err(), "connection refused");
}
