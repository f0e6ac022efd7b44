//! The operation catalogue: one function per remote endpoint.
//!
//! Each operation binds an HTTP method and a URL-path template. At call
//! time the template is resolved against the caller's path parameters (an
//! unbound placeholder resolving to the empty string), and the request is
//! delegated to the client; the transport's answer is returned unmodified.
//! No operation validates its body or branches on the response status.

use vstd::prelude::*;

use crate::client::Client;
use crate::client::Response;
use crate::client::Transport;
use crate::client::opt_view;
use crate::client::result_view;
use crate::path_template::lemma_resolved_starts_with_slash;
use crate::path_template::resolve_path;
use crate::path_template::resolved;
use crate::string_map::StringMap;

verus! {

/// An empty path-parameter mapping, for operations that take none.
pub fn no_query() -> (m: StringMap)
    ensures
        m@ == Map::<Seq<char>, Seq<char>>::empty(),
{
    StringMap::new()
}

/// `POST /pricing/calculate`
pub fn calculatePricing<T: Transport>(
    client: &Client<T>,
    path: &StringMap,
    body: Option<&str>,
) -> (r: Result<Response, String>)
    ensures
        result_view(r) == client.transport.on_request(
            "POST"@,
            client.base_url@ + "/pricing/calculate"@,
            opt_view(body),
            client.headers@,
        ),
{
    proof {
        reveal_strlit("/pricing/calculate");
    }
    client.request("POST", "/pricing/calculate", body)
}

/// `POST /messages`
pub fn createAnthropicMessage<T: Transport>(
    client: &Client<T>,
    path: &StringMap,
    body: Option<&str>,
) -> (r: Result<Response, String>)
    ensures
        result_view(r) == client.transport.on_request(
            "POST"@,
            client.base_url@ + "/messages"@,
            opt_view(body),
            client.headers@,
        ),
{
    proof {
        reveal_strlit("/messages");
    }
    client.request("POST", "/messages", body)
}

/// `POST /batches`
pub fn createBatch<T: Transport>(
    client: &Client<T>,
    path: &StringMap,
    body: Option<&str>,
) -> (r: Result<Response, String>)
    ensures
        result_view(r) == client.transport.on_request(
            "POST"@,
            client.base_url@ + "/batches"@,
            opt_view(body),
            client.headers@,
        ),
{
    proof {
        reveal_strlit("/batches");
    }
    client.request("POST", "/batches", body)
}

/// `POST /batch`
pub fn createBatchAlias<T: Transport>(
    client: &Client<T>,
    path: &StringMap,
    body: Option<&str>,
) -> (r: Result<Response, String>)
    ensures
        result_view(r) == client.transport.on_request(
            "POST"@,
            client.base_url@ + "/batch"@,
            opt_view(body),
            client.headers@,
        ),
{
    proof {
        reveal_strlit("/batch");
    }
    client.request("POST", "/batch", body)
}

/// `POST /chat/completions`
pub fn createChatCompletion<T: Transport>(
    client: &Client<T>,
    path: &StringMap,
    body: Option<&str>,
) -> (r: Result<Response, String>)
    ensures
        result_view(r) == client.transport.on_request(
            "POST"@,
            client.base_url@ + "/chat/completions"@,
            opt_view(body),
            client.headers@,
        ),
{
    proof {
        reveal_strlit("/chat/completions");
    }
    client.request("POST", "/chat/completions", body)
}

/// `POST /embeddings`
pub fn createEmbedding<T: Transport>(
    client: &Client<T>,
    path: &StringMap,
    body: Option<&str>,
) -> (r: Result<Response, String>)
    ensures
        result_view(r) == client.transport.on_request(
            "POST"@,
            client.base_url@ + "/embeddings"@,
            opt_view(body),
            client.headers@,
        ),
{
    proof {
        reveal_strlit("/embeddings");
    }
    client.request("POST", "/embeddings", body)
}

/// `POST /images/generations`
pub fn createImage<T: Transport>(
    client: &Client<T>,
    path: &StringMap,
    body: Option<&str>,
) -> (r: Result<Response, String>)
    ensures
        result_view(r) == client.transport.on_request(
            "POST"@,
            client.base_url@ + "/images/generations"@,
            opt_view(body),
            client.headers@,
        ),
{
    proof {
        reveal_strlit("/images/generations");
    }
    client.request("POST", "/images/generations", body)
}

/// `POST /images/edits`
pub fn createImageEdit<T: Transport>(
    client: &Client<T>,
    path: &StringMap,
    body: Option<&str>,
) -> (r: Result<Response, String>)
    ensures
        result_view(r) == client.transport.on_request(
            "POST"@,
            client.base_url@ + "/images/edits"@,
            opt_view(body),
            client.headers@,
        ),
{
    proof {
        reveal_strlit("/images/edits");
    }
    client.request("POST", "/images/edits", body)
}

/// `POST /keys`
pub fn createKeyPlaceholder<T: Transport>(
    client: &Client<T>,
    path: &StringMap,
    body: Option<&str>,
) -> (r: Result<Response, String>)
    ensures
        result_view(r) == client.transport.on_request(
            "POST"@,
            client.base_url@ + "/keys"@,
            opt_view(body),
            client.headers@,
        ),
{
    proof {
        reveal_strlit("/keys");
    }
    client.request("POST", "/keys", body)
}

/// `POST /moderations`
pub fn createModeration<T: Transport>(
    client: &Client<T>,
    path: &StringMap,
    body: Option<&str>,
) -> (r: Result<Response, String>)
    ensures
        result_view(r) == client.transport.on_request(
            "POST"@,
            client.base_url@ + "/moderations"@,
            opt_view(body),
            client.headers@,
        ),
{
    proof {
        reveal_strlit("/moderations");
    }
    client.request("POST", "/moderations", body)
}

/// `POST /oauth-clients`
pub fn createOAuthClient<T: Transport>(
    client: &Client<T>,
    path: &StringMap,
    body: Option<&str>,
) -> (r: Result<Response, String>)
    ensures
        result_view(r) == client.transport.on_request(
            "POST"@,
            client.base_url@ + "/oauth-clients"@,
            opt_view(body),
            client.headers@,
        ),
{
    proof {
        reveal_strlit("/oauth-clients");
    }
    client.request("POST", "/oauth-clients", body)
}

/// `POST /ocr`
pub fn createOcr<T: Transport>(
    client: &Client<T>,
    path: &StringMap,
    body: Option<&str>,
) -> (r: Result<Response, String>)
    ensures
        result_view(r) == client.transport.on_request(
            "POST"@,
            client.base_url@ + "/ocr"@,
            opt_view(body),
            client.headers@,
        ),
{
    proof {
        reveal_strlit("/ocr");
    }
    client.request("POST", "/ocr", body)
}

/// `POST /responses`
pub fn createResponse<T: Transport>(
    client: &Client<T>,
    path: &StringMap,
    body: Option<&str>,
) -> (r: Result<Response, String>)
    ensures
        result_view(r) == client.transport.on_request(
            "POST"@,
            client.base_url@ + "/responses"@,
            opt_view(body),
            client.headers@,
        ),
{
    proof {
        reveal_strlit("/responses");
    }
    client.request("POST", "/responses", body)
}

/// `POST /audio/speech`
pub fn createSpeech<T: Transport>(
    client: &Client<T>,
    path: &StringMap,
    body: Option<&str>,
) -> (r: Result<Response, String>)
    ensures
        result_view(r) == client.transport.on_request(
            "POST"@,
            client.base_url@ + "/audio/speech"@,
            opt_view(body),
            client.headers@,
        ),
{
    proof {
        reveal_strlit("/audio/speech");
    }
    client.request("POST", "/audio/speech", body)
}

/// `POST /audio/transcriptions`
pub fn createTranscription<T: Transport>(
    client: &Client<T>,
    path: &StringMap,
    body: Option<&str>,
) -> (r: Result<Response, String>)
    ensures
        result_view(r) == client.transport.on_request(
            "POST"@,
            client.base_url@ + "/audio/transcriptions"@,
            opt_view(body),
            client.headers@,
        ),
{
    proof {
        reveal_strlit("/audio/transcriptions");
    }
    client.request("POST", "/audio/transcriptions", body)
}

/// `POST /audio/translations`
pub fn createTranslation<T: Transport>(
    client: &Client<T>,
    path: &StringMap,
    body: Option<&str>,
) -> (r: Result<Response, String>)
    ensures
        result_view(r) == client.transport.on_request(
            "POST"@,
            client.base_url@ + "/audio/translations"@,
            opt_view(body),
            client.headers@,
        ),
{
    proof {
        reveal_strlit("/audio/translations");
    }
    client.request("POST", "/audio/translations", body)
}

/// `POST /videos`
pub fn createVideo<T: Transport>(
    client: &Client<T>,
    path: &StringMap,
    body: Option<&str>,
) -> (r: Result<Response, String>)
    ensures
        result_view(r) == client.transport.on_request(
            "POST"@,
            client.base_url@ + "/videos"@,
            opt_view(body),
            client.headers@,
        ),
{
    proof {
        reveal_strlit("/videos");
    }
    client.request("POST", "/videos", body)
}

/// `POST /video/generations`
pub fn createVideoAlias<T: Transport>(
    client: &Client<T>,
    path: &StringMap,
    body: Option<&str>,
) -> (r: Result<Response, String>)
    ensures
        result_view(r) == client.transport.on_request(
            "POST"@,
            client.base_url@ + "/video/generations"@,
            opt_view(body),
            client.headers@,
        ),
{
    proof {
        reveal_strlit("/video/generations");
    }
    client.request("POST", "/video/generations", body)
}

/// `DELETE /oauth-clients/{client_id}`
pub fn deleteOAuthClient<T: Transport>(
    client: &Client<T>,
    path: &StringMap,
    body: Option<&str>,
) -> (r: Result<Response, String>)
    ensures
        result_view(r) == client.transport.on_request(
            "DELETE"@,
            client.base_url@ + resolved("/oauth-clients/{client_id}"@, path@),
            opt_view(body),
            client.headers@,
        ),
{
    let resolved_path = resolve_path("/oauth-clients/{client_id}", path);
    proof {
        reveal_strlit("/oauth-clients/{client_id}");
        lemma_resolved_starts_with_slash("/oauth-clients/{client_id}"@, path@);
    }
    client.request("DELETE", resolved_path.as_str(), body)
}

/// `DELETE /management/keys/{id}`
pub fn deleteProvisioningKey<T: Transport>(
    client: &Client<T>,
    path: &StringMap,
    body: Option<&str>,
) -> (r: Result<Response, String>)
    ensures
        result_view(r) == client.transport.on_request(
            "DELETE"@,
            client.base_url@ + resolved("/management/keys/{id}"@, path@),
            opt_view(body),
            client.headers@,
        ),
{
    let resolved_path = resolve_path("/management/keys/{id}", path);
    proof {
        reveal_strlit("/management/keys/{id}");
        lemma_resolved_starts_with_slash("/management/keys/{id}"@, path@);
    }
    client.request("DELETE", resolved_path.as_str(), body)
}

/// `DELETE /provisioning/keys/{id}`
pub fn deleteProvisioningKeyAlias<T: Transport>(
    client: &Client<T>,
    path: &StringMap,
    body: Option<&str>,
) -> (r: Result<Response, String>)
    ensures
        result_view(r) == client.transport.on_request(
            "DELETE"@,
            client.base_url@ + resolved("/provisioning/keys/{id}"@, path@),
            opt_view(body),
            client.headers@,
        ),
{
    let resolved_path = resolve_path("/provisioning/keys/{id}", path);
    proof {
        reveal_strlit("/provisioning/keys/{id}");
        lemma_resolved_starts_with_slash("/provisioning/keys/{id}"@, path@);
    }
    client.request("DELETE", resolved_path.as_str(), body)
}

/// `DELETE /videos/{video_id}`
pub fn deleteVideo<T: Transport>(
    client: &Client<T>,
    path: &StringMap,
    body: Option<&str>,
) -> (r: Result<Response, String>)
    ensures
        result_view(r) == client.transport.on_request(
            "DELETE"@,
            client.base_url@ + resolved("/videos/{video_id}"@, path@),
            opt_view(body),
            client.headers@,
        ),
{
    let resolved_path = resolve_path("/videos/{video_id}", path);
    proof {
        reveal_strlit("/videos/{video_id}");
        lemma_resolved_starts_with_slash("/videos/{video_id}"@, path@);
    }
    client.request("DELETE", resolved_path.as_str(), body)
}

/// `DELETE /video/generations/{video_id}`
pub fn deleteVideoAlias<T: Transport>(
    client: &Client<T>,
    path: &StringMap,
    body: Option<&str>,
) -> (r: Result<Response, String>)
    ensures
        result_view(r) == client.transport.on_request(
            "DELETE"@,
            client.base_url@ + resolved("/video/generations/{video_id}"@, path@),
            opt_view(body),
            client.headers@,
        ),
{
    let resolved_path = resolve_path("/video/generations/{video_id}", path);
    proof {
        reveal_strlit("/video/generations/{video_id}");
        lemma_resolved_starts_with_slash("/video/generations/{video_id}"@, path@);
    }
    client.request("DELETE", resolved_path.as_str(), body)
}

/// `POST /music/generate`
pub fn generateMusic<T: Transport>(
    client: &Client<T>,
    path: &StringMap,
    body: Option<&str>,
) -> (r: Result<Response, String>)
    ensures
        result_view(r) == client.transport.on_request(
            "POST"@,
            client.base_url@ + "/music/generate"@,
            opt_view(body),
            client.headers@,
        ),
{
    proof {
        reveal_strlit("/music/generate");
    }
    client.request("POST", "/music/generate", body)
}

/// `POST /music/generations`
pub fn generateMusicAlias<T: Transport>(
    client: &Client<T>,
    path: &StringMap,
    body: Option<&str>,
) -> (r: Result<Response, String>)
    ensures
        result_view(r) == client.transport.on_request(
            "POST"@,
            client.base_url@ + "/music/generations"@,
            opt_view(body),
            client.headers@,
        ),
{
    proof {
        reveal_strlit("/music/generations");
    }
    client.request("POST", "/music/generations", body)
}

/// `GET /activity`
pub fn getActivity<T: Transport>(
    client: &Client<T>,
    path: &StringMap,
    body: Option<&str>,
) -> (r: Result<Response, String>)
    ensures
        result_view(r) == client.transport.on_request(
            "GET"@,
            client.base_url@ + "/activity"@,
            opt_view(body),
            client.headers@,
        ),
{
    proof {
        reveal_strlit("/activity");
    }
    client.request("GET", "/activity", body)
}

/// `POST /analytics`
pub fn getAnalytics<T: Transport>(
    client: &Client<T>,
    path: &StringMap,
    body: Option<&str>,
) -> (r: Result<Response, String>)
    ensures
        result_view(r) == client.transport.on_request(
            "POST"@,
            client.base_url@ + "/analytics"@,
            opt_view(body),
            client.headers@,
        ),
{
    proof {
        reveal_strlit("/analytics");
    }
    client.request("POST", "/analytics", body)
}

/// `GET /credits`
pub fn getCredits<T: Transport>(
    client: &Client<T>,
    path: &StringMap,
    body: Option<&str>,
) -> (r: Result<Response, String>)
    ensures
        result_view(r) == client.transport.on_request(
            "GET"@,
            client.base_url@ + "/credits"@,
            opt_view(body),
            client.headers@,
        ),
{
    proof {
        reveal_strlit("/credits");
    }
    client.request("GET", "/credits", body)
}

/// `GET /generations`
pub fn getGeneration<T: Transport>(
    client: &Client<T>,
    path: &StringMap,
    body: Option<&str>,
) -> (r: Result<Response, String>)
    ensures
        result_view(r) == client.transport.on_request(
            "GET"@,
            client.base_url@ + "/generations"@,
            opt_view(body),
            client.headers@,
        ),
{
    proof {
        reveal_strlit("/generations");
    }
    client.request("GET", "/generations", body)
}

/// `GET /key`
pub fn getKeyPlaceholder<T: Transport>(
    client: &Client<T>,
    path: &StringMap,
    body: Option<&str>,
) -> (r: Result<Response, String>)
    ensures
        result_view(r) == client.transport.on_request(
            "GET"@,
            client.base_url@ + "/key"@,
            opt_view(body),
            client.headers@,
        ),
{
    proof {
        reveal_strlit("/key");
    }
    client.request("GET", "/key", body)
}

/// `GET /music/generate/{music_id}`
pub fn getMusicGeneration<T: Transport>(
    client: &Client<T>,
    path: &StringMap,
    body: Option<&str>,
) -> (r: Result<Response, String>)
    ensures
        result_view(r) == client.transport.on_request(
            "GET"@,
            client.base_url@ + resolved("/music/generate/{music_id}"@, path@),
            opt_view(body),
            client.headers@,
        ),
{
    let resolved_path = resolve_path("/music/generate/{music_id}", path);
    proof {
        reveal_strlit("/music/generate/{music_id}");
        lemma_resolved_starts_with_slash("/music/generate/{music_id}"@, path@);
    }
    client.request("GET", resolved_path.as_str(), body)
}

/// `GET /music/generations/{music_id}`
pub fn getMusicGenerationAlias<T: Transport>(
    client: &Client<T>,
    path: &StringMap,
    body: Option<&str>,
) -> (r: Result<Response, String>)
    ensures
        result_view(r) == client.transport.on_request(
            "GET"@,
            client.base_url@ + resolved("/music/generations/{music_id}"@, path@),
            opt_view(body),
            client.headers@,
        ),
{
    let resolved_path = resolve_path("/music/generations/{music_id}", path);
    proof {
        reveal_strlit("/music/generations/{music_id}");
        lemma_resolved_starts_with_slash("/music/generations/{music_id}"@, path@);
    }
    client.request("GET", resolved_path.as_str(), body)
}

/// `GET /oauth-clients/{client_id}`
pub fn getOAuthClient<T: Transport>(
    client: &Client<T>,
    path: &StringMap,
    body: Option<&str>,
) -> (r: Result<Response, String>)
    ensures
        result_view(r) == client.transport.on_request(
            "GET"@,
            client.base_url@ + resolved("/oauth-clients/{client_id}"@, path@),
            opt_view(body),
            client.headers@,
        ),
{
    let resolved_path = resolve_path("/oauth-clients/{client_id}", path);
    proof {
        reveal_strlit("/oauth-clients/{client_id}");
        lemma_resolved_starts_with_slash("/oauth-clients/{client_id}"@, path@);
    }
    client.request("GET", resolved_path.as_str(), body)
}

/// `GET /health/providers/{provider_id}/derank`
pub fn getProviderDerankStatus<T: Transport>(
    client: &Client<T>,
    path: &StringMap,
    body: Option<&str>,
) -> (r: Result<Response, String>)
    ensures
        result_view(r) == client.transport.on_request(
            "GET"@,
            client.base_url@ + resolved("/health/providers/{provider_id}/derank"@, path@),
            opt_view(body),
            client.headers@,
        ),
{
    let resolved_path = resolve_path("/health/providers/{provider_id}/derank", path);
    proof {
        reveal_strlit("/health/providers/{provider_id}/derank");
        lemma_resolved_starts_with_slash("/health/providers/{provider_id}/derank"@, path@);
    }
    client.request("GET", resolved_path.as_str(), body)
}

/// `GET /management/keys/{id}`
pub fn getProvisioningKey<T: Transport>(
    client: &Client<T>,
    path: &StringMap,
    body: Option<&str>,
) -> (r: Result<Response, String>)
    ensures
        result_view(r) == client.transport.on_request(
            "GET"@,
            client.base_url@ + resolved("/management/keys/{id}"@, path@),
            opt_view(body),
            client.headers@,
        ),
{
    let resolved_path = resolve_path("/management/keys/{id}", path);
    proof {
        reveal_strlit("/management/keys/{id}");
        lemma_resolved_starts_with_slash("/management/keys/{id}"@, path@);
    }
    client.request("GET", resolved_path.as_str(), body)
}

/// `GET /provisioning/keys/{id}`
pub fn getProvisioningKeyAlias<T: Transport>(
    client: &Client<T>,
    path: &StringMap,
    body: Option<&str>,
) -> (r: Result<Response, String>)
    ensures
        result_view(r) == client.transport.on_request(
            "GET"@,
            client.base_url@ + resolved("/provisioning/keys/{id}"@, path@),
            opt_view(body),
            client.headers@,
        ),
{
    let resolved_path = resolve_path("/provisioning/keys/{id}", path);
    proof {
        reveal_strlit("/provisioning/keys/{id}");
        lemma_resolved_starts_with_slash("/provisioning/keys/{id}"@, path@);
    }
    client.request("GET", resolved_path.as_str(), body)
}

/// `GET /videos/{video_id}`
pub fn getVideo<T: Transport>(
    client: &Client<T>,
    path: &StringMap,
    body: Option<&str>,
) -> (r: Result<Response, String>)
    ensures
        result_view(r) == client.transport.on_request(
            "GET"@,
            client.base_url@ + resolved("/videos/{video_id}"@, path@),
            opt_view(body),
            client.headers@,
        ),
{
    let resolved_path = resolve_path("/videos/{video_id}", path);
    proof {
        reveal_strlit("/videos/{video_id}");
        lemma_resolved_starts_with_slash("/videos/{video_id}"@, path@);
    }
    client.request("GET", resolved_path.as_str(), body)
}

/// `GET /video/generations/{video_id}`
pub fn getVideoAlias<T: Transport>(
    client: &Client<T>,
    path: &StringMap,
    body: Option<&str>,
) -> (r: Result<Response, String>)
    ensures
        result_view(r) == client.transport.on_request(
            "GET"@,
            client.base_url@ + resolved("/video/generations/{video_id}"@, path@),
            opt_view(body),
            client.headers@,
        ),
{
    let resolved_path = resolve_path("/video/generations/{video_id}", path);
    proof {
        reveal_strlit("/video/generations/{video_id}");
        lemma_resolved_starts_with_slash("/video/generations/{video_id}"@, path@);
    }
    client.request("GET", resolved_path.as_str(), body)
}

/// `GET /videos/{video_id}/content`
pub fn getVideoContent<T: Transport>(
    client: &Client<T>,
    path: &StringMap,
    body: Option<&str>,
) -> (r: Result<Response, String>)
    ensures
        result_view(r) == client.transport.on_request(
            "GET"@,
            client.base_url@ + resolved("/videos/{video_id}/content"@, path@),
            opt_view(body),
            client.headers@,
        ),
{
    let resolved_path = resolve_path("/videos/{video_id}/content", path);
    proof {
        reveal_strlit("/videos/{video_id}/content");
        lemma_resolved_starts_with_slash("/videos/{video_id}/content"@, path@);
    }
    client.request("GET", resolved_path.as_str(), body)
}

/// `GET /video/generations/{video_id}/content`
pub fn getVideoContentAlias<T: Transport>(
    client: &Client<T>,
    path: &StringMap,
    body: Option<&str>,
) -> (r: Result<Response, String>)
    ensures
        result_view(r) == client.transport.on_request(
            "GET"@,
            client.base_url@ + resolved("/video/generations/{video_id}/content"@, path@),
            opt_view(body),
            client.headers@,
        ),
{
    let resolved_path = resolve_path("/video/generations/{video_id}/content", path);
    proof {
        reveal_strlit("/video/generations/{video_id}/content");
        lemma_resolved_starts_with_slash("/video/generations/{video_id}/content"@, path@);
    }
    client.request("GET", resolved_path.as_str(), body)
}

/// `GET /health`
pub fn healthz<T: Transport>(
    client: &Client<T>,
    path: &StringMap,
    body: Option<&str>,
) -> (r: Result<Response, String>)
    ensures
        result_view(r) == client.transport.on_request(
            "GET"@,
            client.base_url@ + "/health"@,
            opt_view(body),
            client.headers@,
        ),
{
    proof {
        reveal_strlit("/health");
    }
    client.request("GET", "/health", body)
}

/// `POST /keys/{id}/invalidate`
pub fn invalidateGatewayKeyCache<T: Transport>(
    client: &Client<T>,
    path: &StringMap,
    body: Option<&str>,
) -> (r: Result<Response, String>)
    ensures
        result_view(r) == client.transport.on_request(
            "POST"@,
            client.base_url@ + resolved("/keys/{id}/invalidate"@, path@),
            opt_view(body),
            client.headers@,
        ),
{
    let resolved_path = resolve_path("/keys/{id}/invalidate", path);
    proof {
        reveal_strlit("/keys/{id}/invalidate");
        lemma_resolved_starts_with_slash("/keys/{id}/invalidate"@, path@);
    }
    client.request("POST", resolved_path.as_str(), body)
}

/// `GET /endpoints`
pub fn listEndpointsPlaceholder<T: Transport>(
    client: &Client<T>,
    path: &StringMap,
    body: Option<&str>,
) -> (r: Result<Response, String>)
    ensures
        result_view(r) == client.transport.on_request(
            "GET"@,
            client.base_url@ + "/endpoints"@,
            opt_view(body),
            client.headers@,
        ),
{
    proof {
        reveal_strlit("/endpoints");
    }
    client.request("GET", "/endpoints", body)
}

/// `GET /files`
pub fn listFiles<T: Transport>(
    client: &Client<T>,
    path: &StringMap,
    body: Option<&str>,
) -> (r: Result<Response, String>)
    ensures
        result_view(r) == client.transport.on_request(
            "GET"@,
            client.base_url@ + "/files"@,
            opt_view(body),
            client.headers@,
        ),
{
    proof {
        reveal_strlit("/files");
    }
    client.request("GET", "/files", body)
}

/// `GET /keys`
pub fn listKeysPlaceholder<T: Transport>(
    client: &Client<T>,
    path: &StringMap,
    body: Option<&str>,
) -> (r: Result<Response, String>)
    ensures
        result_view(r) == client.transport.on_request(
            "GET"@,
            client.base_url@ + "/keys"@,
            opt_view(body),
            client.headers@,
        ),
{
    proof {
        reveal_strlit("/keys");
    }
    client.request("GET", "/keys", body)
}

/// `GET /models`
pub fn listModels<T: Transport>(
    client: &Client<T>,
    path: &StringMap,
    body: Option<&str>,
) -> (r: Result<Response, String>)
    ensures
        result_view(r) == client.transport.on_request(
            "GET"@,
            client.base_url@ + "/models"@,
            opt_view(body),
            client.headers@,
        ),
{
    proof {
        reveal_strlit("/models");
    }
    client.request("GET", "/models", body)
}

/// `GET /oauth-clients`
pub fn listOAuthClients<T: Transport>(
    client: &Client<T>,
    path: &StringMap,
    body: Option<&str>,
) -> (r: Result<Response, String>)
    ensures
        result_view(r) == client.transport.on_request(
            "GET"@,
            client.base_url@ + "/oauth-clients"@,
            opt_view(body),
            client.headers@,
        ),
{
    proof {
        reveal_strlit("/oauth-clients");
    }
    client.request("GET", "/oauth-clients", body)
}

/// `GET /organisations`
pub fn listOrganisations<T: Transport>(
    client: &Client<T>,
    path: &StringMap,
    body: Option<&str>,
) -> (r: Result<Response, String>)
    ensures
        result_view(r) == client.transport.on_request(
            "GET"@,
            client.base_url@ + "/organisations"@,
            opt_view(body),
            client.headers@,
        ),
{
    proof {
        reveal_strlit("/organisations");
    }
    client.request("GET", "/organisations", body)
}

/// `GET /pricing/models`
pub fn listPricingModels<T: Transport>(
    client: &Client<T>,
    path: &StringMap,
    body: Option<&str>,
) -> (r: Result<Response, String>)
    ensures
        result_view(r) == client.transport.on_request(
            "GET"@,
            client.base_url@ + "/pricing/models"@,
            opt_view(body),
            client.headers@,
        ),
{
    proof {
        reveal_strlit("/pricing/models");
    }
    client.request("GET", "/pricing/models", body)
}

/// `GET /providers`
pub fn listProviders<T: Transport>(
    client: &Client<T>,
    path: &StringMap,
    body: Option<&str>,
) -> (r: Result<Response, String>)
    ensures
        result_view(r) == client.transport.on_request(
            "GET"@,
            client.base_url@ + "/providers"@,
            opt_view(body),
            client.headers@,
        ),
{
    proof {
        reveal_strlit("/providers");
    }
    client.request("GET", "/providers", body)
}

/// `GET /management/keys`
pub fn listProvisioningKeys<T: Transport>(
    client: &Client<T>,
    path: &StringMap,
    body: Option<&str>,
) -> (r: Result<Response, String>)
    ensures
        result_view(r) == client.transport.on_request(
            "GET"@,
            client.base_url@ + "/management/keys"@,
            opt_view(body),
            client.headers@,
        ),
{
    proof {
        reveal_strlit("/management/keys");
    }
    client.request("GET", "/management/keys", body)
}

/// `GET /provisioning/keys`
pub fn listProvisioningKeysAlias<T: Transport>(
    client: &Client<T>,
    path: &StringMap,
    body: Option<&str>,
) -> (r: Result<Response, String>)
    ensures
        result_view(r) == client.transport.on_request(
            "GET"@,
            client.base_url@ + "/provisioning/keys"@,
            opt_view(body),
            client.headers@,
        ),
{
    proof {
        reveal_strlit("/provisioning/keys");
    }
    client.request("GET", "/provisioning/keys", body)
}

/// `POST /oauth-clients/{client_id}/regenerate-secret`
pub fn regenerateOAuthClientSecret<T: Transport>(
    client: &Client<T>,
    path: &StringMap,
    body: Option<&str>,
) -> (r: Result<Response, String>)
    ensures
        result_view(r) == client.transport.on_request(
            "POST"@,
            client.base_url@ + resolved("/oauth-clients/{client_id}/regenerate-secret"@, path@),
            opt_view(body),
            client.headers@,
        ),
{
    let resolved_path = resolve_path("/oauth-clients/{client_id}/regenerate-secret", path);
    proof {
        reveal_strlit("/oauth-clients/{client_id}/regenerate-secret");
        lemma_resolved_starts_with_slash("/oauth-clients/{client_id}/regenerate-secret"@, path@);
    }
    client.request("POST", resolved_path.as_str(), body)
}

/// `GET /batches/{batch_id}`
pub fn retrieveBatch<T: Transport>(
    client: &Client<T>,
    path: &StringMap,
    body: Option<&str>,
) -> (r: Result<Response, String>)
    ensures
        result_view(r) == client.transport.on_request(
            "GET"@,
            client.base_url@ + resolved("/batches/{batch_id}"@, path@),
            opt_view(body),
            client.headers@,
        ),
{
    let resolved_path = resolve_path("/batches/{batch_id}", path);
    proof {
        reveal_strlit("/batches/{batch_id}");
        lemma_resolved_starts_with_slash("/batches/{batch_id}"@, path@);
    }
    client.request("GET", resolved_path.as_str(), body)
}

/// `GET /batch/{id}`
pub fn retrieveBatchAlias<T: Transport>(
    client: &Client<T>,
    path: &StringMap,
    body: Option<&str>,
) -> (r: Result<Response, String>)
    ensures
        result_view(r) == client.transport.on_request(
            "GET"@,
            client.base_url@ + resolved("/batch/{id}"@, path@),
            opt_view(body),
            client.headers@,
        ),
{
    let resolved_path = resolve_path("/batch/{id}", path);
    proof {
        reveal_strlit("/batch/{id}");
        lemma_resolved_starts_with_slash("/batch/{id}"@, path@);
    }
    client.request("GET", resolved_path.as_str(), body)
}

/// `GET /files/{file_id}`
pub fn retrieveFile<T: Transport>(
    client: &Client<T>,
    path: &StringMap,
    body: Option<&str>,
) -> (r: Result<Response, String>)
    ensures
        result_view(r) == client.transport.on_request(
            "GET"@,
            client.base_url@ + resolved("/files/{file_id}"@, path@),
            opt_view(body),
            client.headers@,
        ),
{
    let resolved_path = resolve_path("/files/{file_id}", path);
    proof {
        reveal_strlit("/files/{file_id}");
        lemma_resolved_starts_with_slash("/files/{file_id}"@, path@);
    }
    client.request("GET", resolved_path.as_str(), body)
}

/// `GET /`
pub fn root<T: Transport>(
    client: &Client<T>,
    path: &StringMap,
    body: Option<&str>,
) -> (r: Result<Response, String>)
    ensures
        result_view(r) == client.transport.on_request(
            "GET"@,
            client.base_url@ + "/"@,
            opt_view(body),
            client.headers@,
        ),
{
    proof {
        reveal_strlit("/");
    }
    client.request("GET", "/", body)
}

/// `PATCH /oauth-clients/{client_id}`
pub fn updateOAuthClient<T: Transport>(
    client: &Client<T>,
    path: &StringMap,
    body: Option<&str>,
) -> (r: Result<Response, String>)
    ensures
        result_view(r) == client.transport.on_request(
            "PATCH"@,
            client.base_url@ + resolved("/oauth-clients/{client_id}"@, path@),
            opt_view(body),
            client.headers@,
        ),
{
    let resolved_path = resolve_path("/oauth-clients/{client_id}", path);
    proof {
        reveal_strlit("/oauth-clients/{client_id}");
        lemma_resolved_starts_with_slash("/oauth-clients/{client_id}"@, path@);
    }
    client.request("PATCH", resolved_path.as_str(), body)
}

/// `PATCH /management/keys/{id}`
pub fn updateProvisioningKey<T: Transport>(
    client: &Client<T>,
    path: &StringMap,
    body: Option<&str>,
) -> (r: Result<Response, String>)
    ensures
        result_view(r) == client.transport.on_request(
            "PATCH"@,
            client.base_url@ + resolved("/management/keys/{id}"@, path@),
            opt_view(body),
            client.headers@,
        ),
{
    let resolved_path = resolve_path("/management/keys/{id}", path);
    proof {
        reveal_strlit("/management/keys/{id}");
        lemma_resolved_starts_with_slash("/management/keys/{id}"@, path@);
    }
    client.request("PATCH", resolved_path.as_str(), body)
}

/// `PATCH /provisioning/keys/{id}`
pub fn updateProvisioningKeyAlias<T: Transport>(
    client: &Client<T>,
    path: &StringMap,
    body: Option<&str>,
) -> (r: Result<Response, String>)
    ensures
        result_view(r) == client.transport.on_request(
            "PATCH"@,
            client.base_url@ + resolved("/provisioning/keys/{id}"@, path@),
            opt_view(body),
            client.headers@,
        ),
{
    let resolved_path = resolve_path("/provisioning/keys/{id}", path);
    proof {
        reveal_strlit("/provisioning/keys/{id}");
        lemma_resolved_starts_with_slash("/provisioning/keys/{id}"@, path@);
    }
    client.request("PATCH", resolved_path.as_str(), body)
}

/// `POST /files`
pub fn uploadFile<T: Transport>(
    client: &Client<T>,
    path: &StringMap,
    body: Option<&str>,
) -> (r: Result<Response, String>)
    ensures
        result_view(r) == client.transport.on_request(
            "POST"@,
            client.base_url@ + "/files"@,
            opt_view(body),
            client.headers@,
        ),
{
    proof {
        reveal_strlit("/files");
    }
    client.request("POST", "/files", body)
}

} // verus!
