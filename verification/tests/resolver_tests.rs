use aperture::config::UpstreamConfig;
use aperture::headers::Header;
use aperture::resolver::{determine_upstream, resolve, Provider};

fn header(name: &str, value: &str) -> Header {
    Header::new(name.as_bytes().to_vec(), value.as_bytes().to_vec())
}

#[test]
fn handler_test_determine_upstream_anthropic_header() {
    let config = UpstreamConfig::default();
    let headers = vec![header("x-api-key", "test")];

    let result = determine_upstream(&config, &headers, "/v1/messages".as_bytes());
    assert_eq!(result, "https://api.anthropic.com");
}

#[test]
fn handler_test_determine_upstream_openai_path() {
    let config = UpstreamConfig::default();
    let headers: Vec<Header> = Vec::new();

    let result = determine_upstream(&config, &headers, "/v1/chat/completions".as_bytes());
    assert_eq!(result, "https://api.openai.com");
}

#[test]
fn handler_test_upstream_config_default() {
    let config = UpstreamConfig::default();
    assert_eq!(config.anthropic_url, "https://api.anthropic.com");
    assert_eq!(config.openai_url, "https://api.openai.com");
}

#[test]
fn mod_test_determine_upstream_anthropic_header() {
    let config = UpstreamConfig::default();
    let headers = vec![header("x-api-key", "test")];

    let result = determine_upstream(&config, &headers, "/v1/messages".as_bytes());
    assert_eq!(result, "https://api.anthropic.com");
}

#[test]
fn mod_test_determine_upstream_openai_path() {
    let config = UpstreamConfig::default();
    let headers: Vec<Header> = Vec::new();

    let result = determine_upstream(&config, &headers, "/v1/chat/completions".as_bytes());
    assert_eq!(result, "https://api.openai.com");
}

#[test]
fn mod_test_upstream_config_default() {
    let config = UpstreamConfig::default();
    assert_eq!(config.anthropic_url, "https://api.anthropic.com");
    assert_eq!(config.openai_url, "https://api.openai.com");
}

#[test]
fn identity_header_wins_over_openai_path() {
    // Provider-A identity headers decide, whatever the path says.
    let headers = vec![header("x-api-key", "k1")];
    assert_eq!(resolve(&headers, "/v1/chat/completions".as_bytes()), Provider::Anthropic);

    let headers = vec![header("anthropic-version", "2023-06-01")];
    assert_eq!(resolve(&headers, "/v1/chat/completions".as_bytes()), Provider::Anthropic);
}

#[test]
fn identity_header_is_case_insensitive() {
    let headers = vec![header("X-Api-Key", "k1")];
    assert_eq!(resolve(&headers, "/unknown".as_bytes()), Provider::Anthropic);
}

#[test]
fn bearer_secret_selects_openai() {
    let headers = vec![header("authorization", "Bearer sk-test")];
    assert_eq!(resolve(&headers, "/v1/messages".as_bytes()), Provider::OpenAi);
    assert_eq!(resolve(&headers, "/unknown".as_bytes()), Provider::OpenAi);
}

#[test]
fn other_authorization_does_not_select_openai() {
    let headers = vec![header("authorization", "Bearer other-token")];
    assert_eq!(resolve(&headers, "/unknown".as_bytes()), Provider::Anthropic);
}

#[test]
fn path_rules_and_default() {
    let headers: Vec<Header> = Vec::new();
    assert_eq!(resolve(&headers, "/v1/messages".as_bytes()), Provider::Anthropic);
    assert_eq!(resolve(&headers, "/v1/chat/completions".as_bytes()), Provider::OpenAi);
    assert_eq!(resolve(&headers, "/unknown".as_bytes()), Provider::Anthropic);
}
