use aperture::capture::MAX_BODY_SIZE;
use aperture::config::UpstreamConfig;
use aperture::error::ProxyError;
use aperture::headers::Header;
use aperture::pipeline::{
    classify_send, failure_response, prepare_request, relay_upstream_head, SendOutcome,
    UPSTREAM_TIMEOUT_SECS,
};
use aperture::resolver::Provider;

fn header(name: &str, value: &str) -> Header {
    Header::new(name.as_bytes().to_vec(), value.as_bytes().to_vec())
}

fn contains(hay: &[u8], needle: &str) -> bool {
    hay.windows(needle.len()).any(|w| w == needle.as_bytes())
}

#[test]
fn limits_match_the_design() {
    assert_eq!(MAX_BODY_SIZE, 10 * 1024 * 1024);
    assert_eq!(UPSTREAM_TIMEOUT_SECS, 120);
}

#[test]
fn prepare_builds_url_and_keeps_body() {
    let config = UpstreamConfig::default();
    let headers = vec![header("x-api-key", "k1"), header("content-type", "application/json")];
    let prepared = prepare_request(
        &config,
        "POST".to_string(),
        "/v1/messages".as_bytes().to_vec(),
        headers,
        Ok("{\"a\":1}".as_bytes().to_vec()),
    )
    .unwrap_or_else(|_| panic!("expected a prepared request"));

    assert_eq!(prepared.provider, Provider::Anthropic);
    assert_eq!(prepared.method, "POST");
    assert_eq!(prepared.url, "https://api.anthropic.com/v1/messages".as_bytes().to_vec());
    assert_eq!(prepared.body, "{\"a\":1}".as_bytes().to_vec());
}

#[test]
fn prepare_drops_host_header_only() {
    let config = UpstreamConfig::default();
    let headers = vec![
        header("Host", "localhost:5400"),
        header("x-api-key", "k1"),
        header("host", "other"),
        header("accept", "*/*"),
    ];
    let prepared = prepare_request(
        &config,
        "GET".to_string(),
        "/v1/messages".as_bytes().to_vec(),
        headers,
        Ok(Vec::new()),
    )
    .unwrap_or_else(|_| panic!("expected a prepared request"));

    assert_eq!(prepared.headers.len(), 2);
    assert_eq!(prepared.headers[0].name, "x-api-key".as_bytes().to_vec());
    assert_eq!(prepared.headers[1].name, "accept".as_bytes().to_vec());
}

#[test]
fn oversized_body_is_rejected_with_413() {
    let config = UpstreamConfig::default();
    let body = vec![b'x'; 11 * 1024 * 1024];
    let result = prepare_request(
        &config,
        "POST".to_string(),
        "/v1/messages".as_bytes().to_vec(),
        vec![header("x-api-key", "k1")],
        Ok(body),
    );
    match result {
        Ok(_) => panic!("an oversized body must never be forwarded"),
        Err(resp) => {
            assert_eq!(resp.status, 413);
            // the body names the configured limit
            assert!(contains(&resp.body, "10485760 byte limit"));
            assert!(contains(&resp.body, "request too large"));
        }
    }
}

#[test]
fn length_capped_read_is_rejected_with_413() {
    let config = UpstreamConfig::default();
    let result = prepare_request(
        &config,
        "POST".to_string(),
        "/v1/messages".as_bytes().to_vec(),
        Vec::new(),
        Err("length limit exceeded".to_string()),
    );
    match result {
        Ok(_) => panic!("a capped read must never be forwarded"),
        Err(resp) => {
            assert_eq!(resp.status, 413);
            assert!(contains(&resp.body, "request too large: 0 bytes"));
        }
    }
}

#[test]
fn unreadable_body_is_rejected_with_502() {
    let config = UpstreamConfig::default();
    let result = prepare_request(
        &config,
        "POST".to_string(),
        "/v1/messages".as_bytes().to_vec(),
        Vec::new(),
        Err("connection reset".to_string()),
    );
    match result {
        Ok(_) => panic!("an unreadable body must never be forwarded"),
        Err(resp) => {
            assert_eq!(resp.status, 502);
            assert!(contains(&resp.body, "invalid request: connection reset"));
        }
    }
}

#[test]
fn timeout_yields_504() {
    match relay_upstream_head(SendOutcome::TimedOut) {
        Ok(_) => panic!("a timeout cannot be relayed"),
        Err(resp) => {
            assert_eq!(resp.status, 504);
            assert!(contains(&resp.body, "upstream request timed out"));
        }
    }
}

#[test]
fn transport_failure_yields_502() {
    match relay_upstream_head(SendOutcome::Failed("connection refused".to_string())) {
        Ok(_) => panic!("a failure cannot be relayed"),
        Err(resp) => {
            assert_eq!(resp.status, 502);
            assert!(contains(&resp.body, "upstream request failed"));
            assert!(contains(&resp.body, "connection refused"));
        }
    }
}

#[test]
fn delivered_head_is_planned() {
    let outcome = SendOutcome::Delivered {
        status: 200,
        headers: vec![header("content-type", "application/json")],
    };
    match relay_upstream_head(outcome) {
        Ok(plan) => {
            assert_eq!(plan.status, 200);
            assert!(!plan.streaming);
        }
        Err(_) => panic!("a delivered head must be planned"),
    }
}

#[test]
fn classify_send_distinguishes_timeout() {
    assert!(matches!(classify_send(SendOutcome::TimedOut), Err(ProxyError::UpstreamTimeout)));
    assert!(matches!(
        classify_send(SendOutcome::Failed("dns".to_string())),
        Err(ProxyError::UpstreamFailed(_))
    ));
    assert!(matches!(
        classify_send(SendOutcome::Delivered { status: 418, headers: Vec::new() }),
        Ok((418, _))
    ));
}

#[test]
fn error_table_is_total() {
    let cases: Vec<(ProxyError, u16)> = vec![
        (ProxyError::RequestTooLarge { size: 11, limit: 10 }, 413),
        (ProxyError::UpstreamTimeout, 504),
        (ProxyError::UpstreamFailed("x".to_string()), 502),
        (ProxyError::InvalidRequest("x".to_string()), 502),
        (ProxyError::InvalidUrl("x".to_string()), 502),
        (ProxyError::ParsingFailed("x".to_string()), 502),
        (ProxyError::ClientBuildFailed("x".to_string()), 502),
        (
            ProxyError::BindFailed { address: "a".to_string(), message: "m".to_string() },
            502,
        ),
    ];
    for (e, status) in cases {
        let resp = failure_response(&e);
        assert_eq!(resp.status, status);
        assert!(contains(&resp.body, "Proxy error: "));
    }
}

#[test]
fn error_messages_are_exact() {
    let e = ProxyError::RequestTooLarge { size: 11534336, limit: 10485760 };
    assert_eq!(e.message(), "request too large: 11534336 bytes exceeds 10485760 byte limit");
    assert_eq!(
        ProxyError::UpstreamFailed("no route to host".to_string()).message(),
        "upstream request failed: no route to host"
    );
    assert_eq!(ProxyError::UpstreamTimeout.message(), "upstream request timed out");
    assert_eq!(
        ProxyError::BindFailed {
            address: "127.0.0.1:5400".to_string(),
            message: "in use".to_string()
        }
        .message(),
        "failed to bind to 127.0.0.1:5400: in use"
    );
    assert_eq!(
        ProxyError::ClientBuildFailed("tls".to_string()).message(),
        "failed to build HTTP client: tls"
    );
    assert_eq!(ProxyError::InvalidUrl("::".to_string()).message(), "invalid URL: ::");
    assert_eq!(ProxyError::ParsingFailed("eof".to_string()).message(), "parsing failed: eof");
}
