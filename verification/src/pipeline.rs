//! The handler pipeline: resolve the upstream, capture the request, classify
//! the transport's outcome, and turn every failure into a well-formed outward
//! response. The transport itself (sending, awaiting, reading) lives outside;
//! these functions make every decision around it.

use vstd::prelude::*;
use vstd::string::StringSliceAdditionalSpecFns;
use vstd::utf8::encode_utf8;

use crate::bytestr::{append_bytes, contains_seq};
use crate::capture::{capture_request, MAX_BODY_SIZE};
use crate::config::UpstreamConfig;
use crate::error::{error_body, spec_error_body, spec_status, status_for, ProxyError};
use crate::headers::{header_views, spec_sanitized, Header};
use crate::relay::{plan_relay, spec_is_event_stream, spec_translated, OutwardResponse, RelayPlan};
use crate::resolver::{determine_upstream, resolve, spec_base_for, spec_resolve, Provider};

verus! {

/// Overall per-request timeout for the upstream call, in seconds.
pub const UPSTREAM_TIMEOUT_SECS: u64 = 120;

/// An outbound request ready for the transport: the resolved upstream URL,
/// the original method, the sanitized header set, and the captured body.
#[derive(Debug)]
pub struct PreparedRequest {
    pub method: String,
    pub url: Vec<u8>,
    pub headers: Vec<Header>,
    pub body: Vec<u8>,
    pub provider: Provider,
}

/// The URL a request resolves to: the chosen provider's base address followed
/// by the original path.
pub open spec fn spec_upstream_url(
    config: UpstreamConfig,
    headers: Seq<Header>,
    path: Seq<u8>,
) -> Seq<u8> {
    encode_utf8(spec_base_for(config, spec_resolve(headers, path))) + path
}

/// Turn a pipeline failure into the outward response the caller sees: the
/// status from the central mapping, and the failure's description as body.
pub fn failure_response(e: &ProxyError) -> (r: OutwardResponse)
    ensures
        r.status == spec_status(*e),
        r.body@ == spec_error_body(*e),
        r.headers@.len() == 0,
{
    OutwardResponse { status: status_for(e), headers: Vec::new(), body: error_body(e) }
}

/// Resolve and capture an inbound request, or reject it with the outward
/// response it has earned.
///
/// A body over the size limit is never forwarded: no prepared request exists
/// for it, and the caller sees status 413 with a body naming the limit. The
/// prepared header set never contains the inbound `Host` header, and the
/// upstream URL is the resolved provider's base address plus the path.
pub fn prepare_request(
    config: &UpstreamConfig,
    method: String,
    path: Vec<u8>,
    headers: Vec<Header>,
    body_read: Result<Vec<u8>, String>,
) -> (r: Result<PreparedRequest, OutwardResponse>)
    ensures
        r is Ok <==> (body_read matches Ok(b) && b@.len() <= MAX_BODY_SIZE),
        r matches Ok(p) ==> {
            &&& body_read matches Ok(b) && p.body@ == b@
            &&& p.method@ == method@
            &&& p.provider == spec_resolve(headers@, path@)
            &&& p.url@ == spec_upstream_url(*config, headers@, path@)
            &&& p.headers@ == spec_sanitized(headers@)
        },
        r matches Err(resp) ==> (match body_read {
            Ok(b) => b@.len() > MAX_BODY_SIZE && resp.status == 413 && resp.body@
                == spec_error_body(
                ProxyError::RequestTooLarge { size: b.len(), limit: MAX_BODY_SIZE },
            ),
            Err(m) => {
                if contains_seq(encode_utf8(m@), "length limit".spec_bytes()) {
                    resp.status == 413 && resp.body@ == spec_error_body(
                        ProxyError::RequestTooLarge { size: 0, limit: MAX_BODY_SIZE },
                    )
                } else {
                    resp.status == 502 && resp.body@ == spec_error_body(
                        ProxyError::InvalidRequest(m),
                    )
                }
            },
        }),
{
    let provider = resolve(&headers, path.as_slice());
    let base = determine_upstream(config, &headers, path.as_slice());
    match capture_request(method, path, headers, body_read) {
        Ok(captured) => {
            let mut url: Vec<u8> = Vec::new();
            append_bytes(&mut url, base.as_str().as_bytes());
            append_bytes(&mut url, captured.path.as_slice());
            Ok(
                PreparedRequest {
                    method: captured.method,
                    url,
                    headers: captured.headers,
                    body: captured.body,
                    provider,
                },
            )
        },
        Err(e) => Err(failure_response(&e)),
    }
}

/// What the transport reports after sending a prepared request: the upstream
/// response head, a timeout, or any other transport-level failure with its
/// description.
#[derive(Debug)]
pub enum SendOutcome {
    Delivered { status: u16, headers: Vec<Header> },
    TimedOut,
    Failed(String),
}

/// Classify the transport's outcome. A timeout becomes `UpstreamTimeout`,
/// distinct from every other transport failure, which becomes
/// `UpstreamFailed` carrying the underlying cause. No retries: a failure is
/// surfaced immediately.
pub fn classify_send(outcome: SendOutcome) -> (r: Result<(u16, Vec<Header>), ProxyError>)
    ensures
        (match outcome {
            SendOutcome::Delivered { status, headers } => r matches Ok(head) && head.0 == status
                && head.1@ == headers@,
            SendOutcome::TimedOut => r == Result::<(u16, Vec<Header>), ProxyError>::Err(
                ProxyError::UpstreamTimeout,
            ),
            SendOutcome::Failed(m) => r == Result::<(u16, Vec<Header>), ProxyError>::Err(
                ProxyError::UpstreamFailed(m),
            ),
        }),
{
    match outcome {
        SendOutcome::Delivered { status, headers } => Ok((status, headers)),
        SendOutcome::TimedOut => Err(ProxyError::UpstreamTimeout),
        SendOutcome::Failed(m) => Err(ProxyError::UpstreamFailed(m)),
    }
}

/// Inspect the transport's outcome and either plan the relay of the upstream
/// response or reject with the outward response the failure has earned: 504
/// for a timeout, 502 for any other transport failure.
pub fn relay_upstream_head(outcome: SendOutcome) -> (r: Result<RelayPlan, OutwardResponse>)
    ensures
        (match outcome {
            SendOutcome::Delivered { status, headers } => r matches Ok(plan) && plan.status
                == status && plan.streaming == spec_is_event_stream(headers@)
                && header_views(plan.headers@) == spec_translated(
                header_views(headers@),
            ),
            SendOutcome::TimedOut => r matches Err(resp) && resp.status == 504 && resp.body@
                == spec_error_body(ProxyError::UpstreamTimeout),
            SendOutcome::Failed(m) => r matches Err(resp) && resp.status == 502 && resp.body@
                == spec_error_body(ProxyError::UpstreamFailed(m)),
        }),
{
    match classify_send(outcome) {
        Ok((status, headers)) => Ok(plan_relay(status, headers)),
        Err(e) => Err(failure_response(&e)),
    }
}

} // verus!
