//! Request capture: the bounded inbound body and the outbound request's
//! sanitized header set.

use vstd::prelude::*;
use vstd::string::StringSliceAdditionalSpecFns;
use vstd::utf8::encode_utf8;

use crate::bytestr::contains_bytes;
use crate::bytestr::contains_seq;
use crate::error::ProxyError;
use crate::headers::{sanitize_headers, spec_sanitized, Header};

verus! {

/// Maximum size of an inbound request body: 10 MiB.
pub const MAX_BODY_SIZE: usize = 10 * 1024 * 1024;

/// An inbound request once fully captured: its method, path, header set with
/// the `Host` header removed, and body bytes within the size limit.
#[derive(Debug)]
pub struct CapturedRequest {
    pub method: String,
    pub path: Vec<u8>,
    pub headers: Vec<Header>,
    pub body: Vec<u8>,
}

/// Capture an inbound request. `body_read` is the outcome of the transport's
/// bounded body read: the body bytes, or the transport's failure message.
///
/// A body over the limit is rejected with `RequestTooLarge` and is never
/// captured; when the transport's own length cap cut the read short, the
/// consumed byte count is unknown and reported as zero. Any other read
/// failure is an `InvalidRequest`. On success the `Host` header is dropped
/// and everything else is kept unchanged, in order.
pub fn capture_request(
    method: String,
    path: Vec<u8>,
    headers: Vec<Header>,
    body_read: Result<Vec<u8>, String>,
) -> (r: Result<CapturedRequest, ProxyError>)
    ensures
        (match body_read {
            Ok(b) => {
                if b@.len() <= MAX_BODY_SIZE {
                    r matches Ok(c) && c.method@ == method@ && c.path@ == path@ && c.headers@
                        == spec_sanitized(headers@) && c.body@ == b@
                } else {
                    r == Result::<CapturedRequest, ProxyError>::Err(
                        ProxyError::RequestTooLarge { size: b.len(), limit: MAX_BODY_SIZE },
                    )
                }
            },
            Err(m) => {
                if contains_seq(encode_utf8(m@), "length limit".spec_bytes()) {
                    r == Result::<CapturedRequest, ProxyError>::Err(
                        ProxyError::RequestTooLarge { size: 0, limit: MAX_BODY_SIZE },
                    )
                } else {
                    r == Result::<CapturedRequest, ProxyError>::Err(ProxyError::InvalidRequest(m))
                }
            },
        }),
{
    match body_read {
        Ok(b) => {
            if b.len() > MAX_BODY_SIZE {
                Err(ProxyError::RequestTooLarge { size: b.len(), limit: MAX_BODY_SIZE })
            } else {
                Ok(
                    CapturedRequest {
                        method,
                        path,
                        headers: sanitize_headers(headers),
                        body: b,
                    },
                )
            }
        },
        Err(m) => {
            if contains_bytes(m.as_str().as_bytes(), "length limit".as_bytes()) {
                Err(ProxyError::RequestTooLarge { size: 0, limit: MAX_BODY_SIZE })
            } else {
                Err(ProxyError::InvalidRequest(m))
            }
        },
    }
}

} // verus!
