//! The proxy's error taxonomy and the centralized mapping from each failure
//! kind to an outward HTTP status and message.

use vstd::prelude::*;
use vstd::string::{StrSliceExecFns, StringExecFns};
use vstd::utf8::encode_utf8;

use crate::numeric::{dec_chars, usize_to_dec};

verus! {

/// Errors that can occur during proxy operations. The two startup kinds
/// (`ClientBuildFailed`, `BindFailed`) are fatal to the serving loop; every
/// other kind is converted to an outward response per request.
#[derive(Debug, PartialEq, Eq)]
pub enum ProxyError {
    /// Failed to construct the shared HTTP client.
    ClientBuildFailed(String),
    /// Failed to bind the listener to an address.
    BindFailed { address: String, message: String },
    /// Forwarding to the upstream failed at the transport level.
    UpstreamFailed(String),
    /// The inbound request could not be read.
    InvalidRequest(String),
    /// A URL could not be parsed.
    InvalidUrl(String),
    /// The inbound body exceeds the size limit.
    RequestTooLarge { size: usize, limit: usize },
    /// The upstream did not respond within the request timeout.
    UpstreamTimeout,
    /// A request or response body could not be parsed.
    ParsingFailed(String),
}

/// The outward HTTP status for each failure kind: 413 for an oversized body,
/// 504 for an upstream timeout, 502 for everything else.
pub open spec fn spec_status(e: ProxyError) -> u16 {
    match e {
        ProxyError::RequestTooLarge { .. } => 413,
        ProxyError::UpstreamTimeout => 504,
        _ => 502,
    }
}

/// Map a failure kind to its outward HTTP status. The single lookup every
/// call site goes through.
pub fn status_for(e: &ProxyError) -> (s: u16)
    ensures
        s == spec_status(*e),
{
    match e {
        ProxyError::RequestTooLarge { .. } => 413,
        ProxyError::UpstreamTimeout => 504,
        _ => 502,
    }
}

/// The human-readable description of a failure.
pub open spec fn spec_message(e: ProxyError) -> Seq<char> {
    match e {
        ProxyError::ClientBuildFailed(m) => "failed to build HTTP client: "@ + m@,
        ProxyError::BindFailed { address, message } => "failed to bind to "@ + address@ + ": "@
            + message@,
        ProxyError::UpstreamFailed(m) => "upstream request failed: "@ + m@,
        ProxyError::InvalidRequest(m) => "invalid request: "@ + m@,
        ProxyError::InvalidUrl(m) => "invalid URL: "@ + m@,
        ProxyError::RequestTooLarge { size, limit } => "request too large: "@ + dec_chars(
            size as int,
        ) + " bytes exceeds "@ + dec_chars(limit as int) + " byte limit"@,
        ProxyError::UpstreamTimeout => "upstream request timed out"@,
        ProxyError::ParsingFailed(m) => "parsing failed: "@ + m@,
    }
}

impl ProxyError {
    /// Render the failure's description.
    pub fn message(&self) -> (r: String)
        ensures
            r@ == spec_message(*self),
    {
        match self {
            ProxyError::ClientBuildFailed(m) => {
                let mut s = "failed to build HTTP client: ".to_owned();
                s.append(m.as_str());
                s
            },
            ProxyError::BindFailed { address, message } => {
                let mut s = "failed to bind to ".to_owned();
                s.append(address.as_str());
                s.append(": ");
                s.append(message.as_str());
                s
            },
            ProxyError::UpstreamFailed(m) => {
                let mut s = "upstream request failed: ".to_owned();
                s.append(m.as_str());
                s
            },
            ProxyError::InvalidRequest(m) => {
                let mut s = "invalid request: ".to_owned();
                s.append(m.as_str());
                s
            },
            ProxyError::InvalidUrl(m) => {
                let mut s = "invalid URL: ".to_owned();
                s.append(m.as_str());
                s
            },
            ProxyError::RequestTooLarge { size, limit } => {
                let mut s = "request too large: ".to_owned();
                let size_digits = usize_to_dec(*size);
                s.append(size_digits.as_str());
                s.append(" bytes exceeds ");
                let limit_digits = usize_to_dec(*limit);
                s.append(limit_digits.as_str());
                s.append(" byte limit");
                s
            },
            ProxyError::UpstreamTimeout => "upstream request timed out".to_owned(),
            ProxyError::ParsingFailed(m) => {
                let mut s = "parsing failed: ".to_owned();
                s.append(m.as_str());
                s
            },
        }
    }
}

/// The body of an outward error response: a fixed prefix and the failure's
/// description, as UTF-8 bytes.
pub open spec fn spec_error_body(e: ProxyError) -> Seq<u8> {
    encode_utf8("Proxy error: "@ + spec_message(e))
}

/// Render the body of an outward error response.
pub fn error_body(e: &ProxyError) -> (b: Vec<u8>)
    ensures
        b@ == spec_error_body(*e),
{
    let mut s = "Proxy error: ".to_owned();
    let msg = e.message();
    s.append(msg.as_str());
    s.as_str().as_bytes_vec()
}

} // verus!
