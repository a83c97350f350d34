//! Events the proxy's hook points emit toward an observing UI: a captured
//! request, streaming progress, a completed response, an updated context
//! model, or a proxy error. The delivery channel belongs to the surrounding
//! application.

use vstd::prelude::*;

verus! {

/// Milestones the core reports to an external observer.
#[derive(Debug, Clone)]
pub enum ApertureEvent {
    /// A new API request was captured by the proxy.
    RequestCaptured { request_id: String, method: String, path: String, provider: String },
    /// A streaming response is in flight; bytes relayed so far.
    ResponseStreaming { request_id: String, bytes_received: u64 },
    /// A response has been fully relayed.
    ResponseComplete { request_id: String, status: u16, tokens_used: Option<u32> },
    /// The context model changed.
    ContextUpdated { block_count: u32, total_tokens: u32 },
    /// A request failed inside the proxy.
    ProxyError { request_id: Option<String>, message: String },
}

} // verus!
