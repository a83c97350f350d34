//! Upstream resolution: a pure decision function from an inbound request's
//! headers and path to the provider that owns the request.

use vstd::prelude::*;
use vstd::string::StringSliceAdditionalSpecFns;

use crate::bytestr::{contains_bytes, contains_seq, is_prefix, starts_with_bytes};
use crate::config::UpstreamConfig;
use crate::headers::{
    first_header_value, has_header, spec_first_value, spec_has_header, Header,
};

verus! {

/// The two upstream providers the proxy can forward to.
#[derive(Debug, Clone, Copy, PartialEq, Eq, Structural)]
pub enum Provider {
    Anthropic,
    OpenAi,
}

/// The header set carries a provider-A identity signal: an API-key header or
/// the provider-A versioning header.
pub open spec fn spec_anthropic_identity(hs: Seq<Header>) -> bool {
    ||| spec_has_header(hs, "x-api-key".spec_bytes())
    ||| spec_has_header(hs, "anthropic-version".spec_bytes())
}

/// The first Authorization value starts with the provider-B secret prefix.
pub open spec fn spec_bearer_secret(hs: Seq<Header>) -> bool {
    match spec_first_value(hs, "authorization".spec_bytes()) {
        Some(v) => is_prefix(v, "Bearer sk-".spec_bytes()),
        None => false,
    }
}

/// Which provider owns a request, decided from headers and path alone.
/// First match wins: provider-A identity header; provider-B secret prefix on
/// Authorization; provider-A route segment in the path; provider-B route
/// segment in the path; default to provider A.
pub open spec fn spec_resolve(hs: Seq<Header>, path: Seq<u8>) -> Provider {
    if spec_anthropic_identity(hs) {
        Provider::Anthropic
    } else if spec_bearer_secret(hs) {
        Provider::OpenAi
    } else if contains_seq(path, "/v1/messages".spec_bytes()) {
        Provider::Anthropic
    } else if contains_seq(path, "/v1/chat/completions".spec_bytes()) {
        Provider::OpenAi
    } else {
        Provider::Anthropic
    }
}

/// Decide which provider owns the request. Pure: no I/O, deterministic.
pub fn resolve(headers: &Vec<Header>, path: &[u8]) -> (p: Provider)
    ensures
        p == spec_resolve(headers@, path@),
{
    if has_header(headers, "x-api-key".as_bytes()) || has_header(
        headers,
        "anthropic-version".as_bytes(),
    ) {
        return Provider::Anthropic;
    }
    if let Some(auth) = first_header_value(headers, "authorization".as_bytes()) {
        if starts_with_bytes(auth.as_slice(), "Bearer sk-".as_bytes()) {
            return Provider::OpenAi;
        }
    }
    if contains_bytes(path, "/v1/messages".as_bytes()) {
        return Provider::Anthropic;
    }
    if contains_bytes(path, "/v1/chat/completions".as_bytes()) {
        return Provider::OpenAi;
    }
    Provider::Anthropic
}

/// The configured base address of a provider.
pub open spec fn spec_base_for(config: UpstreamConfig, p: Provider) -> Seq<char> {
    match p {
        Provider::Anthropic => config.anthropic_url@,
        Provider::OpenAi => config.openai_url@,
    }
}

/// The base address the request is forwarded to: the address of the provider
/// that `spec_resolve` picks.
pub fn determine_upstream(config: &UpstreamConfig, headers: &Vec<Header>, path: &[u8]) -> (r:
    String)
    ensures
        r@ == spec_base_for(*config, spec_resolve(headers@, path@)),
{
    match resolve(headers, path) {
        Provider::Anthropic => config.anthropic_url.clone(),
        Provider::OpenAi => config.openai_url.clone(),
    }
}

/// A header set carrying a provider-A identity header resolves to provider A,
/// whatever the path — even one containing provider-B's route segment.
pub proof fn law_identity_header_wins(hs: Seq<Header>, path: Seq<u8>)
    requires
        spec_anthropic_identity(hs),
    ensures
        spec_resolve(hs, path) == Provider::Anthropic,
{
}

/// With no provider-A identity header, an Authorization value that starts with
/// the provider-B secret prefix resolves to provider B, whatever the path.
pub proof fn law_bearer_secret_selects_openai(hs: Seq<Header>, path: Seq<u8>)
    requires
        !spec_anthropic_identity(hs),
        spec_bearer_secret(hs),
    ensures
        spec_resolve(hs, path) == Provider::OpenAi,
{
}

} // verus!

