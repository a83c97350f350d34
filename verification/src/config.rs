//! Construction-time configuration: upstream base addresses and the
//! listening port.

use vstd::prelude::*;
use vstd::string::StringExecFns;

use crate::numeric::{dec_chars, parse_u16, spec_parse_u16, u64_to_dec};

verus! {

/// Default port the proxy listens on.
pub const DEFAULT_PORT: u16 = 5400;

/// Upstream API configuration: the base address of each provider.
///
/// Immutable after construction; shared read-only across all concurrent
/// requests.
#[derive(Debug, Clone)]
pub struct UpstreamConfig {
    /// Base URL for the Anthropic API.
    pub anthropic_url: String,
    /// Base URL for the OpenAI API.
    pub openai_url: String,
}

impl Default for UpstreamConfig {
    fn default() -> (c: Self)
        ensures
            c.anthropic_url@ == "https://api.anthropic.com"@,
            c.openai_url@ == "https://api.openai.com"@,
    {
        UpstreamConfig {
            anthropic_url: "https://api.anthropic.com".to_owned(),
            openai_url: "https://api.openai.com".to_owned(),
        }
    }
}

/// The port the proxy should listen on, given the environment's setting: the
/// setting when it parses as a 16-bit number, the default otherwise (or when
/// no setting is present).
pub open spec fn spec_chosen_port(setting: Option<Seq<char>>) -> u16 {
    match setting {
        Some(s) => match spec_parse_u16(s) {
            Some(p) => p,
            None => DEFAULT_PORT,
        },
        None => DEFAULT_PORT,
    }
}

/// Pick the listening port from an optional textual setting.
pub fn choose_port(setting: Option<&str>) -> (p: u16)
    ensures
        p == spec_chosen_port(
            match setting {
                Some(s) => Some(s@),
                None => None,
            },
        ),
{
    match setting {
        Some(s) => match parse_u16(s) {
            Some(p) => p,
            None => DEFAULT_PORT,
        },
        None => DEFAULT_PORT,
    }
}

/// The local address clients are pointed at: the loopback host followed by
/// the chosen port.
pub fn proxy_address(port: u16) -> (r: String)
    ensures
        r@ == "http://127.0.0.1:"@ + dec_chars(port as int),
{
    let mut s = "http://127.0.0.1:".to_owned();
    let digits = u64_to_dec(port as u64);
    s.append(digits.as_str());
    s
}

} // verus!
