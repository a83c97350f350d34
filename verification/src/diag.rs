//! Diagnostic output: bounded body previews and header log lines with
//! credential values redacted. These functions produce the exact bytes a log
//! sink may write; nothing else of a request or response is ever logged.

use vstd::prelude::*;
use vstd::string::StringSliceAdditionalSpecFns;
use vstd::utf8::encode_utf8;

use crate::bytestr::{append_bytes, contains_bytes, eq_ignore_ascii_case, eq_ignore_case};
use crate::headers::Header;
use crate::numeric::{dec_chars, usize_to_dec};

verus! {

/// A body preview shows at most this many leading bytes.
pub const BODY_PREVIEW_LIMIT: usize = 500;

/// A preview of a body: the whole body when short, else its first 500 bytes
/// followed by a note with the total byte count.
pub open spec fn spec_body_preview(b: Seq<u8>) -> Seq<u8> {
    if b.len() <= BODY_PREVIEW_LIMIT {
        b
    } else {
        b.take(BODY_PREVIEW_LIMIT as int) + encode_utf8("... ("@) + encode_utf8(
            dec_chars(b.len() as int),
        ) + encode_utf8(" bytes total)"@)
    }
}

/// Render the bounded preview of a body.
pub fn body_preview(b: &Vec<u8>) -> (r: Vec<u8>)
    ensures
        r@ == spec_body_preview(b@),
{
    let mut out: Vec<u8> = Vec::new();
    if b.len() <= BODY_PREVIEW_LIMIT {
        append_bytes(&mut out, b.as_slice());
        assert(out@ =~= b@);
    } else {
        append_bytes(&mut out, &b.as_slice()[0..BODY_PREVIEW_LIMIT]);
        append_bytes(&mut out, "... (".as_bytes());
        let count = usize_to_dec(b.len());
        append_bytes(&mut out, count.as_str().as_bytes());
        append_bytes(&mut out, " bytes total)".as_bytes());
    }
    out
}

/// A header whose value is a credential and must never be logged in
/// plaintext: the Authorization header or the provider API-key header.
pub open spec fn spec_is_sensitive(name: Seq<u8>) -> bool {
    ||| eq_ignore_case(name, "authorization".spec_bytes())
    ||| eq_ignore_case(name, "x-api-key".spec_bytes())
}

/// Is this header's value a credential?
pub fn is_sensitive(name: &[u8]) -> (r: bool)
    ensures
        r == spec_is_sensitive(name@),
{
    eq_ignore_ascii_case(name, "authorization".as_bytes()) || eq_ignore_ascii_case(
        name,
        "x-api-key".as_bytes(),
    )
}

/// The log line for one header: its name and its value, except that a
/// sensitive header's value is replaced by a fixed redaction marker.
pub open spec fn spec_header_log_line(label: Seq<char>, name: Seq<u8>, value: Seq<u8>) -> Seq<u8> {
    encode_utf8(label) + encode_utf8(" header: "@) + name + encode_utf8(" = "@) + (
    if spec_is_sensitive(name) {
        encode_utf8("[REDACTED]"@)
    } else {
        value
    })
}

/// Render the log line for one header.
pub fn header_log_line(label: &str, h: &Header) -> (r: Vec<u8>)
    ensures
        r@ == spec_header_log_line(label@, h.name@, h.value@),
{
    let mut out: Vec<u8> = Vec::new();
    append_bytes(&mut out, label.as_bytes());
    append_bytes(&mut out, " header: ".as_bytes());
    append_bytes(&mut out, h.name.as_slice());
    append_bytes(&mut out, " = ".as_bytes());
    if is_sensitive(h.name.as_slice()) {
        append_bytes(&mut out, "[REDACTED]".as_bytes());
    } else {
        append_bytes(&mut out, h.value.as_slice());
    }
    out
}

/// Credential redaction: the log line for a sensitive header is one fixed
/// text whatever the header's value, so no Authorization or API-key value
/// ever reaches the log.
pub proof fn law_sensitive_value_never_logged(
    label: Seq<char>,
    name: Seq<u8>,
    v1: Seq<u8>,
    v2: Seq<u8>,
)
    requires
        spec_is_sensitive(name),
    ensures
        spec_header_log_line(label, name, v1) == spec_header_log_line(label, name, v2),
{
}

} // verus!
