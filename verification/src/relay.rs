//! Response relay: decide between streaming and buffered mode from the
//! upstream content type, translate upstream headers into the outward
//! protocol's encoding, and pass body bytes through unchanged.

use vstd::prelude::*;
use vstd::string::StringSliceAdditionalSpecFns;

use crate::bytestr::{contains_bytes, contains_seq, lower};
use crate::headers::{
    first_header_value, header_views, spec_first_value, Header,
};

verus! {

/// A byte accepted in an outward header name: the token characters of the
/// outward encoding, with ASCII letters in either case.
pub open spec fn valid_name_byte(b: u8) -> bool {
    ||| b == 33  // '!'
    ||| 35 <= b <= 39  // '#' '$' '%' '&' '\''
    ||| b == 42 || b == 43 || b == 45 || b == 46  // '*' '+' '-' '.'
    ||| 48 <= b <= 57  // '0'..='9'
    ||| 65 <= b <= 90  // 'A'..='Z', normalized to lowercase
    ||| 94 <= b <= 122  // '^' '_' '`' 'a'..='z'
    ||| b == 124 || b == 126  // '|' '~'
}

/// A name the outward encoding can represent: non-empty, bounded, token
/// bytes only.
pub open spec fn spec_valid_header_name(s: Seq<u8>) -> bool {
    &&& 1 <= s.len() <= 65535
    &&& forall|i: int| 0 <= i < s.len() ==> valid_name_byte(s[i])
}

/// A byte accepted in an outward header value: anything but a control byte,
/// except horizontal tab.
pub open spec fn valid_value_byte(b: u8) -> bool {
    b == 9 || (b >= 32 && b != 127)
}

/// A value the outward encoding can represent.
pub open spec fn spec_valid_header_value(s: Seq<u8>) -> bool {
    forall|i: int| 0 <= i < s.len() ==> valid_value_byte(s[i])
}

/// Relies on `http::header::HeaderName::from_bytes`: it accepts exactly the
/// non-empty sequences of at most 65535 token bytes (its `HEADER_CHARS`
/// table), normalizing ASCII uppercase to lowercase, and `as_str` returns
/// the normalized name.
#[verifier::external_body]
fn canonical_header_name(b: &Vec<u8>) -> (r: Option<Vec<u8>>)
    ensures
        r is Some <==> spec_valid_header_name(b@),
        r matches Some(v) ==> v@ == lower(b@),
{
    match http::header::HeaderName::from_bytes(b.as_slice()) {
        Ok(n) => Some(n.as_str().as_bytes().to_vec()),
        Err(_) => None,
    }
}

/// Relies on `http::header::HeaderValue::from_bytes`: it accepts exactly the
/// sequences whose every byte is 32..=255 except 127, or horizontal tab.
#[verifier::external_body]
fn header_value_representable(b: &Vec<u8>) -> (r: bool)
    ensures
        r == spec_valid_header_value(b@),
{
    http::header::HeaderValue::from_bytes(b.as_slice()).is_ok()
}

/// A header the outward encoding can carry.
pub open spec fn spec_representable(p: (Seq<u8>, Seq<u8>)) -> bool {
    spec_valid_header_name(p.0) && spec_valid_header_value(p.1)
}

/// The outward translation of an upstream header set: every representable
/// entry, in order, with its name normalized to lowercase; entries the
/// encoding cannot carry are silently dropped.
pub open spec fn spec_translated(pairs: Seq<(Seq<u8>, Seq<u8>)>) -> Seq<(Seq<u8>, Seq<u8>)> {
    pairs.filter(|p: (Seq<u8>, Seq<u8>)| spec_representable(p)).map_values(
        |p: (Seq<u8>, Seq<u8>)| (lower(p.0), p.1),
    )
}

/// Translate upstream response headers to the outward header set.
pub fn translate_headers(hs: Vec<Header>) -> (r: Vec<Header>)
    ensures
        header_views(r@) == spec_translated(header_views(hs@)),
{
    let ghost orig: Seq<Header> = hs@;
    let mut rest = hs;
    let mut out: Vec<Header> = Vec::new();
    let ghost mut done: int = 0;
    while rest.len() > 0
        invariant
            0 <= done <= orig.len(),
            rest@ =~= orig.skip(done),
            header_views(out@) == spec_translated(header_views(orig.take(done))),
        decreases rest@.len(),
    {
        let h = rest.remove(0);
        assert(h == orig[done]);
        let ghost p: (Seq<u8>, Seq<u8>) = h@;
        match canonical_header_name(&h.name) {
            Some(canonical) => {
                if header_value_representable(&h.value) {
                    assert(spec_representable(p));
                    out.push(Header { name: canonical, value: h.value });
                } else {
                    assert(!spec_representable(p));
                }
            },
            None => {
                assert(!spec_representable(p));
            },
        }
        proof {
            assert(header_views(orig.take(done + 1)) =~= header_views(orig.take(done)).push(p));
            header_views(orig.take(done)).lemma_filter_push(
                p,
                |q: (Seq<u8>, Seq<u8>)| spec_representable(q),
            );
            if spec_representable(p) {
                assert(header_views(out@) =~= spec_translated(header_views(orig.take(done))).push(
                    (lower(p.0), p.1),
                ));
                assert(spec_translated(header_views(orig.take(done + 1)))
                    =~= spec_translated(header_views(orig.take(done))).push((lower(p.0), p.1)));
            } else {
                assert(spec_translated(header_views(orig.take(done + 1))) =~= spec_translated(
                    header_views(orig.take(done)),
                ));
            }
            done = done + 1;
        }
    }
    proof {
        assert(orig.take(orig.len() as int) =~= orig);
    }
    out
}

/// The upstream response calls for streaming mode: its first content-type
/// value contains the event-stream media type token.
pub open spec fn spec_is_event_stream(hs: Seq<Header>) -> bool {
    match spec_first_value(hs, "content-type".spec_bytes()) {
        Some(v) => contains_seq(v, "text/event-stream".spec_bytes()),
        None => false,
    }
}

/// Decide streaming versus buffered mode from the upstream header set.
pub fn is_event_stream(headers: &Vec<Header>) -> (r: bool)
    ensures
        r == spec_is_event_stream(headers@),
{
    match first_header_value(headers, "content-type".as_bytes()) {
        Some(v) => contains_bytes(v.as_slice(), "text/event-stream".as_bytes()),
        None => false,
    }
}

/// How an upstream response head is relayed outward: the status passes
/// through unchanged, the headers are translated, and the mode is decided by
/// the content type.
pub struct RelayPlan {
    pub status: u16,
    pub streaming: bool,
    pub headers: Vec<Header>,
}

/// Inspect an upstream response head and plan the relay.
pub fn plan_relay(status: u16, upstream_headers: Vec<Header>) -> (p: RelayPlan)
    ensures
        p.status == status,
        p.streaming == spec_is_event_stream(upstream_headers@),
        header_views(p.headers@) == spec_translated(header_views(upstream_headers@)),
{
    let streaming = is_event_stream(&upstream_headers);
    RelayPlan { status, streaming, headers: translate_headers(upstream_headers) }
}

/// A complete outward response: status, translated headers, body bytes.
#[derive(Debug)]
pub struct OutwardResponse {
    pub status: u16,
    pub headers: Vec<Header>,
    pub body: Vec<u8>,
}

/// Buffered mode: once the upstream body has been read to completion, the
/// outward response carries the planned status and headers and exactly the
/// upstream body bytes.
pub fn buffered_response(plan: RelayPlan, body: Vec<u8>) -> (r: OutwardResponse)
    ensures
        r.status == plan.status,
        r.headers@ == plan.headers@,
        r.body@ == body@,
{
    OutwardResponse { status: plan.status, headers: plan.headers, body }
}

/// `n`, saturated to 64 bits.
pub open spec fn clamp_u64(n: int) -> u64 {
    if n > u64::MAX {
        u64::MAX as u64
    } else if n < 0 {
        0u64
    } else {
        n as u64
    }
}

/// Streaming mode: upstream bytes pass to the caller chunk by chunk,
/// unchanged and in order, without buffering the whole body. `relayed`
/// records exactly the bytes handed to the caller so far; `total` counts
/// them, saturating, for progress reporting.
pub struct StreamRelay {
    pub total: u64,
    pub relayed: Ghost<Seq<u8>>,
}

impl StreamRelay {
    /// The byte counter agrees with the bytes relayed.
    pub open spec fn wf(self) -> bool {
        self.total == clamp_u64(self.relayed@.len() as int)
    }

    /// Start relaying a fresh stream.
    pub fn new() -> (r: StreamRelay)
        ensures
            r.relayed@ == Seq::<u8>::empty(),
            r.total == 0,
            r.wf(),
    {
        StreamRelay { total: 0, relayed: Ghost(Seq::empty()) }
    }

    /// Streaming round-trip: relaying a whole stream chunk by chunk hands the
    /// caller exactly the bytes upstream produced — chunk for chunk, in
    /// order, nothing dropped and nothing duplicated.
    pub fn relay_all(chunks: Vec<Vec<u8>>) -> (out: Vec<Vec<u8>>)
        ensures
            out@.len() == chunks@.len(),
            forall|i: int| 0 <= i < chunks@.len() ==> out@[i]@ == chunks@[i]@,
    {
        let ghost orig: Seq<Vec<u8>> = chunks@;
        let mut rest = chunks;
        let mut relay = StreamRelay::new();
        let mut out: Vec<Vec<u8>> = Vec::new();
        while rest.len() > 0
            invariant
                relay.wf(),
                out@.len() + rest@.len() == orig.len(),
                rest@ =~= orig.skip(out@.len() as int),
                forall|i: int| 0 <= i < out@.len() ==> out@[i]@ == orig[i]@,
            decreases rest@.len(),
        {
            let chunk = rest.remove(0);
            assert(chunk == orig[out@.len() as int]);
            let piece = relay.on_chunk(chunk);
            out.push(piece);
        }
        out
    }

    /// Relay one upstream chunk: the caller receives exactly these bytes, and
    /// the stream's record grows by them. Nothing is dropped, duplicated or
    /// reordered.
    pub fn on_chunk(&mut self, chunk: Vec<u8>) -> (out: Vec<u8>)
        requires
            old(self).wf(),
        ensures
            out@ == chunk@,
            final(self).relayed@ == old(self).relayed@ + chunk@,
            final(self).total == clamp_u64(final(self).relayed@.len() as int),
            final(self).wf(),
    {
        let len: u64 = chunk.len() as u64;
        proof {
            self.relayed@ = self.relayed@ + chunk@;
        }
        if len > u64::MAX - self.total {
            self.total = u64::MAX;
        } else {
            self.total = self.total + len;
        }
        chunk
    }
}

} // verus!
