//! Header sets: lookup (case-insensitive names), sanitation of the outbound
//! request (the inbound `Host` header is never forwarded), and translation of
//! upstream response headers into the outward protocol's header encoding.

use vstd::prelude::*;
use vstd::string::StringSliceAdditionalSpecFns;

use crate::bytestr::{eq_ignore_ascii_case, eq_ignore_case, lower};

verus! {

/// One header line: a name and a value, both byte sequences as they appear on
/// the wire.
#[derive(Debug)]
pub struct Header {
    pub name: Vec<u8>,
    pub value: Vec<u8>,
}

impl View for Header {
    type V = (Seq<u8>, Seq<u8>);

    open spec fn view(&self) -> (Seq<u8>, Seq<u8>) {
        (self.name@, self.value@)
    }
}

impl Header {
    /// Build a header line from its two parts.
    pub fn new(name: Vec<u8>, value: Vec<u8>) -> (h: Header)
        ensures
            h.name@ == name@,
            h.value@ == value@,
    {
        Header { name, value }
    }
}

/// The name/value views of every entry, in order.
pub open spec fn header_views(hs: Seq<Header>) -> Seq<(Seq<u8>, Seq<u8>)> {
    hs.map_values(|h: Header| h@)
}

/// Some entry's name equals `name` up to ASCII case.
pub open spec fn spec_has_header(hs: Seq<Header>, name: Seq<u8>) -> bool {
    exists|i: int| 0 <= i < hs.len() && eq_ignore_case(hs[i].name@, name)
}

/// The value of the first entry whose name equals `name` up to ASCII case.
pub open spec fn spec_first_value(hs: Seq<Header>, name: Seq<u8>) -> Option<Seq<u8>>
    decreases hs.len(),
{
    if hs.len() == 0 {
        None
    } else if eq_ignore_case(hs[0].name@, name) {
        Some(hs[0].value@)
    } else {
        spec_first_value(hs.drop_first(), name)
    }
}

/// Is some entry named `name` (up to ASCII case) present?
pub fn has_header(hs: &Vec<Header>, name: &[u8]) -> (r: bool)
    ensures
        r == spec_has_header(hs@, name@),
{
    let n = hs.len();
    let mut i: usize = 0;
    while i < n
        invariant
            n == hs@.len(),
            i <= n,
            forall|j: int| 0 <= j < i ==> !eq_ignore_case(hs@[j].name@, name@),
        decreases n - i,
    {
        if eq_ignore_ascii_case(hs[i].name.as_slice(), name) {
            return true;
        }
        i += 1;
    }
    false
}

proof fn lemma_first_value_skip(hs: Seq<Header>, name: Seq<u8>, i: int)
    requires
        0 <= i <= hs.len(),
        forall|j: int| 0 <= j < i ==> !eq_ignore_case(hs[j].name@, name),
    ensures
        spec_first_value(hs, name) == spec_first_value(hs.skip(i), name),
    decreases i,
{
    if i > 0 {
        assert(hs.skip(i) =~= hs.drop_first().skip(i - 1));
        lemma_first_value_skip(hs.drop_first(), name, i - 1);
    } else {
        assert(hs.skip(0) =~= hs);
    }
}

/// The value of the first entry named `name` (up to ASCII case), if any.
pub fn first_header_value<'a>(hs: &'a Vec<Header>, name: &[u8]) -> (r: Option<&'a Vec<u8>>)
    ensures
        match r {
            Some(v) => spec_first_value(hs@, name@) == Some(v@),
            None => spec_first_value(hs@, name@) is None,
        },
{
    let n = hs.len();
    let mut i: usize = 0;
    while i < n
        invariant
            n == hs@.len(),
            i <= n,
            forall|j: int| 0 <= j < i ==> !eq_ignore_case(hs@[j].name@, name@),
        decreases n - i,
    {
        if eq_ignore_ascii_case(hs[i].name.as_slice(), name) {
            proof {
                lemma_first_value_skip(hs@, name@, i as int);
                assert(hs@.skip(i as int)[0] == hs@[i as int]);
            }
            return Some(&hs[i].value);
        }
        i += 1;
    }
    proof {
        lemma_first_value_skip(hs@, name@, n as int);
        assert(hs@.skip(n as int) =~= Seq::<Header>::empty());
    }
    None
}

/// An entry the outbound sanitizer must drop: the inbound `Host` header.
pub open spec fn spec_is_host(h: Header) -> bool {
    eq_ignore_case(h.name@, "host".spec_bytes())
}

/// The header set forwarded upstream: every inbound entry, in order, except
/// any named `Host`.
pub open spec fn spec_sanitized(hs: Seq<Header>) -> Seq<Header> {
    hs.filter(|h: Header| !spec_is_host(h))
}

/// No entry of a sanitized header set is a `Host` header: what the sanitizer
/// produces — and so what the outbound request carries — never contains one.
pub proof fn law_host_never_forwarded(hs: Seq<Header>, i: int)
    requires
        0 <= i < spec_sanitized(hs).len(),
    ensures
        !spec_is_host(spec_sanitized(hs)[i]),
{
    hs.lemma_filter_pred(|h: Header| !spec_is_host(h), i);
}

/// Drop every `Host` entry (case-insensitive) and keep the rest in order.
pub fn sanitize_headers(hs: Vec<Header>) -> (r: Vec<Header>)
    ensures
        r@ == spec_sanitized(hs@),
{
    let ghost orig: Seq<Header> = hs@;
    let mut rest = hs;
    let mut out: Vec<Header> = Vec::new();
    let ghost mut done: int = 0;
    while rest.len() > 0
        invariant
            0 <= done <= orig.len(),
            rest@ =~= orig.skip(done),
            out@ == orig.take(done).filter(|h: Header| !spec_is_host(h)),
        decreases rest@.len(),
    {
        let h = rest.remove(0);
        assert(h == orig[done]);
        if !eq_ignore_ascii_case(h.name.as_slice(), "host".as_bytes()) {
            out.push(h);
        }
        proof {
            assert(orig.take(done + 1) =~= orig.take(done).push(orig[done]));
            orig.take(done).lemma_filter_push(orig[done], |h: Header| !spec_is_host(h));
            done = done + 1;
        }
    }
    proof {
        assert(orig.take(orig.len() as int) =~= orig);
    }
    out
}

} // verus!
