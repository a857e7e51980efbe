//! Request descriptor mapper: derive a redacted, read-only snapshot of an
//! inbound request for attachment to telemetry events.
//!
//! The descriptor's URL is reassembled as `scheme://host path [?query]`;
//! headers flagged sensitive by the transport layer are dropped
//! unconditionally; the caller's remote address is attached only when the
//! PII-inclusion flag is set.

use vstd::prelude::*;
use vstd::string::StringExecFns;

verus! {

/// URL scheme of an inbound request.
#[derive(Clone, Copy, Debug, PartialEq, Eq, Structural)]
pub enum Scheme {
    Http,
    Https,
}

pub open spec fn spec_scheme_chars(s: Scheme) -> Seq<char> {
    match s {
        Scheme::Http => "http"@,
        Scheme::Https => "https"@,
    }
}

/// One request header, carrying the transport layer's sensitivity flag.
pub struct Header {
    pub name: String,
    pub value: String,
    pub sensitive: bool,
}

/// Mathematical view of a header.
pub struct HeaderV {
    pub name: Seq<char>,
    pub value: Seq<char>,
    pub sensitive: bool,
}

impl View for Header {
    type V = HeaderV;

    open spec fn view(&self) -> HeaderV {
        HeaderV { name: self.name@, value: self.value@, sensitive: self.sensitive }
    }
}

/// Read-only view of an inbound request, as plain values.
///
/// The host framework's request object is reduced to this form before the
/// middleware logic runs on it.
pub struct RequestInfo {
    pub method: String,
    pub scheme: Scheme,
    /// Host name, or the rendered socket address when none is known.
    pub host: String,
    pub path: String,
    pub query: Option<String>,
    /// The caller's network address, rendered.
    pub remote_addr: String,
    pub headers: Vec<Header>,
}

/// Mathematical view of a request.
#[verifier::ext_equal]
pub struct RequestInfoV {
    pub method: Seq<char>,
    pub scheme: Scheme,
    pub host: Seq<char>,
    pub path: Seq<char>,
    pub query: Option<Seq<char>>,
    pub remote_addr: Seq<char>,
    pub headers: Seq<HeaderV>,
}

impl View for RequestInfo {
    type V = RequestInfoV;

    open spec fn view(&self) -> RequestInfoV {
        RequestInfoV {
            method: self.method@,
            scheme: self.scheme,
            host: self.host@,
            path: self.path@,
            query: match self.query {
                Some(q) => Some(q@),
                None => None,
            },
            remote_addr: self.remote_addr@,
            headers: self.headers@.map_values(|h: Header| h@),
        }
    }
}

/// Derived, redacted snapshot of a request, attached to telemetry events.
#[derive(Clone, Debug, PartialEq)]
pub struct RequestDescriptor {
    /// The reassembled URL; absent when it does not parse as a URL.
    pub url: Option<String>,
    pub method: Option<String>,
    /// Header pairs, sensitive entries removed, order preserved.
    pub headers: Vec<(String, String)>,
    /// The caller's address; present only when PII inclusion is enabled.
    pub remote_addr: Option<String>,
}

/// Mathematical view of a descriptor.
#[verifier::ext_equal]
pub struct RequestDescriptorV {
    pub url: Option<Seq<char>>,
    pub method: Option<Seq<char>>,
    pub headers: Seq<(Seq<char>, Seq<char>)>,
    pub remote_addr: Option<Seq<char>>,
}

pub open spec fn spec_pairs_view(ps: Seq<(String, String)>) -> Seq<(Seq<char>, Seq<char>)> {
    ps.map_values(|p: (String, String)| (p.0@, p.1@))
}

impl View for RequestDescriptor {
    type V = RequestDescriptorV;

    open spec fn view(&self) -> RequestDescriptorV {
        RequestDescriptorV {
            url: match self.url {
                Some(u) => Some(u@),
                None => None,
            },
            method: match self.method {
                Some(m) => Some(m@),
                None => None,
            },
            headers: spec_pairs_view(self.headers@),
            remote_addr: match self.remote_addr {
                Some(a) => Some(a@),
                None => None,
            },
        }
    }
}

/// The URL string reassembled from a request's parts.
pub open spec fn spec_url_chars(r: RequestInfoV) -> Seq<char> {
    spec_scheme_chars(r.scheme) + "://"@ + r.host + r.path + match r.query {
        Some(q) => "?"@ + q,
        None => Seq::<char>::empty(),
    }
}

/// Whether the URL parser accepts `s` as an absolute URL; a function of the
/// characters alone.
pub uninterp spec fn url_parses(s: Seq<char>) -> bool;

/// Relies on `url::Url::parse`: whether a string parses as a URL depends on
/// the string alone.
#[verifier::external_body]
fn try_parse_url(s: &str) -> (r: bool)
    ensures
        r == url_parses(s@),
{
    url::Url::parse(s).is_ok()
}

/// The non-sensitive headers of `hs`, in order, reduced to name/value pairs.
pub open spec fn spec_plain_headers(hs: Seq<HeaderV>) -> Seq<(Seq<char>, Seq<char>)> {
    hs.filter(|h: HeaderV| !h.sensitive).map_values(|h: HeaderV| (h.name, h.value))
}

/// The descriptor derived from request `r` under PII policy `with_pii`.
pub open spec fn spec_descriptor(r: RequestInfoV, with_pii: bool) -> RequestDescriptorV {
    RequestDescriptorV {
        url: if url_parses(spec_url_chars(r)) {
            Some(spec_url_chars(r))
        } else {
            None
        },
        method: Some(r.method),
        headers: spec_plain_headers(r.headers),
        remote_addr: if with_pii {
            Some(r.remote_addr)
        } else {
            None
        },
    }
}

proof fn lemma_plain_headers_push(hs: Seq<HeaderV>, h: HeaderV)
    ensures
        spec_plain_headers(hs.push(h)) == if h.sensitive {
            spec_plain_headers(hs)
        } else {
            spec_plain_headers(hs).push((h.name, h.value))
        },
{
    reveal(Seq::filter);
    let pred = |x: HeaderV| !x.sensitive;
    assert(hs.push(h).drop_last() =~= hs);
    assert(hs.push(h).last() == h);
    if h.sensitive {
        assert(hs.push(h).filter(pred) == hs.filter(pred));
    } else {
        assert(hs.push(h).filter(pred) == hs.filter(pred).push(h));
        assert(hs.filter(pred).push(h).map_values(|x: HeaderV| (x.name, x.value)) =~= hs.filter(
            pred,
        ).map_values(|x: HeaderV| (x.name, x.value)).push((h.name, h.value)));
    }
}

/// Build the redacted request descriptor from an inbound request.
///
/// The URL is reassembled from scheme, host, path and query and kept only if
/// it parses; sensitive headers are dropped regardless of the PII flag; the
/// remote address is attached exactly when `with_pii` is set.
pub fn sentry_request_from_http(request: &RequestInfo, with_pii: bool) -> (r: RequestDescriptor)
    ensures
        r@ == spec_descriptor(request@, with_pii),
{
    let mut url = scheme_str(request.scheme).to_owned();
    url.append("://");
    url.append(request.host.as_str());
    url.append(request.path.as_str());
    match &request.query {
        Some(q) => {
            url.append("?");
            url.append(q.as_str());
        },
        None => {},
    }
    proof {
        assert(url@ =~= spec_url_chars(request@));
    }

    let mut headers: Vec<(String, String)> = Vec::new();
    let n = request.headers.len();
    let mut i: usize = 0;
    while i < n
        invariant
            n == request.headers.len(),
            i <= n,
            spec_pairs_view(headers@) == spec_plain_headers(request@.headers.take(i as int)),
        decreases n - i,
    {
        let h = &request.headers[i];
        proof {
            assert(request@.headers.take(i + 1).drop_last() =~= request@.headers.take(i as int));
            assert(request@.headers.take(i + 1) =~= request@.headers.take(i as int).push(
                request@.headers[i as int],
            ));
            lemma_plain_headers_push(request@.headers.take(i as int), request@.headers[i as int]);
        }
        if !h.sensitive {
            let name = h.name.clone();
            let value = h.value.clone();
            headers.push((name, value));
            proof {
                assert(spec_pairs_view(headers@) =~= spec_plain_headers(
                    request@.headers.take(i + 1),
                ));
            }
        }
        i = i + 1;
    }
    proof {
        assert(request@.headers.take(n as int) =~= request@.headers);
    }

    let parses = try_parse_url(url.as_str());
    let url_field = if parses {
        Some(url)
    } else {
        None
    };

    let method = Some(request.method.clone());

    let remote_addr = if with_pii {
        Some(request.remote_addr.clone())
    } else {
        None
    };

    let r = RequestDescriptor { url: url_field, method, headers, remote_addr };
    proof {
        assert(r@ =~= spec_descriptor(request@, with_pii));
    }
    r
}

fn scheme_str(s: Scheme) -> (r: &'static str)
    ensures
        r@ == spec_scheme_chars(s),
{
    match s {
        Scheme::Http => "http",
        Scheme::Https => "https",
    }
}

/// Header redaction: a request whose header set holds one flagged-sensitive
/// entry and one ordinary entry yields a descriptor whose header collection
/// holds only the ordinary entry.
pub proof fn lemma_header_redaction(r: RequestInfoV, with_pii: bool, i: int, j: int)
    requires
        r.headers.len() == 2,
        0 <= i < 2,
        0 <= j < 2,
        i != j,
        r.headers[i].sensitive,
        !r.headers[j].sensitive,
    ensures
        spec_descriptor(r, with_pii).headers == seq![(r.headers[j].name, r.headers[j].value)],
{
    let h0 = r.headers[0];
    let h1 = r.headers[1];
    assert(r.headers =~= seq![h0, h1]);
    assert(seq![h0, h1].drop_last() =~= seq![h0]);
    assert(seq![h0].drop_last() =~= Seq::<HeaderV>::empty());
    reveal_with_fuel(Seq::filter, 3);
    let pred = |x: HeaderV| !x.sensitive;
    if i == 0 {
        assert(r.headers.filter(pred) =~= seq![h1]);
        assert(spec_plain_headers(r.headers) =~= seq![(h1.name, h1.value)]);
    } else {
        assert(r.headers.filter(pred) =~= seq![h0]);
        assert(spec_plain_headers(r.headers) =~= seq![(h0.name, h0.value)]);
    }
}

/// PII gating: with PII disabled the descriptor never carries a
/// remote-address field; with PII enabled it equals the request's address.
pub proof fn lemma_pii_gating(r: RequestInfoV)
    ensures
        spec_descriptor(r, false).remote_addr is None,
        spec_descriptor(r, true).remote_addr == Some(r.remote_addr),
{
}

} // verus!
