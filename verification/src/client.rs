//! The HTTP client core: a [`Transport`] capability that performs one
//! network exchange, and a [`Client`] that owns a normalized base URL, a map
//! of default headers, and a transport.
//!
//! The client does not interpret responses: an HTTP error status is an
//! ordinary [`Response`], and only a failure to complete the exchange at all
//! is surfaced as an error value.

use vstd::prelude::*;
use vstd::string::StrSliceExecFns;
use vstd::string::StringExecFns;

use crate::string_map::StringMap;

verus! {

/// One HTTP response: a status code and the raw body. No parsing is done at
/// this layer; interpreting the body is the caller's responsibility.
#[derive(Debug)]
pub struct Response {
    pub status: u16,
    pub body: String,
}

/// The mathematical value of a [`Response`].
pub struct ResponseView {
    pub status: u16,
    pub body: Seq<char>,
}

impl View for Response {
    type V = ResponseView;

    open spec fn view(&self) -> ResponseView {
        ResponseView { status: self.status, body: self.body@ }
    }
}

/// The mathematical value of what an exchange returns: a response view on
/// success, the transport's error description on failure.
pub open spec fn result_view(r: Result<Response, String>) -> Result<ResponseView, Seq<char>> {
    match r {
        Ok(resp) => Ok(resp@),
        Err(e) => Err(e@),
    }
}

/// The mathematical value of an optional request body.
pub open spec fn opt_view(body: Option<&str>) -> Option<Seq<char>> {
    match body {
        Some(s) => Some(s@),
        None => None,
    }
}

/// The capability of performing one synchronous HTTP exchange.
///
/// An implementation describes its observable behaviour with `on_request`:
/// the response or error that sending the given method, URL, body and
/// headers yields. The contract of `request` holds the implementation to
/// that description; nothing else — timeouts, redirects, TLS — is mandated
/// here. The library itself implements no transport: the trait exists for
/// its users to implement, and what is proved through it holds of an
/// implementation as far as it meets `request`'s contract.
///
/// `on_request` is specification only and is never executed; an
/// implementation written outside verified code can supply it as an
/// unreachable stub.
pub trait Transport {
    /// What one exchange with the given ingredients returns.
    spec fn on_request(
        &self,
        method: Seq<char>,
        url: Seq<char>,
        body: Option<Seq<char>>,
        headers: Map<Seq<char>, Seq<char>>,
    ) -> Result<ResponseView, Seq<char>>;

    /// Performs exactly one network exchange and returns its status and body
    /// unmodified, or a description of why the exchange could not be
    /// completed.
    fn request(
        &self,
        method: &str,
        url: &str,
        body: Option<&str>,
        headers: &StringMap,
    ) -> (r: Result<Response, String>)
        ensures
            result_view(r) == self.on_request(method@, url@, opt_view(body), headers@),
    ;
}

/// `s` with every trailing `/` removed.
pub open spec fn strip_trailing_slashes(s: Seq<char>) -> Seq<char>
    decreases s.len(),
{
    if s.len() > 0 && s.last() == '/' {
        strip_trailing_slashes(s.drop_last())
    } else {
        s
    }
}

/// Removes every trailing `/` from `s`.
pub fn normalize_base_url(s: &str) -> (r: String)
    ensures
        r@ == strip_trailing_slashes(s@),
{
    let n = s.unicode_len();
    let mut end = n;
    proof {
        assert(s@.subrange(0, s@.len() as int) =~= s@);
    }
    while end > 0 && s.get_char(end - 1) == '/'
        invariant
            end <= n,
            n == s@.len(),
            strip_trailing_slashes(s@) == strip_trailing_slashes(s@.subrange(0, end as int)),
        decreases end,
    {
        proof {
            assert(s@.subrange(0, end as int).drop_last() =~= s@.subrange(0, end - 1));
        }
        end = end - 1;
    }
    proof {
        let t = s@.subrange(0, end as int);
        assert(strip_trailing_slashes(t) == t);
    }
    s.substring_char(0, end).to_owned()
}

/// Normalization removes exactly the trailing slashes: what remains is the
/// longest prefix of `s` not ending in `/`, and everything after it in `s`
/// is a `/`.
pub proof fn lemma_strip_trailing_slashes_exact(s: Seq<char>)
    ensures
        strip_trailing_slashes(s).len() <= s.len(),
        strip_trailing_slashes(s) == s.subrange(0, strip_trailing_slashes(s).len() as int),
        forall|i: int|
            strip_trailing_slashes(s).len() <= i < s.len() ==> #[trigger] s[i] == '/',
        strip_trailing_slashes(s).len() > 0 ==> strip_trailing_slashes(s).last() != '/',
    decreases s.len(),
{
    if s.len() > 0 && s.last() == '/' {
        lemma_strip_trailing_slashes_exact(s.drop_last());
        assert(s.drop_last().subrange(0, strip_trailing_slashes(s).len() as int) =~= s.subrange(
            0,
            strip_trailing_slashes(s).len() as int,
        ));
        assert forall|i: int|
            strip_trailing_slashes(s).len() <= i < s.len() implies #[trigger] s[i] == '/' by {
            if i < s.len() - 1 {
                assert(s.drop_last()[i] == s[i]);
            }
        }
    } else {
        assert(s.subrange(0, s.len() as int) =~= s);
    }
}

/// Normalizing an already normalized base URL changes nothing.
pub proof fn lemma_strip_trailing_slashes_idempotent(s: Seq<char>)
    ensures
        strip_trailing_slashes(strip_trailing_slashes(s)) == strip_trailing_slashes(s),
{
    lemma_strip_trailing_slashes_exact(s);
}

/// At the join of a normalized base URL and a path starting with `/`, the
/// full URL holds exactly one slash: the path's leading one.
pub proof fn lemma_single_slash_at_join(base: Seq<char>, path: Seq<char>)
    requires
        base.len() > 0 ==> base.last() != '/',
        path.len() > 0,
        path[0] == '/',
    ensures
        (base + path).len() == base.len() + path.len(),
        (base + path)[base.len() as int] == '/',
        base.len() > 0 ==> (base + path)[base.len() - 1] != '/',
{
}

/// A configured API session: a normalized base URL, the default headers sent
/// with every request, and the transport that performs the exchanges.
///
/// The base URL never ends in `/` (see [`Client::wf`]); every request's URL
/// is exactly the base URL followed by the resolved path.
pub struct Client<T: Transport> {
    pub base_url: String,
    pub headers: StringMap,
    pub transport: T,
}

impl<T: Transport> Client<T> {
    /// The construction invariant: the base URL does not end in `/`.
    pub open spec fn wf(&self) -> bool {
        self.base_url@.len() > 0 ==> self.base_url@.last() != '/'
    }

    /// Builds a client from a base URL and a transport: the base URL is
    /// normalized by stripping every trailing `/`, and the default headers
    /// start out empty.
    pub fn new(base_url: String, transport: T) -> (c: Self)
        ensures
            c.base_url@ == strip_trailing_slashes(base_url@),
            c.headers@ == Map::<Seq<char>, Seq<char>>::empty(),
            c.transport == transport,
            c.wf(),
    {
        proof {
            lemma_strip_trailing_slashes_exact(base_url@);
        }
        Client {
            base_url: normalize_base_url(base_url.as_str()),
            headers: StringMap::new(),
            transport,
        }
    }

    /// Sends one request for `base_url + path`, with the current default
    /// headers, and returns whatever the transport returns, unmodified. The
    /// caller guarantees that `path` starts with `/`; no validation and no
    /// status-code branching happens here.
    pub fn request(&self, method: &str, path: &str, body: Option<&str>) -> (r: Result<
        Response,
        String,
    >)
        requires
            path@.len() > 0,
            path@[0] == '/',
        ensures
            result_view(r) == self.transport.on_request(
                method@,
                self.base_url@ + path@,
                opt_view(body),
                self.headers@,
            ),
    {
        let url = self.base_url.clone().concat(path);
        self.transport.request(method, url.as_str(), body, &self.headers)
    }
}

/// Default headers are delivered in their most recently set form: setting a
/// key again replaces its value and touches no other key, and what
/// [`Client::request`] hands the transport is the current mapping itself —
/// so two requests issued after the same mutations carry the same headers.
pub proof fn lemma_default_header_last_write(
    m: Map<Seq<char>, Seq<char>>,
    k: Seq<char>,
    v1: Seq<char>,
    v2: Seq<char>,
)
    ensures
        m.insert(k, v1).insert(k, v2) =~= m.insert(k, v2),
        m.insert(k, v2)[k] == v2,
        m.insert(k, v2).dom().contains(k),
{
}

} // verus!
