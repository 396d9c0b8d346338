//! The request builder: assembles a framework-shaped mock request value —
//! fixed default headers and addresses, an EOF-delimited body reader — from
//! a method, a URL, and a mock stream supplying the body bytes.

use vstd::prelude::*;
use crate::addr::{SockAddr, spec_request_addr, request_addr_value};
use crate::headers::{Headers, lower_name};
use crate::method::Method;
use crate::stream::MockStream;

verus! {

/// A parsed URL of the `url` crate, carried through the request untouched.
/// Relies on `url::Url` only as an opaque value: nothing of its content is
/// assumed.
#[verifier::external_type_specification]
#[verifier::external_body]
pub struct ExUrl(url::Url);

/// Value of the pre-populated `Host` header: the fixed base host and port.
pub open spec fn spec_default_host() -> Seq<char> {
    "127.0.0.1:3000"@
}

/// Host-name component of the fixed base address.
pub open spec fn spec_default_hostname() -> Seq<char> {
    "127.0.0.1"@
}

/// Port component of the fixed base address.
pub open spec fn spec_default_port() -> u16 {
    3000
}

/// Value of the pre-populated `User-Agent` header.
pub open spec fn spec_default_user_agent() -> Seq<char> {
    "iron-test"@
}

/// Host-name component of the fixed base address, as a runtime value.
pub fn default_hostname() -> (r: String)
    ensures
        r@ == spec_default_hostname(),
{
    "127.0.0.1".to_owned()
}

/// Port component of the fixed base address, as a runtime value.
pub fn default_port() -> (r: u16)
    ensures
        r == spec_default_port(),
{
    3000
}

/// Value of the pre-populated `User-Agent` header, as a runtime value.
pub fn default_user_agent() -> (r: String)
    ensures
        r@ == spec_default_user_agent(),
{
    "iron-test".to_owned()
}

/// An EOF-delimited body reader: yields the unread remainder of the mock
/// stream it was built over, in order, once only — once drained it stays
/// empty. Its view is the sequence of bytes still to be yielded.
pub struct Body {
    stream: MockStream,
}

impl View for Body {
    type V = Seq<u8>;

    closed spec fn view(&self) -> Seq<u8> {
        self.stream@.remaining()
    }
}

impl Body {
    /// Wrap a stream: the body is the stream's remaining unread content, up
    /// to end of content — no length-based framing is applied.
    pub fn new(stream: MockStream) -> (b: Body)
        ensures
            b@ == stream@.remaining(),
    {
        Body { stream }
    }

    /// Copy up to `buf.len()` of the body's next bytes into the front of
    /// `buf`, consuming them; returns the count copied (0 once the body is
    /// exhausted). Bytes of `buf` past that count keep their old values.
    pub fn read(&mut self, buf: &mut Vec<u8>) -> (n: usize)
        ensures
            n == vstd::math::min(old(buf)@.len() as int, old(self)@.len() as int),
            final(self)@ == old(self)@.skip(n as int),
            final(buf)@.len() == old(buf)@.len(),
            forall|j: int| 0 <= j < n ==> final(buf)@[j] == old(self)@[j],
            forall|j: int| n <= j < old(buf)@.len() ==> final(buf)@[j] == old(buf)@[j],
    {
        self.stream.read(buf)
    }

    /// Drain the body: returns every byte it still held, in order, and
    /// leaves it empty.
    pub fn read_to_end(&mut self) -> (r: Vec<u8>)
        ensures
            r@ == old(self)@,
            final(self)@ == Seq::<u8>::empty(),
    {
        self.stream.read_to_end()
    }
}

/// A mock request: shaped like the value the framework would construct from
/// a real accepted connection, with fixed default headers and addresses.
pub struct MockRequest {
    /// The HTTP method.
    pub method: Method,
    /// The parsed target URL, exactly as the caller supplied it.
    pub url: url::Url,
    /// The header collection, with `Host` and `User-Agent` pre-populated.
    pub headers: Headers,
    /// EOF-delimited reader over the mock stream's remaining unread bytes.
    pub body: Body,
    /// The fixed local loopback address.
    pub local_addr: SockAddr,
    /// The fixed remote loopback address.
    pub remote_addr: SockAddr,
}

/// Create a new mock request with the given method, URL, and body stream.
///
/// The body yields exactly the stream's remaining unread bytes; the headers
/// hold exactly the fixed `Host` and `User-Agent` defaults, whatever the
/// method, URL, and body are; both addresses are the fixed loopback
/// endpoint. Callers needing more headers mutate the result afterwards.
pub fn new(method: Method, url: url::Url, stream: MockStream) -> (req: MockRequest)
    ensures
        req.method == method,
        req.url == url,
        req.body@ == stream@.remaining(),
        req.local_addr == spec_request_addr(),
        req.remote_addr == spec_request_addr(),
        req.headers@ == Map::<Seq<char>, Seq<char>>::empty().insert(
            lower_name("Host"@),
            spec_default_host(),
        ).insert(lower_name("User-Agent"@), spec_default_user_agent()),
        req.headers@.contains_key(lower_name("Host"@)),
        req.headers@[lower_name("Host"@)] == spec_default_host(),
        req.headers@.contains_key(lower_name("User-Agent"@)),
        req.headers@[lower_name("User-Agent"@)] == spec_default_user_agent(),
{
    let mut headers = Headers::new();
    headers.set("Host", "127.0.0.1:3000".to_owned());
    headers.set("User-Agent", "iron-test".to_owned());
    proof {
        reveal_strlit("Host");
        reveal_strlit("User-Agent");
        assert(lower_name("Host"@).len() != lower_name("User-Agent"@).len());
    }
    let addr: SockAddr = request_addr_value();
    MockRequest {
        method,
        url,
        headers,
        body: Body::new(stream),
        local_addr: addr,
        remote_addr: addr,
    }
}

} // verus!
