//! HTTP request methods as plain values.

use vstd::prelude::*;

verus! {

/// An HTTP request method.
#[derive(Clone, PartialEq, Eq, Debug)]
pub enum Method {
    /// The OPTIONS method.
    Options,
    /// The GET method.
    Get,
    /// The POST method.
    Post,
    /// The PUT method.
    Put,
    /// The DELETE method.
    Delete,
    /// The HEAD method.
    Head,
    /// The TRACE method.
    Trace,
    /// The CONNECT method.
    Connect,
    /// The PATCH method.
    Patch,
    /// A nonstandard method, given by its name.
    Extension(String),
}

impl Method {
    /// The method's name as it appears on the wire.
    pub open spec fn spec_name(self) -> Seq<char> {
        match self {
            Method::Options => "OPTIONS"@,
            Method::Get => "GET"@,
            Method::Post => "POST"@,
            Method::Put => "PUT"@,
            Method::Delete => "DELETE"@,
            Method::Head => "HEAD"@,
            Method::Trace => "TRACE"@,
            Method::Connect => "CONNECT"@,
            Method::Patch => "PATCH"@,
            Method::Extension(s) => s@,
        }
    }

    /// The method's name as it appears on the wire, as a runtime value.
    pub fn name(&self) -> (r: String)
        ensures
            r@ == self.spec_name(),
    {
        match self {
            Method::Options => "OPTIONS".to_owned(),
            Method::Get => "GET".to_owned(),
            Method::Post => "POST".to_owned(),
            Method::Put => "PUT".to_owned(),
            Method::Delete => "DELETE".to_owned(),
            Method::Head => "HEAD".to_owned(),
            Method::Trace => "TRACE".to_owned(),
            Method::Connect => "CONNECT".to_owned(),
            Method::Patch => "PATCH".to_owned(),
            Method::Extension(s) => s.clone(),
        }
    }
}

} // verus!
