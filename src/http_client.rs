//! The header state of one resolution's HTTP session.
//!
//! Headers are accumulated in order, one value per name; the requests
//! themselves are made by the caller with these headers.
use vstd::prelude::*;

use crate::error::{LsarError, LsarResult};
use crate::query::{insert_spec, lookup, Pairs, QueryMap};
use crate::trusted::{header_value_ok, header_value_valid};

verus! {

/// The user agent every session starts with.
pub const DEFAULT_USER_AGENT: &'static str = "Mozilla/5.0 (Macintosh; Intel Mac OS X 10_15_7) AppleWebKit/537.36 (KHTML, like Gecko) Chrome/109.0.0.0 Safari/537.36";

/// The name of the user-agent header.
pub const USER_AGENT: &'static str = "user-agent";

/// The name of the cookie header.
pub const COOKIE: &'static str = "cookie";

/// The name of the header that asks for an upgrade to HTTPS.
pub const UPGRADE_INSECURE_REQUESTS: &'static str = "upgrade-insecure-requests";

/// The body type of a request passed through for the user interface.
#[derive(Debug, Clone, Copy, PartialEq, Eq, Structural)]
pub enum PostContentType {
    Json,
    Form,
}

impl PostContentType {
    pub open spec fn header_value(self) -> Seq<char> {
        match self {
            PostContentType::Json => "application/json"@,
            PostContentType::Form => "application/x-www-form-urlencoded"@,
        }
    }

    /// The `Content-Type` header value of the body type.
    pub fn as_header_value(&self) -> (r: &'static str)
        ensures
            r@ == self.header_value(),
    {
        match self {
            PostContentType::Json => "application/json",
            PostContentType::Form => "application/x-www-form-urlencoded",
        }
    }
}

/// The headers of one session, one value per name.
pub struct HttpClient {
    pub headers: QueryMap,
}

impl View for HttpClient {
    type V = Pairs;

    open spec fn view(&self) -> Pairs {
        self.headers@
    }
}

impl HttpClient {
    pub fn new() -> (r: HttpClient)
        ensures
            r@ == seq![(USER_AGENT@, DEFAULT_USER_AGENT@)],
            r.headers.wf(),
    {
        let mut headers = QueryMap::new();
        headers.insert(USER_AGENT, String::from_str(DEFAULT_USER_AGENT));
        let r = HttpClient { headers };
        assert(r@ =~= seq![(USER_AGENT@, DEFAULT_USER_AGENT@)]);
        r
    }

    /// Sets the header `name` to `value`, replacing an earlier value. A value
    /// with a character that a header cannot carry is refused, and nothing
    /// changes.
    pub fn insert_header(&mut self, name: &str, value: &str) -> (r: LsarResult<()>)
        ensures
            header_value_ok(value@) ==> r is Ok && final(self)@ == insert_spec(
                old(self)@,
                name@,
                value@,
            ),
            old(self).headers.wf() ==> final(self).headers.wf(),
            !header_value_ok(value@) ==> (r matches Err(LsarError::Other(m)) && m@
                == "failed to parse header value"@) && final(self)@ == old(self)@,
    {
        if !header_value_valid(value) {
            return Err(LsarError::other("failed to parse header value"));
        }
        self.headers.insert(name, String::from_str(value));
        Ok(())
    }

    /// The value of the header `name`.
    pub fn header(&self, name: &str) -> (r: Option<&String>)
        ensures
            match r {
                Some(v) => lookup(self@, name@) == Some(v@),
                None => lookup(self@, name@) is None,
            },
    {
        self.headers.get(name)
    }
}

} // verus!
