//! The remote services the bot talks to, each reduced to what it decides:
//! which requests to make and what to conclude from the answers.

pub mod discourse;
pub mod github;
pub mod slack;

use vstd::prelude::*;

verus! {

/// The name every request announces itself with.
pub const USER_AGENT_VALUE: &'static str = "pingbot";

/// The name of the header that carries [`USER_AGENT_VALUE`].
pub const USER_AGENT: &'static str = "user-agent";

/// The name of the header that carries the token.
pub const AUTHORIZATION: &'static str = "authorization";

/// The name of the header that tells the media type of the body.
pub const CONTENT_TYPE: &'static str = "content-type";

/// The name of the header that tells which media type is asked for.
pub const ACCEPT: &'static str = "Accept";

/// One HTTP header.
#[derive(Debug)]
pub struct Header {
    pub key: String,
    pub value: String,
}

impl View for Header {
    type V = (Seq<char>, Seq<char>);

    open spec fn view(&self) -> (Seq<char>, Seq<char>) {
        (self.key@, self.value@)
    }
}

/// The headers of `headers` as pairs of name and value.
pub open spec fn header_views(headers: Seq<Header>) -> Seq<(Seq<char>, Seq<char>)> {
    headers.map_values(|h: Header| h@)
}

/// The two HTTP methods the bot uses.
#[derive(Clone, Copy, Debug, PartialEq, Eq, Structural)]
pub enum Method {
    Get,
    Post,
}

/// A request for the transport to carry out: nothing in it is left to decide.
#[derive(Debug)]
pub struct Request {
    pub method: Method,
    pub url: String,
    pub headers: Vec<Header>,
    pub body: Option<String>,
}

/// What a [`Request`] says, as plain text.
pub struct RequestView {
    pub method: Method,
    pub url: Seq<char>,
    pub headers: Seq<(Seq<char>, Seq<char>)>,
    pub body: Option<Seq<char>>,
}

impl View for Request {
    type V = RequestView;

    open spec fn view(&self) -> RequestView {
        RequestView {
            method: self.method,
            url: self.url@,
            headers: header_views(self.headers@),
            body: match self.body {
                Some(b) => Some(b@),
                None => None,
            },
        }
    }
}

/// A header with the given name and value.
pub fn header(key: &str, value: &str) -> (h: Header)
    ensures
        h@ == (key@, value@),
{
    Header { key: key.to_owned(), value: value.to_owned() }
}

/// Puts `first` in front of `rest`.
pub fn with_headers(first: Vec<Header>, rest: Vec<Header>) -> (all: Vec<Header>)
    ensures
        header_views(all@) == header_views(first@) + header_views(rest@),
{
    let mut all = first;
    let mut tail = rest;
    all.append(&mut tail);
    all
}

} // verus!
