//! The chat service that receives the report.

use crate::providers::header;
use crate::providers::header_views;
use crate::providers::with_headers;
use crate::providers::Header;
use crate::providers::Method;
use crate::providers::Request;
use crate::providers::RequestView;
use crate::providers::AUTHORIZATION;
use crate::providers::CONTENT_TYPE;
use crate::providers::USER_AGENT;
use crate::providers::USER_AGENT_VALUE;
use vstd::prelude::*;
use vstd::std_specs::convert::FromSpec;
use vstd::std_specs::convert::FromSpecImpl;

verus! {

/// Where the chat service answers requests.
pub const API_BASE_URL: &'static str = "https://slack.com/api";

/// The method of the service that posts a message to a channel.
pub const POST_MESSAGE: &'static str = "chat.postMessage";

/// The media type of every request body.
pub const JSON_MEDIA_TYPE: &'static str = "application/json";

/// What the error says when the service refuses a message without a word.
pub const UNKNOWN_ERROR: &'static str = "unknown error";

/// Why a message did not reach its channel.
#[derive(Debug)]
pub struct Error {
    reason: String,
}

impl View for Error {
    type V = Seq<char>;

    closed spec fn view(&self) -> Seq<char> {
        self.reason@
    }
}

impl Error {
    /// The error that says `reason`.
    pub fn new(reason: String) -> (e: Error)
        ensures
            e@ == reason@,
    {
        Error { reason }
    }

    /// The reason, as it is shown to the user.
    pub fn to_string(&self) -> (s: String)
        ensures
            s@ == self@,
    {
        self.reason.clone()
    }
}

impl From<String> for Error {
    fn from(err: String) -> (e: Error) {
        Error { reason: err }
    }
}

impl FromSpecImpl<String> for Error {
    open spec fn obeys_from_spec() -> bool {
        true
    }

    closed spec fn from_spec(err: String) -> Error {
        Error { reason: err }
    }
}

/// The error made from a text says that text.
pub proof fn lemma_error_from_text(err: String)
    ensures
        <Error as FromSpec<String>>::from_spec(err)@ == err@,
{
}

/// A message for a channel.
#[derive(Debug)]
pub struct Message {
    pub text: String,
    pub channel: String,
}

/// The answer of the service to a posted message.
#[derive(Debug)]
pub struct Response {
    pub ok: bool,
    pub error: Option<String>,
}

impl Response {
    /// The reason the service gave for refusing, or the stock phrase when it gave none.
    pub open spec fn refusal(self) -> Seq<char> {
        match self.error {
            Some(e) => e@,
            None => UNKNOWN_ERROR@,
        }
    }

    /// Whether the message was delivered: `Ok` exactly when the service
    /// said so, else the error with the service's reason.
    pub fn into_result(self) -> (r: Result<(), Error>)
        ensures
            r is Ok <==> self.ok,
            r matches Err(e) ==> e@ == self.refusal(),
    {
        if self.ok {
            Ok(())
        } else {
            match self.error {
                Some(e) => {
                    proof {
                        lemma_error_from_text(e);
                    }
                    Err(Error::from(e))
                },
                None => {
                    let e: String = UNKNOWN_ERROR.to_owned();
                    proof {
                        lemma_error_from_text(e);
                    }
                    Err(Error::from(e))
                },
            }
        }
    }
}

/// The address of the method that posts a message.
pub open spec fn post_message_url() -> Seq<char> {
    API_BASE_URL@ + "/"@ + POST_MESSAGE@
}

/// Access to the chat service on behalf of one token.
pub struct Slack {
    token: String,
}

impl Slack {
    /// The value of the authorization header.
    pub closed spec fn authorization(&self) -> Seq<char> {
        self.token@
    }

    /// The POST of `body` to `url` with the headers every request carries, then `extra`.
    pub open spec fn spec_request(
        &self,
        url: Seq<char>,
        extra: Seq<(Seq<char>, Seq<char>)>,
        body: Seq<char>,
    ) -> RequestView {
        RequestView {
            method: Method::Post,
            url,
            headers: seq![
                (USER_AGENT@, USER_AGENT_VALUE@),
                (AUTHORIZATION@, self.authorization()),
                (CONTENT_TYPE@, JSON_MEDIA_TYPE@),
            ] + extra,
            body: Some(body),
        }
    }

    /// Access with `token`, which is sent as `Bearer <token>`.
    pub fn new(token: String) -> (r: Slack)
        ensures
            r.authorization() == "Bearer "@ + token@,
    {
        let mut auth_header: String = "Bearer ".to_owned();
        auth_header.append(token.as_str());
        Slack { token: auth_header }
    }

    /// Describes the POST of `body` to `url`: the user agent, the
    /// authorization, the content type, then `headers`.
    pub fn request(&self, url: String, headers: Vec<Header>, body: String) -> (r: Request)
        ensures
            r@ == self.spec_request(url@, header_views(headers@), body@),
    {
        let mut fixed: Vec<Header> = Vec::new();
        fixed.push(header(USER_AGENT, USER_AGENT_VALUE));
        fixed.push(header(AUTHORIZATION, self.token.as_str()));
        fixed.push(header(CONTENT_TYPE, JSON_MEDIA_TYPE));
        assert(header_views(fixed@) =~= seq![
            (USER_AGENT@, USER_AGENT_VALUE@),
            (AUTHORIZATION@, self.authorization()),
            (CONTENT_TYPE@, JSON_MEDIA_TYPE@),
        ]);
        let all = with_headers(fixed, headers);
        Request { method: Method::Post, url, headers: all, body: Some(body) }
    }

    /// The message that carries `text` to `channel`.
    pub fn message(channel: String, text: String) -> (m: Message)
        ensures
            m.text == text,
            m.channel == channel,
    {
        Message { text, channel }
    }

    /// The request that posts a message, given the message as JSON text.
    pub fn send_message(&self, body: String) -> (r: Request)
        ensures
            r@ == self.spec_request(post_message_url(), Seq::empty(), body@),
    {
        let mut url: String = API_BASE_URL.to_owned();
        url.append("/");
        url.append(POST_MESSAGE);
        let headers: Vec<Header> = Vec::new();
        self.request(url, headers, body)
    }
}

} // verus!
