//! Spelling requests and reading the status of responses.

use vstd::prelude::*;
use vstd::string::*;
use vstd::utf8::encode_utf8;
use crate::errors::APIError;
use crate::structures::messages::MessageInterface;
use crate::structures::submission::LazySubmission;
use crate::structures::subreddit::Subreddit;
use crate::structures::user::User;
use crate::text::push_char;

verus! {

/// The two HTTP methods the API is spoken with.
#[derive(Debug, Clone, Copy, PartialEq, Eq, Structural)]
pub enum Method {
    /// A request that only reads.
    Get,
    /// A request that carries a form body.
    Post,
}

/// One call of the API, ready to be sent: where it goes and what it carries.
#[derive(Debug, Clone)]
pub struct ApiRequest {
    /// How the request is sent.
    pub method: Method,
    /// The path below the API's root, with its query.
    pub path: String,
    /// The form body; empty for a `Get`.
    pub body: String,
    /// `true` if the endpoint exists only on the OAuth access point.
    pub oauth_required: bool,
}

impl ApiRequest {
    /// `true` if the request is a `Post` of `body` to `path` on the ordinary
    /// access point.
    pub open spec fn is_post(self, path: Seq<char>, body: Seq<char>) -> bool {
        &&& self.method == Method::Post
        &&& self.path@ == path
        &&& self.body@ == body
        &&& !self.oauth_required
    }

    /// `true` if the request is a `Get` of `path` on the ordinary access
    /// point.
    pub open spec fn is_get(self, path: Seq<char>) -> bool {
        &&& self.method == Method::Get
        &&& self.path@ == path
        &&& self.body@ == Seq::<char>::empty()
        &&& !self.oauth_required
    }

    /// A form post to `path`.
    pub fn post(path: &str, body: String) -> (r: ApiRequest)
        ensures
            r.is_post(path@, body@),
    {
        ApiRequest { method: Method::Post, path: path.to_owned(), body, oauth_required: false }
    }

    /// A read of `path`.
    pub fn get(path: String) -> (r: ApiRequest)
        ensures
            r.is_get(path@),
    {
        ApiRequest { method: Method::Get, path, body: String::new(), oauth_required: false }
    }
}

/// A request as it goes over the wire: the full address, the headers in the
/// order in which they are set, and the body.
#[derive(Debug, Clone)]
pub struct HttpRequest {
    /// How the request is sent.
    pub method: Method,
    /// The full address.
    pub url: String,
    /// Names and values of the headers, first to last.
    pub headers: Vec<(String, String)>,
    /// The body; empty where the request carries none.
    pub body: String,
}

/// Names and values of headers, taken by their texts.
pub open spec fn header_texts(headers: Seq<(String, String)>) -> Seq<(Seq<char>, Seq<char>)> {
    headers.map_values(|h: (String, String)| (h.0@, h.1@))
}

/// Asks `hyper::StatusCode` whether a status is a success. A number that is
/// no status code at all (below 100 or above 999) is none; of the others
/// `StatusCode::is_success` tells those from 200 to 299.
#[verifier::external_body]
pub(crate) fn status_is_success(code: u16) -> (r: bool)
    ensures
        r == (200 <= code < 300),
{
    match hyper::StatusCode::from_u16(code) {
        Ok(status) => status.is_success(),
        Err(_) => false,
    }
}

/// The text of `hyper::header::USER_AGENT`, the name of the header that
/// carries the user agent: `user-agent`.
#[verifier::external_body]
pub(crate) fn user_agent_header() -> (r: String)
    ensures
        r@ == "user-agent"@,
{
    hyper::header::USER_AGENT.as_str().to_owned()
}

/// `true` for the characters that a form value may hold as they are.
pub open spec fn is_unreserved(c: char) -> bool {
    ||| c == '*'
    ||| c == '-'
    ||| c == '.'
    ||| c == '_'
    ||| ('0' <= c && c <= '9')
    ||| ('A' <= c && c <= 'Z')
    ||| ('a' <= c && c <= 'z')
}

/// The character that writes a value below sixteen as one upper-case
/// hexadecimal digit.
pub open spec fn hex_char(d: int) -> char {
    if d == 0 {
        '0'
    } else if d == 1 {
        '1'
    } else if d == 2 {
        '2'
    } else if d == 3 {
        '3'
    } else if d == 4 {
        '4'
    } else if d == 5 {
        '5'
    } else if d == 6 {
        '6'
    } else if d == 7 {
        '7'
    } else if d == 8 {
        '8'
    } else if d == 9 {
        '9'
    } else if d == 10 {
        'A'
    } else if d == 11 {
        'B'
    } else if d == 12 {
        'C'
    } else if d == 13 {
        'D'
    } else if d == 14 {
        'E'
    } else {
        'F'
    }
}

/// Each byte written as a percent sign and two upper-case hexadecimal digits.
pub open spec fn percent_encoded(bytes: Seq<u8>) -> Seq<char>
    decreases bytes.len(),
{
    if bytes.len() == 0 {
        Seq::empty()
    } else {
        percent_encoded(bytes.drop_last()) + seq![
            '%',
            hex_char(bytes.last() as int / 16),
            hex_char(bytes.last() as int % 16),
        ]
    }
}

/// How one character is written in a form value: a space as a plus sign, an
/// unreserved character as itself, any other as the percent-encoded bytes of
/// its UTF-8 form.
pub open spec fn escaped_char(c: char) -> Seq<char> {
    if c == ' ' {
        seq!['+']
    } else if is_unreserved(c) {
        seq![c]
    } else {
        percent_encoded(encode_utf8(seq![c]))
    }
}

/// A text with every character written as a form value holds it.
pub open spec fn url_escaped(s: Seq<char>) -> Seq<char>
    decreases s.len(),
{
    if s.len() == 0 {
        Seq::empty()
    } else {
        url_escaped(s.drop_last()) + escaped_char(s.last())
    }
}

/// The access point that serves OAuth clients.
pub open spec fn oauth_stem() -> Seq<char> {
    "https://oauth.reddit.com"@
}

/// The access point that serves everyone else.
pub open spec fn plain_stem() -> Seq<char> {
    "https://api.reddit.com"@
}

fn hex(d: u8) -> (c: char)
    requires
        d < 16,
    ensures
        c == hex_char(d as int),
{
    if d == 0 {
        '0'
    } else if d == 1 {
        '1'
    } else if d == 2 {
        '2'
    } else if d == 3 {
        '3'
    } else if d == 4 {
        '4'
    } else if d == 5 {
        '5'
    } else if d == 6 {
        '6'
    } else if d == 7 {
        '7'
    } else if d == 8 {
        '8'
    } else if d == 9 {
        '9'
    } else if d == 10 {
        'A'
    } else if d == 11 {
        'B'
    } else if d == 12 {
        'C'
    } else if d == 13 {
        'D'
    } else if d == 14 {
        'E'
    } else {
        'F'
    }
}

fn unreserved(c: char) -> (r: bool)
    ensures
        r == is_unreserved(c),
{
    c == '*' || c == '-' || c == '.' || c == '_' || ('0' <= c && c <= '9') || ('A' <= c && c
        <= 'Z') || ('a' <= c && c <= 'z')
}

/// Adds the escaped form of one character to `out`.
fn push_escaped(out: &mut String, c: char)
    ensures
        final(out)@ == old(out)@ + escaped_char(c),
{
    if c == ' ' {
        push_char(out, '+');
        assert(out@ =~= old(out)@ + seq!['+']);
    } else if unreserved(c) {
        push_char(out, c);
        assert(out@ =~= old(out)@ + seq![c]);
    } else {
        let mut single = String::new();
        push_char(&mut single, c);
        assert(single@ =~= seq![c]);
        let bytes = single.as_str().as_bytes();
        let mut i: usize = 0;
        while i < bytes.len()
            invariant
                i <= bytes@.len(),
                bytes@ == encode_utf8(seq![c]),
                out@ == old(out)@ + percent_encoded(bytes@.take(i as int)),
            decreases bytes.len() - i,
        {
            let b = bytes[i];
            push_char(out, '%');
            push_char(out, hex(b / 16));
            push_char(out, hex(b % 16));
            proof {
                let done = bytes@.take(i + 1);
                assert(done.drop_last() =~= bytes@.take(i as int));
                assert(done.last() == b);
                assert(out@ =~= old(out)@ + percent_encoded(done));
            }
            i = i + 1;
        }
        assert(bytes@.take(i as int) =~= bytes@);
    }
}

/// URL encodes the specified string so that it can be sent in GET and POST
/// requests.
pub fn url_escape(item: &str) -> (r: String)
    ensures
        r@ == url_escaped(item@),
{
    let mut out = String::new();
    let n = item.unicode_len();
    let mut i: usize = 0;
    while i < n
        invariant
            i <= n,
            n == item@.len(),
            out@ == url_escaped(item@.take(i as int)),
        decreases n - i,
    {
        let c = item.get_char(i);
        proof {
            let done = item@.take(i + 1);
            assert(done.drop_last() =~= item@.take(i as int));
            assert(done.last() == c);
        }
        push_escaped(&mut out, c);
        i = i + 1;
    }
    assert(item@.take(i as int) =~= item@);
    out
}

/// What a client knows without a connection: how it names itself, and
/// whether it logs out when it is dropped.
#[derive(Debug, Clone)]
pub struct RedditClient {
    user_agent: String,
    auto_logout: bool,
}

impl RedditClient {
    /// The user agent the client sends with every request.
    pub closed spec fn agent(&self) -> Seq<char> {
        self.user_agent@
    }

    /// `true` if the client logs out when it goes out of scope.
    pub closed spec fn logs_out(&self) -> bool {
        self.auto_logout
    }

    /// Creates a client that names itself `user_agent` and logs out when it
    /// is dropped.
    pub fn new(user_agent: &str) -> (r: RedditClient)
        ensures
            r.agent() == user_agent@,
            r.logs_out(),
    {
        RedditClient { user_agent: user_agent.to_owned(), auto_logout: true }
    }

    /// Disables or enables the automatic logout that occurs when the client
    /// drops out of scope.
    pub fn set_auto_logout(&mut self, val: bool)
        ensures
            final(self).logs_out() == val,
            final(self).agent() == old(self).agent(),
    {
        self.auto_logout = val;
    }

    /// `true` if the client logs out when it goes out of scope.
    pub fn auto_logout(&self) -> (r: bool)
        ensures
            r == self.logs_out(),
    {
        self.auto_logout
    }

    /// The user agent the client sends with every request.
    pub fn user_agent(&self) -> (r: &str)
        ensures
            r@ == self.agent(),
    {
        self.user_agent.as_str()
    }

    /// Creates a full URL using the correct access point (API or OAuth) from
    /// the stem. An endpoint that needs OAuth cannot be reached by an
    /// authenticator that does not speak it.
    pub fn build_url(&self, dest: &str, oauth_required: bool, oauth_supported: bool) -> (r: String)
        requires
            oauth_required ==> oauth_supported,
        ensures
            r@ == (if oauth_supported {
                oauth_stem()
            } else {
                plain_stem()
            }) + dest@,
    {
        let mut url = if oauth_required || oauth_supported {
            "https://oauth.reddit.com".to_owned()
        } else {
            "https://api.reddit.com".to_owned()
        };
        url.append(dest);
        url
    }

    /// `true` if [`RedditClient::build_url`] can spell an address for an
    /// endpoint with this demand, given what the authenticator speaks.
    pub fn can_reach(&self, oauth_required: bool, oauth_supported: bool) -> (r: bool)
        ensures
            r == (oauth_required ==> oauth_supported),
    {
        !oauth_required || oauth_supported
    }

    /// Spells a GET request for `dest`: the address from
    /// [`RedditClient::build_url`], the authenticator's headers in their
    /// order, and the user agent after them.
    pub fn get(
        &self,
        dest: &str,
        oauth_required: bool,
        oauth_supported: bool,
        auth_headers: Vec<(String, String)>,
    ) -> (r: HttpRequest)
        requires
            oauth_required ==> oauth_supported,
        ensures
            r.method == Method::Get,
            r.url@ == (if oauth_supported {
                oauth_stem()
            } else {
                plain_stem()
            }) + dest@,
            header_texts(r.headers@) == header_texts(auth_headers@).push(
                ("user-agent"@, self.agent()),
            ),
            r.body@ == Seq::<char>::empty(),
    {
        let url = self.build_url(dest, oauth_required, oauth_supported);
        let mut headers = auth_headers;
        headers.push((user_agent_header(), self.user_agent.clone()));
        assert(header_texts(headers@) =~= header_texts(auth_headers@).push(
            ("user-agent"@, self.agent()),
        ));
        HttpRequest { method: Method::Get, url, headers, body: String::new() }
    }

    /// Spells a POST request for `dest` that carries `body`: the address from
    /// [`RedditClient::build_url`], the authenticator's headers in their
    /// order, and the user agent after them.
    pub fn post(
        &self,
        dest: &str,
        body: String,
        oauth_required: bool,
        oauth_supported: bool,
        auth_headers: Vec<(String, String)>,
    ) -> (r: HttpRequest)
        requires
            oauth_required ==> oauth_supported,
        ensures
            r.method == Method::Post,
            r.url@ == (if oauth_supported {
                oauth_stem()
            } else {
                plain_stem()
            }) + dest@,
            header_texts(r.headers@) == header_texts(auth_headers@).push(
                ("user-agent"@, self.agent()),
            ),
            r.body@ == body@,
    {
        let url = self.build_url(dest, oauth_required, oauth_supported);
        let mut headers = auth_headers;
        headers.push((user_agent_header(), self.user_agent.clone()));
        assert(header_texts(headers@) =~= header_texts(auth_headers@).push(
            ("user-agent"@, self.agent()),
        ));
        HttpRequest { method: Method::Post, url, headers, body }
    }

    /// Reads the answer to a request that asks for a document: the body of a
    /// success, the status of anything else.
    pub fn get_json(&self, status: u16, body: String) -> (r: Result<String, APIError>)
        ensures
            r == (if 200 <= status < 300 {
                Ok::<String, APIError>(body)
            } else {
                Err(APIError::HTTPError(status))
            }),
    {
        if status_is_success(status) {
            Ok(body)
        } else {
            Err(APIError::HTTPError(status))
        }
    }

    /// Reads the answer to a form post that asks for a document: the body of
    /// a success, the status of anything else.
    pub fn post_json(&self, status: u16, body: String) -> (r: Result<String, APIError>)
        ensures
            r == (if 200 <= status < 300 {
                Ok::<String, APIError>(body)
            } else {
                Err(APIError::HTTPError(status))
            }),
    {
        if status_is_success(status) {
            Ok(body)
        } else {
            Err(APIError::HTTPError(status))
        }
    }

    /// Reads the answer to a form post of which only the status matters.
    pub fn post_success(&self, status: u16) -> (r: Result<(), APIError>)
        ensures
            r == (if 200 <= status < 300 {
                Ok::<(), APIError>(())
            } else {
                Err(APIError::HTTPError(status))
            }),
    {
        if status_is_success(status) {
            Ok(())
        } else {
            Err(APIError::HTTPError(status))
        }
    }

    /// Provides an interface to the specified subreddit which can be used to
    /// spell the requests for its feeds and so on. The name is escaped.
    pub fn subreddit(&self, name: &str) -> (r: Subreddit)
        ensures
            r.name@ == url_escaped(name@),
    {
        Subreddit::create_new(url_escape(name).as_str())
    }

    /// Gets the specified user in order to spell the requests for
    /// user-related data such as the 'about' page. The name is escaped.
    pub fn user(&self, name: &str) -> (r: User)
        ensures
            r.name@ == url_escaped(name@),
    {
        User::new(url_escape(name).as_str())
    }

    /// Gets a `LazySubmission` object which can be used to spell the requests
    /// for the information and comments of a specified post. The **full**
    /// name of the item should be used; it is escaped.
    pub fn get_by_id(&self, id: &str) -> (r: LazySubmission)
        ensures
            r@ == url_escaped(id@),
    {
        LazySubmission::new(url_escape(id).as_str())
    }

    /// Gets a `MessageInterface` object which spells the requests for the
    /// message listings (e.g. `inbox`, `unread`, etc.)
    pub fn messages(&self) -> (r: MessageInterface) {
        MessageInterface::new()
    }

    /// URL encodes the specified string so that it can be sent in GET and
    /// POST requests.
    pub fn url_escape(&self, item: String) -> (r: String)
        ensures
            r@ == url_escaped(item@),
    {
        url_escape(item.as_str())
    }
}

} // verus!
