//! Authenticators: what a client sends to prove who it is.
//!
//! An authenticator spells the requests that log in and out, reads their
//! answers, and names the headers that sign every other request. It never
//! sends anything itself.

use vstd::prelude::*;
use vstd::string::*;
use crate::client::{HttpRequest, Method, header_texts, status_is_success, user_agent_header};
use crate::errors::APIError;
use crate::responses::auth::TokenResponseData;

verus! {

/// The base64 text, in the standard alphabet with padding, of the UTF-8
/// bytes of `input`.
pub uninterp spec fn base64_text(input: Seq<char>) -> Seq<char>;

/// Encodes the bytes of `input` with `base64::encode`, which writes them in
/// the standard alphabet with padding. The result depends on the input
/// alone.
#[verifier::external_body]
fn base64_encode(input: &str) -> (r: String)
    ensures
        r@ == base64_text(input@),
{
    base64::encode(input)
}

/// The text of `hyper::header::AUTHORIZATION`, the name of the header that
/// carries the credentials: `authorization`.
#[verifier::external_body]
fn authorization_header() -> (r: String)
    ensures
        r@ == "authorization"@,
{
    hyper::header::AUTHORIZATION.as_str().to_owned()
}

/// The text of `hyper::header::CONTENT_TYPE`, the name of the header that
/// tells how the body is written: `content-type`.
#[verifier::external_body]
fn content_type_header() -> (r: String)
    ensures
        r@ == "content-type"@,
{
    hyper::header::CONTENT_TYPE.as_str().to_owned()
}

/// Asks `hyper::StatusCode` whether a status is `StatusCode::OK`, which is
/// 200. A number that is no status code at all is not.
#[verifier::external_body]
fn status_is_ok(code: u16) -> (r: bool)
    ensures
        r == (code == 200),
{
    match hyper::StatusCode::from_u16(code) {
        Ok(status) => status == hyper::StatusCode::OK,
        Err(_) => false,
    }
}

/// The address that issues access tokens.
pub open spec fn token_url() -> Seq<char> {
    "https://www.reddit.com/api/v1/access_token"@
}

/// The address that takes access tokens back.
pub open spec fn revoke_url() -> Seq<char> {
    "https://www.reddit.com/api/v1/revoke_token"@
}

/// The value of the header that presents an application to the token
/// endpoints: the word `Basic` and the base64 text of the application's id
/// and secret with a colon between them.
pub open spec fn basic_credentials(client_id: Seq<char>, client_secret: Seq<char>) -> Seq<char> {
    "Basic "@ + base64_text(client_id + ":"@ + client_secret)
}

/// The three headers of a request to a token endpoint, in the order in which
/// they are set.
pub open spec fn token_headers(
    client_id: Seq<char>,
    client_secret: Seq<char>,
    user_agent: Seq<char>,
) -> Seq<(Seq<char>, Seq<char>)> {
    seq![
        ("authorization"@, basic_credentials(client_id, client_secret)),
        ("content-type"@, "application/x-www-form-urlencoded"@),
        ("user-agent"@, user_agent),
    ]
}

/// An anonymous login authenticator.
#[derive(Debug, Clone, Copy, PartialEq, Eq, Structural)]
pub struct AnonymousAuthenticator;

impl AnonymousAuthenticator {
    /// Creates a new `AnonymousAuthenticator`.
    pub fn new() -> (r: AnonymousAuthenticator) {
        AnonymousAuthenticator {  }
    }

    /// Does nothing: nobody is to be logged in.
    pub fn login(&mut self) -> (r: Result<(), APIError>)
        ensures
            r is Ok,
    {
        Ok(())
    }

    /// Does nothing: nobody is logged in.
    pub fn logout(&mut self) -> (r: Result<(), APIError>)
        ensures
            r is Ok,
    {
        Ok(())
    }

    /// The scopes the authenticator can access: reading only.
    pub fn scopes(&self) -> (r: Vec<String>)
        ensures
            r@.len() == 1,
            r@[0]@ == "read"@,
    {
        let mut scopes = Vec::new();
        scopes.push("read".to_owned());
        scopes
    }

    /// The headers needed to authenticate: none.
    pub fn headers(&self) -> (r: Vec<(String, String)>)
        ensures
            r@.len() == 0,
    {
        Vec::new()
    }

    /// `true` if this authentication method requires the OAuth API: it does
    /// not.
    pub fn oauth(&self) -> (r: bool)
        ensures
            !r,
    {
        false
    }

    /// `true` if a new login is due: never.
    pub fn needs_token_refresh(&self) -> (r: bool)
        ensures
            !r,
    {
        false
    }
}

/// Authenticates using a username and password with OAuth.
#[derive(Debug, Clone)]
pub struct PasswordAuthenticator {
    access_token: Option<String>,
    client_id: String,
    client_secret: String,
    username: String,
    password: String,
    expire_time: Option<u128>,
}

/// The mathematical value of a [`PasswordAuthenticator`].
pub ghost struct PasswordAuthenticatorView {
    /// The token in use, once a login has succeeded.
    pub access_token: Option<Seq<char>>,
    /// The application's id.
    pub client_id: Seq<char>,
    /// The application's secret.
    pub client_secret: Seq<char>,
    /// The account's name.
    pub username: Seq<char>,
    /// The account's password.
    pub password: Seq<char>,
    /// The time, in milliseconds since the epoch, at which the token stops
    /// being accepted.
    pub expire_time: Option<u128>,
}

/// What came of the request for a token.
pub enum LoginAnswer {
    /// The request could not be built or did not get through.
    Unreachable,
    /// The server answered with this status; where the status was 200, the
    /// second field holds the token read from the body, or nothing if the
    /// body could not be read.
    Answered(u16, Option<TokenResponseData>),
}

impl PasswordAuthenticatorView {
    /// The form body of the request for a token.
    pub open spec fn login_body(self) -> Seq<char> {
        "grant_type=password&username="@ + self.username + "&password="@ + self.password
    }

    /// The authenticator after a login at time `now` was answered by
    /// `answer`: a token read from an answer with status 200 is taken and
    /// runs out a thousand milliseconds after `now` for each second of its
    /// life; anything else changes nothing.
    pub open spec fn after_login(self, answer: LoginAnswer, now: u128) -> PasswordAuthenticatorView {
        match answer {
            LoginAnswer::Answered(status, Some(token)) => if status == 200 {
                PasswordAuthenticatorView {
                    access_token: Some(token.access_token@),
                    expire_time: Some((token.expires_in * 1000 + now) as u128),
                    ..self
                }
            } else {
                self
            },
            _ => self,
        }
    }
}

/// What a login reports for `answer`.
pub open spec fn login_result(answer: LoginAnswer) -> Result<(), APIError> {
    match answer {
        LoginAnswer::Unreachable => Err(APIError::ExhaustedListing),
        LoginAnswer::Answered(status, token) => if status != 200 {
            Err(APIError::HTTPError(status))
        } else if token is Some {
            Ok(())
        } else {
            Err(APIError::ExhaustedListing)
        },
    }
}

impl PasswordAuthenticator {
    pub closed spec fn view(&self) -> PasswordAuthenticatorView {
        PasswordAuthenticatorView {
            access_token: match self.access_token {
                Some(token) => Some(token@),
                None => None,
            },
            client_id: self.client_id@,
            client_secret: self.client_secret@,
            username: self.username@,
            password: self.password@,
            expire_time: self.expire_time,
        }
    }

    /// Creates a new `PasswordAuthenticator`, which holds no token yet.
    pub fn new(client_id: &str, client_secret: &str, username: &str, password: &str) -> (r:
        PasswordAuthenticator)
        ensures
            r@ == (PasswordAuthenticatorView {
                access_token: None,
                client_id: client_id@,
                client_secret: client_secret@,
                username: username@,
                password: password@,
                expire_time: None,
            }),
    {
        PasswordAuthenticator {
            client_id: client_id.to_owned(),
            client_secret: client_secret.to_owned(),
            username: username.to_owned(),
            password: password.to_owned(),
            expire_time: None,
            access_token: None,
        }
    }

    fn credentials(&self) -> (r: String)
        ensures
            r@ == basic_credentials(self@.client_id, self@.client_secret),
    {
        let mut pair = self.client_id.clone();
        pair.append(":");
        pair.append(self.client_secret.as_str());
        let encoded = base64_encode(pair.as_str());
        let mut value = "Basic ".to_owned();
        value.append(encoded.as_str());
        value
    }

    fn token_request(&self, url: &str, user_agent: &str, body: String) -> (r: HttpRequest)
        ensures
            r.method == Method::Post,
            r.url@ == url@,
            header_texts(r.headers@) == token_headers(
                self@.client_id,
                self@.client_secret,
                user_agent@,
            ),
            r.body@ == body@,
    {
        let mut headers: Vec<(String, String)> = Vec::new();
        headers.push((authorization_header(), self.credentials()));
        headers.push((content_type_header(), "application/x-www-form-urlencoded".to_owned()));
        headers.push((user_agent_header(), user_agent.to_owned()));
        assert(header_texts(headers@) =~= token_headers(
            self@.client_id,
            self@.client_secret,
            user_agent@,
        ));
        HttpRequest { method: Method::Post, url: url.to_owned(), headers, body }
    }

    /// Spells the request that logs in and fetches a token.
    pub fn login(&self, user_agent: &str) -> (r: HttpRequest)
        ensures
            r.method == Method::Post,
            r.url@ == token_url(),
            header_texts(r.headers@) == token_headers(
                self@.client_id,
                self@.client_secret,
                user_agent@,
            ),
            r.body@ == self@.login_body(),
    {
        let mut body = "grant_type=password&username=".to_owned();
        body.append(self.username.as_str());
        body.append("&password=");
        body.append(self.password.as_str());
        self.token_request("https://www.reddit.com/api/v1/access_token", user_agent, body)
    }

    /// Takes in what came of the request for a token, made at time `now`
    /// (milliseconds since the epoch).
    pub fn finish_login(&mut self, answer: LoginAnswer, now: u128) -> (r: Result<(), APIError>)
        requires
            now + 1000 * u64::MAX <= u128::MAX,
        ensures
            r == login_result(answer),
            final(self)@ == old(self)@.after_login(answer, now),
    {
        match answer {
            LoginAnswer::Unreachable => Err(APIError::ExhaustedListing),
            LoginAnswer::Answered(status, token) => {
                if !status_is_ok(status) {
                    Err(APIError::HTTPError(status))
                } else {
                    match token {
                        Some(token_response) => {
                            let life: u128 = (token_response.expires_in as u128) * 1000;
                            self.access_token = Some(token_response.access_token);
                            self.expire_time = Some(life + now);
                            Ok(())
                        },
                        None => Err(APIError::ExhaustedListing),
                    }
                }
            },
        }
    }

    /// `true` once a login has succeeded, so that there is a token to sign
    /// requests with and to hand back.
    pub fn has_token(&self) -> (r: bool)
        ensures
            r == self@.access_token is Some,
    {
        self.access_token.is_some()
    }

    /// Spells the request that logs out and invalidates the token.
    pub fn logout(&self, user_agent: &str) -> (r: HttpRequest)
        requires
            self@.access_token is Some,
        ensures
            r.method == Method::Post,
            r.url@ == revoke_url(),
            header_texts(r.headers@) == token_headers(
                self@.client_id,
                self@.client_secret,
                user_agent@,
            ),
            r.body@ == "token="@ + self@.access_token->0,
    {
        let mut body = "token=".to_owned();
        match &self.access_token {
            Some(token) => body.append(token.as_str()),
            None => {},
        }
        self.token_request("https://www.reddit.com/api/v1/revoke_token", user_agent, body)
    }

    /// Reads the answer to the request that logs out: any success will do.
    pub fn finish_logout(&self, status: u16) -> (r: Result<(), APIError>)
        ensures
            r == (if 200 <= status < 300 {
                Ok::<(), APIError>(())
            } else {
                Err(APIError::HTTPError(status))
            }),
    {
        if !status_is_success(status) {
            Err(APIError::HTTPError(status))
        } else {
            Ok(())
        }
    }

    /// The scopes the authenticator can access: all of them.
    pub fn scopes(&self) -> (r: Vec<String>)
        ensures
            r@.len() == 1,
            r@[0]@ == "*"@,
    {
        let mut scopes = Vec::new();
        scopes.push("*".to_owned());
        scopes
    }

    /// Returns the headers needed to authenticate. Must be done **after** a
    /// login has succeeded.
    pub fn headers(&self) -> (r: Vec<(String, String)>)
        requires
            self@.access_token is Some,
        ensures
            header_texts(r@) == seq![("authorization"@, "Bearer "@ + self@.access_token->0)],
    {
        let mut value = "Bearer ".to_owned();
        match &self.access_token {
            Some(token) => value.append(token.as_str()),
            None => {},
        }
        let mut headers: Vec<(String, String)> = Vec::new();
        headers.push((authorization_header(), value));
        assert(header_texts(headers@) =~= seq![
            ("authorization"@, "Bearer "@ + self@.access_token->0),
        ]);
        headers
    }

    /// `true` if this authentication method requires the OAuth API: it does.
    pub fn oauth(&self) -> (r: bool)
        ensures
            r,
    {
        true
    }

    /// `true` if a new login is due at time `now` (milliseconds since the
    /// epoch): no token was ever fetched, or the one held has run out.
    pub fn needs_token_refresh(&self, now: u128) -> (r: bool)
        ensures
            r == match self@.expire_time {
                None => true,
                Some(end) => now >= end,
            },
    {
        match self.expire_time {
            None => true,
            Some(end) => now >= end,
        }
    }
}

} // verus!
