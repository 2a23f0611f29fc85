//! The Plaza REST API: where each request goes, what a response status means,
//! and the small bits of request and response handling around the HTTP calls.

use vstd::prelude::*;
use vstd::string::*;

use crate::models::{range_path, LoginForm, RatingRange};
use crate::recording::trim_ws;
use crate::strings::{chars_of, decimal, push_decimal, push_str, string_from_chars, string_from_range};

verus! {

/// Base URL of the Plaza REST API.
pub const BASE_URL: &'static str = "https://api.plaza.one";

/// A failure talking to the Nightwave Plaza backend.
#[derive(Debug)]
pub enum Error {
    /// The request was rejected for missing or invalid credentials (HTTP 401).
    Unauthorized,
    /// The server is rate limiting the client (HTTP 429).
    RateLimited,
    /// The requested resource does not exist (HTTP 404).
    NotFound,
    /// The server returned an unexpected status code.
    Server { status: u16 },
    /// The response was successful but its body was not what was expected.
    Unexpected(String),
    /// A transport-level failure (connection, TLS, timeout, decoding), with the
    /// transport's description.
    Http(String),
}

/// The message shown for an error.
pub open spec fn error_message(e: Error) -> Seq<char> {
    match e {
        Error::Unauthorized => "unauthorized"@,
        Error::RateLimited => "rate limited"@,
        Error::NotFound => "not found"@,
        Error::Server { status } => "server returned status "@ + decimal(status as nat),
        Error::Unexpected(m) => "unexpected response: "@ + m@,
        Error::Http(_) => "http transport error"@,
    }
}

impl Error {
    /// The user-facing message.
    pub fn message(&self) -> (m: String)
        ensures
            m@ == error_message(*self),
    {
        match self {
            Error::Unauthorized => String::from_str("unauthorized"),
            Error::RateLimited => String::from_str("rate limited"),
            Error::NotFound => String::from_str("not found"),
            Error::Server { status } => {
                let mut m = String::from_str("server returned status ");
                push_decimal(&mut m, *status as u64);
                m
            },
            Error::Unexpected(msg) => {
                let mut m = String::from_str("unexpected response: ");
                push_str(&mut m, msg.as_str());
                m
            },
            Error::Http(_) => String::from_str("http transport error"),
        }
    }
}

/// Whether an HTTP status is a success (2xx).
pub open spec fn is_success(status: u16) -> bool {
    200 <= status <= 299
}

/// `r` is the error `e` or, for `None`, success.
pub open spec fn outcome_is(r: Result<(), Error>, e: Option<Error>) -> bool {
    match e {
        None => r is Ok,
        Some(Error::Unauthorized) => r matches Err(Error::Unauthorized),
        Some(Error::RateLimited) => r matches Err(Error::RateLimited),
        Some(Error::NotFound) => r matches Err(Error::NotFound),
        Some(Error::Server { status }) => r matches Err(Error::Server { status: s }) && s == status,
        Some(_) => false,
    }
}

/// What a response status means for a request: success, or the error it maps to.
pub open spec fn status_error(status: u16) -> Option<Error> {
    if is_success(status) {
        None
    } else if status == 401 {
        Some(Error::Unauthorized)
    } else if status == 429 {
        Some(Error::RateLimited)
    } else if status == 404 {
        Some(Error::NotFound)
    } else {
        Some(Error::Server { status })
    }
}

/// Map a response status to success or an error: 2xx succeeds, 401 is
/// unauthorized, 429 rate limited, 404 not found, and anything else a server error.
pub fn check_status(status: u16) -> (r: Result<(), Error>)
    ensures
        outcome_is(r, status_error(status)),
{
    if 200 <= status && status <= 299 {
        Ok(())
    } else if status == 401 {
        Err(Error::Unauthorized)
    } else if status == 429 {
        Err(Error::RateLimited)
    } else if status == 404 {
        Err(Error::NotFound)
    } else {
        Err(Error::Server { status })
    }
}

/// Map the status of a favourite removal: as for any other request (see
/// [`status_error`]), 429 included.
pub fn check_delete_status(status: u16) -> (r: Result<(), Error>)
    ensures
        outcome_is(r, status_error(status)),
{
    check_status(status)
}

/// What the status of a login means: 200 or 201 succeed, 401 is bad credentials,
/// anything else a server error.
pub open spec fn login_status_error(status: u16) -> Option<Error> {
    if status == 200 || status == 201 {
        None
    } else if status == 401 {
        Some(Error::Unauthorized)
    } else {
        Some(Error::Server { status })
    }
}

/// Map the status of a login (see [`login_status_error`]).
pub fn check_login_status(status: u16) -> (r: Result<(), Error>)
    ensures
        outcome_is(r, login_status_error(status)),
{
    if status == 200 || status == 201 {
        Ok(())
    } else if status == 401 {
        Err(Error::Unauthorized)
    } else {
        Err(Error::Server { status })
    }
}

/// The new reaction total from the `reactions` field of a reaction response:
/// its low 32 bits, or an unexpected-response error when the field is missing or
/// not an unsigned integer.
pub fn reaction_total(reactions: Option<u64>) -> (r: Result<u32, Error>)
    ensures
        match reactions {
            Some(n) => r == Ok::<u32, Error>(n as u32),
            None => r matches Err(Error::Unexpected(m)) && m@ == "missing reactions field"@,
        },
{
    match reactions {
        Some(n) => Ok(n as u32),
        None => Err(Error::Unexpected(String::from_str("missing reactions field"))),
    }
}

/// The credentials for a login request; a long-lived session is always requested.
pub fn login_form(username: &str, password: &str) -> (f: LoginForm)
    ensures
        f.username@ == username@,
        f.password@ == password@,
        f.remember,
{
    LoginForm {
        username: string_from_chars(&chars_of(username)),
        password: string_from_chars(&chars_of(password)),
        remember: true,
    }
}

/// The token in the contents of the saved-token file: the text without
/// surrounding white space, or nothing when that is empty.
pub fn token_from_file(contents: &str) -> (t: Option<String>)
    ensures
        trim_ws(contents@).len() == 0 ==> t is None,
        trim_ws(contents@).len() > 0 ==> (t matches Some(s) && s@ == trim_ws(contents@)),
{
    let v = chars_of(contents);
    assert(v@.subrange(0, v@.len() as int) =~= v@);
    let (a, b) = crate::recording::trim_whitespace_range(&v, 0, v.len());
    if a == b {
        None
    } else {
        Some(string_from_range(&v, a, b))
    }
}

/// `s` without its leading slashes.
pub open spec fn trim_leading_slashes(s: Seq<char>) -> Seq<char>
    decreases s.len(),
{
    if s.len() > 0 && s[0] == '/' {
        trim_leading_slashes(s.drop_first())
    } else {
        s
    }
}

/// The URL of an API path under a base URL.
pub open spec fn api_url(base: Seq<char>, path: Seq<char>) -> Seq<char> {
    base + "/"@ + trim_leading_slashes(path)
}

/// The URL of a paged listing: `<base>/<path>?page=<n>`.
pub open spec fn page_url(base: Seq<char>, path: Seq<char>, page: u32) -> Seq<char> {
    base + "/"@ + path + "?page="@ + decimal(page as nat)
}

/// A handle to the Plaza REST API: where it is and the bearer token, if any.
#[derive(Debug, Clone)]
pub struct ApiClient {
    token: Option<String>,
    base_url: String,
}

impl ApiClient {
    /// The bearer token, if one is set.
    pub closed spec fn token_text(&self) -> Option<Seq<char>> {
        crate::recording::opt_view(self.token)
    }

    /// The API's base URL.
    pub closed spec fn base(&self) -> Seq<char> {
        self.base_url@
    }

    /// A client for the live API, optionally authenticated with a bearer `token`.
    pub fn new(token: Option<String>) -> (c: ApiClient)
        ensures
            c.token_text() == crate::recording::opt_view(token),
            c.base() == BASE_URL@,
    {
        ApiClient { token, base_url: string_from_chars(&chars_of(BASE_URL)) }
    }

    /// Override the API base URL (e.g. to talk to a test server).
    pub fn with_base_url(self, base_url: &str) -> (c: ApiClient)
        ensures
            c.token_text() == self.token_text(),
            c.base() == base_url@,
    {
        ApiClient { token: self.token, base_url: string_from_chars(&chars_of(base_url)) }
    }

    /// Set (or clear) the bearer token used for authenticated requests.
    pub fn set_token(&mut self, token: Option<String>)
        ensures
            final(self).token_text() == crate::recording::opt_view(token),
            final(self).base() == old(self).base(),
    {
        self.token = token;
    }

    /// Whether a bearer token is currently set.
    pub fn is_authenticated(&self) -> (b: bool)
        ensures
            b == self.token_text() is Some,
    {
        self.token.is_some()
    }

    /// The bearer token, if one is set.
    pub fn token(&self) -> (t: Option<&String>)
        ensures
            match t {
                Some(s) => self.token_text() == Some(s@),
                None => self.token_text() is None,
            },
    {
        self.token.as_ref()
    }

    /// The API's base URL.
    pub fn base_url(&self) -> (b: &str)
        ensures
            b@ == self.base(),
    {
        self.base_url.as_str()
    }

    /// The URL of an API path: the base, a slash, and the path without its
    /// leading slashes.
    pub fn url(&self, path: &str) -> (u: String)
        ensures
            u@ == api_url(self.base(), path@),
    {
        let p = chars_of(path);
        let mut start: usize = 0;
        assert(p@.subrange(0, p@.len() as int) =~= p@);
        while start < p.len() && p[start] == '/'
            invariant
                start <= p@.len(),
                trim_leading_slashes(p@.subrange(start as int, p@.len() as int)) == trim_leading_slashes(path@),
                p@ == path@,
            decreases p@.len() - start,
        {
            assert(p@.subrange(start as int, p@.len() as int).drop_first() =~= p@.subrange(start + 1, p@.len() as int));
            start = start + 1;
        }
        proof {
            reveal_strlit("/");
        }
        let mut u = string_from_chars(&chars_of(self.base_url.as_str()));
        push_str(&mut u, "/");
        let rest = string_from_range(&p, start, p.len());
        push_str(&mut u, rest.as_str());
        u
    }

    fn paged(&self, path: &str, page: u32) -> (u: String)
        ensures
            u@ == page_url(self.base(), path@, page),
    {
        let mut u = string_from_chars(&chars_of(self.base_url.as_str()));
        push_str(&mut u, "/");
        push_str(&mut u, path);
        push_str(&mut u, "?page=");
        push_decimal(&mut u, page as u64);
        proof {
            reveal_strlit("/");
            reveal_strlit("?page=");
        }
        u
    }

    /// Where the current broadcast status is fetched.
    pub fn status_url(&self) -> (u: String)
        ensures
            u@ == api_url(self.base(), "status"@),
    {
        self.url("status")
    }

    /// Where a page of the play history is fetched.
    pub fn history_url(&self, page: u32) -> (u: String)
        ensures
            u@ == page_url(self.base(), "v2/history"@, page),
    {
        self.paged("v2/history", page)
    }

    /// Where a song's detail is fetched.
    pub fn song_url(&self, id: &str) -> (u: String)
        ensures
            u@ == api_url(self.base(), "v2/songs/"@ + id@),
    {
        let mut p = String::from_str("v2/songs/");
        push_str(&mut p, id);
        self.url(p.as_str())
    }

    /// Where a page of the user's favourites is fetched.
    pub fn favorites_url(&self, page: u32) -> (u: String)
        ensures
            u@ == page_url(self.base(), "v2/users/me/favorites"@, page),
    {
        self.paged("v2/users/me/favorites", page)
    }

    /// Where a favourite is added.
    pub fn add_favorite_url(&self) -> (u: String)
        ensures
            u@ == api_url(self.base(), "v2/users/me/favorites"@),
    {
        self.url("v2/users/me/favorites")
    }

    /// Where a favourite is removed.
    pub fn remove_favorite_url(&self, favorite_id: u64) -> (u: String)
        ensures
            u@ == api_url(self.base(), "v2/users/me/favorites/"@ + decimal(favorite_id as nat)),
    {
        let mut p = String::from_str("v2/users/me/favorites/");
        push_decimal(&mut p, favorite_id);
        self.url(p.as_str())
    }

    /// Where reactions are sent.
    pub fn reactions_url(&self) -> (u: String)
        ensures
            u@ == api_url(self.base(), "v2/reactions"@),
    {
        self.url("v2/reactions")
    }

    /// Where a page of a ratings chart is fetched.
    pub fn ratings_url(&self, range: RatingRange, page: u32) -> (u: String)
        ensures
            u@ == page_url(self.base(), "v2/ratings/"@ + range_path(range), page),
    {
        let mut p = String::from_str("v2/ratings/");
        push_str(&mut p, range.as_str());
        self.paged(p.as_str(), page)
    }

    /// Where the user's profile is fetched.
    pub fn me_url(&self) -> (u: String)
        ensures
            u@ == api_url(self.base(), "v2/users/me"@),
    {
        self.url("v2/users/me")
    }

    /// Where the user's stats are fetched.
    pub fn my_stats_url(&self) -> (u: String)
        ensures
            u@ == api_url(self.base(), "v2/users/me/stats"@),
    {
        self.url("v2/users/me/stats")
    }

    /// Where a page of news is fetched.
    pub fn news_url(&self, page: u32) -> (u: String)
        ensures
            u@ == page_url(self.base(), "v2/news"@, page),
    {
        self.paged("v2/news", page)
    }

    /// Where a login is submitted.
    pub fn login_url(&self) -> (u: String)
        ensures
            u@ == api_url(self.base(), "v2/auth/token"@),
    {
        self.url("v2/auth/token")
    }

    /// Where the session is ended.
    pub fn logout_url(&self) -> (u: String)
        ensures
            u@ == api_url(self.base(), "v2/auth/logout"@),
    {
        self.url("v2/auth/logout")
    }
}

} // verus!
