//! The shape of the HTTP exchanges the workflow asks for.
//!
//! The workflow never performs a request itself: it hands the transport an
//! `HttpRequest` holding everything the exchange needs — method, URL, the
//! headers' values and the body — and receives the status code and decoded
//! payload back as plain values.  The fixed API base and each operation's
//! endpoint are stated here.

use vstd::prelude::*;

verus! {

/// An HTTP method the client uses.
#[derive(Clone, Copy, PartialEq, Eq, Structural, Debug)]
pub enum Method {
    Get,
    Post,
}

/// One HTTP exchange the workflow asks the transport to perform: everything
/// the transport needs, and nothing it decides itself.
pub struct HttpRequest {
    pub method: Method,
    pub url: String,
    /// Token for the `Authorization: token <t>` header, where one is sent.
    pub auth_token: Option<String>,
    /// Username and password for HTTP Basic authentication, on login only.
    pub basic_auth: Option<(String, String)>,
    /// One-time code for the `X-GitHub-OTP` header, where one is sent.
    pub otp: Option<String>,
    /// JSON body of a POST.
    pub body: Option<String>,
}

/// A request's view: the same fields over character sequences.
#[verifier::ext_equal]
pub struct HttpRequestSpec {
    pub method: Method,
    pub url: Seq<char>,
    pub auth_token: Option<Seq<char>>,
    pub basic_auth: Option<(Seq<char>, Seq<char>)>,
    pub otp: Option<Seq<char>>,
    pub body: Option<Seq<char>>,
}

impl View for HttpRequest {
    type V = HttpRequestSpec;

    open spec fn view(&self) -> HttpRequestSpec {
        HttpRequestSpec {
            method: self.method,
            url: self.url@,
            auth_token: match self.auth_token {
                Some(t) => Some(t@),
                None => None,
            },
            basic_auth: match self.basic_auth {
                Some(p) => Some((p.0@, p.1@)),
                None => None,
            },
            otp: match self.otp {
                Some(t) => Some(t@),
                None => None,
            },
            body: match self.body {
                Some(b) => Some(b@),
                None => None,
            },
        }
    }
}

/// The service's fixed API base.
pub open spec fn api_base() -> Seq<char> {
    "https://api.github.com"@
}

/// Where gists are created.
pub open spec fn gists_url() -> Seq<char> {
    api_base() + "/gists"@
}

/// Where the user's gists are listed: the first hundred, most recent first,
/// in the service's own order.
pub open spec fn list_gists_url() -> Seq<char> {
    api_base() + "/gists?per_page=100"@
}

/// Where a token is obtained.
pub open spec fn authorizations_url() -> Seq<char> {
    api_base() + "/authorizations"@
}

fn make_url(path: &str) -> (r: String)
    ensures
        r@ == api_base() + path@,
{
    let mut u = "https://api.github.com".to_owned();
    u.append(path);
    u
}

/// The create endpoint.
pub fn gists_endpoint() -> (r: String)
    ensures
        r@ == gists_url(),
{
    make_url("/gists")
}

/// The list endpoint.
pub fn list_gists_endpoint() -> (r: String)
    ensures
        r@ == list_gists_url(),
{
    make_url("/gists?per_page=100")
}

/// The login endpoint.
pub fn authorizations_endpoint() -> (r: String)
    ensures
        r@ == authorizations_url(),
{
    make_url("/authorizations")
}

/// The list exchange: an authenticated GET of the list endpoint.
pub open spec fn list_gists_request_spec(token: Seq<char>) -> HttpRequestSpec {
    HttpRequestSpec {
        method: Method::Get,
        url: list_gists_url(),
        auth_token: Some(token),
        basic_auth: None,
        otp: None,
        body: None,
    }
}

/// Builds the request that lists the user's gists.
pub fn list_gists_request(token: &String) -> (r: HttpRequest)
    ensures
        r@ == list_gists_request_spec(token@),
{
    let r = HttpRequest {
        method: Method::Get,
        url: list_gists_endpoint(),
        auth_token: Some(token.clone()),
        basic_auth: None,
        otp: None,
        body: None,
    };
    proof {
        assert(r@ =~= list_gists_request_spec(token@));
    }
    r
}

/// The fetch exchange: an unauthenticated GET of a file's raw-content URL.
pub open spec fn fetch_raw_content_request_spec(url: Seq<char>) -> HttpRequestSpec {
    HttpRequestSpec {
        method: Method::Get,
        url: url,
        auth_token: None,
        basic_auth: None,
        otp: None,
        body: None,
    }
}

/// Builds the request that fetches one file's raw content.
pub fn fetch_raw_content_request(url: &String) -> (r: HttpRequest)
    ensures
        r@ == fetch_raw_content_request_spec(url@),
{
    let r = HttpRequest {
        method: Method::Get,
        url: url.clone(),
        auth_token: None,
        basic_auth: None,
        otp: None,
        body: None,
    };
    proof {
        assert(r@ =~= fetch_raw_content_request_spec(url@));
    }
    r
}

/// Fetching raw content is idempotent on the client's side: the exchange
/// depends on the URL alone, so two fetches of one URL ask the service the
/// same question, and with no remote change in between they are answered
/// from the same remote state.  The remote half of that bargain is the
/// service's to keep.
pub proof fn lemma_fetch_raw_content_idempotent(u1: String, u2: String)
    requires
        u1@ == u2@,
    ensures
        fetch_raw_content_request_spec(u1@) == fetch_raw_content_request_spec(u2@),
{
}

} // verus!
