//! The workflow controller's decisions.
//!
//! Each operation — login, create, display, download — is a linear pipeline
//! that short-circuits on a missing prerequisite.  The decisions of that
//! pipeline live here as functions from plain values to the next `Action`;
//! the surrounding process performs the actions (the exchange, the prompt,
//! the file write) and hands the answers back as plain values.

use vstd::prelude::*;

use crate::gist::GistFilePayload;
use crate::http::authorizations_endpoint;
use crate::http::authorizations_url;
use crate::http::gists_endpoint;
use crate::http::gists_url;
use crate::http::list_gists_request;
use crate::http::list_gists_request_spec;
use crate::http::HttpRequest;
use crate::http::HttpRequestSpec;
use crate::http::Method;
use crate::json::build_create_body;
use crate::json::build_login_body;
use crate::json::create_body;
use crate::json::login_body;
use crate::json::login_note;
use crate::json::make_login_note;
use crate::token::read_token_from_file;
use crate::token::trim_spec;
use crate::token::write_token_to_file;
use crate::token::TokenStore;

verus! {

/// Creating a gist failed: a source file could not be read, or the service
/// answered with anything but 201.
#[derive(Debug)]
pub struct CreateGistError {}

impl CreateGistError {
    /// The line the process prints for this error.
    pub fn message(&self) -> (r: String)
        ensures
            r@ == "SuperError is here!"@,
    {
        "SuperError is here!".to_owned()
    }

    /// The error's short description.
    pub fn description(&self) -> (r: String)
        ensures
            r@ == "File error"@,
    {
        "File error".to_owned()
    }
}

/// Saving a downloaded gist file failed.
#[derive(Debug)]
pub struct SaveGistError {}

impl SaveGistError {
    /// The line the process prints for this error.
    pub fn message(&self) -> (r: String)
        ensures
            r@ == "SuperError is here!"@,
    {
        "SuperError is here!".to_owned()
    }

    /// The error's short description.
    pub fn description(&self) -> (r: String)
        ensures
            r@ == "File error"@,
    {
        "File error".to_owned()
    }
}

/// Logging in failed for a reason no retry will mend.
#[derive(Debug)]
pub struct LoginError {}

impl LoginError {
    /// The line the process prints for this error.
    pub fn message(&self) -> (r: String)
        ensures
            r@ == "LoginError"@,
    {
        "LoginError".to_owned()
    }

    /// The error's short description.
    pub fn description(&self) -> (r: String)
        ensures
            r@ == "Authentication Error"@,
    {
        "Authentication Error".to_owned()
    }
}

/// One local file of a create request, as the process read it: the name the
/// gist entry will carry, and the content, or nothing where reading failed.
pub struct FileRead {
    pub name: String,
    pub content: Option<String>,
}

/// Whether every file of the batch was read.
pub open spec fn all_readable(reads: Seq<FileRead>) -> bool {
    forall|i: int| 0 <= i < reads.len() ==> (#[trigger] reads[i]).content is Some
}

/// The filename-to-content pairs of a fully read batch, in the given order.
pub open spec fn read_pairs(reads: Seq<FileRead>) -> Seq<(String, String)> {
    Seq::new(reads.len(), |i: int| (reads[i].name, reads[i].content->0))
}

/// What the workflow asks the surrounding process to do next.
pub enum Action {
    /// There is no stored token: print the login hint and stop, succeeding.
    AbortTokenMissing,
    /// A required value was not supplied: print a message and stop,
    /// succeeding.
    AbortMissingInput,
    /// A local file could not be read: the whole operation fails.
    FailLocalIo(CreateGistError),
    /// Perform this exchange and hand back what the service answered.
    Request(HttpRequest),
    /// Present these labels and hand back the chosen index, if any.
    Select(Vec<String>),
}

/// An action's view: the same cases over character sequences.
#[verifier::ext_equal]
pub enum ActionSpec {
    AbortTokenMissing,
    AbortMissingInput,
    FailLocalIo,
    Request(HttpRequestSpec),
    Select(Seq<Seq<char>>),
}

impl View for Action {
    type V = ActionSpec;

    open spec fn view(&self) -> ActionSpec {
        match self {
            Action::AbortTokenMissing => ActionSpec::AbortTokenMissing,
            Action::AbortMissingInput => ActionSpec::AbortMissingInput,
            Action::FailLocalIo(_) => ActionSpec::FailLocalIo,
            Action::Request(r) => ActionSpec::Request(r@),
            Action::Select(labels) => ActionSpec::Select(
                Seq::new(labels@.len(), |i: int| labels@[i]@),
            ),
        }
    }
}

/// Everything the create operation decides before its one exchange, as a
/// function of the stored token, the supplied options and the file reads.
pub open spec fn create_action(
    store: TokenStore,
    description: Option<String>,
    public: bool,
    files: Option<Vec<FileRead>>,
) -> ActionSpec {
    match store.contents {
        None => ActionSpec::AbortTokenMissing,
        Some(c) => match files {
            None => ActionSpec::AbortMissingInput,
            Some(reads) => match description {
                None => ActionSpec::AbortMissingInput,
                Some(d) => if !all_readable(reads@) {
                    ActionSpec::FailLocalIo
                } else {
                    ActionSpec::Request(
                        HttpRequestSpec {
                            method: Method::Post,
                            url: gists_url(),
                            auth_token: Some(trim_spec(c@)),
                            basic_auth: None,
                            otp: None,
                            body: Some(create_body(d@, public, read_pairs(reads@))),
                        },
                    )
                },
            },
        },
    }
}

/// The create operation up to its exchange: one read of the token store, the
/// input checks, the eager read of every file into memory, and the POST that
/// creates the gist.  Any unreadable file abandons the whole request before
/// anything is sent.
#[verifier::loop_isolation(false)]
pub fn create_gist(
    store: &TokenStore,
    description: Option<String>,
    public: bool,
    files: Option<Vec<FileRead>>,
) -> (r: Action)
    ensures
        r@ == create_action(*store, description, public, files),
{
    let token = match read_token_from_file(store) {
        Ok(t) => t,
        Err(_) => {
            return Action::AbortTokenMissing;
        },
    };
    let reads = match files {
        Some(reads) => reads,
        None => {
            return Action::AbortMissingInput;
        },
    };
    let d = match description {
        Some(d) => d,
        None => {
            return Action::AbortMissingInput;
        },
    };
    let n = reads.len();
    let mut pairs: Vec<(String, String)> = Vec::new();
    let mut i: usize = 0;
    while i < n
        invariant
            i <= n,
            n == reads@.len(),
            forall|k: int| 0 <= k < i ==> (#[trigger] reads@[k]).content is Some,
            pairs@ =~= read_pairs(reads@.subrange(0, i as int)),
        decreases n - i,
    {
        match &reads[i].content {
            Some(c) => {
                pairs.push((reads[i].name.clone(), c.clone()));
            },
            None => {
                proof {
                    assert(!all_readable(reads@)) by {
                        assert(reads@[i as int].content is None);
                    }
                }
                return Action::FailLocalIo(CreateGistError {});
            },
        }
        proof {
            assert(pairs@ =~= read_pairs(reads@.subrange(0, i as int + 1)));
        }
        i += 1;
    }
    proof {
        assert(reads@.subrange(0, n as int) =~= reads@);
        assert(pairs@ =~= read_pairs(reads@));
    }
    let body = build_create_body(d.as_str(), public, &pairs);
    let req = HttpRequest {
        method: Method::Post,
        url: gists_endpoint(),
        auth_token: Some(token),
        basic_auth: None,
        otp: None,
        body: Some(body),
    };
    let r = Action::Request(req);
    proof {
        assert(r@ =~= create_action(*store, description, public, files));
    }
    r
}

/// The create path has no selection step: whatever the stored token, the
/// options and the file reads, the create operation's next action is an
/// abort, a local failure or its one POST — never a selection.  And when the
/// POST happens, it carries exactly the token that the one consultation of
/// the token store yields.
pub proof fn lemma_create_never_selects(
    store: TokenStore,
    description: Option<String>,
    public: bool,
    files: Option<Vec<FileRead>>,
)
    ensures
        !(create_action(store, description, public, files) is Select),
        (match create_action(store, description, public, files) {
            ActionSpec::Request(rs) => store.contents is Some && rs.auth_token == Some(
                trim_spec(store.contents->0@),
            ),
            _ => true,
        }),
{
}

/// What the create operation makes of the service's answer: the created
/// gist's HTML URL exactly on a 201 whose payload decoded, the create error
/// on any other status or a malformed payload.
pub fn create_gist_outcome(status: u16, html_url: Option<String>) -> (r: Result<
    String,
    CreateGistError,
>)
    ensures
        status == 201 && html_url is Some ==> (r matches Ok(u) && Some(u) == html_url),
        !(status == 201 && html_url is Some) ==> r is Err,
{
    if status == 201 {
        match html_url {
            Some(u) => Ok(u),
            None => Err(CreateGistError {}),
        }
    } else {
        Err(CreateGistError {})
    }
}

/// The first step of display and download alike: one read of the token
/// store, then the authenticated list exchange.
pub open spec fn list_action(store: TokenStore) -> ActionSpec {
    match store.contents {
        None => ActionSpec::AbortTokenMissing,
        Some(c) => ActionSpec::Request(list_gists_request_spec(trim_spec(c@))),
    }
}

/// Starts a display or download operation: the list request, or the benign
/// abort when no token is stored.
pub fn start_list_gists(store: &TokenStore) -> (r: Action)
    ensures
        r@ == list_action(*store),
{
    match read_token_from_file(store) {
        Ok(token) => {
            let r = Action::Request(list_gists_request(&token));
            proof {
                assert(r@ =~= list_action(*store));
            }
            r
        },
        Err(_) => Action::AbortTokenMissing,
    }
}

/// The credentials the login operation collects.
pub struct LoginOptions {
    pub username: String,
    pub password: String,
    pub two_factor_code: Option<String>,
}

/// Relies on uuid::Uuid::new_v4 and its Display form: a fresh random
/// identifier, rendered as thirty-six hyphenated lower-case hex characters.
#[verifier::external_body]
fn new_nonce() -> (r: String)
    ensures
        r@.len() == 36,
{
    uuid::Uuid::new_v4().to_string()
}

/// The login exchange for the given credentials: a POST to the authorization
/// endpoint under Basic authentication, the one-time code where one was
/// given, and the login body around a note carrying a fresh nonce.
pub fn login(options: &LoginOptions) -> (r: HttpRequest)
    ensures
        r@.method is Post,
        r@.url == authorizations_url(),
        r@.auth_token is None,
        r@.basic_auth == Some((options.username@, options.password@)),
        r@.otp == (match options.two_factor_code {
            Some(c) => Some(c@),
            None => None::<Seq<char>>,
        }),
        exists|nonce: Seq<char>|
            #![auto]
            nonce.len() == 36 && r@.body == Some(login_body(login_note(nonce))),
{
    let nonce = new_nonce();
    let note = make_login_note(nonce.as_str());
    let body = build_login_body(note.as_str());
    let otp = match &options.two_factor_code {
        Some(c) => Some(c.clone()),
        None => None,
    };
    let r = HttpRequest {
        method: Method::Post,
        url: authorizations_endpoint(),
        auth_token: None,
        basic_auth: Some((options.username.clone(), options.password.clone())),
        otp,
        body: Some(body),
    };
    proof {
        assert(nonce@.len() == 36 && r@.body == Some(login_body(login_note(nonce@))));
    }
    r
}

/// How a login ends.
pub enum LoginOutcome {
    /// The service issued a token and it is now stored.
    TokenStored,
    /// The service answered 401: recoverable, the user may try again.
    AuthenticationFailed,
    /// Any other failure: fatal.
    Failed(LoginError),
}

/// The end of the login operation: what the status code and the token field
/// of the decoded payload decide.  A 401 is the recoverable authentication
/// failure and stores nothing; only a 201 whose payload decoded stores a
/// token, and it stores exactly the payload's token field; any other answer
/// is fatal and stores nothing.
pub fn complete_login(store: &mut TokenStore, status: u16, token_field: Option<String>) -> (r:
    LoginOutcome)
    ensures
        status == 401 ==> r is AuthenticationFailed && *final(store) == *old(store),
        status != 401 && status != 201 ==> r is Failed && *final(store) == *old(store),
        status == 201 ==> (match token_field {
            Some(t) => r is TokenStored && final(store).contents == Some(t),
            None => r is Failed && *final(store) == *old(store),
        }),
{
    if status == 401 {
        return LoginOutcome::AuthenticationFailed;
    }
    if status != 201 {
        return LoginOutcome::Failed(LoginError {});
    }
    match token_field {
        Some(t) => {
            write_token_to_file(store, t);
            LoginOutcome::TokenStored
        },
        None => LoginOutcome::Failed(LoginError {}),
    }
}

/// What the download operation persists once content is fetched: exactly the
/// fetched content, under the gist file's own filename, in the working
/// directory.
pub fn download_save_plan(file: &GistFilePayload, content: String) -> (r: (String, String))
    ensures
        r.0 == file.filename,
        r.1 == content,
{
    (file.filename.clone(), content)
}

} // verus!
