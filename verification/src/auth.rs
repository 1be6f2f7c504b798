//! Users, credentials and the decisions of the login flow: whom the login
//! form lets in, where an anonymous request is sent, and where the browser
//! goes after logging in.
use vstd::prelude::*;
use vstd::std_specs::convert::FromSpecImpl;
use crate::text::{owned_string, Pat, Pattern, split_once, split_once_chars, string_from_chars, to_chars};
use crate::text::push_str;

verus! {

#[verifier::external_type_specification]
#[verifier::external_body]
pub struct ExVerifyError(password_auth::VerifyError);

/// Whether `password` verifies against the PHC password hash `hash` under
/// one of the hashing algorithms that `password_auth` supports. It depends
/// on the two strings alone.
pub uninterp spec fn password_verifies(password: Seq<char>, hash: Seq<char>) -> bool;

/// `password_auth::verify_password`: `Ok` exactly when the password
/// verifies against the hash; an unparsable hash is an error too.
#[verifier::external_body]
fn verify_password(password: &str, hash: &str) -> (r: Result<(), password_auth::VerifyError>)
    ensures
        r is Ok <==> password_verifies(password@, hash@),
{
    password_auth::verify_password(password, hash)
}

/// A registered user and the hash of their password.
#[derive(Clone)]
pub struct User {
    pub id: i64,
    pub username: String,
    password: String,
}

/// A user as plain values.
pub struct UserView {
    pub id: i64,
    pub username: Seq<char>,
    pub password_hash: Seq<char>,
}

impl View for User {
    type V = UserView;

    closed spec fn view(&self) -> UserView {
        UserView { id: self.id, username: self.username@, password_hash: self.password@ }
    }
}

impl User {
    /// A user as the database stores it.
    pub fn new(id: i64, username: String, password: String) -> (r: Self)
        ensures
            r@ == (UserView { id, username: username@, password_hash: password@ }),
    {
        User { id, username, password }
    }

    /// The bytes that tie a login session to this user: the password
    /// hash, so that a changed password ends old sessions.
    pub fn session_auth_hash(&self) -> (r: &str)
        ensures
            r@ == self@.password_hash,
    {
        self.password.as_str()
    }
}

/// What the login form sends.
pub struct Credentials {
    pub username: String,
    pub password: String,
}

/// A named permission, such as `owner`.
#[derive(PartialEq, Eq, Hash)]
pub struct Permission {
    name: String,
}

impl Permission {
    pub closed spec fn name_view(&self) -> Seq<char> {
        self.name@
    }

    pub fn name(&self) -> (r: &str)
        ensures
            r@ == self.name_view(),
    {
        self.name.as_str()
    }
}

impl From<String> for Permission {
    fn from(value: String) -> (r: Self)
        ensures
            r.name_view() == value@,
    {
        Permission { name: value }
    }
}

impl FromSpecImpl<String> for Permission {
    open spec fn obeys_from_spec() -> bool {
        true
    }

    closed spec fn from_spec(v: String) -> Self {
        Permission { name: v }
    }
}

/// The user that the login form lets in: the user stored under the given
/// name, if any, when the given password verifies against their hash.
pub fn authenticate(user: Option<User>, creds: &Credentials) -> (r: Option<User>)
    ensures
        match user {
            Some(u) => if password_verifies(creds.password@, u@.password_hash) {
                r matches Some(v) && v@ == u@
            } else {
                r is None
            },
            None => r is None,
        },
{
    match user {
        Some(u) => {
            if verify_password(creds.password.as_str(), u.password.as_str()).is_ok() {
                Some(u)
            } else {
                None
            }
        },
        None => None,
    }
}

/// What becomes of a request to a page that needs a login.
pub enum AccessDecision {
    /// A user is logged in: the request goes on.
    Proceed,
    /// An htmx request without a login: `401` with an `HX-Redirect` header.
    Unauthorized { hx_redirect: String },
    /// A plain request without a login: `303` with a `Location` header.
    SeeOther { location: String },
}

/// What follows the first match of `p` in `s`, or nothing without one.
pub open spec fn after_first(s: Seq<char>, p: Pat) -> Seq<char> {
    match split_once(s, p) {
        Some((_, rest)) => rest,
        None => Seq::empty(),
    }
}

/// The path of a URL such as `http://host/a/b`: what follows the first `/`
/// after the `//`, here `a/b`.
pub open spec fn url_path(url: Seq<char>) -> Seq<char> {
    after_first(after_first(url, Pat::Text("//"@)), Pat::Char('/'))
}

fn rest_after(s: &[char], p: &Pattern) -> (r: Vec<char>)
    ensures
        r@ == after_first(s@, p@),
{
    match split_once_chars(s, p) {
        Some((_, rest)) => rest,
        None => Vec::new(),
    }
}

/// Where a request without a login goes. An htmx request (`htmx`) is sent
/// to `/auth/login?next=/<path>`, with the path of the page it came from
/// (`current_url`, the `HX-Current-Url` header when it is readable); any
/// other request to `/auth/login?next=<uri>`, with the URI it asked for.
pub fn login_required(logged_in: bool, htmx: bool, current_url: Option<&str>, uri: &str) -> (r:
    AccessDecision)
    ensures
        logged_in ==> r is Proceed,
        !logged_in && htmx ==> (r matches AccessDecision::Unauthorized { hx_redirect }
            && hx_redirect@ == "/auth/login?next=/"@ + url_path(
            match current_url {
                Some(u) => u@,
                None => Seq::<char>::empty(),
            },
        )),
        !logged_in && !htmx ==> (r matches AccessDecision::SeeOther { location } && location@
            == "/auth/login?next="@ + uri@),
{
    if logged_in {
        return AccessDecision::Proceed;
    }
    if htmx {
        let complete: Vec<char> = match current_url {
            Some(u) => to_chars(u),
            None => Vec::new(),
        };
        let slashes = to_chars("//");
        let after_host = rest_after(complete.as_slice(), &Pattern::Text(slashes));
        let path = rest_after(after_host.as_slice(), &Pattern::Char('/'));
        let mut out: Vec<char> = Vec::new();
        push_str(&mut out, "/auth/login?next=/");
        let ghost head = out@;
        crate::text::push_chars(&mut out, path.as_slice());
        AccessDecision::Unauthorized { hx_redirect: string_from_chars(out.as_slice()) }
    } else {
        let mut out: Vec<char> = Vec::new();
        push_str(&mut out, "/auth/login?next=");
        push_str(&mut out, uri);
        AccessDecision::SeeOther { location: string_from_chars(out.as_slice()) }
    }
}

/// A query value that is empty counts as absent.
pub fn empty_string_as_none(value: Option<String>) -> (r: Option<String>)
    ensures
        match value {
            Some(v) => if v@.len() == 0 {
                r is None
            } else {
                r matches Some(w) && w@ == v@
            },
            None => r is None,
        },
{
    match value {
        Some(v) => if v.as_str().unicode_len() == 0 {
            None
        } else {
            Some(v)
        },
        None => None,
    }
}

/// Where the login form posts to: `/auth/login/submit`, carrying the page
/// to return to as `?next=<next>` when there is one.
pub fn login_post_url(next: Option<&str>) -> (r: String)
    ensures
        r@ == match next {
            Some(n) => "/auth/login/submit?next="@ + n@,
            None => "/auth/login/submit"@,
        },
{
    let mut out: Vec<char> = Vec::new();
    match next {
        Some(n) => {
            push_str(&mut out, "/auth/login/submit?next=");
            push_str(&mut out, n);
        },
        None => {
            push_str(&mut out, "/auth/login/submit");
        },
    }
    string_from_chars(out.as_slice())
}

/// Where the browser goes after a successful login: the page it came
/// from, or the start page.
pub fn after_login_redirect(next: Option<String>) -> (r: String)
    ensures
        r@ == match next {
            Some(n) => n@,
            None => "/"@,
        },
{
    match next {
        Some(n) => n,
        None => owned_string("/"),
    }
}

/// The login page: its title, where it posts to, and an optional line
/// under the title.
pub struct LoginPage {
    pub title: String,
    pub post_url: String,
    pub sub_text: Option<String>,
}

impl LoginPage {
    /// The page that the login route shows, for the page to return to.
    pub fn for_next(next: Option<&str>) -> (r: Self)
        ensures
            r.title@ == "Login"@,
            r.post_url@ == match next {
                Some(n) => "/auth/login/submit?next="@ + n@,
                None => "/auth/login/submit"@,
            },
            r.sub_text is None,
    {
        LoginPage {
            title: owned_string("Login"),
            post_url: login_post_url(next),
            sub_text: None,
        }
    }
}

} // verus!
