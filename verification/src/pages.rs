//! The content of the pages that the server renders: the index shell, the
//! start page, the error pages, and the htmx redirect responses.
use vstd::prelude::*;
use crate::frontend::{
    frontend_redirect, frontend_redirect_explicit, push_url_spec, redirect_spec, HXTarget,
};
use crate::text::{owned_string, push_str, string_from_chars, to_chars, push_chars};

verus! {

/// The index shell: the page body, and the id of the part that routes
/// loaded into the whole page replace.
pub struct Index {
    pub body: String,
    pub all: String,
}

/// The start page: the links of its menu, the id of the content part, and
/// the route that the content part loads first.
pub struct Homepage {
    pub redirect_library: String,
    pub redirect_explore: String,
    pub redirect_settings: String,
    pub content: String,
    pub route: String,
}

/// Where the start page was asked to go: a route to load into the content
/// part (`?content=<route>`), or into the whole page (`?all=<route>`).
pub enum Location {
    Content { content: String },
    All { all: String },
}

/// What the start page shows: the page with its content route, or an
/// element that loads a route into the whole page at once.
pub enum HomepageBody {
    Page(Homepage),
    Load(String),
}

/// The error page: the message and the link back to the start.
pub struct Error {
    pub err: String,
    pub redirect: String,
}

/// The page that shows an error's details during development.
pub struct DebugError {
    pub err: String,
}

/// The attributes that load `route` into `target` and show it in the
/// address bar.
pub open spec fn link(route: Seq<char>, target: HXTarget) -> Seq<char> {
    redirect_spec(route, target, Some(push_url_spec(route, target)))
}

/// The index shell around a body.
pub fn index_page(body: String) -> (r: Index)
    ensures
        r.body@ == body@,
        r.all@ == "all"@,
{
    Index { body, all: owned_string(HXTarget::All.as_str()) }
}

/// The start page with the given content route.
pub fn homepage_with_route(route: String) -> (r: Homepage)
    ensures
        r.redirect_library@ == link("/library"@, HXTarget::Content),
        r.redirect_explore@ == link("/explore"@, HXTarget::Content),
        r.redirect_settings@ == link("/settings"@, HXTarget::All),
        r.content@ == "content"@,
        r.route@ == route@,
{
    Homepage {
        redirect_library: frontend_redirect("/library", HXTarget::Content),
        redirect_explore: frontend_redirect("/explore", HXTarget::Content),
        redirect_settings: frontend_redirect("/settings", HXTarget::All),
        content: owned_string(HXTarget::Content.as_str()),
        route,
    }
}

/// What the start page shows for the location it was asked for: without
/// one, the page with the library; for a content route, the page with
/// that route; for a whole-page route, `<div hx-trigger="load" <link>> </div>`.
pub fn homepage(location: Option<Location>) -> (r: HomepageBody)
    ensures
        match location {
            None => r matches HomepageBody::Page(h) && h.route@ == "/library"@,
            Some(Location::Content { content }) => r matches HomepageBody::Page(h) && h.route@
                == content@,
            Some(Location::All { all }) => r matches HomepageBody::Load(div) && div@
                == "<div hx-trigger=\"load\" "@ + link(all@, HXTarget::All) + "> </div>"@,
        },
        r matches HomepageBody::Page(h) ==> {
            &&& h.redirect_library@ == link("/library"@, HXTarget::Content)
            &&& h.redirect_explore@ == link("/explore"@, HXTarget::Content)
            &&& h.redirect_settings@ == link("/settings"@, HXTarget::All)
            &&& h.content@ == "content"@
        },
{
    match location {
        None => HomepageBody::Page(homepage_with_route(owned_string("/library"))),
        Some(Location::Content { content }) => HomepageBody::Page(homepage_with_route(content)),
        Some(Location::All { all }) => {
            let redirect = frontend_redirect(all.as_str(), HXTarget::All);
            let mut out: Vec<char> = Vec::new();
            push_str(&mut out, "<div hx-trigger=\"load\" ");
            let r = to_chars(redirect.as_str());
            push_chars(&mut out, r.as_slice());
            push_str(&mut out, "> </div>");
            HomepageBody::Load(string_from_chars(out.as_slice()))
        },
    }
}

/// The error page for a message: its link goes back to the start page.
pub fn error_page(err: String) -> (r: Error)
    ensures
        r.err@ == err@,
        r.redirect@ == redirect_spec("/"@, HXTarget::All, Some("/"@)),
{
    Error { err, redirect: frontend_redirect_explicit("/", HXTarget::All, Some("/")) }
}

/// An `HX-Redirect` response: the browser loads the path as a new page.
pub struct HXRedirect(pub String);

/// An `HX-Location` response: htmx loads the path without a page reload.
pub struct HXLocation(pub String);

/// A response whose content type is CSS.
pub struct Css<T>(pub T);

impl<T> Css<T> {
    /// The content type of the response.
    pub fn content_type(&self) -> (r: &'static str)
        ensures
            r@ == "text/css; charset=utf-8"@,
    {
        "text/css; charset=utf-8"
    }
}

fn rooted(path: &str) -> (r: String)
    ensures
        r@ == "/"@ + path@,
{
    let mut out: Vec<char> = Vec::new();
    push_str(&mut out, "/");
    push_str(&mut out, path);
    string_from_chars(out.as_slice())
}

impl HXRedirect {
    /// The redirect of `/redirect/<path>`: to `/<path>`.
    pub fn to_path(path: &str) -> (r: Self)
        ensures
            r.0@ == "/"@ + path@,
    {
        HXRedirect(rooted(path))
    }

    /// The header that carries the redirect.
    pub fn header(&self) -> (r: (&'static str, &str))
        ensures
            r.0@ == "HX-Redirect"@,
            r.1@ == self.0@,
    {
        ("HX-Redirect", self.0.as_str())
    }
}

impl HXLocation {
    /// The location of `/location/<path>`: `/<path>`.
    pub fn to_path(path: &str) -> (r: Self)
        ensures
            r.0@ == "/"@ + path@,
    {
        HXLocation(rooted(path))
    }

    /// The header that carries the location.
    pub fn header(&self) -> (r: (&'static str, &str))
        ensures
            r.0@ == "HX-Location"@,
            r.1@ == self.0@,
    {
        ("HX-Location", self.0.as_str())
    }
}

/// The player page of a session.
pub struct Video {
    pub id: u64,
}

/// The explore page, which has no content of its own yet.
pub struct ExploreTemplate;

/// A notification shown by the player: its text and a script to run.
pub struct Notification {
    pub msg: String,
    pub script: String,
}

/// The notification of a plain message, with no script.
pub fn text_notification(msg: String) -> (r: Notification)
    ensures
        r.msg@ == msg@,
        r.script@ == Seq::<char>::empty(),
{
    Notification { msg, script: String::new() }
}

/// What a client is told when it joins a session that does not exist: it
/// goes back to the page it came from.
pub fn invalid_session_notice() -> (r: Notification)
    ensures
        r.msg@ == "This session seems to be invalid... Falling back to previous page"@,
        r.script@ == "/scripts/back.js"@,
{
    Notification {
        msg: owned_string("This session seems to be invalid... Falling back to previous page"),
        script: owned_string("/scripts/back.js"),
    }
}

/// Where a new session sends the browser: `/?all=/video/session/<id>`.
pub fn session_redirect(session_id: u32) -> (r: String)
    ensures
        r@ == "/?all=/video/session/"@ + crate::text::decimal(session_id as nat),
{
    let mut out: Vec<char> = Vec::new();
    push_str(&mut out, "/?all=/video/session/");
    crate::text::push_decimal(&mut out, session_id as u64);
    string_from_chars(out.as_slice())
}

} // verus!
