//! htmx attributes that make the browser load a route into a part of the page.
use vstd::prelude::*;
use crate::text::{push_str, string_from_chars};

verus! {

/// The part of the index page that a route replaces.
#[derive(Clone, Copy, PartialEq, Eq, Structural, Debug)]
pub enum HXTarget {
    All,
    Content,
}

/// The name of the target.
pub open spec fn target_name(t: HXTarget) -> Seq<char> {
    match t {
        HXTarget::All => "all"@,
        HXTarget::Content => "content"@,
    }
}

/// The CSS selector of the target.
pub open spec fn target_selector(t: HXTarget) -> Seq<char> {
    match t {
        HXTarget::All => "#all"@,
        HXTarget::Content => "#content"@,
    }
}

/// `hx-get="<route>" hx-target=<selector>`, followed by
/// ` hx-push-url="<push_url>"` when there is a URL to push.
pub open spec fn redirect_spec(route: Seq<char>, target: HXTarget, push_url: Option<Seq<char>>) -> Seq<char> {
    let base = "hx-get=\""@ + route + "\" hx-target="@ + target_selector(target);
    match push_url {
        Some(u) => base + " hx-push-url=\""@ + u + "\""@,
        None => base,
    }
}

/// The URL that the address bar shows for a route loaded into a target:
/// `/?<target name>=<route>`.
pub open spec fn push_url_spec(route: Seq<char>, target: HXTarget) -> Seq<char> {
    "/?"@ + target_name(target) + "="@ + route
}

impl HXTarget {
    pub fn as_str(self) -> (r: &'static str)
        ensures
            r@ == target_name(self),
    {
        match self {
            HXTarget::All => "all",
            HXTarget::Content => "content",
        }
    }

    pub fn as_target(self) -> (r: &'static str)
        ensures
            r@ == target_selector(self),
    {
        match self {
            HXTarget::All => "#all",
            HXTarget::Content => "#content",
        }
    }
}

/// The attributes that load `route` into `target` and push `push_url`
/// into the browser history, when given.
pub fn frontend_redirect_explicit(route: &str, target: HXTarget, push_url: Option<&str>) -> (r: String)
    ensures
        r@ == redirect_spec(
            route@,
            target,
            match push_url {
                Some(u) => Some(u@),
                None => None::<Seq<char>>,
            },
        ),
{
    let mut out: Vec<char> = Vec::new();
    push_str(&mut out, "hx-get=\"");
    push_str(&mut out, route);
    push_str(&mut out, "\" hx-target=");
    push_str(&mut out, target.as_target());
    match push_url {
        Some(u) => {
            push_str(&mut out, " hx-push-url=\"");
            push_str(&mut out, u);
            push_str(&mut out, "\"");
        },
        None => {},
    }
    proof {
        let base = "hx-get=\""@ + route@ + "\" hx-target="@ + target_selector(target);
        assert(Seq::<char>::empty() + "hx-get=\""@ + route@ + "\" hx-target="@ + target_selector(target) =~= base);
    }
    string_from_chars(out.as_slice())
}

/// The attributes that load `route` into `target` and show it in the
/// address bar as `/?<target>=<route>`.
pub fn frontend_redirect(route: &str, target: HXTarget) -> (r: String)
    ensures
        r@ == redirect_spec(route@, target, Some(push_url_spec(route@, target))),
{
    let mut url: Vec<char> = Vec::new();
    push_str(&mut url, "/?");
    push_str(&mut url, target.as_str());
    push_str(&mut url, "=");
    push_str(&mut url, route);
    assert(url@ =~= push_url_spec(route@, target));
    let url = string_from_chars(url.as_slice());
    frontend_redirect_explicit(route, target, Some(url.as_str()))
}

} // verus!
