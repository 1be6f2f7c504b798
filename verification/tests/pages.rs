use media_recommendation_engine::frontend::{frontend_redirect, frontend_redirect_explicit, HXTarget};
use media_recommendation_engine::pages::{
    error_page, homepage, index_page, invalid_session_notice, session_redirect, text_notification,
    Css, HXLocation, HXRedirect, HomepageBody, Location,
};

#[test]
fn targets_have_names_and_selectors() {
    assert_eq!(HXTarget::All.as_str(), "all");
    assert_eq!(HXTarget::Content.as_str(), "content");
    assert_eq!(HXTarget::All.as_target(), "#all");
    assert_eq!(HXTarget::Content.as_target(), "#content");
}

#[test]
fn redirect_attributes() {
    assert_eq!(
        frontend_redirect("/library", HXTarget::Content),
        "hx-get=\"/library\" hx-target=#content hx-push-url=\"/?content=/library\""
    );
    assert_eq!(
        frontend_redirect_explicit("/video/3", HXTarget::All, None),
        "hx-get=\"/video/3\" hx-target=#all"
    );
    assert_eq!(
        frontend_redirect_explicit("/", HXTarget::All, Some("/")),
        "hx-get=\"/\" hx-target=#all hx-push-url=\"/\""
    );
}

#[test]
fn homepage_defaults_to_the_library() {
    match homepage(None) {
        HomepageBody::Page(h) => {
            assert_eq!(h.route, "/library");
            assert_eq!(h.content, "content");
            assert_eq!(h.redirect_library, frontend_redirect("/library", HXTarget::Content));
            assert_eq!(h.redirect_explore, frontend_redirect("/explore", HXTarget::Content));
            assert_eq!(h.redirect_settings, frontend_redirect("/settings", HXTarget::All));
        }
        HomepageBody::Load(_) => panic!("expected the page"),
    }
}

#[test]
fn homepage_content_and_all_locations() {
    match homepage(Some(Location::Content { content: "/explore".to_string() })) {
        HomepageBody::Page(h) => assert_eq!(h.route, "/explore"),
        HomepageBody::Load(_) => panic!("expected the page"),
    }
    match homepage(Some(Location::All { all: "/settings".to_string() })) {
        HomepageBody::Load(div) => assert_eq!(
            div,
            "<div hx-trigger=\"load\" hx-get=\"/settings\" hx-target=#all hx-push-url=\"/?all=/settings\"> </div>"
        ),
        HomepageBody::Page(_) => panic!("expected the loader"),
    }
}

#[test]
fn error_page_links_back_home() {
    let e = error_page("boom".to_string());
    assert_eq!(e.err, "boom");
    assert_eq!(e.redirect, "hx-get=\"/\" hx-target=#all hx-push-url=\"/\"");
    let i = index_page("<p>x</p>".to_string());
    assert_eq!(i.body, "<p>x</p>");
    assert_eq!(i.all, "all");
}

#[test]
fn htmx_redirect_responses() {
    let r = HXRedirect::to_path("library/3");
    assert_eq!(r.0, "/library/3");
    assert_eq!(r.header(), ("HX-Redirect", "/library/3"));
    let l = HXLocation::to_path("x");
    assert_eq!(l.header(), ("HX-Location", "/x"));
    assert_eq!(Css("body {}").content_type(), "text/css; charset=utf-8");
}

#[test]
fn session_pages() {
    assert_eq!(session_redirect(42), "/?all=/video/session/42");
    let n = invalid_session_notice();
    assert_eq!(n.msg, "This session seems to be invalid... Falling back to previous page");
    assert_eq!(n.script, "/scripts/back.js");
    let t = text_notification("hi".to_string());
    assert_eq!(t.script, "");
}
