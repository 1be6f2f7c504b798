use media_recommendation_engine::auth::{
    after_login_redirect, authenticate, empty_string_as_none, login_post_url, login_required,
    AccessDecision, Credentials, LoginPage, Permission, User,
};

const PASSWORD_HASH: &str =
    "$argon2i$v=19$m=65536,t=1,p=1$c29tZXNhbHQAAAAAAAAAAA$+r0d29hqEB0yasKr55ZgICsQGSkl0v0kgwhd+U3wyRo";

fn creds(password: &str) -> Credentials {
    Credentials { username: "ann".to_string(), password: password.to_string() }
}

#[test]
fn right_password_lets_the_user_in() {
    let user = User::new(7, "ann".to_string(), PASSWORD_HASH.to_string());
    let in_user = authenticate(Some(user), &creds("password")).unwrap();
    assert_eq!(in_user.id, 7);
    assert_eq!(in_user.username, "ann");
    assert_eq!(in_user.session_auth_hash(), PASSWORD_HASH);
}

#[test]
fn wrong_password_or_unknown_user_is_refused() {
    let user = User::new(7, "ann".to_string(), PASSWORD_HASH.to_string());
    assert!(authenticate(Some(user), &creds("bogus")).is_none());
    assert!(authenticate(None, &creds("password")).is_none());
    let broken = User::new(8, "bob".to_string(), "not a hash".to_string());
    assert!(authenticate(Some(broken), &creds("not a hash")).is_none());
}

#[test]
fn anonymous_htmx_request_goes_to_login_with_its_page() {
    match login_required(false, true, Some("http://host:3000/library/Movie/3"), "/library/Movie/3") {
        AccessDecision::Unauthorized { hx_redirect } => {
            assert_eq!(hx_redirect, "/auth/login?next=/library/Movie/3")
        }
        _ => panic!("expected an htmx redirect"),
    }
    match login_required(false, true, None, "/x") {
        AccessDecision::Unauthorized { hx_redirect } => assert_eq!(hx_redirect, "/auth/login?next=/"),
        _ => panic!("expected an htmx redirect"),
    }
}

#[test]
fn anonymous_page_request_goes_to_login_with_its_uri() {
    match login_required(false, false, None, "/settings/?tab=1") {
        AccessDecision::SeeOther { location } => assert_eq!(location, "/auth/login?next=/settings/?tab=1"),
        _ => panic!("expected a redirect"),
    }
    assert!(matches!(login_required(true, false, None, "/"), AccessDecision::Proceed));
}

#[test]
fn login_form_targets() {
    assert_eq!(login_post_url(Some("/library")), "/auth/login/submit?next=/library");
    assert_eq!(login_post_url(None), "/auth/login/submit");
    assert_eq!(after_login_redirect(Some("/library".to_string())), "/library");
    assert_eq!(after_login_redirect(None), "/");
    assert_eq!(empty_string_as_none(Some(String::new())), None);
    assert_eq!(empty_string_as_none(Some("x".to_string())), Some("x".to_string()));
    assert_eq!(empty_string_as_none(None), None);
    let page = LoginPage::for_next(None);
    assert_eq!(page.title, "Login");
    assert_eq!(page.post_url, "/auth/login/submit");
    assert!(page.sub_text.is_none());
}

#[test]
fn permissions_have_names() {
    let p = Permission::from("owner".to_string());
    assert_eq!(p.name(), "owner");
    assert!(p == Permission::from("owner".to_string()));
}
