use wiki::api::{build_form, mkurl};
use wiki::session::{
    str_eq, token_field, AuthError, BotPassword, LoginFlow, LoginStep, RateGate, TokenCache, TokenStep,
    CSRF_KIND, LOGIN_KIND,
};

fn logged_in_until_result(result: Option<&str>) -> (LoginFlow, LoginStep) {
    let mut flow = LoginFlow::new(BotPassword::new("Bot@app", "pw"));
    match flow.start() {
        LoginStep::FetchLoginToken(m) => {
            assert_eq!(
                mkurl("https://w/api.php", m),
                "https://w/api.php?action=query&meta=tokens&type=login&format=json&formatversion=2"
            );
        }
        other => panic!("unexpected {other:?}"),
    }
    match flow.on_login_token("tok+\\".to_string()) {
        LoginStep::PostLogin(m) => {
            let f = build_form(&m).fields;
            assert_eq!(f[1], ("lgname".to_string(), "Bot@app".to_string()));
            assert_eq!(f[2], ("lgpassword".to_string(), "pw".to_string()));
            assert_eq!(f[3], ("lgtoken".to_string(), "tok+\\".to_string()));
        }
        other => panic!("unexpected {other:?}"),
    }
    let step = flow.on_login_result(result);
    (flow, step)
}

#[test]
fn login_success_authenticates() {
    let (mut flow, step) = logged_in_until_result(Some("Success"));
    match step {
        LoginStep::FetchUserInfo(m) => {
            assert_eq!(
                mkurl("https://w/api.php", m),
                "https://w/api.php?action=query&meta=userinfo&format=json&formatversion=2"
            );
        }
        other => panic!("unexpected {other:?}"),
    }
    assert!(matches!(flow.on_user_info(false), LoginStep::Finished(Ok(()))));
    assert!(flow.is_logged_in());
}

#[test]
fn login_other_result_is_an_auth_error() {
    for r in [Some("Failed"), Some("success"), Some("Success "), None] {
        let (flow, step) = logged_in_until_result(r);
        assert!(matches!(step, LoginStep::Finished(Err(AuthError::LoginFailed))));
        assert!(!flow.is_logged_in());
    }
}

#[test]
fn login_as_ip_is_unauthorized() {
    let (mut flow, _) = logged_in_until_result(Some("Success"));
    assert!(matches!(flow.on_user_info(true), LoginStep::Finished(Err(AuthError::Unauthorized))));
    assert!(!flow.is_logged_in());
}

#[test]
fn login_steps_out_of_order_fail() {
    let mut flow = LoginFlow::new(BotPassword::new("a", "b"));
    assert!(matches!(flow.on_login_result(Some("Success")), LoginStep::Finished(Err(AuthError::OutOfOrder))));
    assert!(matches!(flow.start(), LoginStep::Finished(Err(AuthError::OutOfOrder))));
}

#[test]
fn csrf_token_is_fetched_once_then_cached() {
    let mut c = TokenCache::new();
    match c.csrf_token() {
        TokenStep::Fetch(m) => assert_eq!(
            mkurl("https://w/api.php", m),
            "https://w/api.php?action=query&meta=tokens&type=csrf&format=json&formatversion=2"
        ),
        other => panic!("unexpected {other:?}"),
    }
    c.store(CSRF_KIND, "abc+\\".to_string());
    assert!(matches!(c.csrf_token(), TokenStep::Cached(t) if t == "abc+\\"));
    c.clear();
    assert!(matches!(c.csrf_token(), TokenStep::Fetch(_)));
}

#[test]
fn rate_gate_spaces_mutations() {
    let mut g = RateGate::new(1000);
    let first = g.acquire(5000);
    assert_eq!(first, 5000);
    let second = g.acquire(5000);
    assert_eq!(second, 6000);
    assert!(second >= first + 1000);
    let third = g.acquire(9000);
    assert_eq!(third, 9000);
    let fourth = g.acquire(8000);
    assert_eq!(fourth, 10000);
}

#[test]
fn string_equality() {
    assert!(str_eq("Success", "Success"));
    assert!(!str_eq("Success", "Succes"));
    assert!(!str_eq("", "x"));
    assert!(str_eq("", ""));
}

#[test]
fn token_kinds_are_cached_apart() {
    let mut c = TokenCache::new();
    c.store(LOGIN_KIND, "l".to_string());
    assert!(matches!(c.csrf_token(), TokenStep::Fetch(_)));
    assert!(matches!(c.token(LOGIN_KIND), TokenStep::Cached(t) if t == "l"));
    match c.token(8) {
        TokenStep::Fetch(m) => assert_eq!(
            mkurl("https://w/api.php", m),
            "https://w/api.php?action=query&meta=tokens&type=watch&format=json&formatversion=2"
        ),
        other => panic!("unexpected {other:?}"),
    }
    assert_eq!(token_field(CSRF_KIND), "csrftoken");
    assert_eq!(token_field(LOGIN_KIND), "logintoken");
    assert_eq!(token_field(0), "createaccounttoken");
}
