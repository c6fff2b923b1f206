use monzo_exporter::client::{
    balance_request, check_tokens, check_tokens_at, exchange_request, expired_notice, login_hint,
    receive_tokens, refresh_delay_nanos, refresh_due, refresh_failure_message, refresh_request,
    token_endpoint, RefreshDue, TokenCheck, BASE_URL, REFRESH_MARGIN_NANOS,
};
use monzo_exporter::config::Config;
use monzo_exporter::error::Error;
use monzo_exporter::model::{ExchangeBody, RefreshBody, TokenResponse};
use monzo_exporter::routes::{
    authorize, callback, callback_exchanged, callback_saved, callback_success, grant_uri, stats,
    AuthorizeQuery, CallbackAction, CallbackQuery, GenericError, Reply,
};
use monzo_exporter::collector::MetricStore;
use monzo_exporter::tokens::{lifetime_is_valid, Tokens, MAX_SPAN_SECONDS};

fn config() -> Config {
    Config {
        account_id: "acc_123".to_string(),
        client_id: "oauth2client_abc".to_string(),
        client_secret: "secret".to_string(),
        server_addr: "0.0.0.0:8080".to_string(),
        redirect_uri: "http://127.0.0.1:8080".to_string(),
        auth_key: "$Kq1wJ@HF18yN^4I".to_string(),
    }
}

fn response(expires_in: usize) -> TokenResponse {
    TokenResponse {
        access_token: "access".to_string(),
        client_id: "oauth2client_abc".to_string(),
        expires_in,
        refresh_token: "refresh".to_string(),
        token_type: "Bearer".to_string(),
        user_id: "user_1".to_string(),
    }
}

fn tokens(expires_at: i128) -> Tokens {
    Tokens { access_token: "access".to_string(), expires_at, refresh_token: "refresh".to_string() }
}

const S: i128 = 1_000_000_000;

fn clock_ns() -> i128 {
    std::time::SystemTime::now().duration_since(std::time::UNIX_EPOCH).unwrap().as_nanos() as i128
}

#[test]
fn authorize_url_from_config() {
    assert_eq!(config().get_authorize_url(), "http://127.0.0.1:8080/authorize?key=$Kq1wJ@HF18yN^4I");
}

#[test]
fn bodies_carry_their_grant_type() {
    let b = RefreshBody::new("c".to_string(), "s".to_string(), "r".to_string());
    assert_eq!(b.grant_type, "refresh_token");
    assert_eq!((b.client_id.as_str(), b.client_secret.as_str(), b.refresh_token.as_str()), ("c", "s", "r"));
    let e = ExchangeBody::new("c".to_string(), "s".to_string(), "u".to_string(), "code".to_string());
    assert_eq!(e.grant_type, "authorization_code");
    assert_eq!((e.redirect_uri.as_str(), e.code.as_str()), ("u", "code"));
}

#[derive(Debug)]
#[allow(dead_code)]
enum Mirror {
    IOError(Inner),
    NotLoggedIn,
}

#[derive(Debug)]
#[allow(dead_code)]
struct Inner {
    code: i32,
}

#[test]
fn error_debug_rendering() {
    let inner = Inner { code: 2 };
    let detail = format!("{:?}", inner);
    assert_eq!(Error::IOError(detail).debug_string(), format!("{:?}", Mirror::IOError(inner)));
    assert_eq!(Error::NotLoggedIn.debug_string(), format!("{:?}", Mirror::NotLoggedIn));
    assert_eq!(Error::TOMLError("t".to_string()).debug_string(), "TOMLError(t)");
    assert_eq!(Error::EnvVarError("e".to_string()).debug_string(), "EnvVarError(e)");
    assert_eq!(Error::JsonError("j".to_string()).debug_string(), "JsonError(j)");
    let r: Result<u8, Error> = Error::NotLoggedIn.into_result();
    assert!(matches!(r, Err(Error::NotLoggedIn)));
}

#[test]
fn tokens_from_reply_at_a_time() {
    let t = Tokens::from_token_response_at(response(21600), 1_000);
    assert_eq!(t.expires_at, 1_000 + 21_600 * S);
    assert_eq!(t.access_token, "access");
    assert_eq!(t.refresh_token, "refresh");
    let mut u = tokens(5);
    u.update_from_token_response_at(response(60), 7);
    assert_eq!(u.expires_at, 60 * S + 7);
    assert_eq!(u.access_token, t.access_token);
}

#[test]
fn tokens_from_reply_use_the_clock() {
    let before = clock_ns();
    let t = Tokens::from_token_response(response(3600));
    let after = clock_ns();
    assert!(t.expires_at >= before + 3600 * S - 1_000_000);
    assert!(t.expires_at <= after + 3600 * S + 1_000_000);
    let mut u = tokens(0);
    u.update_from_token_response(response(10));
    assert!(u.expires_at >= before + 10 * S - 1_000_000);
    assert_eq!(u.refresh_token, "refresh");
}

#[test]
fn expiry_bounds() {
    assert!(lifetime_is_valid(MAX_SPAN_SECONDS as usize));
    assert!(!lifetime_is_valid(MAX_SPAN_SECONDS as usize + 1));
    assert!(lifetime_is_valid(usize::MAX));
    let now = clock_ns();
    let t = Tokens::from_token_response(response(MAX_SPAN_SECONDS as usize));
    assert!(t.expires_at >= now + MAX_SPAN_SECONDS as i128 * S - 1_000_000);
    let t = Tokens::from_token_response(response(usize::MAX));
    assert!(t.expires_at <= clock_ns() - S + 1_000_000);
}

#[test]
fn balance_request_needs_tokens() {
    assert!(matches!(balance_request(&config(), &None), Err(Error::NotLoggedIn)));
    let req = balance_request(&config(), &Some(tokens(0))).ok().unwrap();
    assert_eq!(req.endpoint, format!("{}/balance?account_id={}", BASE_URL, "acc_123"));
    assert_eq!(req.authorization, "Bearer access");
}

#[test]
fn token_requests() {
    assert_eq!(token_endpoint(), "https://api.monzo.com/oauth2/token");
    let (endpoint, body) = exchange_request(&config(), "the-code".to_string());
    assert_eq!(endpoint, "https://api.monzo.com/oauth2/token");
    assert_eq!(body.redirect_uri, "http://127.0.0.1:8080/callback");
    assert_eq!(body.code, "the-code");
    assert_eq!(body.client_secret, "secret");
    let (endpoint, body) = refresh_request(&config(), &tokens(0));
    assert_eq!(endpoint, "https://api.monzo.com/oauth2/token");
    assert_eq!(body.refresh_token, "refresh");
    assert_eq!(body.grant_type, "refresh_token");
}

#[test]
fn notices() {
    assert_eq!(
        expired_notice(&config()),
        "Your tokens have expired: Visit http://127.0.0.1:8080/authorize?key=$Kq1wJ@HF18yN^4I to login again"
    );
    assert_eq!(
        login_hint(&config(), &Error::IOError("NotFound".to_string())),
        "Error reading tokens from disk (IOError(NotFound)).\nThis just means you haven't logged in yet: Visit http://127.0.0.1:8080/authorize?key=$Kq1wJ@HF18yN^4I to do so"
    );
}

#[test]
fn refresh_delay_values() {
    assert_eq!(refresh_delay_nanos(10_000 * S, 0), (10_000 * S - REFRESH_MARGIN_NANOS) as u128);
    assert_eq!(refresh_delay_nanos(1_800 * S, 0), 0);
    assert_eq!(refresh_delay_nanos(0, 5), 0);
    assert_eq!(refresh_delay_nanos(i128::MAX, i128::MIN), u128::MAX - 1_800_000_000_000);
    assert_eq!(refresh_delay_nanos(-5 * S, -10_000 * S), (9_995 * S - REFRESH_MARGIN_NANOS) as u128);
}

#[test]
fn token_check_steps() {
    let cfg = config();
    let mut none: Option<Tokens> = None;
    assert!(matches!(check_tokens_at(&mut none, &cfg, 0, 0), TokenCheck::AwaitTokens));
    let mut expired = Some(tokens(99));
    match check_tokens_at(&mut expired, &cfg, 100, 100) {
        TokenCheck::Expired { notice } => assert_eq!(notice, expired_notice(&cfg)),
        _ => panic!("expected expiry"),
    }
    assert!(expired.is_none());
    let mut live = Some(tokens(100));
    match check_tokens_at(&mut live, &cfg, 100, 100) {
        TokenCheck::AwaitTokensOrRefresh { delay_nanos } => assert_eq!(delay_nanos, 0),
        _ => panic!("expected wait"),
    }
    assert_eq!(live.as_ref().unwrap().expires_at, 100);
    let mut fresh = Some(tokens(clock_ns() + 21_600 * S));
    match check_tokens(&mut fresh, &cfg) {
        TokenCheck::AwaitTokensOrRefresh { delay_nanos } => {
            assert!(delay_nanos <= (19_800 * S) as u128 && delay_nanos > (19_700 * S) as u128)
        }
        _ => panic!("expected wait"),
    }
    let mut old = Some(tokens(1));
    assert!(matches!(check_tokens(&mut old, &cfg), TokenCheck::Expired { .. }));
    assert!(old.is_none());
}

#[test]
fn fresh_tokens_are_scheduled_before_expiry() {
    let cfg = config();
    let now = 1_700_000_000 * S;
    let mut state = None;
    assert_eq!(receive_tokens(&mut state, Some(Tokens::from_token_response_at(response(21600), now))), "Received new tokens");
    match check_tokens_at(&mut state, &cfg, now, now) {
        TokenCheck::AwaitTokensOrRefresh { delay_nanos } => assert_eq!(delay_nanos, ((21_600 - 1_800) * S) as u128),
        _ => panic!("expected wait"),
    }
    let mut t = tokens(0);
    t.update_from_token_response_at(response(3600), now);
    let mut state = Some(t);
    match check_tokens_at(&mut state, &cfg, now + 60 * S, now + 60 * S) {
        TokenCheck::AwaitTokensOrRefresh { delay_nanos } => assert_eq!(delay_nanos, ((3_600 - 1_800 - 60) * S) as u128),
        _ => panic!("expected wait"),
    }
}

#[test]
fn refresh_due_steps() {
    let cfg = config();
    match refresh_due(&Some(tokens(0)), &cfg) {
        RefreshDue::Refresh { endpoint, body } => {
            assert_eq!(endpoint, token_endpoint());
            assert_eq!(body.refresh_token, "refresh");
            assert_eq!(body.client_id, "oauth2client_abc");
        }
        RefreshDue::Expired { .. } => panic!("expected refresh"),
    }
    match refresh_due(&None, &cfg) {
        RefreshDue::Expired { notice } => assert_eq!(notice, expired_notice(&cfg)),
        RefreshDue::Refresh { .. } => panic!("expected expiry"),
    }
    let mut state = Some(tokens(1));
    receive_tokens(&mut state, None);
    assert!(state.is_none());
}

#[test]
fn authorize_route() {
    let cfg = config();
    match authorize(&cfg, &AuthorizeQuery::new("$Kq1wJ@HF18yN^4I".to_string())) {
        Reply::Redirect { status, location } => {
            assert_eq!(status, 307);
            assert_eq!(
                location,
                "https://auth.monzo.com/?client_id=oauth2client_abc&redirect_uri=http://127.0.0.1:8080/callback&response_type=code&state=$Kq1wJ@HF18yN^4I"
            );
            assert_eq!(location, grant_uri(&cfg));
        }
        _ => panic!("expected redirect"),
    }
    match authorize(&cfg, &AuthorizeQuery::new("wrong".to_string())) {
        Reply::Text { status, body } => {
            assert_eq!(status, 401);
            assert_eq!(body, "Invalid auth key");
        }
        _ => panic!("expected refusal"),
    }
    assert_eq!(AuthorizeQuery::new("k".to_string()).key(), "k");
}

#[test]
fn callback_route_steps() {
    let cfg = config();
    let q = CallbackQuery::new("code1".to_string(), "bad".to_string());
    assert_eq!((q.code().as_str(), q.state().as_str()), ("code1", "bad"));
    match callback(&cfg, &q) {
        CallbackAction::Respond(Reply::Json { status, error }) => {
            assert_eq!(status, 401);
            assert_eq!(error.error(), "Invalid auth key");
        }
        _ => panic!("expected refusal"),
    }
    let q = CallbackQuery::new("code1".to_string(), cfg.auth_key.clone());
    match callback(&cfg, &q) {
        CallbackAction::ExchangeCode(code) => assert_eq!(code, "code1"),
        _ => panic!("expected exchange"),
    }
    match callback_exchanged(Err(Error::HTTPError("boom".to_string()))) {
        CallbackAction::Respond(Reply::Json { status, error }) => {
            assert_eq!(status, 500);
            assert_eq!(error.error(), "HTTPError(boom)");
        }
        _ => panic!("expected failure reply"),
    }
    let before = clock_ns();
    let saved = match callback_exchanged(Ok(response(100))) {
        CallbackAction::SaveTokens(t) => t,
        _ => panic!("expected save"),
    };
    assert!(saved.expires_at >= before + 100 * S - 1_000_000);
    assert_eq!(saved.access_token, "access");
    match callback_saved(tokens(3), Err(Error::IOError("denied".to_string()))) {
        CallbackAction::Respond(Reply::Json { status, error }) => {
            assert_eq!(status, 500);
            assert_eq!(error.error(), "IOError(denied)");
        }
        _ => panic!("expected failure reply"),
    }
    match callback_saved(tokens(3), Ok(())) {
        CallbackAction::PublishTokens(t) => assert_eq!(t.expires_at, 3),
        _ => panic!("expected publish"),
    }
    match callback_success() {
        Reply::Text { status, body } => assert_eq!((status, body.as_str()), (200, "Success!")),
        _ => panic!("expected text"),
    }
}

#[test]
fn refresh_failure_text() {
    assert_eq!(
        refresh_failure_message(&Error::HTTPError("timeout".to_string())),
        "Error while refreshing tokens: HTTPError(timeout)"
    );
}

#[test]
fn generic_errors() {
    assert_eq!(GenericError::from_str("Invalid auth key").error(), "Invalid auth key");
    assert_eq!(GenericError::new(Error::NotLoggedIn).error(), "NotLoggedIn");
}

#[test]
fn stats_route() {
    let mut store = MetricStore::new();
    match stats(&store) {
        Reply::Text { status, body } => assert_eq!((status, body.as_str()), (200, "")),
        _ => panic!("expected text"),
    }
    store.insert("k".to_string(), monzo_exporter::metric::Metric::gauge(7, "h".to_string()));
    match stats(&store) {
        Reply::Text { body, .. } => assert_eq!(body, "# HELP k h\n# TYPE k gauge\nk{} 0.07\n\n"),
        _ => panic!("expected text"),
    }
}
