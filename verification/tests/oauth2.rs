use cloud_scraper::clock::MAX_INSTANT;
use cloud_scraper::oauth2::{decide_code_exchange, refreshed_token, CodeDecision, FALLBACK_TOKEN_LIFETIME};
use cloud_scraper::lifecycle::RecvFailure;
use cloud_scraper::oauth2::{
    check_attempts, check_csrf, initial_attempts, is_allowed_key, plan_token, redirect_result,
    redirect_sent, stored_status_at, code_received, token_to_write, ClientError, CodeWait,
    ExtraParameter, OAuthCode, RedirectSend, Token, TokenPlan, TokenStatus, TokenType, WebEvent,
};

const REFRESH_TOKEN: &str = "REFRESH_TOKEN";
const DAY: i64 = 86_400_000_000;

fn now() -> i64 {
    chrono::Utc::now().timestamp_micros()
}

fn token(expires_at: Option<i64>, refresh_token: Option<&str>) -> Token {
    Token {
        access_token: "access_token".to_string(),
        token_type: TokenType::Bearer,
        expires_at,
        refresh_token: refresh_token.map(|s| s.to_string()),
    }
}

#[test]
fn test_retains_the_token() {
    let token = token(Some(now() + DAY), None);
    let status = TokenStatus::Usable(token.clone()).with_refresh_token(&REFRESH_TOKEN.to_string());

    if let TokenStatus::Usable(refreshed_token) = status {
        assert_eq!(refreshed_token.refresh_token.unwrap(), REFRESH_TOKEN);
    } else {
        panic!("Expected Ok, got {:?}", status);
    }
}

#[test]
fn test_does_not_modify_other_states() {
    let _token = token(Some(now() + DAY), None);

    assert!(matches!(
        TokenStatus::Expired(REFRESH_TOKEN.to_string()).with_refresh_token(&REFRESH_TOKEN.to_string()),
        TokenStatus::Expired(_)
    ));
    assert!(matches!(
        TokenStatus::Absent.with_refresh_token(&REFRESH_TOKEN.to_string()),
        TokenStatus::Absent
    ));
}

#[test]
fn extra_parameters() {
    let parameters = vec![
        ExtraParameter::new("key1".to_string(), "value1".to_string()),
        ExtraParameter::new("key2".to_string(), "value2".to_string()),
    ];

    assert_eq!(parameters.len(), 2);
    assert_eq!(parameters[0].get_key(), "key1");
    assert_eq!(parameters[0].get_value(), "value1");
    assert_eq!(parameters[1].get_key(), "key2");
    assert_eq!(parameters[1].get_value(), "value2");
}

#[test]
fn disallowed_keys_are_recognized() {
    assert!(!is_allowed_key("client_id"));
    assert!(!is_allowed_key("code_challenge"));
    assert!(!is_allowed_key("refresh_token"));
    assert!(is_allowed_key("access_type"));
    assert!(is_allowed_key("client_ids"));
}

#[test]
fn token_status_follows_expiry() {
    let t = 1_000_000;
    assert_eq!(token(Some(t + 1), Some("r")).status_at(t), TokenStatus::Usable(token(Some(t + 1), Some("r"))));
    assert_eq!(token(Some(t), None).status_at(t), TokenStatus::Usable(token(Some(t), None)));
    assert_eq!(token(Some(t - 1), Some("r")).status_at(t), TokenStatus::Expired("r".to_string()));
    assert_eq!(token(Some(t - 1), None).status_at(t), TokenStatus::Absent);
    assert_eq!(token(None, Some("r")).status_at(t), TokenStatus::Absent);
    assert_eq!(stored_status_at(&None, t), TokenStatus::Absent);
    assert!(matches!(token(Some(now() + DAY), None).get_status().unwrap(), TokenStatus::Usable(_)));
    assert_eq!(token(Some(now() - DAY), Some("r")).get_status().unwrap(), TokenStatus::Expired("r".to_string()));
}

#[test]
fn token_plan_and_write() {
    let t = token(Some(10), None);
    assert_eq!(plan_token(&TokenStatus::Usable(t.clone())), TokenPlan::Use("access_token".to_string()));
    assert_eq!(plan_token(&TokenStatus::Expired("r".to_string())), TokenPlan::Refresh("r".to_string()));
    assert_eq!(plan_token(&TokenStatus::Absent), TokenPlan::Retrieve);
    assert_eq!(token_to_write(&TokenStatus::Usable(t.clone())), Ok(t));
    assert_eq!(token_to_write(&TokenStatus::Expired("r".to_string())), Err(ClientError::Oauth2TokenExpired));
    assert_eq!(token_to_write(&TokenStatus::Absent), Err(ClientError::Oauth2TokenAbsent));
}

#[test]
fn csrf_state_must_match() {
    assert_eq!(check_csrf("abc", "abc"), Ok(()));
    assert_eq!(check_csrf("abc", "abd"), Err(ClientError::Oauth2CsrfMismatch));
}

fn code(path: &str) -> Result<WebEvent, RecvFailure> {
    Ok(WebEvent::Oauth2Code(
        OAuthCode { code: "c".to_string(), state: "s".to_string() },
        path.to_string(),
    ))
}

#[test]
fn waiting_for_the_code() {
    let mut attempts = initial_attempts();
    assert_eq!(attempts, 10);
    let events = vec![
        code("/other"),
        Ok(WebEvent::Other),
        Err(RecvFailure::Lagged(3)),
        Err(RecvFailure::Closed),
        code("/auth/google"),
    ];
    let mut got = None;
    for event in events {
        assert!(check_attempts(attempts).is_ok());
        match code_received(attempts, event, "/auth/google") {
            CodeWait::Got(c) => {
                got = Some(c);
                break;
            }
            CodeWait::Continue(a) => attempts = a,
        }
    }
    assert_eq!(attempts, 9);
    assert_eq!(got, Some(OAuthCode { code: "c".to_string(), state: "s".to_string() }));
}

#[test]
fn waiting_gives_up_after_closed_channels() {
    let mut attempts = initial_attempts();
    let mut closed = 0;
    while check_attempts(attempts).is_ok() {
        match code_received(attempts, Err(RecvFailure::Closed), "/p") {
            CodeWait::Continue(a) => attempts = a,
            CodeWait::Got(_) => unreachable!(),
        }
        closed += 1;
    }
    assert_eq!(closed, 10);
    assert_eq!(check_attempts(attempts), Err(ClientError::FailedAfterRetries));
}

#[test]
fn presenting_the_url() {
    assert_eq!(redirect_sent(10, true), RedirectSend::Delivered);
    assert_eq!(redirect_sent(10, false), RedirectSend::SleepThenRetry(9));
    assert_eq!(redirect_sent(1, false), RedirectSend::SleepThenRetry(0));
    assert_eq!(redirect_result(Ok(Some("code".to_string()))), Ok(()));
    assert_eq!(redirect_result(Ok(None)), Err(ClientError::Oauth2CodeMissing));
    assert_eq!(
        redirect_result(Err("panicked".to_string())),
        Err(ClientError::TaskFailed("panicked".to_string()))
    );
}

#[test]
fn token_expiry_follows_its_lifetime() {
    assert_eq!(Token::expiry_after(1_000_000, Some(3600)), Some(3_601_000_000));
    assert_eq!(Token::expiry_after(5, None), None);
    assert_eq!(FALLBACK_TOKEN_LIFETIME, 365 * DAY);
    // A lifetime reaching past the last instant gives a year.
    assert_eq!(Token::expiry_after(0, Some(u64::MAX)), Some(365 * DAY));
    let late = MAX_INSTANT - 400 * DAY;
    assert_eq!(Token::expiry_after(late, Some(401 * 86_400)), Some(late + 365 * DAY));
}

#[test]
fn the_callback_path_is_the_redirect_path() {
    let redirect = cloud_scraper::web_url::WebUrl::parse("http://localhost:8080/auth/google").unwrap();
    let path = redirect.path();
    assert_eq!(
        code_received(1, code(&path), &path),
        CodeWait::Got(OAuthCode { code: "c".to_string(), state: "s".to_string() })
    );
}

#[test]
fn a_code_is_exchanged_only_with_the_sent_state() {
    let good = OAuthCode { code: "c".to_string(), state: "s".to_string() };
    assert_eq!(
        decide_code_exchange(Ok(()), Ok(good.clone()), "s"),
        CodeDecision::Exchange("c".to_string())
    );
    assert_eq!(
        decide_code_exchange(Ok(()), Ok(good.clone()), "other"),
        CodeDecision::Fail(ClientError::Oauth2CsrfMismatch)
    );
    assert_eq!(
        decide_code_exchange(Err(ClientError::FailedAfterRetries), Ok(good), "s"),
        CodeDecision::Fail(ClientError::FailedAfterRetries)
    );
    assert_eq!(
        decide_code_exchange(Ok(()), Err(ClientError::Oauth2CodeMissing), "s"),
        CodeDecision::Fail(ClientError::Oauth2CodeMissing)
    );
}

#[test]
fn a_refreshed_token_keeps_its_refresh_token() {
    let usable = TokenStatus::Usable(token(Some(now() + DAY), None));
    let t = refreshed_token(usable, &REFRESH_TOKEN.to_string()).unwrap();
    assert_eq!(t.refresh_token, Some(REFRESH_TOKEN.to_string()));
    assert_eq!(
        refreshed_token(TokenStatus::Absent, &REFRESH_TOKEN.to_string()),
        Err(ClientError::Oauth2TokenAbsent)
    );
    assert_eq!(
        refreshed_token(TokenStatus::Expired("x".to_string()), &REFRESH_TOKEN.to_string()),
        Err(ClientError::Oauth2TokenExpired)
    );
}
