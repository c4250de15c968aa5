use new_rawr::auth::{AnonymousAuthenticator, LoginAnswer, PasswordAuthenticator};
use new_rawr::client::Method;
use new_rawr::errors::APIError;
use new_rawr::responses::auth::TokenResponseData;

fn token(text: &str, expires_in: u64) -> TokenResponseData {
    TokenResponseData { access_token: text.to_owned(), expires_in, ..Default::default() }
}

#[test]
fn anonymous_needs_nothing() {
    let mut auth = AnonymousAuthenticator::new();
    assert_eq!(auth.login(), Ok(()));
    assert_eq!(auth.scopes(), vec!["read".to_owned()]);
    assert!(auth.headers().is_empty());
    assert!(!auth.oauth());
    assert!(!auth.needs_token_refresh());
    assert_eq!(auth.logout(), Ok(()));
}

#[test]
fn login_request_presents_the_application() {
    let auth = PasswordAuthenticator::new("id", "secret", "bot", "hunter2");
    let request = auth.login("agent/1.0");
    assert_eq!(request.method, Method::Post);
    assert_eq!(request.url, "https://www.reddit.com/api/v1/access_token");
    assert_eq!(request.body, "grant_type=password&username=bot&password=hunter2");
    assert_eq!(
        request.headers,
        vec![
            ("authorization".to_owned(), "Basic aWQ6c2VjcmV0".to_owned()),
            ("content-type".to_owned(), "application/x-www-form-urlencoded".to_owned()),
            ("user-agent".to_owned(), "agent/1.0".to_owned()),
        ]
    );
}

#[test]
fn credentials_are_base64_of_id_colon_secret() {
    let auth = PasswordAuthenticator::new("Aladdin", "open sesame", "u", "p");
    let request = auth.login("a");
    assert_eq!(request.headers[0].1, "Basic QWxhZGRpbjpvcGVuIHNlc2FtZQ==");
    let empty = PasswordAuthenticator::new("", "", "u", "p");
    assert_eq!(empty.login("a").headers[0].1, "Basic Og==");
}

#[test]
fn login_takes_the_token_of_a_200() {
    let mut auth = PasswordAuthenticator::new("id", "secret", "bot", "pw");
    assert!(!auth.has_token());
    assert!(auth.needs_token_refresh(0));
    assert!(auth.needs_token_refresh(u128::MAX));
    let answer = LoginAnswer::Answered(200, Some(token("tok", 3600)));
    assert_eq!(auth.finish_login(answer, 1_000_000), Ok(()));
    assert!(auth.has_token());
    assert_eq!(auth.headers(), vec![("authorization".to_owned(), "Bearer tok".to_owned())]);
    assert!(!auth.needs_token_refresh(1_000_000));
    assert!(!auth.needs_token_refresh(4_599_999));
    assert!(auth.needs_token_refresh(4_600_000));
    assert!(auth.needs_token_refresh(4_600_001));
    assert!(auth.oauth());
    assert_eq!(auth.scopes(), vec!["*".to_owned()]);
}

#[test]
fn login_failures_leave_the_authenticator_as_it_was() {
    let mut auth = PasswordAuthenticator::new("id", "secret", "bot", "pw");
    assert_eq!(auth.finish_login(LoginAnswer::Unreachable, 5), Err(APIError::ExhaustedListing));
    assert!(!auth.has_token());
    assert_eq!(auth.finish_login(LoginAnswer::Answered(401, None), 5), Err(APIError::HTTPError(401)));
    assert_eq!(auth.finish_login(LoginAnswer::Answered(201, Some(token("no", 1))), 5), Err(APIError::HTTPError(201)));
    assert_eq!(auth.finish_login(LoginAnswer::Answered(500, Some(token("no", 1))), 5), Err(APIError::HTTPError(500)));
    assert_eq!(auth.finish_login(LoginAnswer::Answered(200, None), 5), Err(APIError::ExhaustedListing));
    assert!(!auth.has_token());
    assert!(auth.needs_token_refresh(0));
    assert_eq!(auth.finish_login(LoginAnswer::Answered(200, Some(token("first", 10))), 5), Ok(()));
    assert_eq!(auth.finish_login(LoginAnswer::Answered(403, None), 6), Err(APIError::HTTPError(403)));
    assert_eq!(auth.headers(), vec![("authorization".to_owned(), "Bearer first".to_owned())]);
    assert!(!auth.needs_token_refresh(10_004));
    assert!(auth.needs_token_refresh(10_005));
    assert_eq!(auth.finish_login(LoginAnswer::Answered(200, Some(token("second", 0))), 7), Ok(()));
    assert_eq!(auth.headers()[0].1, "Bearer second");
    assert!(auth.needs_token_refresh(7));
    assert!(!auth.needs_token_refresh(6));
}

#[test]
fn logout_hands_the_token_back() {
    let mut auth = PasswordAuthenticator::new("id", "secret", "bot", "pw");
    assert_eq!(auth.finish_login(LoginAnswer::Answered(200, Some(token("tok", 60))), 0), Ok(()));
    let request = auth.logout("agent/1.0");
    assert_eq!(request.method, Method::Post);
    assert_eq!(request.url, "https://www.reddit.com/api/v1/revoke_token");
    assert_eq!(request.body, "token=tok");
    assert_eq!(request.headers[0], ("authorization".to_owned(), "Basic aWQ6c2VjcmV0".to_owned()));
    assert_eq!(request.headers[1].0, "content-type");
    assert_eq!(request.headers[2], ("user-agent".to_owned(), "agent/1.0".to_owned()));
    assert_eq!(auth.finish_logout(200), Ok(()));
    assert_eq!(auth.finish_logout(204), Ok(()));
    assert_eq!(auth.finish_logout(401), Err(APIError::HTTPError(401)));
    assert_eq!(auth.finish_logout(302), Err(APIError::HTTPError(302)));
}
