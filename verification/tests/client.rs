use new_rawr::client::{url_escape, ApiRequest, Method, RedditClient};
use new_rawr::errors::APIError;
use new_rawr::text::{bool_text, i8_text, join, reversed, same_text, u64_text};

#[test]
fn url_escape_examples() {
    let client = RedditClient::new("new_rawr");
    assert_eq!(client.url_escape(String::from("test&co")), String::from("test%26co"));
    assert_eq!(client.url_escape(String::from("👍")), String::from("%F0%9F%91%8D"));
    assert_eq!(client.url_escape(String::from("\n")), String::from("%0A"));
}

#[test]
fn url_escape_keeps_what_is_safe() {
    assert_eq!(url_escape("AZaz09*-._"), "AZaz09*-._");
    assert_eq!(url_escape("a b  c"), "a+b++c");
    assert_eq!(url_escape(""), "");
    assert_eq!(url_escape("+"), "%2B");
    assert_eq!(url_escape("a=b&c/d?e"), "a%3Db%26c%2Fd%3Fe");
    assert_eq!(url_escape("é"), "%C3%A9");
    assert_eq!(url_escape("€~"), "%E2%82%AC%7E");
    assert_eq!(url_escape("\u{0}\u{7f}"), "%00%7F");
    assert_eq!(url_escape("@[`{"), "%40%5B%60%7B");
    assert_eq!(url_escape("/:"), "%2F%3A");
}

#[test]
fn build_url_picks_the_access_point() {
    let client = RedditClient::new("agent");
    assert_eq!(client.build_url("/r/all", false, false), "https://api.reddit.com/r/all");
    assert_eq!(client.build_url("/r/all", false, true), "https://oauth.reddit.com/r/all");
    assert_eq!(client.build_url("/r/all", true, true), "https://oauth.reddit.com/r/all");
    assert_eq!(client.build_url("", false, false), "https://api.reddit.com");
    assert!(client.can_reach(false, false));
    assert!(client.can_reach(false, true));
    assert!(client.can_reach(true, true));
    assert!(!client.can_reach(true, false));
}

#[test]
fn requests_carry_the_user_agent_last() {
    let client = RedditClient::new("linux:new_rawr:v0.0.1");
    let auth = vec![("authorization".to_owned(), "Bearer abc".to_owned())];
    let get = client.get("/r/rust/about", false, true, auth.clone());
    assert_eq!(get.method, Method::Get);
    assert_eq!(get.url, "https://oauth.reddit.com/r/rust/about");
    assert_eq!(
        get.headers,
        vec![
            ("authorization".to_owned(), "Bearer abc".to_owned()),
            ("user-agent".to_owned(), "linux:new_rawr:v0.0.1".to_owned()),
        ]
    );
    assert_eq!(get.body, "");
    let post = client.post("/api/vote", "dir=1&id=t3_x".to_owned(), false, false, Vec::new());
    assert_eq!(post.method, Method::Post);
    assert_eq!(post.url, "https://api.reddit.com/api/vote");
    assert_eq!(post.headers, vec![("user-agent".to_owned(), "linux:new_rawr:v0.0.1".to_owned())]);
    assert_eq!(post.body, "dir=1&id=t3_x");
}

#[test]
fn only_success_statuses_yield_a_body() {
    let client = RedditClient::new("agent");
    assert_eq!(client.get_json(200, "{}".to_owned()), Ok("{}".to_owned()));
    assert_eq!(client.get_json(299, "x".to_owned()), Ok("x".to_owned()));
    assert_eq!(client.get_json(199, "x".to_owned()), Err(APIError::HTTPError(199)));
    assert_eq!(client.get_json(300, "x".to_owned()), Err(APIError::HTTPError(300)));
    assert_eq!(client.get_json(404, "x".to_owned()), Err(APIError::HTTPError(404)));
    assert_eq!(client.get_json(0, "x".to_owned()), Err(APIError::HTTPError(0)));
    assert_eq!(client.get_json(99, "x".to_owned()), Err(APIError::HTTPError(99)));
    assert_eq!(client.get_json(1000, "x".to_owned()), Err(APIError::HTTPError(1000)));
    assert_eq!(client.get_json(65535, "x".to_owned()), Err(APIError::HTTPError(65535)));
    assert_eq!(client.post_json(201, "made".to_owned()), Ok("made".to_owned()));
    assert_eq!(client.post_json(500, "made".to_owned()), Err(APIError::HTTPError(500)));
    assert_eq!(client.post_success(204), Ok(()));
    assert_eq!(client.post_success(403), Err(APIError::HTTPError(403)));
    assert_eq!(client.post_success(301), Err(APIError::HTTPError(301)));
}

#[test]
fn client_remembers_its_settings() {
    let mut client = RedditClient::new("agent/1.0");
    assert_eq!(client.user_agent(), "agent/1.0");
    assert!(client.auto_logout());
    client.set_auto_logout(false);
    assert!(!client.auto_logout());
    assert_eq!(client.user_agent(), "agent/1.0");
    client.set_auto_logout(true);
    assert!(client.auto_logout());
}

#[test]
fn names_given_to_the_client_are_escaped() {
    let client = RedditClient::new("agent");
    assert_eq!(client.subreddit("ask reddit").name, "ask+reddit");
    assert_eq!(client.user("a/b").name, "a%2Fb");
    let post = client.get_by_id("t3_4uule8");
    assert_eq!(post.get().request.path, "/by_id/t3_4uule8?raw_json=1");
    let inbox = client.messages().inbox(&new_rawr::options::ListingOptions::default());
    assert_eq!(inbox.query_stem, "/message/inbox?raw_json=1&limit=25");
}

#[test]
fn api_requests_are_plain() {
    let post = ApiRequest::post("/api/x", "a=b".to_owned());
    assert_eq!(post.method, Method::Post);
    assert_eq!(post.path, "/api/x");
    assert_eq!(post.body, "a=b");
    assert!(!post.oauth_required);
    let get = ApiRequest::get("/r/x".to_owned());
    assert_eq!(get.method, Method::Get);
    assert_eq!(get.path, "/r/x");
    assert_eq!(get.body, "");
    assert!(!get.oauth_required);
}

#[test]
fn numbers_are_written_in_decimal() {
    assert_eq!(u64_text(0), "0");
    assert_eq!(u64_text(7), "7");
    assert_eq!(u64_text(10), "10");
    assert_eq!(u64_text(25), "25");
    assert_eq!(u64_text(1234567890), "1234567890");
    assert_eq!(u64_text(u64::MAX), "18446744073709551615");
    assert_eq!(i8_text(0), "0");
    assert_eq!(i8_text(1), "1");
    assert_eq!(i8_text(-1), "-1");
    assert_eq!(i8_text(127), "127");
    assert_eq!(i8_text(-128), "-128");
    assert_eq!(bool_text(true), "true");
    assert_eq!(bool_text(false), "false");
}

#[test]
fn text_helpers() {
    assert_eq!(join(&vec!["a".to_owned(), "b".to_owned(), "c".to_owned()], ","), "a,b,c");
    assert_eq!(join(&vec!["only".to_owned()], ","), "only");
    assert_eq!(join(&Vec::new(), ","), "");
    assert_eq!(join(&vec!["".to_owned(), "".to_owned()], "--"), "--");
    assert!(same_text("abc", "abc"));
    assert!(!same_text("abc", "abd"));
    assert!(!same_text("abc", "ab"));
    assert!(same_text("", ""));
    assert_eq!(reversed(vec![1, 2, 3]), vec![3, 2, 1]);
    assert_eq!(reversed(Vec::<u8>::new()), Vec::<u8>::new());
}
