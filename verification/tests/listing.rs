use new_rawr::client::Method;
use new_rawr::errors::APIError;
use new_rawr::responses::listing::{ListingData, SubmissionData, UserData};
use new_rawr::responses::messages::MessageData;
use new_rawr::structures::listing::{Listing, Paged, Step};
use new_rawr::structures::messages::MessageListing;
use new_rawr::structures::user::UserListing;

fn page(items: &[u32], after: Option<&str>) -> ListingData<u32> {
    ListingData { before: None, after: after.map(|a| a.to_owned()), modhash: None, children: items.to_vec() }
}

fn post(name: &str) -> SubmissionData {
    SubmissionData { name: name.to_owned(), title: format!("title of {}", name), ..Default::default() }
}

/// Plays the part of the caller: asks for the next entry and serves the pages
/// that are asked for from `pages`.
fn pull(listing: &mut Paged<u32>, pages: &mut Vec<(String, ListingData<u32>)>) -> Option<u32> {
    match listing.next() {
        Step::Item(x) => Some(x),
        Step::End => None,
        Step::Fetch(request) => {
            let (path, page) = pages.remove(0);
            assert_eq!(request.method, Method::Get);
            assert_eq!(request.path, path);
            assert_eq!(request.body, "");
            listing.finish_fetch(Ok(page)).unwrap()
        }
    }
}

#[test]
fn three_pages_are_walked_in_order() {
    let mut listing = Paged::new("/r/rust/hot?limit=2&raw_json=1".to_owned(), page(&[1, 2], Some("page2")));
    let mut pages = vec![
        ("/r/rust/hot?limit=2&raw_json=1&after=page2".to_owned(), page(&[3, 4], Some("page3"))),
        ("/r/rust/hot?limit=2&raw_json=1&after=page3".to_owned(), page(&[5], None)),
    ];
    let mut seen = Vec::new();
    for _ in 0..5 {
        seen.push(pull(&mut listing, &mut pages).unwrap());
    }
    assert_eq!(seen, vec![1, 2, 3, 4, 5]);
    assert!(pages.is_empty());
    assert_eq!(pull(&mut listing, &mut pages), None);
    assert_eq!(pull(&mut listing, &mut pages), None);
    assert!(matches!(listing.next(), Step::End));
    assert_eq!(listing.after(), None);
    assert_eq!(listing.len(), 0);
}

#[test]
fn end_of_listing_is_final() {
    let mut listing = Paged::new("/q?x=1".to_owned(), page(&[], None));
    for _ in 0..4 {
        assert!(matches!(listing.next(), Step::End));
        assert_eq!(listing.fetch_after().unwrap_err(), APIError::ExhaustedListing);
        assert_eq!(listing.len(), 0);
        assert_eq!(listing.after(), None);
    }
}

#[test]
fn failed_page_leaves_cursor_and_buffer() {
    let mut listing = Paged::new("/q?x=1".to_owned(), page(&[7], Some("c1")));
    assert!(matches!(listing.next(), Step::Item(7)));
    assert!(matches!(listing.next(), Step::Fetch(_)));
    assert_eq!(listing.finish_fetch(Err(APIError::TransportError)), Err(APIError::TransportError));
    assert_eq!(listing.after(), Some("c1".to_owned()));
    assert_eq!(listing.len(), 0);
    assert_eq!(listing.finish_fetch(Err(APIError::HTTPError(502))), Err(APIError::HTTPError(502)));
    assert_eq!(listing.finish_fetch(Err(APIError::JSONError)), Err(APIError::JSONError));
    let again = listing.fetch_after().unwrap();
    assert_eq!(again.path, "/q?x=1&after=c1");
    assert_eq!(listing.finish_fetch(Ok(page(&[8, 9], None))), Ok(Some(8)));
    assert!(matches!(listing.next(), Step::Item(9)));
    assert!(matches!(listing.next(), Step::End));
}

#[test]
fn empty_page_ends_the_call_but_keeps_the_cursor() {
    let mut listing = Paged::new("/q?x=1".to_owned(), page(&[], Some("c1")));
    assert!(matches!(listing.next(), Step::Fetch(_)));
    assert_eq!(listing.finish_fetch(Ok(page(&[], Some("c2")))), Ok(None));
    assert_eq!(listing.after(), Some("c2".to_owned()));
    let request = match listing.next() {
        Step::Fetch(request) => request,
        _ => panic!("a later call asks again"),
    };
    assert_eq!(request.path, "/q?x=1&after=c2");
    assert_eq!(listing.finish_fetch(Ok(page(&[4], None))), Ok(Some(4)));
    assert!(matches!(listing.next(), Step::End));
}

#[test]
fn marks_of_the_first_page_are_kept() {
    let data = ListingData {
        before: Some("b0".to_owned()),
        after: Some("a0".to_owned()),
        modhash: Some("m0".to_owned()),
        children: vec![1u32],
    };
    let mut listing = Paged::new("/q?x=1".to_owned(), data);
    assert_eq!(listing.before(), Some("b0".to_owned()));
    assert_eq!(listing.after(), Some("a0".to_owned()));
    assert_eq!(listing.modhash(), Some("m0".to_owned()));
    let later = ListingData {
        before: Some("b1".to_owned()),
        after: None,
        modhash: Some("m1".to_owned()),
        children: vec![2u32],
    };
    assert!(matches!(listing.next(), Step::Item(1)));
    assert_eq!(listing.finish_fetch(Ok(later)), Ok(Some(2)));
    assert_eq!(listing.before(), Some("b0".to_owned()));
    assert_eq!(listing.after(), None);
    assert_eq!(listing.modhash(), Some("m0".to_owned()));
}

#[test]
fn listing_of_posts_hands_out_submissions() {
    let first = ListingData { before: None, after: Some("t3_b".to_owned()), modhash: None, children: vec![post("t3_a"), post("t3_b")] };
    let mut listing = Listing::new("/r/all/new?limit=2&raw_json=1".to_owned(), first);
    assert_eq!(listing.after(), Some("t3_b".to_owned()));
    assert_eq!(listing.before(), None);
    assert_eq!(listing.modhash(), None);
    let a = match listing.next() {
        Step::Item(s) => s,
        _ => panic!("a post was at hand"),
    };
    assert_eq!(a.name(), "t3_a");
    assert_eq!(a.title(), "title of t3_a");
    assert!(matches!(listing.next(), Step::Item(_)));
    assert_eq!(listing.fetch_after().unwrap().path, "/r/all/new?limit=2&raw_json=1&after=t3_b");
    let request = match listing.next() {
        Step::Fetch(request) => request,
        _ => panic!("the next page had to be fetched"),
    };
    assert_eq!(request.path, "/r/all/new?limit=2&raw_json=1&after=t3_b");
    let second = ListingData { before: None, after: None, modhash: None, children: vec![post("t3_c")] };
    let c = listing.finish_fetch(Ok(second)).unwrap().unwrap();
    assert_eq!(c.name(), "t3_c");
    assert!(matches!(listing.next(), Step::End));
    assert_eq!(listing.fetch_after().unwrap_err(), APIError::ExhaustedListing);
    assert!(listing.finish_fetch(Err(APIError::TransportError)).is_err());
}

#[test]
fn listing_of_users_hands_out_users() {
    let first = ListingData {
        before: None,
        after: Some("t2_2".to_owned()),
        modhash: None,
        children: vec![UserData { name: "alice".to_owned(), id: "t2_1".to_owned() }],
    };
    let mut listing = UserListing::new("/r/rust/about/contributors?raw_json=1".to_owned(), first);
    match listing.next() {
        Step::Item(user) => assert_eq!(user.name, "alice"),
        _ => panic!("a user was at hand"),
    }
    assert_eq!(listing.fetch_after().unwrap().path, "/r/rust/about/contributors?raw_json=1&after=t2_2");
    assert!(matches!(listing.next(), Step::Fetch(_)));
    let second = ListingData {
        before: None,
        after: None,
        modhash: None,
        children: vec![UserData { name: "bob".to_owned(), id: "t2_2".to_owned() }],
    };
    assert_eq!(listing.finish_fetch(Ok(second)).unwrap().unwrap().name, "bob");
    assert!(matches!(listing.next(), Step::End));
    assert_eq!(listing.after(), None);
    assert_eq!(listing.before(), None);
    assert_eq!(listing.modhash(), None);
}

#[test]
fn listing_of_messages_hands_out_messages() {
    let message = |name: &str| MessageData { name: name.to_owned(), body: "hi".to_owned(), ..Default::default() };
    let first = ListingData { before: None, after: None, modhash: Some("mh".to_owned()), children: vec![message("t4_1"), message("t4_2")] };
    let mut listing = MessageListing::new("/message/inbox?raw_json=1&limit=25".to_owned(), first);
    assert_eq!(listing.modhash(), Some("mh".to_owned()));
    assert_eq!(listing.after(), None);
    assert_eq!(listing.before(), None);
    match listing.next() {
        Step::Item(m) => assert_eq!(m.name(), "t4_1"),
        _ => panic!("a message was at hand"),
    }
    match listing.next() {
        Step::Item(m) => assert_eq!(m.name(), "t4_2"),
        _ => panic!("a message was at hand"),
    }
    assert!(matches!(listing.next(), Step::End));
    assert_eq!(listing.fetch_after().unwrap_err(), APIError::ExhaustedListing);
    assert!(matches!(listing.finish_fetch(Ok(ListingData { before: None, after: None, modhash: None, children: vec![] })), Ok(None)));
}
