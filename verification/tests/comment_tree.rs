use new_rawr::client::Method;
use new_rawr::errors::APIError;
use new_rawr::responses::comment::{thing_kind, CommentData, MoreData, Thing, ThingKind};
use new_rawr::structures::comment::Comment;
use new_rawr::structures::comment_list::{CommentList, CommentStep};

const ROOT: &str = "t3_root";

fn data(name: &str, parent: &str) -> CommentData {
    CommentData {
        name: name.to_owned(),
        parent_id: parent.to_owned(),
        link_id: ROOT.to_owned(),
        ..Default::default()
    }
}

fn comment(name: &str, parent: &str) -> Thing {
    Thing::Comment(data(name, parent), Vec::new())
}

fn more(children: &[&str]) -> Thing {
    Thing::More(MoreData {
        children: children.iter().map(|c| c.to_string()).collect(),
        parent_id: ROOT.to_owned(),
        count: children.len() as u64,
    })
}

fn list(things: Vec<Thing>) -> CommentList {
    CommentList::new(ROOT.to_owned(), ROOT.to_owned(), things)
}

/// Hands out everything that is ready and writes down who answers whom.
fn shape(mut list: CommentList) -> String {
    let mut out = String::new();
    loop {
        match list.next_comment() {
            CommentStep::Reply(c) => {
                out.push_str(c.name());
                out.push('(');
                out.push_str(&shape(c.replies()));
                out.push(')');
            }
            _ => return out,
        }
    }
}

fn next_name(list: &mut CommentList) -> Option<String> {
    match list.next_comment() {
        CommentStep::Reply(c) => Some(c.name().to_owned()),
        _ => None,
    }
}

#[test]
fn top_level_comments_come_in_api_order() {
    let mut l = list(vec![comment("A", ROOT), comment("B", "A"), comment("C", ROOT)]);
    assert_eq!(l.len(), 2);
    let a = match l.next_comment() {
        CommentStep::Reply(c) => c,
        _ => panic!("a comment was ready"),
    };
    assert_eq!(a.name(), "A");
    assert_eq!(next_name(&mut l), Some("C".to_owned()));
    assert!(matches!(l.next_comment(), CommentStep::Done));
    let mut replies = a.replies();
    assert_eq!(replies.len(), 1);
    assert_eq!(next_name(&mut replies), Some("B".to_owned()));
    assert!(matches!(replies.next_comment(), CommentStep::Done));
}

#[test]
fn orphan_is_reunited_when_its_parent_is_resolved() {
    let mut l = list(vec![comment("B", "A"), more(&["A"])]);
    assert_eq!(l.len(), 0);
    assert_eq!(l.orphan_len(), 1);
    assert_eq!(l.more_len(), 1);
    let request = match l.next_comment() {
        CommentStep::Fetch(request) => request,
        _ => panic!("the marker had to be resolved first"),
    };
    assert_eq!(request.method, Method::Post);
    assert_eq!(request.path, "/api/morechildren");
    assert_eq!(request.body, "api_type=json&raw_json=1&link_id=t3_root&children=A");
    assert_eq!(l.finish_fetch(Ok(vec![comment("A", ROOT)])), Ok(()));
    assert_eq!(l.more_len(), 0);
    assert_eq!(l.orphan_len(), 0);
    let a = match l.next_comment() {
        CommentStep::Reply(c) => c,
        _ => panic!("the parent was ready"),
    };
    assert_eq!(a.name(), "A");
    let mut replies = a.replies();
    assert_eq!(next_name(&mut replies), Some("B".to_owned()));
    assert!(matches!(replies.next_comment(), CommentStep::Done));
    assert!(matches!(l.next_comment(), CommentStep::Done));
}

#[test]
fn empty_batch_is_exhausted_at_once() {
    let mut l = list(Vec::new());
    assert!(matches!(l.next_comment(), CommentStep::Done));
    let mut e = CommentList::empty();
    assert!(e.is_empty());
    assert!(matches!(e.next_comment(), CommentStep::Done));
}

#[test]
fn exhaustion_is_final() {
    let mut l = list(vec![comment("A", ROOT)]);
    assert_eq!(next_name(&mut l), Some("A".to_owned()));
    for _ in 0..5 {
        assert!(matches!(l.next_comment(), CommentStep::Done));
        assert_eq!(l.len(), 0);
        assert_eq!(l.more_len(), 0);
        assert_eq!(l.orphan_len(), 0);
        assert!(l.fetch_more().is_none());
    }
}

#[test]
fn late_parent_takes_in_its_children() {
    let early = list(vec![comment("child", "parent"), comment("grandchild", "child"), comment("parent", ROOT)]);
    let late = list(vec![comment("parent", ROOT), comment("child", "parent"), comment("grandchild", "child")]);
    assert_eq!(early.len(), 1);
    assert_eq!(late.len(), 1);
    assert_eq!(early.orphan_len(), late.orphan_len());
    let a = shape(early);
    let b = shape(late);
    assert_eq!(a, "parent(child())");
    assert_eq!(a, b);
}

#[test]
fn shallow_batch_gives_the_same_thread_in_any_order() {
    let names = [("a", ROOT), ("b", ROOT), ("a1", "a"), ("a2", "a"), ("b1", "b"), ("x", "nobody")];
    let orders: [[usize; 6]; 4] = [[0, 1, 2, 3, 4, 5], [2, 3, 4, 5, 0, 1], [5, 4, 1, 0, 3, 2], [2, 0, 3, 4, 1, 5]];
    let expected = ["a(a1()a2())b(b1())", "a(a1()a2())b(b1())", "b(b1())a(a2()a1())", "a(a1()a2())b(b1())"];
    for (order, want) in orders.iter().zip(expected.iter()) {
        let things = order.iter().map(|&i| comment(names[i].0, names[i].1)).collect();
        let l = list(things);
        assert_eq!(l.len(), 2);
        assert_eq!(l.orphan_len(), 1);
        assert_eq!(&shape(l), want);
    }
}

#[test]
fn deep_comment_depends_on_arrival() {
    let lost = list(vec![comment("t", ROOT), comment("c", "t"), comment("g", "c")]);
    assert_eq!(lost.orphan_len(), 1);
    assert_eq!(shape(lost), "t(c())");
    let kept = list(vec![comment("g", "c"), comment("c", "t"), comment("t", ROOT)]);
    assert_eq!(kept.orphan_len(), 0);
    assert_eq!(shape(kept), "t(c(g()))");
}

#[test]
fn failed_resolution_changes_nothing_and_can_be_retried() {
    let batch = || vec![comment("B", "A"), comment("Z", ROOT), more(&["A", "C"]), more(&["D"])];
    let resolved = || vec![comment("A", ROOT), more(&["E"]), comment("C", "A")];

    let mut direct = list(batch());
    assert_eq!(next_name(&mut direct), Some("Z".to_owned()));
    assert!(matches!(direct.next_comment(), CommentStep::Fetch(_)));
    assert_eq!(direct.finish_fetch(Ok(resolved())), Ok(()));

    let mut retried = list(batch());
    assert_eq!(next_name(&mut retried), Some("Z".to_owned()));
    let first = match retried.next_comment() {
        CommentStep::Fetch(request) => request,
        _ => panic!("a marker was waiting"),
    };
    assert_eq!(retried.finish_fetch(Err(APIError::TransportError)), Err(APIError::TransportError));
    assert_eq!(retried.more_len(), 2);
    assert_eq!(retried.orphan_len(), 1);
    assert_eq!(retried.len(), 0);
    let second = match retried.next_comment() {
        CommentStep::Fetch(request) => request,
        _ => panic!("the same marker was still waiting"),
    };
    assert_eq!(first.body, second.body);
    assert_eq!(second.body, "api_type=json&raw_json=1&link_id=t3_root&children=A,C");
    assert_eq!(retried.finish_fetch(Err(APIError::HTTPError(503))), Err(APIError::HTTPError(503)));
    assert_eq!(retried.finish_fetch(Err(APIError::JSONError)), Err(APIError::JSONError));
    assert_eq!(retried.finish_fetch(Ok(resolved())), Ok(()));

    assert_eq!(direct.more_len(), 2);
    assert_eq!(retried.more_len(), 2);
    let next_direct = direct.fetch_more().map(|r| r.body);
    let next_retried = retried.fetch_more().map(|r| r.body);
    assert_eq!(next_direct, Some("api_type=json&raw_json=1&link_id=t3_root&children=D".to_owned()));
    assert_eq!(next_direct, next_retried);
    assert_eq!(direct.orphan_len(), retried.orphan_len());
    let a = shape(direct);
    assert_eq!(a, "A(B()C())");
    assert_eq!(a, shape(retried));
}

#[test]
fn orphans_without_parent_are_never_handed_out() {
    let mut l = list(vec![comment("lonely", "missing"), comment("A", ROOT), comment("other", "gone"), more(&["x"])]);
    assert_eq!(l.orphan_len(), 2);
    assert_eq!(next_name(&mut l), Some("A".to_owned()));
    assert!(matches!(l.next_comment(), CommentStep::Fetch(_)));
    assert_eq!(l.finish_fetch(Ok(vec![comment("x", ROOT), comment("y", "x")])), Ok(()));
    assert_eq!(l.orphan_len(), 2);
    let x = match l.next_comment() {
        CommentStep::Reply(c) => c,
        _ => panic!("x was ready"),
    };
    assert_eq!(x.name(), "x");
    assert_eq!(shape(x.replies()), "y()");
    assert!(matches!(l.next_comment(), CommentStep::Done));
    assert!(matches!(l.next_comment(), CommentStep::Done));
    assert_eq!(l.orphan_len(), 2);
}

#[test]
fn markers_are_resolved_in_the_order_met() {
    let mut l = list(vec![more(&["a", "b"]), comment("T", ROOT), more(&["c"])]);
    assert_eq!(l.more_len(), 2);
    assert_eq!(next_name(&mut l), Some("T".to_owned()));
    let first = l.fetch_more().unwrap();
    assert_eq!(first.body, "api_type=json&raw_json=1&link_id=t3_root&children=a,b");
    assert!(!first.oauth_required);
    assert_eq!(l.finish_fetch(Ok(vec![more(&["d"]), comment("a", ROOT)])), Ok(()));
    assert_eq!(l.more_len(), 2);
    assert_eq!(next_name(&mut l), Some("a".to_owned()));
    let second = l.fetch_more().unwrap();
    assert_eq!(second.body, "api_type=json&raw_json=1&link_id=t3_root&children=c");
    assert_eq!(l.finish_fetch(Ok(Vec::new())), Ok(()));
    let third = l.fetch_more().unwrap();
    assert_eq!(third.body, "api_type=json&raw_json=1&link_id=t3_root&children=d");
    assert_eq!(l.finish_fetch(Ok(Vec::new())), Ok(()));
    assert!(l.fetch_more().is_none());
    assert!(matches!(l.next_comment(), CommentStep::Done));
}

#[test]
fn marker_without_children_asks_for_nothing() {
    let l = list(vec![more(&[])]);
    assert_eq!(l.fetch_more().unwrap().body, "api_type=json&raw_json=1&link_id=t3_root&children=");
}

#[test]
fn nested_replies_are_built_with_the_comment_as_root() {
    let nested = Thing::Comment(
        data("A", ROOT),
        vec![comment("A1", "A"), Thing::Comment(data("A2", "A"), vec![comment("A2x", "A2")]), more(&["A3"]), comment("stray", "elsewhere")],
    );
    let mut l = list(vec![nested]);
    let a = match l.next_comment() {
        CommentStep::Reply(c) => c,
        _ => panic!("A was ready"),
    };
    let replies = a.replies();
    assert_eq!(replies.len(), 2);
    assert_eq!(replies.more_len(), 1);
    assert_eq!(replies.orphan_len(), 1);
    assert_eq!(replies.get(0).unwrap().name(), "A1");
    assert_eq!(replies.get(1).unwrap().name(), "A2");
    assert!(replies.get(2).is_none());
    assert_eq!(replies.fetch_more().unwrap().body, "api_type=json&raw_json=1&link_id=t3_root&children=A3");
    assert_eq!(shape(replies), "A1()A2(A2x())");
}

#[test]
fn merge_comment_places_by_parent() {
    let mut l = CommentList::new(ROOT.to_owned(), ROOT.to_owned(), Vec::new());
    l.merge_comment(Comment::new(data("k1", "p"), Vec::new()));
    l.merge_comment(Comment::new(data("other", "q"), Vec::new()));
    l.merge_comment(Comment::new(data("k2", "p"), Vec::new()));
    assert_eq!(l.len(), 0);
    assert_eq!(l.orphan_len(), 3);
    l.merge_comment(Comment::new(data("p", ROOT), Vec::new()));
    assert_eq!(l.len(), 1);
    assert_eq!(l.orphan_len(), 1);
    l.merge_comment(Comment::new(data("k3", "p"), Vec::new()));
    assert_eq!(l.len(), 1);
    l.merge_comment(Comment::new(data("q", ROOT), Vec::new()));
    assert_eq!(l.len(), 2);
    assert_eq!(l.orphan_len(), 0);
    assert_eq!(shape(l), "p(k1()k2()k3())q(other())");
}

#[test]
fn add_reply_appends_without_looking_at_the_parent() {
    let mut l = CommentList::empty();
    l.add_reply(Comment::new(data("one", "anything"), Vec::new()));
    l.add_reply(Comment::new(data("two", "else"), Vec::new()));
    assert_eq!(l.len(), 2);
    let mut c = Comment::new(data("top", ROOT), Vec::new());
    c.add_reply(Comment::new(data("r", "whoever"), Vec::new()));
    assert_eq!(c.parent(), ROOT);
    assert_eq!(c.data().link_id, ROOT);
    assert_eq!(shape(c.replies()), "r()");
    assert_eq!(shape(l), "one()two()");
}

#[test]
fn index_follows_the_ready_comments_after_a_take() {
    let mut l = list(vec![comment("A", ROOT), comment("B", ROOT), comment("C", ROOT)]);
    assert_eq!(next_name(&mut l), Some("A".to_owned()));
    l.merge_comment(Comment::new(data("c1", "C"), Vec::new()));
    l.merge_comment(Comment::new(data("b1", "B"), Vec::new()));
    l.merge_comment(Comment::new(data("a1", "A"), Vec::new()));
    assert_eq!(l.orphan_len(), 1);
    assert_eq!(shape(l), "B(b1())C(c1())");
}

#[test]
fn kind_tags_are_told_apart() {
    assert_eq!(thing_kind("t1"), Some(ThingKind::Comment));
    assert_eq!(thing_kind("more"), Some(ThingKind::More));
    assert_eq!(thing_kind("t3"), None);
    assert_eq!(thing_kind(""), None);
    assert_eq!(thing_kind("T1"), None);
}

#[test]
fn errors_tell_what_to_do_next() {
    assert!(APIError::TransportError.is_retryable());
    assert!(APIError::HTTPError(500).is_retryable());
    assert!(!APIError::JSONError.is_retryable());
    assert!(!APIError::ExhaustedListing.is_retryable());
    assert!(APIError::HTTPError(401).needs_reauthentication());
    assert!(APIError::HTTPError(403).needs_reauthentication());
    assert!(!APIError::HTTPError(404).needs_reauthentication());
    assert!(!APIError::TransportError.needs_reauthentication());
}
