use new_rawr::client::Method;
use new_rawr::errors::APIError;
use new_rawr::options::{LinkPost, ListingAnchor, ListingOptions, SelfPost, TimeFilter};
use new_rawr::responses::comment::{CommentData, Edited, Thing};
use new_rawr::responses::listing::{ListingData, SubmissionData, SubredditAboutData, UserData};
use new_rawr::responses::messages::MessageData;
use new_rawr::responses::user::{UserAboutData, UserAboutDataCore};
use new_rawr::responses::{FlairChoice, FlairSelectorResponse};
use new_rawr::structures::comment::Comment;
use new_rawr::structures::comment_list::CommentStep;
use new_rawr::structures::listing::Step;
use new_rawr::structures::messages::{Message, MessageInterface};
use new_rawr::structures::submission::{FlairList, LazySubmission, Submission};
use new_rawr::structures::subreddit::{Subreddit, SubredditAbout};
use new_rawr::structures::user::{User, UserAbout};

fn flair(text: &str, id: &str) -> FlairChoice {
    FlairChoice { flair_text: text.to_owned(), flair_template_id: id.to_owned(), ..Default::default() }
}

fn a_comment() -> Comment {
    Comment::new(
        CommentData {
            name: "t1_c".to_owned(),
            parent_id: "t3_p".to_owned(),
            link_id: "t3_p".to_owned(),
            author: "alice".to_owned(),
            body: "old".to_owned(),
            body_html: "<p>old</p>".to_owned(),
            subreddit: "rust".to_owned(),
            score: -3,
            likes: Some(false),
            created: 11,
            created_utc: 12,
            edited: Edited::Flag(false),
            num_reports: Some(2),
            author_flair_text: Some("crab".to_owned()),
            ..Default::default()
        },
        Vec::new(),
    )
}

fn a_post() -> Submission {
    Submission::new(SubmissionData {
        name: "t3_p".to_owned(),
        id: "p".to_owned(),
        title: "A title".to_owned(),
        author: "bob".to_owned(),
        subreddit: "rust".to_owned(),
        selftext: "words".to_owned(),
        selftext_html: Some("<p>words</p>".to_owned()),
        url: None,
        score: 42,
        likes: None,
        created: 100,
        created_utc: 90,
        edited: Edited::At(777),
        num_comments: 5,
        is_self: true,
        link_flair_text: Some("meta".to_owned()),
        ..Default::default()
    })
}

fn is_post(request: &new_rawr::client::ApiRequest, path: &str, body: &str) {
    assert_eq!(request.method, Method::Post);
    assert_eq!(request.path, path);
    assert_eq!(request.body, body);
    assert!(!request.oauth_required);
}

fn is_get(request: &new_rawr::client::ApiRequest, path: &str) {
    assert_eq!(request.method, Method::Get);
    assert_eq!(request.path, path);
    assert_eq!(request.body, "");
    assert!(!request.oauth_required);
}

#[test]
fn find_text_gives_the_first_match() {
    let flairs = || vec![flair("news", "id1"), flair("tutorial", "id2"), flair("tutorial", "id3")];
    assert_eq!(FlairList::new(flairs()).find_text("tutorial"), Some("id2".to_owned()));
    assert_eq!(FlairList::new(flairs()).find_text("news"), Some("id1".to_owned()));
    assert_eq!(FlairList::new(flairs()).find_text("Tutorial"), None);
    assert_eq!(FlairList::new(flairs()).find_text(""), None);
    assert_eq!(FlairList::new(Vec::new()).find_text("news"), None);
    assert_eq!(FlairList::new(flairs()).flairs.len(), 3);
}

#[test]
fn subreddit_about_reads_its_record() {
    let about = SubredditAbout::new(SubredditAboutData {
        display_name: "learnprogramming".to_owned(),
        subscribers: 1234,
        accounts_active: 56,
        public_traffic: true,
        created: 1_300_000_000,
        created_utc: 1_299_999_000,
    });
    assert_eq!(about.subscribers(), 1234);
    assert_eq!(about.active_users(), 56);
    assert!(about.public());
    assert_eq!(about.display_name(), "learnprogramming");
    assert_eq!(about.created(), 1_300_000_000);
    assert_eq!(about.created_utc(), 1_299_999_000);
}

#[test]
fn feeds_are_asked_for_with_limit_and_anchor() {
    let sub = Subreddit::create_new("rust");
    let hot = sub.hot(&ListingOptions::default());
    assert_eq!(hot.query_stem, "/r/rust/hot?limit=25&raw_json=1");
    is_get(&hot.request, "/r/rust/hot?limit=25&raw_json=1&");
    let opts = ListingOptions { batch: 100, anchor: ListingAnchor::After("t3_x".to_owned()) };
    let new = sub.new(&opts);
    assert_eq!(new.query_stem, "/r/rust/new?limit=100&raw_json=1");
    is_get(&new.request, "/r/rust/new?limit=100&raw_json=1&after=t3_x");
    let opts = ListingOptions { batch: 0, anchor: ListingAnchor::Before("t3_y".to_owned()) };
    let rising = sub.rising(&opts);
    is_get(&rising.request, "/r/rust/rising?limit=0&raw_json=1&before=t3_y");
    let top = sub.top(&ListingOptions::default(), TimeFilter::AllTime);
    assert_eq!(top.query_stem, "/r/rust/top?t=all&limit=25&raw_json=1");
    is_get(&top.request, "/r/rust/top?t=all&limit=25&raw_json=1&");
    let opts = ListingOptions { batch: 255, anchor: ListingAnchor::Start };
    let controversial = sub.controversial(&opts, TimeFilter::Week);
    is_get(&controversial.request, "/r/rust/controversial?t=week&limit=255&raw_json=1&");
    let feed = sub.get_feed("gilded?", &ListingOptions::default());
    is_get(&feed.request, "/r/rust/gilded?limit=25&raw_json=1&");
}

#[test]
fn options_are_written_as_queries() {
    assert_eq!(ListingAnchor::Start.to_query(), "");
    assert_eq!(ListingAnchor::After("t3_a".to_owned()).to_query(), "after=t3_a");
    assert_eq!(ListingAnchor::Before("t3_b".to_owned()).to_query(), "before=t3_b");
    assert_eq!(TimeFilter::Hour.to_query(), "t=hour");
    assert_eq!(TimeFilter::Day.to_query(), "t=day");
    assert_eq!(TimeFilter::Week.to_query(), "t=week");
    assert_eq!(TimeFilter::Month.to_query(), "t=month");
    assert_eq!(TimeFilter::Year.to_query(), "t=year");
    assert_eq!(TimeFilter::AllTime.to_query(), "t=all");
    let opts = ListingOptions::default();
    assert_eq!(opts.batch, 25);
    assert_eq!(opts.limit_text(), "25");
    assert!(matches!(opts.anchor, ListingAnchor::Start));
    let link = LinkPost::new("title", "https://example.com");
    assert!(!link.resubmit);
    let link = link.resubmit();
    assert!(link.resubmit);
    assert_eq!(link.title, "title");
    assert_eq!(link.link, "https://example.com");
    let text = SelfPost::new("I love Rust!", "It's great!");
    assert_eq!(text.title, "I love Rust!");
    assert_eq!(text.text, "It's great!");
}

#[test]
fn subreddit_requests() {
    let sub = Subreddit::create_new("programming");
    is_post(
        &sub.submit_link(&LinkPost::new("I love Rust!", "https://rust-lang.org")),
        "/api/submit",
        "api_type=json&extension=json&kind=link&resubmit=false&sendreplies=true&sr=programming&title=I+love+Rust%21&url=https%3A%2F%2Frust-lang.org",
    );
    is_post(
        &sub.submit_link(&LinkPost::new("t", "u").resubmit()),
        "/api/submit",
        "api_type=json&extension=json&kind=link&resubmit=true&sendreplies=true&sr=programming&title=t&url=u",
    );
    is_post(
        &sub.submit_text(&SelfPost::new("I love Rust!", "It's great! **Wow**!")),
        "/api/submit",
        "api_type=json&extension=json&kind=self&sendreplies=true&sr=programming&title=I+love+Rust%21&text=It%27s+great%21+**Wow**%21",
    );
    is_post(&sub.invite_member("LordPenguin42"), "/r/programming/api/friend", "name=LordPenguin42&type=contributor");
    is_get(&sub.about(), "/r/programming/about?raw_json=1");
    is_post(&sub.subscribe(), "/api/subscribe", "action=sub&sr_name=programming");
    is_post(&sub.unsubscribe(), "/api/subscribe", "action=unsub&sr_name=programming");
    let contributors = sub.contributors();
    is_get(&contributors.request, "/r/programming/about/contributors?raw_json=1");
    assert_eq!(contributors.query_stem, "/r/programming/about/contributors?raw_json=1");
    assert!(sub == Subreddit::create_new("programming"));
    assert!(sub != Subreddit::create_new("Programming"));
}

#[test]
fn contributors_need_a_readable_page() {
    let sub = Subreddit::create_new("rust");
    let stem = sub.contributors().query_stem;
    assert_eq!(sub.finish_contributors(stem.clone(), None).err(), Some(APIError::ExhaustedListing));
    let page = ListingData {
        before: None,
        after: None,
        modhash: None,
        children: vec![UserData { name: "carol".to_owned(), id: "t2_3".to_owned() }],
    };
    let mut listing = sub.finish_contributors(stem, Some(page)).ok().unwrap();
    match listing.next() {
        Step::Item(user) => assert_eq!(user.name, "carol"),
        _ => panic!("a user was at hand"),
    }
    assert!(matches!(listing.next(), Step::End));
}

#[test]
fn user_requests() {
    let user = User::new("Aurora0001");
    assert_eq!(user.name, "Aurora0001");
    is_get(&user.about(), "/user/Aurora0001/about?raw_json=1");
    is_post(&user.flair_options("rust"), "/r/rust/api/flairselector", "user=Aurora0001");
    is_post(&user.flair("rust", "tmpl"), "/r/rust/api/selectflair", "api_type=json&user=Aurora0001&flair_template_id=tmpl");
    let submissions = user.submissions();
    is_get(&submissions.request, "/user/Aurora0001/submitted?raw_json=1");
    assert_eq!(submissions.query_stem, "/user/Aurora0001/submitted?raw_json=1");
    is_get(&user.comments(), "/user/Aurora0001/comments?raw_json=1");
    let flairs = user.finish_flair_options(FlairSelectorResponse { choices: vec![flair("a", "1")] });
    assert_eq!(flairs.find_text("a"), Some("1".to_owned()));
}

#[test]
fn user_about_needs_a_readable_record() {
    assert_eq!(UserAbout::new(None).err(), Some(APIError::JSONError));
    let core = UserAboutDataCore {
        kind: "t2".to_owned(),
        data: UserAboutData {
            name: "KingTuxWH".to_owned(),
            id: "eqyvc".to_owned(),
            link_karma: 10,
            comment_karma: -2,
            created: 5,
            created_utc: 4,
            ..Default::default()
        },
    };
    let about = UserAbout::new(Some(core)).ok().unwrap();
    assert_eq!(about.data.name, "KingTuxWH");
    assert_eq!(about.id(), "eqyvc");
    assert_eq!(about.link_karma(), 10);
    assert_eq!(about.comment_karma(), -2);
    assert_eq!(about.created(), 5);
    assert_eq!(about.created_utc(), 4);
}

#[test]
fn comment_reads_its_record() {
    let c = a_comment();
    assert_eq!(c.name(), "t1_c");
    assert_eq!(c.parent(), "t3_p");
    assert_eq!(c.score(), -3);
    assert_eq!(c.likes(), Some(false));
    assert_eq!(c.created(), 11);
    assert_eq!(c.created_utc(), 12);
    assert!(c.has_edited_flag());
    assert!(!c.edited());
    assert_eq!(c.edited_time(), None);
    assert_eq!(c.body(), Some("old".to_owned()));
    assert_eq!(c.body_html(), Some("<p>old</p>".to_owned()));
    assert_eq!(c.author().name, "alice");
    assert_eq!(c.author_flair_text(), Some("crab".to_owned()));
    assert_eq!(c.author_flair_css(), None);
    assert_eq!(c.subreddit().name, "rust");
    assert_eq!(c.report_count(), Some(2));
    assert!(!c.stickied());
    assert_eq!(c.distinguished(), None);
    let edited = Comment::new(CommentData { edited: Edited::At(99), ..Default::default() }, Vec::new());
    assert!(!edited.has_edited_flag());
    assert_eq!(edited.edited_time(), Some(99));
    let unknown = Comment::new(CommentData::default(), Vec::new());
    assert!(!unknown.has_edited_flag());
    assert_eq!(unknown.edited_time(), None);
}

#[test]
fn comment_requests() {
    let c = a_comment();
    is_post(&c.upvote(), "/api/vote", "dir=1&id=t1_c");
    is_post(&c.downvote(), "/api/vote", "dir=-1&id=t1_c");
    is_post(&c.cancel_vote(), "/api/vote", "dir=0&id=t1_c");
    is_post(&c.edit("new & improved"), "/api/editusertext", "api_type=json&text=new+%26+improved&thing_id=t1_c");
    is_post(&c.delete(), "/api/del", "id=t1_c");
    is_post(&c.approve(), "/api/approve", "id=t1_c");
    is_post(&c.remove(true), "/api/remove", "id=t1_c&spam=true");
    is_post(&c.remove(false), "/api/remove", "id=t1_c&spam=false");
    is_post(&c.ignore_reports(), "/api/ignore_reports", "id=t1_c");
    is_post(&c.unignore_reports(), "/api/unignore_reports", "id=t1_c");
    is_post(&c.reply("This is cool... I think."), "/api/comment", "api_type=json&text=This+is+cool...+I+think.&thing_id=t1_c");
    is_post(&c.report("spam?"), "/api/report", "api_type=json&thing_id=t1_c&reason=spam%3F");
    is_post(&c.stick(), "/api/distinguish", "api_type=json&how=yes&sticky=true&id=t1_c");
    is_post(&c.unstick(), "/api/distinguish", "api_type=json&how=no&id=t1_c");
    is_post(&c.distinguish(), "/api/distinguish", "api_type=json&how=yes&id=t1_c");
    is_post(&c.undistinguish(), "/api/distinguish", "api_type=json&how=no&id=t1_c");
}

#[test]
fn comment_changes_only_after_a_success() {
    let mut c = a_comment();
    assert_eq!(c.finish_edit("new", Err(APIError::HTTPError(403))), Err(APIError::HTTPError(403)));
    assert_eq!(c.body(), Some("old".to_owned()));
    assert_eq!(c.finish_edit("new", Ok(())), Ok(()));
    assert_eq!(c.body(), Some("new".to_owned()));
    assert_eq!(c.body_html(), Some("<p>old</p>".to_owned()));
    assert_eq!(c.finish_stick(true, Err(APIError::TransportError)), Err(APIError::TransportError));
    assert!(!c.stickied());
    assert_eq!(c.finish_stick(true, Ok(())), Ok(()));
    assert!(c.stickied());
    assert_eq!(c.finish_stick(false, Ok(())), Ok(()));
    assert!(!c.stickied());
    assert_eq!(c.finish_distinguish(true, Err(APIError::JSONError)), Err(APIError::JSONError));
    assert_eq!(c.distinguished(), None);
    assert_eq!(c.finish_distinguish(true, Ok(())), Ok(()));
    assert_eq!(c.distinguished(), Some("moderator".to_owned()));
    assert_eq!(c.finish_distinguish(false, Ok(())), Ok(()));
    assert_eq!(c.distinguished(), None);
    assert_eq!(c.name(), "t1_c");
    assert_eq!(c.score(), -3);
}

#[test]
fn submission_reads_its_record() {
    let p = a_post();
    assert_eq!(p.name(), "t3_p");
    assert_eq!(p.title(), "A title");
    assert!(p.is_self_post());
    assert_eq!(p.link_url(), None);
    assert!(!p.nsfw());
    assert_eq!(p.score(), 42);
    assert_eq!(p.likes(), None);
    assert_eq!(p.created(), 100);
    assert_eq!(p.created_utc(), 90);
    assert!(!p.has_edited_flag());
    assert_eq!(p.edited_time(), Some(777));
    assert_eq!(p.body(), Some("words".to_owned()));
    assert_eq!(p.body_html(), Some("<p>words</p>".to_owned()));
    assert_eq!(p.author().name, "bob");
    assert_eq!(p.author_flair_text(), None);
    assert_eq!(p.author_flair_css(), None);
    assert_eq!(p.subreddit().name, "rust");
    assert_eq!(p.reply_count(), 5);
    assert!(!p.stickied());
    assert!(!p.locked());
    assert!(!p.hidden());
    assert_eq!(p.report_count(), None);
    assert_eq!(p.distinguished(), None);
    assert_eq!(p.get_flair_text(), Some("meta".to_owned()));
    assert_eq!(p.get_flair_css(), None);
    let link = Submission::new(SubmissionData { url: Some("https://x.y".to_owned()), edited: Edited::Flag(false), ..Default::default() });
    assert_eq!(link.body(), None);
    assert_eq!(link.link_url(), Some("https://x.y".to_owned()));
    assert!(link.has_edited_flag());
    assert!(!link.edited());
    assert!(a_post() == a_post());
    assert!(a_post() != link);
}

#[test]
fn submission_requests() {
    let p = a_post();
    is_post(&p.upvote(), "/api/vote", "dir=1&id=t3_p");
    is_post(&p.downvote(), "/api/vote", "dir=-1&id=t3_p");
    is_post(&p.cancel_vote(), "/api/vote", "dir=0&id=t3_p");
    is_post(&p.edit("a b"), "/api/editusertext", "api_type=json&text=a+b&thing_id=t3_p");
    is_post(&p.delete(), "/api/del", "id=t3_p");
    is_post(&p.approve(), "/api/approve", "id=t3_p");
    is_post(&p.remove(true), "/api/remove", "id=t3_p&spam=true");
    is_post(&p.ignore_reports(), "/api/ignore_reports", "id=t3_p");
    is_post(&p.unignore_reports(), "/api/unignore_reports", "id=t3_p");
    is_post(&p.reply("hi"), "/api/comment", "api_type=json&text=hi&thing_id=t3_p");
    is_get(&p.replies(), "/comments/p");
    is_post(&p.mark_nsfw(), "/api/marknsfw", "id=t3_p");
    is_post(&p.unmark_nsfw(), "/api/unmarknsfw", "id=t3_p");
    is_post(&p.stick(), "/api/set_subreddit_sticky", "api_type=json&id=t3_p&state=true");
    is_post(&p.unstick(), "/api/set_subreddit_sticky", "api_type=json&id=t3_p&state=false");
    is_post(&p.lock(), "/api/lock", "id=t3_p");
    is_post(&p.unlock(), "/api/unlock", "id=t3_p");
    is_post(&p.report("why not"), "/api/report", "api_type=json&thing_id=t3_p&reason=why+not");
    is_post(&p.distinguish(), "/api/distinguish", "api_type=json&how=yes&id=t3_p");
    is_post(&p.undistinguish(), "/api/distinguish", "api_type=json&how=no&id=t3_p");
    is_post(&p.flair_options(), "/r/rust/api/flairselector", "link=t3_p");
    is_post(&p.flair("tmpl"), "/r/rust/api/selectflair", "api_type=json&link=t3_p&flair_template_id=tmpl");
    is_post(&p.hide_post(), "/api/hide", "id=t3_p");
    is_post(&p.show(), "/api/unhide", "id=t3_p");
    let flairs = p.finish_flair_options(FlairSelectorResponse { choices: vec![flair("tutorial", "t1")] });
    assert_eq!(flairs.find_text("tutorial"), Some("t1".to_owned()));
}

#[test]
fn submission_changes_only_after_a_success() {
    let mut p = a_post();
    let denied = Err(APIError::HTTPError(403));
    assert_eq!(p.finish_edit("x", denied), denied);
    assert_eq!(p.finish_mark_nsfw(true, denied), denied);
    assert_eq!(p.finish_stick(true, denied), denied);
    assert_eq!(p.finish_lock(true, denied), denied);
    assert_eq!(p.finish_hide(true, denied), denied);
    assert_eq!(p.finish_distinguish(true, denied), denied);
    assert_eq!(p.body(), Some("words".to_owned()));
    assert!(!p.nsfw() && !p.stickied() && !p.locked() && !p.hidden());
    assert_eq!(p.distinguished(), None);
    assert_eq!(p.finish_edit("x", Ok(())), Ok(()));
    assert_eq!(p.finish_mark_nsfw(true, Ok(())), Ok(()));
    assert_eq!(p.finish_stick(true, Ok(())), Ok(()));
    assert_eq!(p.finish_lock(true, Ok(())), Ok(()));
    assert_eq!(p.finish_hide(true, Ok(())), Ok(()));
    assert_eq!(p.finish_distinguish(true, Ok(())), Ok(()));
    assert_eq!(p.body(), Some("x".to_owned()));
    assert!(p.nsfw() && p.stickied() && p.locked() && p.hidden());
    assert_eq!(p.distinguished(), Some("moderator".to_owned()));
    assert_eq!(p.finish_mark_nsfw(false, Ok(())), Ok(()));
    assert_eq!(p.finish_stick(false, Ok(())), Ok(()));
    assert_eq!(p.finish_lock(false, Ok(())), Ok(()));
    assert_eq!(p.finish_hide(false, Ok(())), Ok(()));
    assert_eq!(p.finish_distinguish(false, Ok(())), Ok(()));
    assert!(!p.nsfw() && !p.stickied() && !p.locked() && !p.hidden());
    assert_eq!(p.distinguished(), None);
    assert_eq!(p.title(), "A title");
}

#[test]
fn replies_of_a_submission_hang_below_it() {
    let p = a_post();
    let things = vec![
        Thing::Comment(CommentData { name: "t1_a".to_owned(), parent_id: "t3_p".to_owned(), link_id: "t3_p".to_owned(), ..Default::default() }, Vec::new()),
        Thing::Comment(CommentData { name: "t1_b".to_owned(), parent_id: "t1_a".to_owned(), link_id: "t3_p".to_owned(), ..Default::default() }, Vec::new()),
    ];
    let mut replies = p.finish_replies(things);
    assert_eq!(replies.len(), 1);
    match replies.next_comment() {
        CommentStep::Reply(c) => {
            assert_eq!(c.name(), "t1_a");
            assert_eq!(c.replies().len(), 1);
        }
        _ => panic!("a comment was ready"),
    }
}

#[test]
fn lazy_submission_requests() {
    let lazy = LazySubmission::new("t3_4uule8");
    assert!(lazy.has_full_name());
    let get = lazy.get();
    is_get(&get.request, "/by_id/t3_4uule8?raw_json=1");
    assert_eq!(get.query_stem, "/by_id/t3_4uule8?raw_json=1");
    is_get(&lazy.replies(), "/comments/4uule8?raw_json=1");
    is_get(&LazySubmission::new("t3_abc_def").replies(), "/comments/abc?raw_json=1");
    is_get(&LazySubmission::new("t3_").replies(), "/comments/?raw_json=1");
    is_get(&LazySubmission::new("__x").replies(), "/comments/?raw_json=1");
    assert!(!LazySubmission::new("4uule8").has_full_name());
    assert!(!LazySubmission::new("").has_full_name());
    assert!(LazySubmission::new("_").has_full_name());
    let page = ListingData { before: None, after: None, modhash: None, children: vec![a_post().data] };
    assert_eq!(lazy.finish_get(page).title(), "A title");
    let mut replies = lazy.finish_replies(vec![Thing::Comment(
        CommentData { name: "t1_a".to_owned(), parent_id: "t3_4uule8".to_owned(), ..Default::default() },
        Vec::new(),
    )]);
    assert!(matches!(replies.next_comment(), CommentStep::Reply(_)));
}

#[test]
fn message_reads_its_record_and_spells_requests() {
    let mut m = Message::new(MessageData {
        name: "t4_m".to_owned(),
        parent_id: Some("t4_l".to_owned()),
        author: None,
        subreddit: None,
        subject: "hello".to_owned(),
        body: "text".to_owned(),
        body_html: "<p>text</p>".to_owned(),
        created: 3,
        created_utc: 2,
    });
    assert_eq!(m.name(), "t4_m");
    assert_eq!(m.parent_id(), Some("t4_l".to_owned()));
    assert_eq!(m.created(), 3);
    assert_eq!(m.created_utc(), 2);
    assert_eq!(m.author().name, "reddit");
    assert_eq!(m.subreddit().name, "all");
    assert_eq!(m.author_flair_text(), None);
    assert_eq!(m.author_flair_css(), None);
    assert_eq!(m.body(), Some("text".to_owned()));
    assert_eq!(m.body_html(), Some("<p>text</p>".to_owned()));
    is_post(&m.mark_read(), "/api/read_message", "id=t4_m");
    is_post(&m.reply("ok then"), "/api/comment", "api_type=json&text=ok+then&thing_id=t4_m");
    is_post(&m.delete(), "/api/del_msg", "id=t4_m");
    is_post(&m.approve(), "/api/approve", "id=t4_m");
    is_post(&m.remove(false), "/api/remove", "id=t4_m&spam=false");
    is_post(&m.ignore_reports(), "/api/ignore_reports", "id=t4_m");
    is_post(&m.unignore_reports(), "/api/unignore_reports", "id=t4_m");
    is_post(&m.edit("x/y"), "/api/editusertext", "api_type=json&text=x%2Fy&thing_id=t4_m");
    assert_eq!(m.finish_edit("x/y", Err(APIError::TransportError)), Err(APIError::TransportError));
    assert_eq!(m.body(), Some("text".to_owned()));
    assert_eq!(m.finish_edit("x/y", Ok(())), Ok(()));
    assert_eq!(m.body(), Some("x/y".to_owned()));
    let named = Message::new(MessageData { author: Some("dave".to_owned()), subreddit: Some("rust".to_owned()), ..Default::default() });
    assert_eq!(named.author().name, "dave");
    assert_eq!(named.subreddit().name, "rust");
    assert_eq!(named.parent_id(), None);
}

#[test]
fn message_queues() {
    let messages = MessageInterface::new();
    is_post(&messages.compose("Aurora0001", "Test", "Hi!"), "/api/compose", "api_type=json&subject=Test&text=Hi!&to=Aurora0001");
    let inbox = messages.inbox(&ListingOptions::default());
    assert_eq!(inbox.query_stem, "/message/inbox?raw_json=1&limit=25");
    is_get(&inbox.request, "/message/inbox?raw_json=1&limit=25&");
    let opts = ListingOptions { batch: 5, anchor: ListingAnchor::After("t4_z".to_owned()) };
    let unread = messages.unread(&opts);
    assert_eq!(unread.query_stem, "/message/unread?raw_json=1&limit=5");
    is_get(&unread.request, "/message/unread?raw_json=1&limit=5&after=t4_z");
}
