//! Subreddits: their feeds, what they tell about themselves, and what can be
//! sent to them.

use vstd::prelude::*;
use vstd::string::*;
use crate::client::{ApiRequest, url_escape, url_escaped};
use crate::errors::APIError;
use crate::options::{LinkPost, ListingOptions, SelfPost, TimeFilter};
use crate::responses::listing::{ListingData, SubredditAboutData, UserData};
use crate::structures::listing::{ListingRequest, PagedView, text_of};
use crate::structures::user::UserListing;
use crate::text::{bool_text, truth};

verus! {

/// The `Subreddit` struct represents a subreddit and allows access to post
/// listings and data about the subreddit.
#[derive(Debug, Clone)]
pub struct Subreddit {
    /// The name of the subreddit represented by this struct.
    pub name: String,
}

impl PartialEq for Subreddit {
    /// Two subreddits are the same if they have the same name.
    fn eq(&self, other: &Subreddit) -> (r: bool) {
        self.name == other.name
    }
}

impl vstd::std_specs::cmp::PartialEqSpecImpl for Subreddit {
    open spec fn obeys_eq_spec() -> bool {
        true
    }

    open spec fn eq_spec(&self, other: &Subreddit) -> bool {
        self.name@ == other.name@
    }
}

/// The query of a feed without any page mark: the feed `ty` of the subreddit
/// `name`, in pages of `limit` entries.
pub open spec fn feed_stem(name: Seq<char>, ty: Seq<char>, limit: Seq<char>) -> Seq<char> {
    "/r/"@ + name + "/"@ + ty + "limit="@ + limit + "&raw_json=1"@
}

impl Subreddit {
    /// Creates a `Subreddit` from the subreddit's name.
    pub fn create_new(name: &str) -> (r: Subreddit)
        ensures
            r.name@ == name@,
    {
        Subreddit { name: name.to_owned() }
    }

    /// The request for the first page of the feed `ty`, which starts at the
    /// anchor of `opts`, with the query that the pages after it are asked for
    /// with. The query leaves the anchor out, so that paging can set its own.
    pub fn get_feed(&self, ty: &str, opts: &ListingOptions) -> (r: ListingRequest)
        ensures
            r.query_stem@ == feed_stem(self.name@, ty@, opts.limit()),
            r.request.is_get(
                feed_stem(self.name@, ty@, opts.limit()) + "&"@ + opts.anchor.query(),
            ),
    {
        let mut uri = "/r/".to_owned();
        uri.append(self.name.as_str());
        uri.append("/");
        uri.append(ty);
        uri.append("limit=");
        uri.append(opts.limit_text().as_str());
        uri.append("&raw_json=1");
        let mut full_uri = uri.clone();
        full_uri.append("&");
        full_uri.append(opts.anchor.to_query().as_str());
        ListingRequest { request: ApiRequest::get(full_uri), query_stem: uri }
    }

    /// The request for the hot feed of this subreddit. The first page may
    /// include some sticky posts in addition to the expected posts.
    pub fn hot(&self, opts: &ListingOptions) -> (r: ListingRequest)
        ensures
            r.query_stem@ == feed_stem(self.name@, "hot?"@, opts.limit()),
            r.request.is_get(
                feed_stem(self.name@, "hot?"@, opts.limit()) + "&"@ + opts.anchor.query(),
            ),
    {
        self.get_feed("hot?", opts)
    }

    /// The request for the new feed of this subreddit.
    pub fn new(&self, opts: &ListingOptions) -> (r: ListingRequest)
        ensures
            r.query_stem@ == feed_stem(self.name@, "new?"@, opts.limit()),
            r.request.is_get(
                feed_stem(self.name@, "new?"@, opts.limit()) + "&"@ + opts.anchor.query(),
            ),
    {
        self.get_feed("new?", opts)
    }

    /// The request for the rising feed of this subreddit. Usually much
    /// shorter than the other listings; may be empty.
    pub fn rising(&self, opts: &ListingOptions) -> (r: ListingRequest)
        ensures
            r.query_stem@ == feed_stem(self.name@, "rising?"@, opts.limit()),
            r.request.is_get(
                feed_stem(self.name@, "rising?"@, opts.limit()) + "&"@ + opts.anchor.query(),
            ),
    {
        self.get_feed("rising?", opts)
    }

    /// The request for the top feed of this subreddit, over the span `time`.
    pub fn top(&self, opts: &ListingOptions, time: TimeFilter) -> (r: ListingRequest)
        ensures
            r.query_stem@ == feed_stem(
                self.name@,
                "top?"@ + time.query() + "&"@,
                opts.limit(),
            ),
            r.request.is_get(
                feed_stem(self.name@, "top?"@ + time.query() + "&"@, opts.limit()) + "&"@
                    + opts.anchor.query(),
            ),
    {
        let mut path = "top?".to_owned();
        path.append(time.to_query().as_str());
        path.append("&");
        self.get_feed(path.as_str(), opts)
    }

    /// The request for the controversial feed of this subreddit, over the
    /// span `time`.
    pub fn controversial(&self, opts: &ListingOptions, time: TimeFilter) -> (r: ListingRequest)
        ensures
            r.query_stem@ == feed_stem(
                self.name@,
                "controversial?"@ + time.query() + "&"@,
                opts.limit(),
            ),
            r.request.is_get(
                feed_stem(self.name@, "controversial?"@ + time.query() + "&"@, opts.limit())
                    + "&"@ + opts.anchor.query(),
            ),
    {
        let mut path = "controversial?".to_owned();
        path.append(time.to_query().as_str());
        path.append("&");
        self.get_feed(path.as_str(), opts)
    }

    /// The request that submits a link post to this subreddit. If the link
    /// has already been posted, the server refuses it unless the post is
    /// marked as a repost.
    pub fn submit_link(&self, post: &LinkPost) -> (r: ApiRequest)
        ensures
            r.is_post(
                "/api/submit"@,
                "api_type=json&extension=json&kind=link&resubmit="@ + truth(post.resubmit)
                    + "&sendreplies=true&sr="@ + self.name@ + "&title="@ + url_escaped(
                    post.title@,
                ) + "&url="@ + url_escaped(post.link@),
            ),
    {
        let mut body = "api_type=json&extension=json&kind=link&resubmit=".to_owned();
        body.append(bool_text(post.resubmit).as_str());
        body.append("&sendreplies=true&sr=");
        body.append(self.name.as_str());
        body.append("&title=");
        body.append(url_escape(post.title.as_str()).as_str());
        body.append("&url=");
        body.append(url_escape(post.link.as_str()).as_str());
        ApiRequest::post("/api/submit", body)
    }

    /// The request that submits a text post (self post) to this subreddit.
    pub fn submit_text(&self, post: &SelfPost) -> (r: ApiRequest)
        ensures
            r.is_post(
                "/api/submit"@,
                "api_type=json&extension=json&kind=self&sendreplies=true&sr="@ + self.name@
                    + "&title="@ + url_escaped(post.title@) + "&text="@ + url_escaped(post.text@),
            ),
    {
        let mut body = "api_type=json&extension=json&kind=self&sendreplies=true&sr=".to_owned();
        body.append(self.name.as_str());
        body.append("&title=");
        body.append(url_escape(post.title.as_str()).as_str());
        body.append("&text=");
        body.append(url_escape(post.text.as_str()).as_str());
        ApiRequest::post("/api/submit", body)
    }

    /// The request that invites a new member to the subreddit.
    pub fn invite_member(&self, username: &str) -> (r: ApiRequest)
        ensures
            r.is_post(
                "/r/"@ + self.name@ + "/api/friend"@,
                "name="@ + username@ + "&type=contributor"@,
            ),
    {
        let mut path = "/r/".to_owned();
        path.append(self.name.as_str());
        path.append("/api/friend");
        let mut body = "name=".to_owned();
        body.append(username);
        body.append("&type=contributor");
        ApiRequest::post(path.as_str(), body)
    }

    /// The request for information about the subreddit such as subscribers,
    /// active users and sidebar information.
    pub fn about(&self) -> (r: ApiRequest)
        ensures
            r.is_get("/r/"@ + self.name@ + "/about?raw_json=1"@),
    {
        let mut url = "/r/".to_owned();
        url.append(self.name.as_str());
        url.append("/about?raw_json=1");
        ApiRequest::get(url)
    }

    /// The request for the first page of the subreddit's contributors, with
    /// the query that the pages after it are asked for with.
    pub fn contributors(&self) -> (r: ListingRequest)
        ensures
            r.request.is_get("/r/"@ + self.name@ + "/about/contributors?raw_json=1"@),
            r.query_stem@ == "/r/"@ + self.name@ + "/about/contributors?raw_json=1"@,
    {
        let mut url = "/r/".to_owned();
        url.append(self.name.as_str());
        url.append("/about/contributors?raw_json=1");
        ListingRequest { request: ApiRequest::get(url.clone()), query_stem: url }
    }

    /// Reads the answer to [`Subreddit::contributors`], asked for with the
    /// query `query_stem`: the listing that starts with the page, if the body
    /// could be read as one.
    pub fn finish_contributors(
        &self,
        query_stem: String,
        page: Option<ListingData<UserData>>,
    ) -> (r: Result<UserListing, APIError>)
        ensures
            match page {
                Some(data) => r is Ok && r->Ok_0@ == (PagedView {
                    query_stem: query_stem@,
                    children: data.children@,
                    after: text_of(data.after),
                    before: text_of(data.before),
                    modhash: text_of(data.modhash),
                }),
                None => r is Err && r->Err_0 == APIError::ExhaustedListing,
            },
    {
        match page {
            Some(data) => Ok(UserListing::new(query_stem, data)),
            None => Err(APIError::ExhaustedListing),
        }
    }

    /// The request that subscribes to the subreddit.
    pub fn subscribe(&self) -> (r: ApiRequest)
        ensures
            r.is_post("/api/subscribe"@, "action=sub&sr_name="@ + self.name@),
    {
        let mut body = "action=sub&sr_name=".to_owned();
        body.append(self.name.as_str());
        ApiRequest::post("/api/subscribe", body)
    }

    /// The request that unsubscribes from the subreddit.
    pub fn unsubscribe(&self) -> (r: ApiRequest)
        ensures
            r.is_post("/api/subscribe"@, "action=unsub&sr_name="@ + self.name@),
    {
        let mut body = "action=unsub&sr_name=".to_owned();
        body.append(self.name.as_str());
        ApiRequest::post("/api/subscribe", body)
    }
}

/// Information about a subreddit such as subscribers, sidebar text and active
/// users.
#[derive(Debug, Clone)]
pub struct SubredditAbout {
    data: SubredditAboutData,
}

impl SubredditAbout {
    /// The record behind the information.
    pub closed spec fn view(&self) -> SubredditAboutData {
        self.data
    }

    /// Creates a new `SubredditAbout` instance from the record the API
    /// delivered.
    pub fn new(data: SubredditAboutData) -> (r: SubredditAbout)
        ensures
            r@ == data,
    {
        SubredditAbout { data: data }
    }

    /// The number of subscribers to this subreddit.
    pub fn subscribers(&self) -> (r: u64)
        ensures
            r == self@.subscribers,
    {
        self.data.subscribers
    }

    /// The number of logged-in users who have viewed this subreddit in the
    /// last 15 minutes.
    pub fn active_users(&self) -> (r: u64)
        ensures
            r == self@.accounts_active,
    {
        self.data.accounts_active
    }

    /// Returns `true` if the subreddit is visible to the public (i.e. not
    /// invitation only).
    pub fn public(&self) -> (r: bool)
        ensures
            r == self@.public_traffic,
    {
        self.data.public_traffic
    }

    /// The display name of the subreddit, not including leading /r/.
    pub fn display_name(&self) -> (r: &str)
        ensures
            r@ == self@.display_name@,
    {
        self.data.display_name.as_str()
    }

    /// Creation time in local epoch seconds.
    pub fn created(&self) -> (r: i64)
        ensures
            r == self@.created,
    {
        self.data.created
    }

    /// Creation time in UTC epoch seconds.
    pub fn created_utc(&self) -> (r: i64)
        ensures
            r == self@.created_utc,
    {
        self.data.created_utc
    }
}

} // verus!
