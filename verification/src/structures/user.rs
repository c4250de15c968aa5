//! Users, what they tell about themselves, and listings of them.

use vstd::prelude::*;
use vstd::string::*;
use crate::client::ApiRequest;
use crate::errors::APIError;
use crate::responses::listing::{ListingData, UserData};
use crate::responses::user::{UserAboutData, UserAboutDataCore};
use crate::responses::FlairSelectorResponse;
use crate::structures::listing::{ListingRequest, Paged, PagedView, Step, delivered, text_of};
use crate::structures::submission::FlairList;

verus! {

/// Interface to a Reddit user, which can be used to access their karma and
/// moderator status.
#[derive(Debug, Clone)]
pub struct User {
    /// The name of the user that this struct represents.
    pub name: String,
}

impl User {
    /// The user called `name`.
    pub fn new(name: &str) -> (r: User)
        ensures
            r.name@ == name@,
    {
        User { name: name.to_owned() }
    }

    /// The request for information about this user.
    pub fn about(&self) -> (r: ApiRequest)
        ensures
            r.is_get("/user/"@ + self.name@ + "/about?raw_json=1"@),
    {
        let mut url = "/user/".to_owned();
        url.append(self.name.as_str());
        url.append("/about?raw_json=1");
        ApiRequest::get(url)
    }

    /// The request for the **user** flairs that can be picked for this user
    /// in `subreddit`.
    pub fn flair_options(&self, subreddit: &str) -> (r: ApiRequest)
        ensures
            r.is_post("/r/"@ + subreddit@ + "/api/flairselector"@, "user="@ + self.name@),
    {
        let mut body = "user=".to_owned();
        body.append(self.name.as_str());
        let mut url = "/r/".to_owned();
        url.append(subreddit);
        url.append("/api/flairselector");
        ApiRequest::post(url.as_str(), body)
    }

    /// Reads the answer to [`User::flair_options`].
    pub fn finish_flair_options(&self, answer: FlairSelectorResponse) -> (r: FlairList)
        ensures
            r.flairs == answer.choices,
    {
        FlairList::new(answer.choices)
    }

    /// The request that sets the flair of this user in `subreddit` to the
    /// flair with the template `template`.
    pub fn flair(&self, subreddit: &str, template: &str) -> (r: ApiRequest)
        ensures
            r.is_post(
                "/r/"@ + subreddit@ + "/api/selectflair"@,
                "api_type=json&user="@ + self.name@ + "&flair_template_id="@ + template@,
            ),
    {
        let mut body = "api_type=json&user=".to_owned();
        body.append(self.name.as_str());
        body.append("&flair_template_id=");
        body.append(template);
        let mut url = "/r/".to_owned();
        url.append(subreddit);
        url.append("/api/selectflair");
        ApiRequest::post(url.as_str(), body)
    }

    /// The request for the first page of what this user has submitted, with
    /// the query that the pages after it are asked for with.
    pub fn submissions(&self) -> (r: ListingRequest)
        ensures
            r.request.is_get("/user/"@ + self.name@ + "/submitted?raw_json=1"@),
            r.query_stem@ == "/user/"@ + self.name@ + "/submitted?raw_json=1"@,
    {
        let mut url = "/user/".to_owned();
        url.append(self.name.as_str());
        url.append("/submitted?raw_json=1");
        ListingRequest { request: ApiRequest::get(url.clone()), query_stem: url }
    }

    /// The request for the first page of the comments this user has written.
    pub fn comments(&self) -> (r: ApiRequest)
        ensures
            r.is_get("/user/"@ + self.name@ + "/comments?raw_json=1"@),
    {
        let mut url = "/user/".to_owned();
        url.append(self.name.as_str());
        url.append("/comments?raw_json=1");
        ApiRequest::get(url)
    }
}

/// Information about a user from /r/username/about, such as karma and ID.
#[derive(Debug, Clone)]
pub struct UserAbout {
    /// About data for the user
    pub data: UserAboutData,
}

impl UserAbout {
    /// Reads the answer to [`User::about`]: the record, if the body could be
    /// read as one.
    pub fn new(answer: Option<UserAboutDataCore>) -> (r: Result<UserAbout, APIError>)
        ensures
            match answer {
                Some(core) => r is Ok && r->Ok_0.data == core.data,
                None => r is Err && r->Err_0 == APIError::JSONError,
            },
    {
        match answer {
            Some(core) => Ok(UserAbout { data: core.data }),
            None => Err(APIError::JSONError),
        }
    }

    /// Gets the user's link karma (including self post karma).
    pub fn link_karma(&self) -> (r: i64)
        ensures
            r == self.data.link_karma,
    {
        self.data.link_karma
    }

    /// Gets the user's comment karma.
    pub fn comment_karma(&self) -> (r: i64)
        ensures
            r == self.data.comment_karma,
    {
        self.data.comment_karma
    }

    /// Gets the user ID, not including kind, e.g. 'eqyvc'.
    pub fn id(&self) -> (r: &str)
        ensures
            r@ == self.data.id@,
    {
        self.data.id.as_str()
    }

    /// Creation time in local epoch seconds.
    pub fn created(&self) -> (r: i64)
        ensures
            r == self.data.created,
    {
        self.data.created
    }

    /// Creation time in UTC epoch seconds.
    pub fn created_utc(&self) -> (r: i64)
        ensures
            r == self.data.created_utc,
    {
        self.data.created_utc
    }
}

/// A paginated listing of users that can be walked through.
pub struct UserListing {
    pages: Paged<UserData>,
}

impl UserListing {
    pub closed spec fn view(&self) -> PagedView<UserData> {
        self.pages@
    }

    /// Creates a listing from the query that fetched its first page, and that
    /// page.
    pub fn new(query_stem: String, data: ListingData<UserData>) -> (r: UserListing)
        ensures
            r@ == (PagedView {
                query_stem: query_stem@,
                children: data.children@,
                after: text_of(data.after),
                before: text_of(data.before),
                modhash: text_of(data.modhash),
            }),
    {
        UserListing { pages: Paged::new(query_stem, data) }
    }

    /// Mark of the page before the first page fetched.
    pub fn before(&self) -> (r: Option<String>)
        ensures
            text_of(r) == self@.before,
    {
        self.pages.before()
    }

    /// Mark of the page after the users at hand.
    pub fn after(&self) -> (r: Option<String>)
        ensures
            text_of(r) == self@.after,
    {
        self.pages.after()
    }

    /// Token that guards form posts of cookie sessions.
    pub fn modhash(&self) -> (r: Option<String>)
        ensures
            text_of(r) == self@.modhash,
    {
        self.pages.modhash()
    }

    /// The request for the page after the users at hand; an error if the last
    /// page has been fetched already.
    pub fn fetch_after(&self) -> (r: Result<ApiRequest, APIError>)
        ensures
            self@.after is None ==> r == Err::<ApiRequest, APIError>(APIError::ExhaustedListing),
            self@.after is Some ==> r is Ok && r->Ok_0.is_get(self@.next_page_path()),
    {
        self.pages.fetch_after()
    }

    /// Looks for the next user: see [`Paged::next`].
    pub fn next(&mut self) -> (step: Step<User>)
        ensures
            old(self)@.children.len() > 0 ==> (step matches Step::Item(user) && user.name@ == old(self)@.children[0].name@) && final(self)@ == old(self)@.without_first(),
            old(self)@.children.len() == 0 && old(self)@.after is Some ==> (step matches Step::Fetch(
                request,
            ) && request.is_get(old(self)@.next_page_path())) && final(self)@ == old(self)@,
            old(self)@.exhausted() ==> step is End && final(self)@ == old(self)@,
    {
        match self.pages.next() {
            Step::Item(child) => Step::Item(User::new(child.name.as_str())),
            Step::Fetch(request) => Step::Fetch(request),
            Step::End => Step::End,
        }
    }

    /// Takes in what came of the request for the next page: see
    /// [`Paged::finish_fetch`].
    pub fn finish_fetch(&mut self, outcome: Result<ListingData<UserData>, APIError>) -> (r: Result<
        Option<User>,
        APIError,
    >)
        ensures
            final(self)@ == old(self)@.after_fetch(delivered(outcome)),
            match old(self)@.fetch_result(delivered(outcome)) {
                Ok(Some(child)) => r matches Ok(Some(user)) && user.name@ == child.name@,
                Ok(None) => r matches Ok(None),
                Err(e) => r matches Err(err) && err == e,
            },
    {
        match self.pages.finish_fetch(outcome) {
            Ok(Some(child)) => Ok(Some(User::new(child.name.as_str()))),
            Ok(None) => Ok(None),
            Err(e) => Err(e),
        }
    }
}

} // verus!
