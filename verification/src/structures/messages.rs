//! Private messages and the queues they arrive in.

use vstd::prelude::*;
use vstd::string::*;
use crate::client::{ApiRequest, url_escape, url_escaped};
use crate::errors::APIError;
use crate::options::ListingOptions;
use crate::responses::listing::ListingData;
use crate::responses::messages::MessageData;
use crate::structures::listing::{ListingRequest, Paged, PagedView, Step, delivered, text_of};
use crate::structures::subreddit::Subreddit;
use crate::structures::user::User;
use crate::text::{bool_text, truth};

verus! {

/// A representation of a private message from Reddit.
#[derive(Debug, Clone)]
pub struct Message {
    data: MessageData,
}

impl Message {
    /// The record behind the message.
    pub closed spec fn view(&self) -> MessageData {
        self.data
    }

    /// Wraps the record of a message.
    pub fn new(data: MessageData) -> (r: Message)
        ensures
            r@ == data,
    {
        Message { data: data }
    }

    /// Gets the full name (kind + id, e.g. 't1_a5bzp') of the parent of this
    /// message.
    pub fn parent_id(&self) -> (r: Option<String>)
        ensures
            text_of(r) == text_of(self@.parent_id),
    {
        self.data.parent_id.clone()
    }

    /// Gets the full name of the message (kind + id).
    pub fn name(&self) -> (r: &str)
        ensures
            r@ == self@.name@,
    {
        self.data.name.as_str()
    }

    /// Creation time in local epoch seconds.
    pub fn created(&self) -> (r: i64)
        ensures
            r == self@.created,
    {
        self.data.created
    }

    /// Creation time in UTC epoch seconds.
    pub fn created_utc(&self) -> (r: i64)
        ensures
            r == self@.created_utc,
    {
        self.data.created_utc
    }

    /// The sender of the message; the site itself, under the name `reddit`,
    /// where the message names none.
    pub fn author(&self) -> (r: User)
        ensures
            r.name@ == match self@.author {
                Some(author) => author@,
                None => "reddit"@,
            },
    {
        match &self.data.author {
            Some(author) => User::new(author.as_str()),
            None => User::new("reddit"),
        }
    }

    /// Text of the sender's flair: messages have none.
    pub fn author_flair_text(&self) -> (r: Option<String>)
        ensures
            r is None,
    {
        None
    }

    /// CSS class of the sender's flair: messages have none.
    pub fn author_flair_css(&self) -> (r: Option<String>)
        ensures
            r is None,
    {
        None
    }

    /// The subreddit the message came from; `all` where the message names
    /// none.
    pub fn subreddit(&self) -> (r: Subreddit)
        ensures
            r.name@ == match self@.subreddit {
                Some(subreddit) => subreddit@,
                None => "all"@,
            },
    {
        match &self.data.subreddit {
            Some(subreddit) => Subreddit::create_new(subreddit.as_str()),
            None => Subreddit::create_new("all"),
        }
    }

    /// The text as written.
    pub fn body(&self) -> (r: Option<String>)
        ensures
            r is Some,
            r->0@ == self@.body@,
    {
        Some(self.data.body.clone())
    }

    /// The text rendered to HTML.
    pub fn body_html(&self) -> (r: Option<String>)
        ensures
            r is Some,
            r->0@ == self@.body_html@,
    {
        Some(self.data.body_html.clone())
    }

    fn about_self(&self, path: &str, prefix: &str) -> (r: ApiRequest)
        ensures
            r.is_post(path@, prefix@ + self@.name@),
    {
        let mut body = prefix.to_owned();
        body.append(self.data.name.as_str());
        ApiRequest::post(path, body)
    }

    /// The request that marks this message as read, so that it will not show
    /// in the unread queue.
    pub fn mark_read(&self) -> (r: ApiRequest)
        ensures
            r.is_post("/api/read_message"@, "id="@ + self@.name@),
    {
        self.about_self("/api/read_message", "id=")
    }

    /// The request that answers the message with `text`.
    pub fn reply(&self, text: &str) -> (r: ApiRequest)
        ensures
            r.is_post(
                "/api/comment"@,
                "api_type=json&text="@ + url_escaped(text@) + "&thing_id="@ + self@.name@,
            ),
    {
        let mut body = "api_type=json&text=".to_owned();
        body.append(url_escape(text).as_str());
        body.append("&thing_id=");
        body.append(self.data.name.as_str());
        ApiRequest::post("/api/comment", body)
    }

    /// The request that deletes the message.
    pub fn delete(&self) -> (r: ApiRequest)
        ensures
            r.is_post("/api/del_msg"@, "id="@ + self@.name@),
    {
        self.about_self("/api/del_msg", "id=")
    }

    /// The request that approves the message.
    pub fn approve(&self) -> (r: ApiRequest)
        ensures
            r.is_post("/api/approve"@, "id="@ + self@.name@),
    {
        self.about_self("/api/approve", "id=")
    }

    /// The request that removes the message, as spam or not.
    pub fn remove(&self, spam: bool) -> (r: ApiRequest)
        ensures
            r.is_post("/api/remove"@, "id="@ + self@.name@ + "&spam="@ + truth(spam)),
    {
        let mut body = "id=".to_owned();
        body.append(self.data.name.as_str());
        body.append("&spam=");
        body.append(bool_text(spam).as_str());
        ApiRequest::post("/api/remove", body)
    }

    /// The request that silences further reports of the message.
    pub fn ignore_reports(&self) -> (r: ApiRequest)
        ensures
            r.is_post("/api/ignore_reports"@, "id="@ + self@.name@),
    {
        self.about_self("/api/ignore_reports", "id=")
    }

    /// The request that lets reports of the message through again.
    pub fn unignore_reports(&self) -> (r: ApiRequest)
        ensures
            r.is_post("/api/unignore_reports"@, "id="@ + self@.name@),
    {
        self.about_self("/api/unignore_reports", "id=")
    }

    /// The request that replaces the text of the message by `text`.
    pub fn edit(&self, text: &str) -> (r: ApiRequest)
        ensures
            r.is_post(
                "/api/editusertext"@,
                "api_type=json&text="@ + url_escaped(text@) + "&thing_id="@ + self@.name@,
            ),
    {
        let mut body = "api_type=json&text=".to_owned();
        body.append(url_escape(text).as_str());
        body.append("&thing_id=");
        body.append(self.data.name.as_str());
        ApiRequest::post("/api/editusertext", body)
    }

    /// Takes in the answer to [`Message::edit`]: after a success the message
    /// holds the new text.
    pub fn finish_edit(&mut self, text: &str, res: Result<(), APIError>) -> (r: Result<(), APIError>)
        ensures
            r == res,
            res is Err ==> final(self)@ == old(self)@,
            res is Ok ==> final(self)@.body@ == text@ && final(self)@ == (MessageData {
                body: final(self)@.body,
                ..old(self)@
            }),
    {
        if res.is_ok() {
            self.data.body = text.to_owned();
        }
        res
    }
}

/// A helper struct which allows access to the inbox, unread messages and
/// other message queues.
#[derive(Debug, Clone, Copy, PartialEq, Eq, Structural)]
pub struct MessageInterface;

/// The query of a message queue without any page mark: the queue `queue`, in
/// pages of `limit` entries.
pub open spec fn queue_stem(queue: Seq<char>, limit: Seq<char>) -> Seq<char> {
    "/message/"@ + queue + "?raw_json=1&limit="@ + limit
}

impl MessageInterface {
    /// The interface to the message queues.
    pub fn new() -> (r: MessageInterface) {
        MessageInterface {  }
    }

    /// The request that sends a private message to a user.
    pub fn compose(&self, recipient: &str, subject: &str, body: &str) -> (r: ApiRequest)
        ensures
            r.is_post(
                "/api/compose"@,
                "api_type=json&subject="@ + subject@ + "&text="@ + body@ + "&to="@ + recipient@,
            ),
    {
        let mut form = "api_type=json&subject=".to_owned();
        form.append(subject);
        form.append("&text=");
        form.append(body);
        form.append("&to=");
        form.append(recipient);
        ApiRequest::post("/api/compose", form)
    }

    fn queue(&self, queue: &str, opts: &ListingOptions) -> (r: ListingRequest)
        ensures
            r.query_stem@ == queue_stem(queue@, opts.limit()),
            r.request.is_get(queue_stem(queue@, opts.limit()) + "&"@ + opts.anchor.query()),
    {
        let mut uri = "/message/".to_owned();
        uri.append(queue);
        uri.append("?raw_json=1&limit=");
        uri.append(opts.limit_text().as_str());
        let mut full_uri = uri.clone();
        full_uri.append("&");
        full_uri.append(opts.anchor.to_query().as_str());
        ListingRequest { request: ApiRequest::get(full_uri), query_stem: uri }
    }

    /// The request for the first page of all received messages that have not
    /// been deleted.
    pub fn inbox(&self, opts: &ListingOptions) -> (r: ListingRequest)
        ensures
            r.query_stem@ == queue_stem("inbox"@, opts.limit()),
            r.request.is_get(queue_stem("inbox"@, opts.limit()) + "&"@ + opts.anchor.query()),
    {
        self.queue("inbox", opts)
    }

    /// The request for the first page of all messages that have **not** been
    /// marked as read.
    pub fn unread(&self, opts: &ListingOptions) -> (r: ListingRequest)
        ensures
            r.query_stem@ == queue_stem("unread"@, opts.limit()),
            r.request.is_get(queue_stem("unread"@, opts.limit()) + "&"@ + opts.anchor.query()),
    {
        self.queue("unread", opts)
    }
}

/// A listing of messages that pages on until all messages in the listing
/// have been handed out.
pub struct MessageListing {
    pages: Paged<MessageData>,
}

impl MessageListing {
    pub closed spec fn view(&self) -> PagedView<MessageData> {
        self.pages@
    }

    /// Creates a listing from the query that fetched its first page, and that
    /// page.
    pub fn new(query_stem: String, data: ListingData<MessageData>) -> (r: MessageListing)
        ensures
            r@ == (PagedView {
                query_stem: query_stem@,
                children: data.children@,
                after: text_of(data.after),
                before: text_of(data.before),
                modhash: text_of(data.modhash),
            }),
    {
        MessageListing { pages: Paged::new(query_stem, data) }
    }

    /// Mark of the page before the first page fetched.
    pub fn before(&self) -> (r: Option<String>)
        ensures
            text_of(r) == self@.before,
    {
        self.pages.before()
    }

    /// Mark of the page after the messages at hand.
    pub fn after(&self) -> (r: Option<String>)
        ensures
            text_of(r) == self@.after,
    {
        self.pages.after()
    }

    /// Token that guards form posts of cookie sessions.
    pub fn modhash(&self) -> (r: Option<String>)
        ensures
            text_of(r) == self@.modhash,
    {
        self.pages.modhash()
    }

    /// The request for the page after the messages at hand; an error if the
    /// last page has been fetched already.
    pub fn fetch_after(&self) -> (r: Result<ApiRequest, APIError>)
        ensures
            self@.after is None ==> r == Err::<ApiRequest, APIError>(APIError::ExhaustedListing),
            self@.after is Some ==> r is Ok && r->Ok_0.is_get(self@.next_page_path()),
    {
        self.pages.fetch_after()
    }

    /// Looks for the next message: see [`Paged::next`].
    pub fn next(&mut self) -> (step: Step<Message>)
        ensures
            old(self)@.children.len() > 0 ==> (step matches Step::Item(message) && message@ == old(self)@.children[0]) && final(self)@ == old(self)@.without_first(),
            old(self)@.children.len() == 0 && old(self)@.after is Some ==> (step matches Step::Fetch(
                request,
            ) && request.is_get(old(self)@.next_page_path())) && final(self)@ == old(self)@,
            old(self)@.exhausted() ==> step is End && final(self)@ == old(self)@,
    {
        match self.pages.next() {
            Step::Item(data) => Step::Item(Message::new(data)),
            Step::Fetch(request) => Step::Fetch(request),
            Step::End => Step::End,
        }
    }

    /// Takes in what came of the request for the next page: see
    /// [`Paged::finish_fetch`].
    pub fn finish_fetch(&mut self, outcome: Result<ListingData<MessageData>, APIError>) -> (r:
        Result<Option<Message>, APIError>)
        ensures
            final(self)@ == old(self)@.after_fetch(delivered(outcome)),
            match old(self)@.fetch_result(delivered(outcome)) {
                Ok(Some(data)) => r matches Ok(Some(message)) && message@ == data,
                Ok(None) => r matches Ok(None),
                Err(e) => r matches Err(err) && err == e,
            },
    {
        match self.pages.finish_fetch(outcome) {
            Ok(Some(data)) => Ok(Some(Message::new(data))),
            Ok(None) => Ok(None),
            Err(e) => Err(e),
        }
    }
}

} // verus!
