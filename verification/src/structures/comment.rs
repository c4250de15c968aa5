//! A comment and the replies known for it.

use vstd::prelude::*;
use vstd::string::*;
use crate::client::{ApiRequest, url_escape, url_escaped};
use crate::errors::APIError;
use crate::responses::comment::{CommentData, Edited, Thing, ThingView};
use crate::structures::comment_list::{CommentList, CommentListView, built};
use crate::structures::listing::text_of;
use crate::structures::subreddit::Subreddit;
use crate::structures::user::User;
use crate::text::{bool_text, i8_text, signed_decimal, truth};

verus! {

/// Structure representing a comment and its associated data (e.g. replies).
pub struct Comment {
    data: CommentData,
    replies: CommentList,
}

/// The mathematical value of a [`Comment`]: its fields and the value of its
/// reply list.
pub ghost struct CommentView {
    pub data: CommentData,
    pub replies: CommentListView,
}

impl CommentView {
    /// Full name of the comment.
    pub open spec fn name(self) -> Seq<char> {
        self.data.name@
    }

    /// Full name of what the comment answers.
    pub open spec fn parent(self) -> Seq<char> {
        self.data.parent_id@
    }

    /// The comment with one more reply at the end of its reply list.
    pub open spec fn add_reply(self, item: CommentView) -> CommentView {
        CommentView { replies: self.replies.add_reply(item), ..self }
    }

    /// The comment with `items` added to its reply list, one after the other.
    pub open spec fn add_replies(self, items: Seq<CommentView>) -> CommentView
        decreases items.len(),
    {
        if items.len() == 0 {
            self
        } else {
            self.add_replies(items.drop_last()).add_reply(items.last())
        }
    }

    /// The comment that the API's record `data`, with the batch `replies`
    /// nested in it, stands for. Its reply list has the comment itself as
    /// root and belongs to the comment's submission.
    pub open spec fn of(data: CommentData, replies: Seq<ThingView>) -> CommentView
        decreases replies, 2int,
    {
        CommentView { data, replies: built(data.link_id@, data.name@, replies) }
    }
}

/// The values of the comments in `s`, in order.
pub open spec fn comment_views(s: Seq<Comment>) -> Seq<CommentView>
    decreases s,
{
    Seq::new(
        s.len(),
        |i: int|
            if 0 <= i < s.len() {
                s[i].view()
            } else {
                arbitrary()
            },
    )
}

impl Comment {
    pub closed spec fn view(&self) -> CommentView
        decreases self,
    {
        CommentView { data: self.data, replies: self.replies.view() }
    }

    /// Builds a comment from its record and the batch of replies delivered
    /// inside it.
    pub fn new(data: CommentData, replies: Vec<Thing>) -> (r: Comment)
        ensures
            r@ == CommentView::of(data, crate::responses::comment::thing_views(replies@)),
        decreases replies, 2int,
    {
        let link_id = data.link_id.clone();
        let name = data.name.clone();
        let comments = CommentList::new(link_id, name, replies);
        Comment { data, replies: comments }
    }

    /// Gets the full name of the comment (kind + id e.g. 't1_4te6jf').
    pub fn name(&self) -> (r: &str)
        ensures
            r@ == self@.name(),
    {
        self.data.name.as_str()
    }

    /// Gets the full ID of the parent submission/comment (kind + id e.g. 't1_4te6jf')
    pub fn parent(&self) -> (r: &str)
        ensures
            r@ == self@.parent(),
    {
        self.data.parent_id.as_str()
    }

    /// Adds a reply to this comment's reply list. This does not post anything:
    /// it records a reply that has already been fetched.
    pub fn add_reply(&mut self, item: Comment)
        ensures
            final(self)@ == old(self)@.add_reply(item@),
    {
        self.replies.add_reply(item);
    }

    /// The replies known for this comment.
    pub fn replies(self) -> (r: CommentList)
        ensures
            r@ == self@.replies,
    {
        self.replies
    }

    /// The record the comment was built from.
    pub fn data(&self) -> (r: &CommentData)
        ensures
            *r == self@.data,
    {
        &self.data
    }

    /// Upvotes minus downvotes.
    pub fn score(&self) -> (r: i64)
        ensures
            r == self@.data.score,
    {
        self.data.score
    }

    /// How the logged-in user voted: `Some(true)` for an upvote,
    /// `Some(false)` for a downvote, `None` for no vote.
    pub fn likes(&self) -> (r: Option<bool>)
        ensures
            r == self@.data.likes,
    {
        self.data.likes
    }

    /// Creation time in local epoch seconds.
    pub fn created(&self) -> (r: i64)
        ensures
            r == self@.data.created,
    {
        self.data.created
    }

    /// Creation time in UTC epoch seconds.
    pub fn created_utc(&self) -> (r: i64)
        ensures
            r == self@.data.created_utc,
    {
        self.data.created_utc
    }

    /// `true` if the API can say with a plain flag whether the comment was
    /// edited.
    pub fn has_edited_flag(&self) -> (r: bool)
        ensures
            r == self@.data.edited is Flag,
    {
        match self.data.edited {
            Edited::Flag(_) => true,
            _ => false,
        }
    }

    /// The flag that says whether the comment was edited. The API sends a
    /// flag only for comments that were not: for the others it sends the
    /// time, which [`Comment::edited_time`] reads.
    pub fn edited(&self) -> (r: bool)
        requires
            self@.data.edited is Flag,
        ensures
            self@.data.edited == Edited::Flag(r),
    {
        match self.data.edited {
            Edited::Flag(flag) => flag,
            _ => false,
        }
    }

    /// The time of the last edit, where the API sent one.
    pub fn edited_time(&self) -> (r: Option<i64>)
        ensures
            r == match self@.data.edited {
                Edited::At(time) => Some(time),
                _ => None,
            },
    {
        match self.data.edited {
            Edited::At(time) => Some(time),
            _ => None,
        }
    }

    /// The text as written.
    pub fn body(&self) -> (r: Option<String>)
        ensures
            r is Some,
            r->0@ == self@.data.body@,
    {
        Some(self.data.body.clone())
    }

    /// The text rendered to HTML.
    pub fn body_html(&self) -> (r: Option<String>)
        ensures
            r is Some,
            r->0@ == self@.data.body_html@,
    {
        Some(self.data.body_html.clone())
    }

    /// The author of the comment.
    pub fn author(&self) -> (r: User)
        ensures
            r.name@ == self@.data.author@,
    {
        User::new(self.data.author.as_str())
    }

    /// Text of the author's flair.
    pub fn author_flair_text(&self) -> (r: Option<String>)
        ensures
            text_of(r) == text_of(self@.data.author_flair_text),
    {
        self.data.author_flair_text.clone()
    }

    /// CSS class of the author's flair.
    pub fn author_flair_css(&self) -> (r: Option<String>)
        ensures
            text_of(r) == text_of(self@.data.author_flair_css_class),
    {
        self.data.author_flair_css_class.clone()
    }

    /// The subreddit the comment was posted in.
    pub fn subreddit(&self) -> (r: Subreddit)
        ensures
            r.name@ == self@.data.subreddit@,
    {
        Subreddit::create_new(self.data.subreddit.as_str())
    }

    /// Number of reports, visible to moderators.
    pub fn report_count(&self) -> (r: Option<u64>)
        ensures
            r == self@.data.num_reports,
    {
        self.data.num_reports
    }

    /// `true` if the comment is pinned.
    pub fn stickied(&self) -> (r: bool)
        ensures
            r == self@.data.stickied,
    {
        self.data.stickied
    }

    /// Who distinguished the comment, if anyone.
    pub fn distinguished(&self) -> (r: Option<String>)
        ensures
            text_of(r) == text_of(self@.data.distinguished),
    {
        self.data.distinguished.clone()
    }

    fn about_self(&self, path: &str, prefix: &str) -> (r: ApiRequest)
        ensures
            r.is_post(path@, prefix@ + self@.name()),
    {
        let mut body = prefix.to_owned();
        body.append(self.data.name.as_str());
        ApiRequest::post(path, body)
    }

    fn vote(&self, dir: i8) -> (r: ApiRequest)
        ensures
            r.is_post("/api/vote"@, "dir="@ + signed_decimal(dir as int) + "&id="@ + self@.name()),
    {
        let mut body = "dir=".to_owned();
        body.append(i8_text(dir).as_str());
        body.append("&id=");
        body.append(self.data.name.as_str());
        ApiRequest::post("/api/vote", body)
    }

    /// The request that upvotes the comment.
    pub fn upvote(&self) -> (r: ApiRequest)
        ensures
            r.is_post("/api/vote"@, "dir="@ + signed_decimal(1) + "&id="@ + self@.name()),
    {
        self.vote(1)
    }

    /// The request that downvotes the comment.
    pub fn downvote(&self) -> (r: ApiRequest)
        ensures
            r.is_post("/api/vote"@, "dir="@ + signed_decimal(-1) + "&id="@ + self@.name()),
    {
        self.vote(-1)
    }

    /// The request that takes the vote back.
    pub fn cancel_vote(&self) -> (r: ApiRequest)
        ensures
            r.is_post("/api/vote"@, "dir="@ + signed_decimal(0) + "&id="@ + self@.name()),
    {
        self.vote(0)
    }

    /// The request that replaces the text of the comment by `text`.
    pub fn edit(&self, text: &str) -> (r: ApiRequest)
        ensures
            r.is_post(
                "/api/editusertext"@,
                "api_type=json&text="@ + url_escaped(text@) + "&thing_id="@ + self@.name(),
            ),
    {
        let mut body = "api_type=json&text=".to_owned();
        body.append(url_escape(text).as_str());
        body.append("&thing_id=");
        body.append(self.data.name.as_str());
        ApiRequest::post("/api/editusertext", body)
    }

    /// Takes in the answer to [`Comment::edit`]: after a success the comment
    /// holds the new text.
    pub fn finish_edit(&mut self, text: &str, res: Result<(), APIError>) -> (r: Result<(), APIError>)
        ensures
            r == res,
            res is Err ==> final(self)@ == old(self)@,
            res is Ok ==> final(self)@.data.body@ == text@ && final(self)@ == (CommentView {
                data: CommentData { body: final(self)@.data.body, ..old(self)@.data },
                ..old(self)@
            }),
    {
        if res.is_ok() {
            self.data.body = text.to_owned();
        }
        res
    }

    /// The request that deletes the comment.
    pub fn delete(&self) -> (r: ApiRequest)
        ensures
            r.is_post("/api/del"@, "id="@ + self@.name()),
    {
        self.about_self("/api/del", "id=")
    }

    /// The request that approves the comment.
    pub fn approve(&self) -> (r: ApiRequest)
        ensures
            r.is_post("/api/approve"@, "id="@ + self@.name()),
    {
        self.about_self("/api/approve", "id=")
    }

    /// The request that removes the comment, as spam or not.
    pub fn remove(&self, spam: bool) -> (r: ApiRequest)
        ensures
            r.is_post("/api/remove"@, "id="@ + self@.name() + "&spam="@ + truth(spam)),
    {
        let mut body = "id=".to_owned();
        body.append(self.data.name.as_str());
        body.append("&spam=");
        body.append(bool_text(spam).as_str());
        ApiRequest::post("/api/remove", body)
    }

    /// The request that silences further reports of the comment.
    pub fn ignore_reports(&self) -> (r: ApiRequest)
        ensures
            r.is_post("/api/ignore_reports"@, "id="@ + self@.name()),
    {
        self.about_self("/api/ignore_reports", "id=")
    }

    /// The request that lets reports of the comment through again.
    pub fn unignore_reports(&self) -> (r: ApiRequest)
        ensures
            r.is_post("/api/unignore_reports"@, "id="@ + self@.name()),
    {
        self.about_self("/api/unignore_reports", "id=")
    }

    /// The request that answers the comment with `text`.
    pub fn reply(&self, text: &str) -> (r: ApiRequest)
        ensures
            r.is_post(
                "/api/comment"@,
                "api_type=json&text="@ + url_escaped(text@) + "&thing_id="@ + self@.name(),
            ),
    {
        let mut body = "api_type=json&text=".to_owned();
        body.append(url_escape(text).as_str());
        body.append("&thing_id=");
        body.append(self.data.name.as_str());
        ApiRequest::post("/api/comment", body)
    }

    /// The request that reports the comment for `reason`.
    pub fn report(&self, reason: &str) -> (r: ApiRequest)
        ensures
            r.is_post(
                "/api/report"@,
                "api_type=json&thing_id="@ + self@.name() + "&reason="@ + url_escaped(reason@),
            ),
    {
        let mut body = "api_type=json&thing_id=".to_owned();
        body.append(self.data.name.as_str());
        body.append("&reason=");
        body.append(url_escape(reason).as_str());
        ApiRequest::post("/api/report", body)
    }

    /// The request that pins the comment.
    pub fn stick(&self) -> (r: ApiRequest)
        ensures
            r.is_post(
                "/api/distinguish"@,
                "api_type=json&how=yes&sticky=true&id="@ + self@.name(),
            ),
    {
        self.about_self("/api/distinguish", "api_type=json&how=yes&sticky=true&id=")
    }

    /// The request that takes the pin off the comment.
    pub fn unstick(&self) -> (r: ApiRequest)
        ensures
            r.is_post("/api/distinguish"@, "api_type=json&how=no&id="@ + self@.name()),
    {
        self.about_self("/api/distinguish", "api_type=json&how=no&id=")
    }

    /// Takes in the answer to [`Comment::stick`] (`stickied` is `true`) or to
    /// [`Comment::unstick`] (`stickied` is `false`): after a success the
    /// comment is pinned or not as was asked.
    pub fn finish_stick(&mut self, stickied: bool, res: Result<(), APIError>) -> (r: Result<
        (),
        APIError,
    >)
        ensures
            r == res,
            res is Err ==> final(self)@ == old(self)@,
            res is Ok ==> final(self)@ == (CommentView {
                data: CommentData { stickied, ..old(self)@.data },
                ..old(self)@
            }),
    {
        if res.is_ok() {
            self.data.stickied = stickied;
        }
        res
    }

    /// The request that marks the comment as written by a moderator.
    pub fn distinguish(&self) -> (r: ApiRequest)
        ensures
            r.is_post("/api/distinguish"@, "api_type=json&how=yes&id="@ + self@.name()),
    {
        self.about_self("/api/distinguish", "api_type=json&how=yes&id=")
    }

    /// The request that takes the moderator's mark off the comment.
    pub fn undistinguish(&self) -> (r: ApiRequest)
        ensures
            r.is_post("/api/distinguish"@, "api_type=json&how=no&id="@ + self@.name()),
    {
        self.about_self("/api/distinguish", "api_type=json&how=no&id=")
    }

    /// Takes in the answer to [`Comment::distinguish`] (`marked` is `true`)
    /// or to [`Comment::undistinguish`] (`marked` is `false`): after a
    /// success the comment is marked as a moderator's or not as was asked.
    pub fn finish_distinguish(&mut self, marked: bool, res: Result<(), APIError>) -> (r: Result<
        (),
        APIError,
    >)
        ensures
            r == res,
            res is Err ==> final(self)@ == old(self)@,
            res is Ok && !marked ==> final(self)@ == (CommentView {
                data: CommentData { distinguished: None, ..old(self)@.data },
                ..old(self)@
            }),
            res is Ok && marked ==> text_of(final(self)@.data.distinguished) == Some(
                "moderator"@,
            ) && final(self)@ == (CommentView {
                data: CommentData {
                    distinguished: final(self)@.data.distinguished,
                    ..old(self)@.data
                },
                ..old(self)@
            }),
    {
        if res.is_ok() {
            if marked {
                self.data.distinguished = Some("moderator".to_owned());
            } else {
                self.data.distinguished = None;
            }
        }
        res
    }
}

} // verus!
