//! Submissions: link posts and self posts.

use vstd::prelude::*;
use vstd::string::*;
use crate::client::{ApiRequest, url_escape, url_escaped};
use crate::errors::APIError;
use crate::responses::comment::{Edited, Thing, thing_views};
use crate::responses::listing::{ListingData, SubmissionData};
use crate::responses::{FlairChoice, FlairSelectorResponse};
use crate::structures::comment_list::{CommentList, built};
use crate::structures::listing::{ListingRequest, text_of};
use crate::structures::subreddit::Subreddit;
use crate::structures::user::User;
use crate::text::{bool_text, i8_text, signed_decimal, truth};

verus! {

/// Structure representing a link post or self post (a submission) on Reddit.
#[derive(Debug, Clone)]
pub struct Submission {
    /// The backend submission data
    pub data: SubmissionData,
}

impl PartialEq for Submission {
    /// Two submissions are the same if they have the same full name.
    fn eq(&self, other: &Submission) -> (r: bool) {
        self.data.name == other.data.name
    }
}

impl vstd::std_specs::cmp::PartialEqSpecImpl for Submission {
    open spec fn obeys_eq_spec() -> bool {
        true
    }

    open spec fn eq_spec(&self, other: &Submission) -> bool {
        self.data.name@ == other.data.name@
    }
}

impl Submission {
    /// The record behind the submission.
    pub open spec fn view(&self) -> SubmissionData {
        self.data
    }

    /// Wraps the record of a submission.
    pub fn new(data: SubmissionData) -> (r: Submission)
        ensures
            r@ == data,
    {
        Submission { data }
    }

    /// Gets the full name of the submission (kind + id).
    pub fn name(&self) -> (r: &str)
        ensures
            r@ == self.data.name@,
    {
        self.data.name.as_str()
    }

    /// The title of the post. All link and self posts have a title, and any
    /// post flairs are not included in this.
    pub fn title(&self) -> (r: &str)
        ensures
            r@ == self.data.title@,
    {
        self.data.title.as_str()
    }

    /// This is `true` if the post is a self post, and `false` if it is a link
    /// post.
    pub fn is_self_post(&self) -> (r: bool)
        ensures
            r == self.data.is_self,
    {
        self.data.is_self
    }

    /// Gets the URL linked to by this link post (or `None`, if this is a self
    /// post).
    pub fn link_url(&self) -> (r: Option<String>)
        ensures
            text_of(r) == text_of(self.data.url),
    {
        self.data.url.clone()
    }

    /// Returns `true` if the post is marked NSFW (over 18).
    pub fn nsfw(&self) -> (r: bool)
        ensures
            r == self.data.over_18,
    {
        self.data.over_18
    }

    /// Upvotes minus downvotes.
    pub fn score(&self) -> (r: i64)
        ensures
            r == self.data.score,
    {
        self.data.score
    }

    /// How the logged-in user voted: `Some(true)` for an upvote,
    /// `Some(false)` for a downvote, `None` for no vote.
    pub fn likes(&self) -> (r: Option<bool>)
        ensures
            r == self.data.likes,
    {
        self.data.likes
    }

    /// Creation time in local epoch seconds.
    pub fn created(&self) -> (r: i64)
        ensures
            r == self.data.created,
    {
        self.data.created
    }

    /// Creation time in UTC epoch seconds.
    pub fn created_utc(&self) -> (r: i64)
        ensures
            r == self.data.created_utc,
    {
        self.data.created_utc
    }

    /// `true` if the API can say with a plain flag whether the post was
    /// edited.
    pub fn has_edited_flag(&self) -> (r: bool)
        ensures
            r == self.data.edited is Flag,
    {
        match self.data.edited {
            Edited::Flag(_) => true,
            _ => false,
        }
    }

    /// The flag that says whether the post was edited. The API sends a flag
    /// only for posts that were not: for the others it sends the time, which
    /// [`Submission::edited_time`] reads.
    pub fn edited(&self) -> (r: bool)
        requires
            self.data.edited is Flag,
        ensures
            self.data.edited == Edited::Flag(r),
    {
        match self.data.edited {
            Edited::Flag(flag) => flag,
            _ => false,
        }
    }

    /// The time of the last edit, where the API sent one.
    pub fn edited_time(&self) -> (r: Option<i64>)
        ensures
            r == match self.data.edited {
                Edited::At(time) => Some(time),
                _ => None,
            },
    {
        match self.data.edited {
            Edited::At(time) => Some(time),
            _ => None,
        }
    }

    /// The text of a self post; `None` where there is none.
    pub fn body(&self) -> (r: Option<String>)
        ensures
            self.data.selftext@.len() == 0 ==> r is None,
            self.data.selftext@.len() > 0 ==> r is Some && r->0@ == self.data.selftext@,
    {
        let self_text = self.data.selftext.clone();
        if self_text.as_str().is_empty() {
            None
        } else {
            Some(self_text)
        }
    }

    /// The text rendered to HTML.
    pub fn body_html(&self) -> (r: Option<String>)
        ensures
            text_of(r) == text_of(self.data.selftext_html),
    {
        self.data.selftext_html.clone()
    }

    /// The author of the post.
    pub fn author(&self) -> (r: User)
        ensures
            r.name@ == self.data.author@,
    {
        User::new(self.data.author.as_str())
    }

    /// Text of the author's flair.
    pub fn author_flair_text(&self) -> (r: Option<String>)
        ensures
            text_of(r) == text_of(self.data.author_flair_text),
    {
        self.data.author_flair_text.clone()
    }

    /// CSS class of the author's flair.
    pub fn author_flair_css(&self) -> (r: Option<String>)
        ensures
            text_of(r) == text_of(self.data.author_flair_css_class),
    {
        self.data.author_flair_css_class.clone()
    }

    /// The subreddit the post was made in.
    pub fn subreddit(&self) -> (r: Subreddit)
        ensures
            r.name@ == self.data.subreddit@,
    {
        Subreddit::create_new(self.data.subreddit.as_str())
    }

    /// Number of comments on the post.
    pub fn reply_count(&self) -> (r: u64)
        ensures
            r == self.data.num_comments,
    {
        self.data.num_comments
    }

    /// This is `true` if the post is stickied (an announcement post).
    pub fn stickied(&self) -> (r: bool)
        ensures
            r == self.data.stickied,
    {
        self.data.stickied
    }

    /// `true` if the post is closed to new comments.
    pub fn locked(&self) -> (r: bool)
        ensures
            r == self.data.locked,
    {
        self.data.locked
    }

    /// Number of reports, visible to moderators.
    pub fn report_count(&self) -> (r: Option<u64>)
        ensures
            r == self.data.num_reports,
    {
        self.data.num_reports
    }

    /// Who distinguished the post, if anyone.
    pub fn distinguished(&self) -> (r: Option<String>)
        ensures
            text_of(r) == text_of(self.data.distinguished),
    {
        self.data.distinguished.clone()
    }

    /// Text of the post's flair.
    pub fn get_flair_text(&self) -> (r: Option<String>)
        ensures
            text_of(r) == text_of(self.data.link_flair_text),
    {
        self.data.link_flair_text.clone()
    }

    /// CSS class of the post's flair.
    pub fn get_flair_css(&self) -> (r: Option<String>)
        ensures
            text_of(r) == text_of(self.data.link_flair_css_class),
    {
        self.data.link_flair_css_class.clone()
    }

    /// `true` if the logged-in user has hidden the post.
    pub fn hidden(&self) -> (r: bool)
        ensures
            r == self.data.hidden,
    {
        self.data.hidden
    }

    fn about_self(&self, path: &str, prefix: &str) -> (r: ApiRequest)
        ensures
            r.is_post(path@, prefix@ + self.data.name@),
    {
        let mut body = prefix.to_owned();
        body.append(self.data.name.as_str());
        ApiRequest::post(path, body)
    }

    fn vote(&self, dir: i8) -> (r: ApiRequest)
        ensures
            r.is_post(
                "/api/vote"@,
                "dir="@ + signed_decimal(dir as int) + "&id="@ + self.data.name@,
            ),
    {
        let mut body = "dir=".to_owned();
        body.append(i8_text(dir).as_str());
        body.append("&id=");
        body.append(self.data.name.as_str());
        ApiRequest::post("/api/vote", body)
    }

    /// The request that upvotes the post.
    pub fn upvote(&self) -> (r: ApiRequest)
        ensures
            r.is_post("/api/vote"@, "dir="@ + signed_decimal(1) + "&id="@ + self.data.name@),
    {
        self.vote(1)
    }

    /// The request that downvotes the post.
    pub fn downvote(&self) -> (r: ApiRequest)
        ensures
            r.is_post("/api/vote"@, "dir="@ + signed_decimal(-1) + "&id="@ + self.data.name@),
    {
        self.vote(-1)
    }

    /// The request that takes the vote back.
    pub fn cancel_vote(&self) -> (r: ApiRequest)
        ensures
            r.is_post("/api/vote"@, "dir="@ + signed_decimal(0) + "&id="@ + self.data.name@),
    {
        self.vote(0)
    }

    /// The request that replaces the text of the post by `text`.
    pub fn edit(&self, text: &str) -> (r: ApiRequest)
        ensures
            r.is_post(
                "/api/editusertext"@,
                "api_type=json&text="@ + url_escaped(text@) + "&thing_id="@ + self.data.name@,
            ),
    {
        let mut body = "api_type=json&text=".to_owned();
        body.append(url_escape(text).as_str());
        body.append("&thing_id=");
        body.append(self.data.name.as_str());
        ApiRequest::post("/api/editusertext", body)
    }

    /// Takes in the answer to [`Submission::edit`]: after a success the post
    /// holds the new text.
    pub fn finish_edit(&mut self, text: &str, res: Result<(), APIError>) -> (r: Result<(), APIError>)
        ensures
            r == res,
            res is Err ==> final(self).data == old(self).data,
            res is Ok ==> final(self).data.selftext@ == text@ && final(self).data
                == (SubmissionData { selftext: final(self).data.selftext, ..old(self).data }),
    {
        if res.is_ok() {
            self.data.selftext = text.to_owned();
        }
        res
    }

    /// The request that deletes the post.
    pub fn delete(&self) -> (r: ApiRequest)
        ensures
            r.is_post("/api/del"@, "id="@ + self.data.name@),
    {
        self.about_self("/api/del", "id=")
    }

    /// The request that approves the post.
    pub fn approve(&self) -> (r: ApiRequest)
        ensures
            r.is_post("/api/approve"@, "id="@ + self.data.name@),
    {
        self.about_self("/api/approve", "id=")
    }

    /// The request that removes the post, as spam or not.
    pub fn remove(&self, spam: bool) -> (r: ApiRequest)
        ensures
            r.is_post("/api/remove"@, "id="@ + self.data.name@ + "&spam="@ + truth(spam)),
    {
        let mut body = "id=".to_owned();
        body.append(self.data.name.as_str());
        body.append("&spam=");
        body.append(bool_text(spam).as_str());
        ApiRequest::post("/api/remove", body)
    }

    /// The request that silences further reports of the post.
    pub fn ignore_reports(&self) -> (r: ApiRequest)
        ensures
            r.is_post("/api/ignore_reports"@, "id="@ + self.data.name@),
    {
        self.about_self("/api/ignore_reports", "id=")
    }

    /// The request that lets reports of the post through again.
    pub fn unignore_reports(&self) -> (r: ApiRequest)
        ensures
            r.is_post("/api/unignore_reports"@, "id="@ + self.data.name@),
    {
        self.about_self("/api/unignore_reports", "id=")
    }

    /// The request that comments on the post with `text`.
    pub fn reply(&self, text: &str) -> (r: ApiRequest)
        ensures
            r.is_post(
                "/api/comment"@,
                "api_type=json&text="@ + url_escaped(text@) + "&thing_id="@ + self.data.name@,
            ),
    {
        let mut body = "api_type=json&text=".to_owned();
        body.append(url_escape(text).as_str());
        body.append("&thing_id=");
        body.append(self.data.name.as_str());
        ApiRequest::post("/api/comment", body)
    }

    /// The request for the comments on the post.
    pub fn replies(&self) -> (r: ApiRequest)
        ensures
            r.is_get("/comments/"@ + self.data.id@),
    {
        let mut url = "/comments/".to_owned();
        url.append(self.data.id.as_str());
        ApiRequest::get(url)
    }

    /// Assembles the comments on the post from the batch that answered
    /// [`Submission::replies`]: the post is both the submission and the root
    /// of the list.
    pub fn finish_replies(&self, children: Vec<Thing>) -> (r: CommentList)
        ensures
            r@ == built(self.data.name@, self.data.name@, thing_views(children@)),
    {
        CommentList::new(self.data.name.clone(), self.data.name.clone(), children)
    }

    /// The request that marks the post as NSFW (over 18).
    pub fn mark_nsfw(&self) -> (r: ApiRequest)
        ensures
            r.is_post("/api/marknsfw"@, "id="@ + self.data.name@),
    {
        self.about_self("/api/marknsfw", "id=")
    }

    /// The request that marks the post as **not** NSFW (over 18).
    pub fn unmark_nsfw(&self) -> (r: ApiRequest)
        ensures
            r.is_post("/api/unmarknsfw"@, "id="@ + self.data.name@),
    {
        self.about_self("/api/unmarknsfw", "id=")
    }

    /// Takes in the answer to [`Submission::mark_nsfw`] (`nsfw` is `true`) or
    /// to [`Submission::unmark_nsfw`] (`nsfw` is `false`): after a success
    /// the post is marked or not as was asked.
    pub fn finish_mark_nsfw(&mut self, nsfw: bool, res: Result<(), APIError>) -> (r: Result<
        (),
        APIError,
    >)
        ensures
            r == res,
            res is Err ==> final(self).data == old(self).data,
            res is Ok ==> final(self).data == (SubmissionData { over_18: nsfw, ..old(self).data }),
    {
        if res.is_ok() {
            self.data.over_18 = nsfw;
        }
        res
    }

    /// The request that pins the post to the top of its subreddit.
    pub fn stick(&self) -> (r: ApiRequest)
        ensures
            r.is_post(
                "/api/set_subreddit_sticky"@,
                "api_type=json&id="@ + self.data.name@ + "&state=true"@,
            ),
    {
        let mut body = "api_type=json&id=".to_owned();
        body.append(self.data.name.as_str());
        body.append("&state=true");
        ApiRequest::post("/api/set_subreddit_sticky", body)
    }

    /// The request that takes the pin off the post.
    pub fn unstick(&self) -> (r: ApiRequest)
        ensures
            r.is_post(
                "/api/set_subreddit_sticky"@,
                "api_type=json&id="@ + self.data.name@ + "&state=false"@,
            ),
    {
        let mut body = "api_type=json&id=".to_owned();
        body.append(self.data.name.as_str());
        body.append("&state=false");
        ApiRequest::post("/api/set_subreddit_sticky", body)
    }

    /// Takes in the answer to [`Submission::stick`] (`stickied` is `true`) or
    /// to [`Submission::unstick`] (`stickied` is `false`): after a success
    /// the post is pinned or not as was asked.
    pub fn finish_stick(&mut self, stickied: bool, res: Result<(), APIError>) -> (r: Result<
        (),
        APIError,
    >)
        ensures
            r == res,
            res is Err ==> final(self).data == old(self).data,
            res is Ok ==> final(self).data == (SubmissionData { stickied, ..old(self).data }),
    {
        if res.is_ok() {
            self.data.stickied = stickied;
        }
        res
    }

    /// The request that closes the post to new comments.
    pub fn lock(&self) -> (r: ApiRequest)
        ensures
            r.is_post("/api/lock"@, "id="@ + self.data.name@),
    {
        self.about_self("/api/lock", "id=")
    }

    /// The request that opens the post to new comments again.
    pub fn unlock(&self) -> (r: ApiRequest)
        ensures
            r.is_post("/api/unlock"@, "id="@ + self.data.name@),
    {
        self.about_self("/api/unlock", "id=")
    }

    /// Takes in the answer to [`Submission::lock`] (`locked` is `true`) or to
    /// [`Submission::unlock`] (`locked` is `false`): after a success the post
    /// is closed or open as was asked.
    pub fn finish_lock(&mut self, locked: bool, res: Result<(), APIError>) -> (r: Result<
        (),
        APIError,
    >)
        ensures
            r == res,
            res is Err ==> final(self).data == old(self).data,
            res is Ok ==> final(self).data == (SubmissionData { locked, ..old(self).data }),
    {
        if res.is_ok() {
            self.data.locked = locked;
        }
        res
    }

    /// The request that reports the post for `reason`.
    pub fn report(&self, reason: &str) -> (r: ApiRequest)
        ensures
            r.is_post(
                "/api/report"@,
                "api_type=json&thing_id="@ + self.data.name@ + "&reason="@ + url_escaped(reason@),
            ),
    {
        let mut body = "api_type=json&thing_id=".to_owned();
        body.append(self.data.name.as_str());
        body.append("&reason=");
        body.append(url_escape(reason).as_str());
        ApiRequest::post("/api/report", body)
    }

    /// The request that marks the post as written by a moderator.
    pub fn distinguish(&self) -> (r: ApiRequest)
        ensures
            r.is_post("/api/distinguish"@, "api_type=json&how=yes&id="@ + self.data.name@),
    {
        self.about_self("/api/distinguish", "api_type=json&how=yes&id=")
    }

    /// The request that takes the moderator's mark off the post.
    pub fn undistinguish(&self) -> (r: ApiRequest)
        ensures
            r.is_post("/api/distinguish"@, "api_type=json&how=no&id="@ + self.data.name@),
    {
        self.about_self("/api/distinguish", "api_type=json&how=no&id=")
    }

    /// Takes in the answer to [`Submission::distinguish`] (`marked` is
    /// `true`) or to [`Submission::undistinguish`] (`marked` is `false`):
    /// after a success the post is marked as a moderator's or not as was
    /// asked.
    pub fn finish_distinguish(&mut self, marked: bool, res: Result<(), APIError>) -> (r: Result<
        (),
        APIError,
    >)
        ensures
            r == res,
            res is Err ==> final(self).data == old(self).data,
            res is Ok && !marked ==> final(self).data == (SubmissionData {
                distinguished: None,
                ..old(self).data
            }),
            res is Ok && marked ==> text_of(final(self).data.distinguished) == Some(
                "moderator"@,
            ) && final(self).data == (SubmissionData {
                distinguished: final(self).data.distinguished,
                ..old(self).data
            }),
    {
        if res.is_ok() {
            if marked {
                self.data.distinguished = Some("moderator".to_owned());
            } else {
                self.data.distinguished = None;
            }
        }
        res
    }

    /// The request for the flairs that can be picked for the post.
    pub fn flair_options(&self) -> (r: ApiRequest)
        ensures
            r.is_post(
                "/r/"@ + self.data.subreddit@ + "/api/flairselector"@,
                "link="@ + self.data.name@,
            ),
    {
        let mut body = "link=".to_owned();
        body.append(self.data.name.as_str());
        let mut url = "/r/".to_owned();
        url.append(self.data.subreddit.as_str());
        url.append("/api/flairselector");
        ApiRequest::post(url.as_str(), body)
    }

    /// Reads the answer to [`Submission::flair_options`].
    pub fn finish_flair_options(&self, answer: FlairSelectorResponse) -> (r: FlairList)
        ensures
            r.flairs == answer.choices,
    {
        FlairList::new(answer.choices)
    }

    /// The request that sets the flair of the post to the flair with the
    /// template `template`.
    pub fn flair(&self, template: &str) -> (r: ApiRequest)
        ensures
            r.is_post(
                "/r/"@ + self.data.subreddit@ + "/api/selectflair"@,
                "api_type=json&link="@ + self.data.name@ + "&flair_template_id="@ + template@,
            ),
    {
        let mut body = "api_type=json&link=".to_owned();
        body.append(self.data.name.as_str());
        body.append("&flair_template_id=");
        body.append(template);
        let mut url = "/r/".to_owned();
        url.append(self.data.subreddit.as_str());
        url.append("/api/selectflair");
        ApiRequest::post(url.as_str(), body)
    }

    /// The request that hides the post from the logged-in user.
    pub fn hide_post(&self) -> (r: ApiRequest)
        ensures
            r.is_post("/api/hide"@, "id="@ + self.data.name@),
    {
        self.about_self("/api/hide", "id=")
    }

    /// The request that shows the post to the logged-in user again.
    pub fn show(&self) -> (r: ApiRequest)
        ensures
            r.is_post("/api/unhide"@, "id="@ + self.data.name@),
    {
        self.about_self("/api/unhide", "id=")
    }

    /// Takes in the answer to [`Submission::hide_post`] (`hidden` is `true`) or to
    /// [`Submission::show`] (`hidden` is `false`): after a success the post
    /// is hidden or shown as was asked.
    pub fn finish_hide(&mut self, hidden: bool, res: Result<(), APIError>) -> (r: Result<
        (),
        APIError,
    >)
        ensures
            r == res,
            res is Err ==> final(self).data == old(self).data,
            res is Ok ==> final(self).data == (SubmissionData { hidden, ..old(self).data }),
    {
        if res.is_ok() {
            self.data.hidden = hidden;
        }
        res
    }
}

/// A list of flairs that can be assigned to a post. To access the complete
/// list, use `FlairList.flairs`, which is a list of `FlairChoice` objects.
#[derive(Debug, Clone)]
pub struct FlairList {
    /// The list of flairs available.
    pub flairs: Vec<FlairChoice>,
}

/// The place of the first flair of `flairs` whose text is `text`; the length
/// of `flairs` if none has it.
pub open spec fn first_with_text(flairs: Seq<FlairChoice>, text: Seq<char>) -> int
    decreases flairs.len(),
{
    if flairs.len() == 0 {
        0
    } else if flairs[0].flair_text@ == text {
        0
    } else {
        1 + first_with_text(flairs.drop_first(), text)
    }
}

/// Where the search of [`first_with_text`] stands after `i` flairs were
/// looked at in vain.
proof fn lemma_first_with_text_skips(flairs: Seq<FlairChoice>, text: Seq<char>, i: int)
    requires
        0 <= i <= flairs.len(),
        forall|j: int| 0 <= j < i ==> (#[trigger] flairs[j]).flair_text@ != text,
    ensures
        first_with_text(flairs, text) == i + first_with_text(flairs.skip(i), text),
    decreases i,
{
    if i == 0 {
        assert(flairs.skip(0) =~= flairs);
    } else {
        let rest = flairs.drop_first();
        assert forall|j: int| 0 <= j < i - 1 implies (#[trigger] rest[j]).flair_text@ != text by {
            assert(rest[j] == flairs[j + 1]);
        }
        lemma_first_with_text_skips(rest, text, i - 1);
        assert(rest.skip(i - 1) =~= flairs.skip(i));
        assert(flairs[0].flair_text@ != text);
    }
}

impl FlairList {
    /// Creates a `FlairList` from a vector of `FlairChoice` objects.
    pub fn new(choices: Vec<FlairChoice>) -> (r: FlairList)
        ensures
            r.flairs == choices,
    {
        FlairList { flairs: choices }
    }

    /// Finds the flair with the specified text, consuming the `FlairList`:
    /// the template of the first flair that has the text, or `None` if no
    /// flair has it.
    pub fn find_text(self, text: &str) -> (r: Option<String>)
        ensures
            first_with_text(self.flairs@, text@) == self.flairs@.len() ==> r is None,
            first_with_text(self.flairs@, text@) < self.flairs@.len() ==> r == Some(
                self.flairs@[first_with_text(self.flairs@, text@)].flair_template_id,
            ),
            0 <= first_with_text(self.flairs@, text@) <= self.flairs@.len(),
    {
        let wanted = text.to_owned();
        let mut i: usize = 0;
        while i < self.flairs.len()
            invariant
                i <= self.flairs@.len(),
                wanted@ == text@,
                forall|j: int| 0 <= j < i ==> (#[trigger] self.flairs@[j]).flair_text@ != text@,
            decreases self.flairs@.len() - i,
        {
            if self.flairs[i].flair_text == wanted {
                proof {
                    lemma_first_with_text_skips(self.flairs@, text@, i as int);
                    assert(self.flairs@.skip(i as int)[0] == self.flairs@[i as int]);
                }
                return Some(self.flairs[i].flair_template_id.clone());
            }
            i = i + 1;
        }
        proof {
            lemma_first_with_text_skips(self.flairs@, text@, i as int);
        }
        None
    }
}

/// The place of the first underscore of `s` at or after `from`; the length of
/// `s` if there is none.
pub open spec fn underscore_at(s: Seq<char>, from: int) -> int
    decreases s.len() - from,
{
    if from < 0 || from >= s.len() {
        s.len() as int
    } else if s[from] == '_' {
        from
    } else {
        underscore_at(s, from + 1)
    }
}

/// `true` if `id` holds an underscore, as every full name does between kind
/// and id.
pub open spec fn is_full_name(id: Seq<char>) -> bool {
    underscore_at(id, 0) < id.len()
}

/// What stands in a full name behind the first underscore and before the
/// second, if there is a second: the id without its kind.
pub open spec fn short_id(id: Seq<char>) -> Seq<char> {
    id.subrange(underscore_at(id, 0) + 1, underscore_at(id, underscore_at(id, 0) + 1))
}

proof fn lemma_underscore_in_range(s: Seq<char>, from: int)
    requires
        0 <= from <= s.len(),
    ensures
        from <= underscore_at(s, from) <= s.len(),
    decreases s.len() - from,
{
    if from < s.len() && s[from] != '_' {
        lemma_underscore_in_range(s, from + 1);
    }
}

/// Finds the first underscore of `s` at or after `from`.
fn find_underscore(s: &str, from: usize) -> (at: usize)
    requires
        from <= s@.len(),
    ensures
        at == underscore_at(s@, from as int),
        from <= at <= s@.len(),
{
    let n = s.unicode_len();
    let mut i = from;
    while i < n
        invariant
            from <= i <= n,
            n == s@.len(),
            underscore_at(s@, from as int) == underscore_at(s@, i as int),
        decreases n - i,
    {
        if s.get_char(i) == '_' {
            return i;
        }
        i = i + 1;
    }
    i
}

/// A lazy object representing a submission of which only the full name is
/// known. It can spell the requests for the submission and for its comments.
#[derive(Debug, Clone)]
pub struct LazySubmission {
    id: String,
}

impl LazySubmission {
    /// The full name of the submission.
    pub closed spec fn view(&self) -> Seq<char> {
        self.id@
    }

    /// The submission with the full name `id`.
    pub fn new(id: &str) -> (r: LazySubmission)
        ensures
            r@ == id@,
    {
        LazySubmission { id: id.to_owned() }
    }

    /// `true` if the name has the form of a full name, so that
    /// [`LazySubmission::replies`] can spell its request.
    pub fn has_full_name(&self) -> (r: bool)
        ensures
            r == is_full_name(self@),
    {
        let n = self.id.as_str().unicode_len();
        find_underscore(self.id.as_str(), 0) < n
    }

    /// The request for the submission, with the query that further pages
    /// would be asked for with.
    pub fn get(&self) -> (r: ListingRequest)
        ensures
            r.request.is_get("/by_id/"@ + self@ + "?raw_json=1"@),
            r.query_stem@ == "/by_id/"@ + self@ + "?raw_json=1"@,
    {
        let mut url = "/by_id/".to_owned();
        url.append(self.id.as_str());
        url.append("?raw_json=1");
        ListingRequest { request: ApiRequest::get(url.clone()), query_stem: url }
    }

    /// Reads the answer to [`LazySubmission::get`]: the first post of the
    /// page, which has to hold one.
    pub fn finish_get(&self, page: ListingData<SubmissionData>) -> (r: Submission)
        requires
            page.children@.len() > 0,
        ensures
            r@ == page.children@[0],
    {
        let mut children = page.children;
        Submission::new(children.remove(0))
    }

    /// The request for the comments on the submission. The name has to be a
    /// full name: the request is spelled with the id behind its underscore.
    pub fn replies(&self) -> (r: ApiRequest)
        requires
            is_full_name(self@),
        ensures
            r.is_get("/comments/"@ + short_id(self@) + "?raw_json=1"@),
    {
        let id = self.id.as_str();
        let n = id.unicode_len();
        let first = find_underscore(id, 0);
        assert(first < n);
        let second = find_underscore(id, first + 1);
        let mut url = "/comments/".to_owned();
        url.append(id.substring_char(first + 1, second));
        url.append("?raw_json=1");
        ApiRequest::get(url)
    }

    /// Assembles the comments on the submission from the batch that answered
    /// [`LazySubmission::replies`]: the submission is both the owner and the
    /// root of the list.
    pub fn finish_replies(&self, children: Vec<Thing>) -> (r: CommentList)
        ensures
            r@ == built(self@, self@, thing_views(children@)),
    {
        CommentList::new(self.id.clone(), self.id.clone(), children)
    }
}

} // verus!
