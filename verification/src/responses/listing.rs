//! Pages of listings and the records they hold.

use vstd::prelude::*;
use crate::responses::comment::Edited;

verus! {

/// One page of a listing, with the marks that lead to its neighbours.
#[derive(Debug, Clone, Default)]
pub struct ListingData<T> {
    /// Mark of the page before this one.
    pub before: Option<String>,
    /// Mark of the page after this one; `None` on the last page.
    pub after: Option<String>,
    /// Token that guards form posts of cookie sessions.
    pub modhash: Option<String>,
    /// The entries of the page, first to last.
    pub children: Vec<T>,
}

/// The fields of one submission.
#[derive(Debug, Clone, Default)]
pub struct SubmissionData {
    /// Full name of the submission (kind and id, such as `t3_4uule8`).
    pub name: String,
    /// The id alone.
    pub id: String,
    /// The title.
    pub title: String,
    /// Name of the author.
    pub author: String,
    /// The subreddit the submission was posted in.
    pub subreddit: String,
    /// The text of a self post; empty for a link post.
    pub selftext: String,
    /// The text rendered to HTML.
    pub selftext_html: Option<String>,
    /// The address a link post points to.
    pub url: Option<String>,
    /// Text of the author's flair.
    pub author_flair_text: Option<String>,
    /// CSS class of the author's flair.
    pub author_flair_css_class: Option<String>,
    /// Text of the submission's flair.
    pub link_flair_text: Option<String>,
    /// CSS class of the submission's flair.
    pub link_flair_css_class: Option<String>,
    /// Who distinguished the submission, if anyone.
    pub distinguished: Option<String>,
    /// Upvotes minus downvotes.
    pub score: i64,
    /// How the logged-in user voted.
    pub likes: Option<bool>,
    /// Creation time in local epoch seconds.
    pub created: i64,
    /// Creation time in UTC epoch seconds.
    pub created_utc: i64,
    /// Whether and when the text was edited.
    pub edited: Edited,
    /// Number of comments.
    pub num_comments: u64,
    /// Number of reports, visible to moderators.
    pub num_reports: Option<u64>,
    /// `true` for a self post.
    pub is_self: bool,
    /// `true` if marked as not safe for work.
    pub over_18: bool,
    /// `true` if pinned to the top of the subreddit.
    pub stickied: bool,
    /// `true` if closed to new comments.
    pub locked: bool,
    /// `true` if hidden by the logged-in user.
    pub hidden: bool,
}

/// One entry of a listing of users.
#[derive(Debug, Clone, Default)]
pub struct UserData {
    /// The user's name.
    pub name: String,
    /// Full name of the user (kind and id).
    pub id: String,
}

/// What a subreddit tells about itself.
#[derive(Debug, Clone, Default)]
pub struct SubredditAboutData {
    /// The name without the leading `/r/`.
    pub display_name: String,
    /// Number of subscribers.
    pub subscribers: u64,
    /// Number of logged-in users seen in the last quarter of an hour.
    pub accounts_active: u64,
    /// `true` if the traffic statistics are open to everyone.
    pub public_traffic: bool,
    /// Creation time in local epoch seconds.
    pub created: i64,
    /// Creation time in UTC epoch seconds.
    pub created_utc: i64,
}

} // verus!
