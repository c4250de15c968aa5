//! Comments and "load more" markers as the API delivers them.

use vstd::prelude::*;

verus! {

/// What the API says about whether a text was edited: a plain flag, or the
/// time of the last edit.
#[derive(Debug, Clone, Copy, PartialEq, Eq, Structural, Default)]
pub enum Edited {
    /// A boolean; the API sends `false` for a text that was never edited.
    Flag(bool),
    /// Seconds since the epoch at which the text was last edited.
    At(i64),
    /// Anything else.
    #[default]
    Unknown,
}

/// The fields of one comment.
#[derive(Debug, Clone, Default)]
pub struct CommentData {
    /// Full name of the comment (kind and id, such as `t1_4te6jf`).
    pub name: String,
    /// Full name of what the comment answers.
    pub parent_id: String,
    /// Full name of the submission the comment belongs to.
    pub link_id: String,
    /// Name of the author.
    pub author: String,
    /// The text as written.
    pub body: String,
    /// The text rendered to HTML.
    pub body_html: String,
    /// The subreddit the comment was posted in.
    pub subreddit: String,
    /// Text of the author's flair.
    pub author_flair_text: Option<String>,
    /// CSS class of the author's flair.
    pub author_flair_css_class: Option<String>,
    /// Who distinguished the comment, if anyone.
    pub distinguished: Option<String>,
    /// Upvotes minus downvotes.
    pub score: i64,
    /// How the logged-in user voted.
    pub likes: Option<bool>,
    /// Creation time in local epoch seconds.
    pub created: i64,
    /// Creation time in UTC epoch seconds.
    pub created_utc: i64,
    /// Whether and when the text was edited.
    pub edited: Edited,
    /// Number of reports, visible to moderators.
    pub num_reports: Option<u64>,
    /// `true` if the comment is pinned.
    pub stickied: bool,
}

/// A "load more" marker: replies that exist but were not delivered.
#[derive(Debug, Clone, Default)]
pub struct MoreData {
    /// Identifiers of the replies that stand behind the marker.
    pub children: Vec<String>,
    /// Full name of what the withheld replies answer.
    pub parent_id: String,
    /// How many replies the marker stands for.
    pub count: u64,
}

/// One entry of a flat batch: a comment with the replies nested in it, or a
/// "load more" marker.
#[derive(Debug)]
pub enum Thing {
    /// A comment and the batch of its own replies.
    Comment(CommentData, Vec<Thing>),
    /// A marker for replies still to be fetched.
    More(MoreData),
}

/// The two kinds of entry a comment batch may hold.
#[derive(Debug, Clone, Copy, PartialEq, Eq, Structural)]
pub enum ThingKind {
    /// Kind `t1`.
    Comment,
    /// Kind `more`.
    More,
}

/// The mathematical value of a [`Thing`]: the same data, with the nested batch
/// as a sequence.
pub ghost enum ThingView {
    Comment(CommentData, Seq<ThingView>),
    More(MoreData),
}

pub open spec fn thing_views(s: Seq<Thing>) -> Seq<ThingView>
    decreases s,
{
    Seq::new(
        s.len(),
        |i: int|
            if 0 <= i < s.len() {
                s[i].view()
            } else {
                arbitrary()
            },
    )
}

impl Thing {
    pub open spec fn view(&self) -> ThingView
        decreases self,
    {
        match self {
            Thing::Comment(data, replies) => ThingView::Comment(*data, thing_views(replies@)),
            Thing::More(more) => ThingView::More(*more),
        }
    }
}

/// Tells which kind of entry a kind tag names: `t1` is a comment, `more` a
/// "load more" marker, and nothing else belongs in a comment batch.
pub fn thing_kind(kind: &str) -> (r: Option<ThingKind>)
    ensures
        r == if kind@ == "t1"@ {
            Some(ThingKind::Comment)
        } else if kind@ == "more"@ {
            Option::Some(ThingKind::More)
        } else {
            None
        },
{
    let owned = kind.to_owned();
    if owned == "t1".to_owned() {
        Some(ThingKind::Comment)
    } else if owned == "more".to_owned() {
        Some(ThingKind::More)
    } else {
        None
    }
}

} // verus!
