//! Private messages as the API delivers them.

use vstd::prelude::*;

verus! {

/// The fields of one private message.
#[derive(Debug, Clone, Default)]
pub struct MessageData {
    /// Full name of the message (kind and id).
    pub name: String,
    /// Full name of the message this one answers.
    pub parent_id: Option<String>,
    /// Name of the sender; absent for messages of the site itself.
    pub author: Option<String>,
    /// The subreddit a moderator message came from.
    pub subreddit: Option<String>,
    /// The subject line.
    pub subject: String,
    /// The text as written.
    pub body: String,
    /// The text rendered to HTML.
    pub body_html: String,
    /// Creation time in local epoch seconds.
    pub created: i64,
    /// Creation time in UTC epoch seconds.
    pub created_utc: i64,
}

} // verus!
