//! What the API tells about a user.

use vstd::prelude::*;

verus! {

/// The answer of `/user/username/about`, as delivered.
#[derive(Debug, Clone, Default)]
pub struct UserAboutDataCore {
    /// The kind tag of the record.
    pub kind: String,
    /// The record itself.
    pub data: UserAboutData,
}

/// The fields of a user's "about" record.
#[derive(Debug, Clone, Default)]
pub struct UserAboutData {
    /// The user's name.
    pub name: String,
    /// Address of the user's avatar.
    pub snoovatar_img: Option<String>,
    /// Address of the user's icon.
    pub icon_img: Option<String>,
    /// `true` if the logged-in user has befriended this one.
    pub is_friend: bool,
    /// `true` if the user asked to be left out of search engines.
    pub hide_from_robots: bool,
    /// The id, not including the kind.
    pub id: String,
    /// Creation time in local epoch seconds.
    pub created: i64,
    /// Creation time in UTC epoch seconds.
    pub created_utc: i64,
    /// Karma earned with submissions.
    pub link_karma: i64,
    /// Karma earned in all.
    pub total_karma: i64,
    /// Karma earned with comments.
    pub comment_karma: i64,
    /// `true` if the user holds a premium membership.
    pub is_gold: bool,
    /// `true` if the user moderates a subreddit.
    pub is_mod: bool,
    /// `true` if the user's e-mail address was confirmed.
    pub has_verified_email: bool,
}

} // verus!
