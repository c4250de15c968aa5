//! Reddit structures such as submissions, comments and subreddits.

pub mod comment;
pub mod comment_list;
pub mod holdings;
pub mod listing;
pub mod messages;
pub mod submission;
pub mod subreddit;
pub mod thread_order;
pub mod user;
