//! Configuration options for API requests.

use vstd::prelude::*;
use vstd::string::*;
use crate::text::{decimal, u64_text};

verus! {

/// The point of a listing at which a page starts.
#[derive(Debug, Clone)]
pub enum ListingAnchor {
    /// The page ends just before the entry with this full name.
    Before(String),
    /// The page starts just after the entry with this full name.
    After(String),
    /// The page starts at the top of the listing.
    Start,
}

impl ListingAnchor {
    /// How the anchor is written in a query: `before=` or `after=` and the
    /// full name, or nothing at all.
    pub open spec fn query(self) -> Seq<char> {
        match self {
            ListingAnchor::Before(pos) => "before="@ + pos@,
            ListingAnchor::After(pos) => "after="@ + pos@,
            ListingAnchor::Start => Seq::empty(),
        }
    }

    /// Writes the anchor as a query parameter.
    pub fn to_query(&self) -> (r: String)
        ensures
            r@ == self.query(),
    {
        match self {
            ListingAnchor::Before(pos) => {
                let mut out = "before=".to_owned();
                out.append(pos.as_str());
                out
            },
            ListingAnchor::After(pos) => {
                let mut out = "after=".to_owned();
                out.append(pos.as_str());
                out
            },
            ListingAnchor::Start => String::new(),
        }
    }
}

/// Configures a paginated listing.
#[derive(Debug, Clone)]
pub struct ListingOptions {
    /// The maximum number of entries to fetch in one request.
    pub batch: u8,
    /// Where the first page starts.
    pub anchor: ListingAnchor,
}

impl ListingOptions {
    /// Pages of 25 entries, starting at the top of the listing.
    pub fn default() -> (r: ListingOptions)
        ensures
            r.batch == 25,
            r.anchor is Start,
    {
        ListingOptions { batch: 25, anchor: ListingAnchor::Start }
    }

    /// How the batch size is written in a query.
    pub open spec fn limit(self) -> Seq<char> {
        decimal(self.batch as nat)
    }

    /// Writes the batch size in decimal.
    pub fn limit_text(&self) -> (r: String)
        ensures
            r@ == self.limit(),
    {
        u64_text(self.batch as u64)
    }
}

/// The span of time that a `top` or `controversial` listing looks back on.
#[derive(Debug, Clone, Copy, PartialEq, Eq, Structural)]
pub enum TimeFilter {
    /// The last hour.
    Hour,
    /// The last day.
    Day,
    /// The last week.
    Week,
    /// The last month.
    Month,
    /// The last year.
    Year,
    /// All time.
    AllTime,
}

impl TimeFilter {
    /// How the span is written in a query.
    pub open spec fn query(self) -> Seq<char> {
        match self {
            TimeFilter::Hour => "t=hour"@,
            TimeFilter::Day => "t=day"@,
            TimeFilter::Week => "t=week"@,
            TimeFilter::Month => "t=month"@,
            TimeFilter::Year => "t=year"@,
            TimeFilter::AllTime => "t=all"@,
        }
    }

    /// Writes the span as a query parameter.
    pub fn to_query(&self) -> (r: String)
        ensures
            r@ == self.query(),
    {
        match self {
            TimeFilter::Hour => "t=hour".to_owned(),
            TimeFilter::Day => "t=day".to_owned(),
            TimeFilter::Week => "t=week".to_owned(),
            TimeFilter::Month => "t=month".to_owned(),
            TimeFilter::Year => "t=year".to_owned(),
            TimeFilter::AllTime => "t=all".to_owned(),
        }
    }
}

/// A link post to be submitted.
#[derive(Debug, Clone)]
pub struct LinkPost {
    /// The title of the post.
    pub title: String,
    /// The address the post points to.
    pub link: String,
    /// `true` if the link may have been posted to the subreddit before.
    pub resubmit: bool,
}

impl LinkPost {
    /// A link post that is not marked as a repost.
    pub fn new(title: &str, link: &str) -> (r: LinkPost)
        ensures
            r.title@ == title@,
            r.link@ == link@,
            !r.resubmit,
    {
        LinkPost { title: title.to_owned(), link: link.to_owned(), resubmit: false }
    }

    /// Marks the post as a repost, so that it is accepted where the link was
    /// posted before.
    pub fn resubmit(self) -> (r: LinkPost)
        ensures
            r.title == self.title,
            r.link == self.link,
            r.resubmit,
    {
        LinkPost { title: self.title, link: self.link, resubmit: true }
    }
}

/// A self post to be submitted.
#[derive(Debug, Clone)]
pub struct SelfPost {
    /// The title of the post.
    pub title: String,
    /// The body of the post.
    pub text: String,
}

impl SelfPost {
    /// A self post with this title and body.
    pub fn new(title: &str, text: &str) -> (r: SelfPost)
        ensures
            r.title@ == title@,
            r.text@ == text@,
    {
        SelfPost { title: title.to_owned(), text: text.to_owned() }
    }
}

} // verus!
