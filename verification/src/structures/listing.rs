//! Paginated listings: entries are handed out one by one, and the next page
//! is asked for only when the entries at hand have run out.

use vstd::prelude::*;
use vstd::string::*;
use crate::client::ApiRequest;
use crate::errors::APIError;
use crate::responses::listing::{ListingData, SubmissionData};
use crate::structures::submission::Submission;

verus! {

/// What the next step of a walk through a listing is.
pub enum Step<T> {
    /// The next entry, taken out of the listing.
    Item(T),
    /// No entry is at hand, but another page exists: this request fetches it.
    Fetch(ApiRequest),
    /// No entry is at hand and no page is left.
    End,
}

/// The request for the first page of a listing, with the query that the
/// pages after it are asked for with.
#[derive(Debug, Clone)]
pub struct ListingRequest {
    /// The request for the first page.
    pub request: ApiRequest,
    /// The query without any page mark.
    pub query_stem: String,
}

/// A listing of entries of any kind: the entries at hand, the mark of the
/// page that follows them, and the query that pages are asked for with.
pub struct Paged<T> {
    query_stem: String,
    data: ListingData<T>,
}

/// The mathematical value of a listing.
pub ghost struct PagedView<T> {
    /// The query without any page mark.
    pub query_stem: Seq<char>,
    /// The entries at hand, first to last.
    pub children: Seq<T>,
    /// Mark of the page after the entries at hand; `None` if there is none.
    pub after: Option<Seq<char>>,
    /// Mark of the page before the first page fetched.
    pub before: Option<Seq<char>>,
    /// Token that guards form posts of cookie sessions.
    pub modhash: Option<Seq<char>>,
}

/// The text of an optional string.
pub open spec fn text_of(s: Option<String>) -> Option<Seq<char>> {
    match s {
        Some(text) => Some(text@),
        None => None,
    }
}

/// One page by its value: its entries and the mark of the page after it.
pub ghost struct PageView<T> {
    /// The entries of the page.
    pub children: Seq<T>,
    /// Mark of the page after it.
    pub after: Option<Seq<char>>,
}

/// The value of a page as delivered.
pub open spec fn page_of<T>(page: ListingData<T>) -> PageView<T> {
    PageView { children: page.children@, after: text_of(page.after) }
}

/// What came of a request for a page, with the page taken by its value.
pub open spec fn delivered<T>(outcome: Result<ListingData<T>, APIError>) -> Result<
    PageView<T>,
    APIError,
> {
    match outcome {
        Ok(page) => Ok(page_of(page)),
        Err(e) => Err(e),
    }
}

impl<T> PagedView<T> {
    /// `true` if no entry is at hand and no page is left: the walk is over.
    pub open spec fn exhausted(self) -> bool {
        self.children.len() == 0 && self.after is None
    }

    /// The path that asks for the page after the entries at hand.
    pub open spec fn next_page_path(self) -> Seq<char>
        recommends
            self.after is Some,
    {
        self.query_stem + "&after="@ + self.after->0
    }

    /// The listing without its first entry.
    pub open spec fn without_first(self) -> PagedView<T> {
        PagedView { children: self.children.drop_first(), ..self }
    }

    /// The listing with the entries of `page` behind those at hand, and the
    /// mark of `page` in place of its own.
    pub open spec fn extended(self, page: PageView<T>) -> PagedView<T> {
        PagedView { children: self.children + page.children, after: page.after, ..self }
    }

    /// The listing once the request for its next page ended in `outcome`,
    /// before anything is handed out: a page extends it, an error changes
    /// nothing.
    pub open spec fn supplied(self, outcome: Result<PageView<T>, APIError>) -> PagedView<T> {
        match outcome {
            Ok(page) => self.extended(page),
            Err(_) => self,
        }
    }

    /// The listing after the request for its next page ended in `outcome` and
    /// the first entry then at hand, if any, was handed out.
    pub open spec fn after_fetch(self, outcome: Result<PageView<T>, APIError>) -> PagedView<T> {
        let grown = self.supplied(outcome);
        if outcome is Ok && grown.children.len() > 0 {
            grown.without_first()
        } else {
            grown
        }
    }

    /// What is handed out after the request for the next page ended in
    /// `outcome`: the error as it is; else the first entry then at hand; else
    /// nothing, which ends this call but not the listing.
    pub open spec fn fetch_result(self, outcome: Result<PageView<T>, APIError>) -> Result<
        Option<T>,
        APIError,
    > {
        match outcome {
            Err(e) => Err(e),
            Ok(page) => if self.extended(page).children.len() > 0 {
                Ok(Some(self.extended(page).children[0]))
            } else {
                Ok(None)
            },
        }
    }
}

impl<T> Paged<T> {
    pub closed spec fn view(&self) -> PagedView<T> {
        PagedView {
            query_stem: self.query_stem@,
            children: self.data.children@,
            after: text_of(self.data.after),
            before: text_of(self.data.before),
            modhash: text_of(self.data.modhash),
        }
    }

    /// Creates a listing from the query that fetched its first page, and that
    /// page.
    pub fn new(query_stem: String, data: ListingData<T>) -> (r: Paged<T>)
        ensures
            r@ == (PagedView {
                query_stem: query_stem@,
                children: data.children@,
                after: text_of(data.after),
                before: text_of(data.before),
                modhash: text_of(data.modhash),
            }),
    {
        Paged { query_stem, data }
    }

    /// Mark of the page before the first page fetched.
    pub fn before(&self) -> (r: Option<String>)
        ensures
            text_of(r) == self@.before,
    {
        self.data.before.clone()
    }

    /// Mark of the page after the entries at hand.
    pub fn after(&self) -> (r: Option<String>)
        ensures
            text_of(r) == self@.after,
    {
        self.data.after.clone()
    }

    /// Token that guards form posts of cookie sessions.
    pub fn modhash(&self) -> (r: Option<String>)
        ensures
            text_of(r) == self@.modhash,
    {
        self.data.modhash.clone()
    }

    /// Number of entries at hand.
    pub fn len(&self) -> (r: usize)
        ensures
            r == self@.children.len(),
    {
        self.data.children.len()
    }

    /// The request for the page after the entries at hand; an error if the
    /// last page has been fetched already.
    pub fn fetch_after(&self) -> (r: Result<ApiRequest, APIError>)
        ensures
            self@.after is None ==> r == Err::<ApiRequest, APIError>(APIError::ExhaustedListing),
            self@.after is Some ==> r is Ok && r->Ok_0.is_get(self@.next_page_path()),
    {
        match &self.data.after {
            Some(after_id) => {
                let mut url = self.query_stem.clone();
                url.append("&after=");
                url.append(after_id.as_str());
                Ok(ApiRequest::get(url))
            },
            None => Err(APIError::ExhaustedListing),
        }
    }

    /// Looks for the next entry.
    ///
    /// An entry at hand is taken out and handed over, first come first. With
    /// none at hand and a page left, the request for that page is handed over
    /// and the listing stays as it is. With none at hand and no page left the
    /// walk is over, and stays over however often it is asked again.
    pub fn next(&mut self) -> (step: Step<T>)
        ensures
            old(self)@.children.len() > 0 ==> step == Step::Item(old(self)@.children[0]) && final(self)@ == old(self)@.without_first(),
            old(self)@.children.len() == 0 && old(self)@.after is Some ==> (step matches Step::Fetch(
                request,
            ) && request.is_get(old(self)@.next_page_path())) && final(self)@ == old(self)@,
            old(self)@.exhausted() ==> step is End && final(self)@ == old(self)@,
    {
        if self.data.children.len() > 0 {
            let child = self.data.children.remove(0);
            assert(self@.children =~= old(self)@.children.drop_first());
            Step::Item(child)
        } else {
            match self.fetch_after() {
                Ok(request) => Step::Fetch(request),
                Err(_) => Step::End,
            }
        }
    }

    /// Takes in what came of the request for the next page, and hands out
    /// what the call of [`Paged::next`] that asked for it was after.
    ///
    /// The entries of a page join those at hand and its mark replaces the
    /// listing's own; the first entry then at hand is handed out. A page that
    /// brings nothing ends this call with nothing, but the listing keeps the
    /// page's mark, so that a later call asks again. An error is handed back
    /// as it is and changes nothing.
    pub fn finish_fetch(&mut self, outcome: Result<ListingData<T>, APIError>) -> (r: Result<
        Option<T>,
        APIError,
    >)
        ensures
            r == old(self)@.fetch_result(delivered(outcome)),
            final(self)@ == old(self)@.after_fetch(delivered(outcome)),
    {
        match outcome {
            Err(e) => Err(e),
            Ok(page) => {
                let ListingData { before: _, after, modhash: _, children } = page;
                let mut children = children;
                self.data.children.append(&mut children);
                self.data.after = after;
                if self.data.children.len() > 0 {
                    let child = self.data.children.remove(0);
                    assert(self@.children =~= old(self)@.extended(
                        page_of(page),
                    ).children.drop_first());
                    Ok(Some(child))
                } else {
                    Ok(None)
                }
            },
        }
    }
}

/// A failed request for a page leaves no trace: a page that arrives after
/// the failure gives what it would have given at once.
pub proof fn lemma_failed_page_leaves_no_trace<T>(
    listing: PagedView<T>,
    error: APIError,
    page: PageView<T>,
)
    ensures
        listing.after_fetch(Err(error)) == listing,
        listing.fetch_result(Err(error)) == Err::<Option<T>, APIError>(error),
        listing.after_fetch(Err(error)).after_fetch(Ok(page)) == listing.after_fetch(Ok(page)),
        listing.after_fetch(Err(error)).fetch_result(Ok(page)) == listing.fetch_result(Ok(page)),
{
}

/// A paginated listing of posts that can be walked through. Posts are fetched
/// lazily until the listing is exhausted (similar to an infinite scroll of
/// posts).
pub struct Listing {
    pages: Paged<SubmissionData>,
}

impl Listing {
    pub closed spec fn view(&self) -> PagedView<SubmissionData> {
        self.pages@
    }

    /// Creates a listing from the query that fetched its first page, and that
    /// page.
    pub fn new(query_stem: String, data: ListingData<SubmissionData>) -> (r: Listing)
        ensures
            r@ == (PagedView {
                query_stem: query_stem@,
                children: data.children@,
                after: text_of(data.after),
                before: text_of(data.before),
                modhash: text_of(data.modhash),
            }),
    {
        Listing { pages: Paged::new(query_stem, data) }
    }

    /// Mark of the page before the first page fetched.
    pub fn before(&self) -> (r: Option<String>)
        ensures
            text_of(r) == self@.before,
    {
        self.pages.before()
    }

    /// Mark of the page after the posts at hand.
    pub fn after(&self) -> (r: Option<String>)
        ensures
            text_of(r) == self@.after,
    {
        self.pages.after()
    }

    /// Token that guards form posts of cookie sessions.
    pub fn modhash(&self) -> (r: Option<String>)
        ensures
            text_of(r) == self@.modhash,
    {
        self.pages.modhash()
    }

    /// The request for the page after the posts at hand; an error if the last
    /// page has been fetched already.
    pub fn fetch_after(&self) -> (r: Result<ApiRequest, APIError>)
        ensures
            self@.after is None ==> r == Err::<ApiRequest, APIError>(APIError::ExhaustedListing),
            self@.after is Some ==> r is Ok && r->Ok_0.is_get(self@.next_page_path()),
    {
        self.pages.fetch_after()
    }

    /// Looks for the next post: see [`Paged::next`].
    pub fn next(&mut self) -> (step: Step<Submission>)
        ensures
            old(self)@.children.len() > 0 ==> (step matches Step::Item(post) && post@ == old(self)@.children[0]) && final(self)@ == old(self)@.without_first(),
            old(self)@.children.len() == 0 && old(self)@.after is Some ==> (step matches Step::Fetch(
                request,
            ) && request.is_get(old(self)@.next_page_path())) && final(self)@ == old(self)@,
            old(self)@.exhausted() ==> step is End && final(self)@ == old(self)@,
    {
        match self.pages.next() {
            Step::Item(data) => Step::Item(Submission::new(data)),
            Step::Fetch(request) => Step::Fetch(request),
            Step::End => Step::End,
        }
    }

    /// Takes in what came of the request for the next page: see
    /// [`Paged::finish_fetch`].
    pub fn finish_fetch(&mut self, outcome: Result<ListingData<SubmissionData>, APIError>) -> (r:
        Result<Option<Submission>, APIError>)
        ensures
            final(self)@ == old(self)@.after_fetch(delivered(outcome)),
            match old(self)@.fetch_result(delivered(outcome)) {
                Ok(Some(data)) => r matches Ok(Some(post)) && post@ == data,
                Ok(None) => r == Ok::<Option<Submission>, APIError>(None),
                Err(e) => r == Err::<Option<Submission>, APIError>(e),
            },
    {
        match self.pages.finish_fetch(outcome) {
            Ok(Some(data)) => Ok(Some(Submission::new(data))),
            Ok(None) => Ok(None),
            Err(e) => Err(e),
        }
    }
}

} // verus!
