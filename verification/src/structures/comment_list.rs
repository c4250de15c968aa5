//! The reply tree of a submission or comment, assembled piece by piece.
//!
//! The API hands a thread over as flat batches. A batch may hold a reply
//! before the comment it answers, and it may hold "load more" markers in
//! place of replies that were withheld. A [`CommentList`] keeps what is ready
//! to be handed out, the markers still to be resolved, and the replies whose
//! parent has not been seen yet.

use vstd::prelude::*;
use vstd::hash_map::StringHashMap;
use vstd::string::*;
use crate::client::ApiRequest;
use crate::errors::APIError;
use crate::responses::comment::{MoreData, Thing, ThingView, thing_views};
use crate::structures::comment::{Comment, CommentView, comment_views};
use crate::text::{join, joined, reversed, same_text, texts};

verus! {

/// A list of comments that can be walked through, with the "load more"
/// markers that stand for the rest of it.
pub struct CommentList {
    comments: Vec<Comment>,
    comment_hashes: StringHashMap<usize>,
    more: Vec<MoreData>,
    orphans: Vec<Comment>,
    link_id: String,
    parent: String,
}

/// The mathematical value of a [`CommentList`].
pub ghost struct CommentListView {
    /// The comments ready to be handed out, first to last.
    pub comments: Seq<CommentView>,
    /// The "load more" markers still to be resolved, in the order they were
    /// met.
    pub more: Seq<MoreData>,
    /// The comments whose parent has not been seen, in the order they came.
    pub orphans: Seq<CommentView>,
    /// Full name of the submission the list belongs to.
    pub link_id: Seq<char>,
    /// Full name of what the top-level comments of the list answer.
    pub parent: Seq<char>,
}

/// What [`CommentList::next_comment`] found.
pub enum CommentStep {
    /// The next top-level comment, taken out of the list.
    Reply(Comment),
    /// Nothing is ready, but a "load more" marker is waiting: this request
    /// resolves it.
    Fetch(ApiRequest),
    /// Nothing is ready and nothing is left to resolve.
    Done,
}

/// The position index over `names`: every name is sent to the last place at
/// which it stands.
pub open spec fn index_of(names: Seq<Seq<char>>) -> Map<Seq<char>, int>
    decreases names.len(),
{
    if names.len() == 0 {
        Map::empty()
    } else {
        index_of(names.drop_last()).insert(names.last(), names.len() - 1)
    }
}

/// The test "waits for the comment called `name`".
pub open spec fn waits_for(name: Seq<char>) -> spec_fn(CommentView) -> bool {
    |o: CommentView| o.parent() == name
}

/// The test "does not wait for the comment called `name`".
pub open spec fn waits_for_another(name: Seq<char>) -> spec_fn(CommentView) -> bool {
    |o: CommentView| o.parent() != name
}

/// The form body that asks for the replies behind a "load more" marker of the
/// submission `link_id`.
pub open spec fn more_children_body(link_id: Seq<char>, more: MoreData) -> Seq<char> {
    "api_type=json&raw_json=1&link_id="@ + link_id + "&children="@ + joined(
        texts(more.children@),
        ","@,
    )
}

impl CommentListView {
    /// The list of the submission `link_id` below `parent` that holds
    /// nothing.
    pub open spec fn empty(link_id: Seq<char>, parent: Seq<char>) -> CommentListView {
        CommentListView {
            comments: Seq::empty(),
            more: Seq::empty(),
            orphans: Seq::empty(),
            link_id,
            parent,
        }
    }

    /// The names of the ready comments, in order.
    pub open spec fn names(self) -> Seq<Seq<char>> {
        self.comments.map_values(|c: CommentView| c.name())
    }

    /// `true` if nothing is ready and no marker is left: the walk is over.
    pub open spec fn exhausted(self) -> bool {
        self.comments.len() == 0 && self.more.len() == 0
    }

    /// The list with `item` as its last ready comment.
    pub open spec fn add_reply(self, item: CommentView) -> CommentListView {
        CommentListView { comments: self.comments.push(item), ..self }
    }

    /// The list after the comment `item` has arrived.
    ///
    /// The orphans that wait for `item` become its replies, in the order in
    /// which they came. Then `item` is placed: at the end of the ready
    /// comments if it answers the list's parent, else among the replies of the
    /// ready comment it answers, else among the orphans.
    pub open spec fn merge(self, item: CommentView) -> CommentListView {
        let grown = item.add_replies(self.orphans.filter(waits_for(item.name())));
        let rest = self.orphans.filter(waits_for_another(item.name()));
        let index = index_of(self.names());
        if item.parent() == self.parent {
            CommentListView { comments: self.comments.push(grown), orphans: rest, ..self }
        } else if index.contains_key(item.parent()) {
            let at = index[item.parent()];
            CommentListView {
                comments: self.comments.update(at, self.comments[at].add_reply(grown)),
                orphans: rest,
                ..self
            }
        } else {
            CommentListView { orphans: rest.push(grown), ..self }
        }
    }

    /// The list after one entry of a batch has arrived: a comment is merged,
    /// a marker joins the end of the markers.
    pub open spec fn merge_thing(self, thing: ThingView) -> CommentListView
        decreases thing,
    {
        match thing {
            ThingView::Comment(data, replies) => self.merge(CommentView::of(data, replies)),
            ThingView::More(more) => CommentListView { more: self.more.push(more), ..self },
        }
    }

    /// The list after every entry of `things` has arrived, first to last.
    pub open spec fn merge_all(self, things: Seq<ThingView>) -> CommentListView
        decreases things, 0int,
    {
        if things.len() == 0 {
            self
        } else {
            self.merge_all(things.drop_last()).merge_thing(things.last())
        }
    }

    /// The list without its first ready comment.
    pub open spec fn without_first(self) -> CommentListView {
        CommentListView { comments: self.comments.drop_first(), ..self }
    }

    /// The list after its first marker was resolved to the batch `things`:
    /// the marker is gone and the batch has been merged.
    pub open spec fn resolved(self, things: Seq<ThingView>) -> CommentListView {
        let pending = if self.more.len() > 0 {
            self.more.drop_first()
        } else {
            self.more
        };
        (CommentListView { more: pending, ..self }).merge_all(things)
    }

    /// The list after the attempt to resolve its first marker ended in
    /// `outcome`: a batch resolves the marker, an error changes nothing.
    pub open spec fn after_fetch(self, outcome: Result<Seq<ThingView>, APIError>) -> CommentListView {
        match outcome {
            Ok(things) => self.resolved(things),
            Err(_) => self,
        }
    }
}

/// The list that the batch `things` builds for the submission `link_id`
/// below `parent`.
pub open spec fn built(link_id: Seq<char>, parent: Seq<char>, things: Seq<ThingView>) -> CommentListView
    decreases things, 1int,
{
    CommentListView::empty(link_id, parent).merge_all(things)
}

/// What came of a request, with the batch taken by its value.
pub open spec fn fetched(outcome: Result<Vec<Thing>, APIError>) -> Result<Seq<ThingView>, APIError> {
    match outcome {
        Ok(things) => Ok(thing_views(things@)),
        Err(e) => Err(e),
    }
}

spec fn names_of(comments: Seq<Comment>) -> Seq<Seq<char>> {
    comment_views(comments).map_values(|c: CommentView| c.name())
}

spec fn index_agrees(index: Map<Seq<char>, usize>, names: Seq<Seq<char>>) -> bool {
    &&& index.dom() =~= index_of(names).dom()
    &&& forall|k: Seq<char>| #[trigger] index.contains_key(k) ==> index[k] as int == index_of(names)[k]
}

/// A name that the position index knows stands at the place the index gives.
pub proof fn lemma_index_of_in_range(names: Seq<Seq<char>>, k: Seq<char>)
    requires
        index_of(names).contains_key(k),
    ensures
        0 <= index_of(names)[k] < names.len(),
        names[index_of(names)[k]] == k,
    decreases names.len(),
{
    if names.len() > 0 && names.last() != k {
        lemma_index_of_in_range(names.drop_last(), k);
    }
}

proof fn lemma_index_of_push(names: Seq<Seq<char>>, name: Seq<char>)
    ensures
        index_of(names.push(name)) == index_of(names).insert(name, names.len() as int),
{
    assert(names.push(name).drop_last() =~= names);
}

proof fn lemma_views_push(s: Seq<Comment>, c: Comment)
    ensures
        comment_views(s.push(c)) == comment_views(s).push(c@),
{
    assert(comment_views(s.push(c)) =~= comment_views(s).push(c@));
}

/// Adding replies to a comment leaves its own record as it is.
pub proof fn lemma_add_replies_keeps_data(c: CommentView, items: Seq<CommentView>)
    ensures
        c.add_replies(items).data == c.data,
    decreases items.len(),
{
    if items.len() > 0 {
        lemma_add_replies_keeps_data(c, items.drop_last());
    }
}

/// Adding replies one after the other is adding them all.
pub proof fn lemma_add_replies_push(c: CommentView, items: Seq<CommentView>, item: CommentView)
    ensures
        c.add_replies(items.push(item)) == c.add_replies(items).add_reply(item),
{
    assert(items.push(item).drop_last() =~= items);
}

/// Moves the orphans that wait for `item` under it, in order, and returns the
/// others, in order.
fn adopt_waiting(item: &mut Comment, orphans: Vec<Comment>) -> (rest: Vec<Comment>)
    ensures
        final(item)@ == old(item)@.add_replies(
            comment_views(orphans@).filter(waits_for(old(item)@.name())),
        ),
        comment_views(rest@) == comment_views(orphans@).filter(
            waits_for_another(old(item)@.name()),
        ),
{
    let ghost all = comment_views(orphans@);
    let ghost start = item@;
    let ghost name = item@.name();
    let ghost mut seen: Seq<CommentView> = Seq::empty();
    let ghost count = orphans@.len();
    let mut stack = reversed(orphans);
    let mut rest: Vec<Comment> = Vec::new();
    proof {
        reveal(Seq::filter);
        assert(seen.filter(waits_for(name)) =~= Seq::<CommentView>::empty());
        assert(seen.filter(waits_for_another(name)) =~= Seq::<CommentView>::empty());
        assert(comment_views(rest@) =~= Seq::<CommentView>::empty());
    }
    while stack.len() > 0
        invariant
            count == orphans@.len(),
            all == comment_views(orphans@),
            name == start.name(),
            stack@.len() <= count,
            seen.len() + stack@.len() == count,
            seen =~= all.take(seen.len() as int),
            forall|j: int| 0 <= j < stack@.len() ==> stack@[j] == orphans@[count - 1 - j],
            item@ == start.add_replies(seen.filter(waits_for(name))),
            comment_views(rest@) == seen.filter(waits_for_another(name)),
        decreases stack@.len(),
    {
        let ghost at = seen.len() as int;
        let ghost before = rest@;
        let orphan = stack.pop().unwrap();
        assert(orphan == orphans@[at]);
        assert(orphan@ == all[at]);
        proof {
            lemma_add_replies_keeps_data(start, seen.filter(waits_for(name)));
            seen.lemma_filter_push(orphan@, waits_for(name));
            seen.lemma_filter_push(orphan@, waits_for_another(name));
            lemma_add_replies_push(start, seen.filter(waits_for(name)), orphan@);
        }
        if same_text(orphan.parent(), item.name()) {
            item.add_reply(orphan);
        } else {
            rest.push(orphan);
            proof {
                lemma_views_push(before, orphan);
            }
        }
        proof {
            seen = seen.push(orphan@);
        }
    }
    assert(seen =~= all);
    rest
}

/// Builds the position index over `comments` from nothing.
fn index_names(comments: &Vec<Comment>) -> (index: StringHashMap<usize>)
    ensures
        index_agrees(index@, names_of(comments@)),
{
    let mut index: StringHashMap<usize> = StringHashMap::new();
    let mut i: usize = 0;
    let ghost names = names_of(comments@);
    while i < comments.len()
        invariant
            i <= comments.len(),
            names == names_of(comments@),
            index_agrees(index@, names.take(i as int)),
        decreases comments.len() - i,
    {
        let name = comments[i].name().to_owned();
        proof {
            lemma_index_of_push(names.take(i as int), name@);
            assert(names.take(i as int).push(name@) =~= names.take(i + 1));
        }
        index.insert(name, i);
        i = i + 1;
    }
    assert(names.take(i as int) =~= names);
    index
}

impl CommentList {
    #[verifier::type_invariant]
    spec fn index_in_step(&self) -> bool {
        index_agrees(self.comment_hashes@, names_of(self.comments@))
    }

    pub closed spec fn view(&self) -> CommentListView
        decreases self,
    {
        CommentListView {
            comments: comment_views(self.comments@),
            more: self.more@,
            orphans: comment_views(self.orphans@),
            link_id: self.link_id@,
            parent: self.parent@,
        }
    }

    /// Creates a list for the submission `link_id` below `parent` from one
    /// batch: every comment of the batch is merged in the order given, every
    /// "load more" marker is kept for later.
    pub fn new(link_id: String, parent: String, comment_list: Vec<Thing>) -> (r: CommentList)
        ensures
            r@ == built(link_id@, parent@, thing_views(comment_list@)),
        decreases comment_list, 1int,
    {
        let mut list = CommentList {
            comments: Vec::new(),
            comment_hashes: StringHashMap::new(),
            more: Vec::new(),
            orphans: Vec::new(),
            link_id,
            parent,
        };
        assert(list@.comments =~= Seq::empty());
        assert(list@.orphans =~= Seq::empty());
        assert(list@ == CommentListView::empty(link_id@, parent@));
        list.merge_more_comments(comment_list);
        list
    }

    /// Creates an empty listing, when there are no comments to show.
    pub fn empty() -> (r: CommentList)
        ensures
            r@ == CommentListView::empty(Seq::empty(), Seq::empty()),
    {
        let r = CommentList {
            comments: Vec::new(),
            comment_hashes: StringHashMap::new(),
            more: Vec::new(),
            orphans: Vec::new(),
            link_id: String::new(),
            parent: String::new(),
        };
        assert(r@.comments =~= Seq::empty());
        assert(r@.orphans =~= Seq::empty());
        r
    }

    /// Adds a (pre-existing) comment to the end of the ready comments. This
    /// does not post a comment: it records one that has already been fetched.
    pub fn add_reply(&mut self, item: Comment)
        ensures
            final(self)@ == old(self)@.add_reply(item@),
    {
        proof {
            use_type_invariant(&*self);
        }
        let mut taken = CommentList::empty();
        std::mem::swap(self, &mut taken);
        let CommentList { comments, comment_hashes, more, orphans, link_id, parent } = taken;
        let mut comments = comments;
        let mut comment_hashes = comment_hashes;
        let name = item.name().to_owned();
        proof {
            lemma_index_of_push(names_of(comments@), name@);
            lemma_views_push(comments@, item);
            assert(names_of(comments@.push(item)) =~= names_of(comments@).push(name@));
        }
        comment_hashes.insert(name, comments.len());
        comments.push(item);
        *self = CommentList { comments, comment_hashes, more, orphans, link_id, parent };
    }

    /// Takes in one comment that has arrived: see [`CommentListView::merge`].
    pub fn merge_comment(&mut self, item: Comment)
        ensures
            final(self)@ == old(self)@.merge(item@),
    {
        proof {
            use_type_invariant(&*self);
        }
        let mut taken = CommentList::empty();
        std::mem::swap(self, &mut taken);
        let CommentList { comments, comment_hashes, more, orphans, link_id, parent } = taken;
        let mut comments = comments;
        let mut comment_hashes = comment_hashes;
        let mut item = item;
        let ghost arrived = item@;
        let ghost names = names_of(comments@);
        let ghost ready = comment_views(comments@);
        let mut orphans = adopt_waiting(&mut item, orphans);
        proof {
            lemma_add_replies_keeps_data(
                arrived,
                old(self)@.orphans.filter(waits_for(arrived.name())),
            );
        }
        if same_text(item.parent(), parent.as_str()) {
            let name = item.name().to_owned();
            proof {
                lemma_index_of_push(names, name@);
                lemma_views_push(comments@, item);
                assert(names_of(comments@.push(item)) =~= names.push(name@));
            }
            comment_hashes.insert(name, comments.len());
            comments.push(item);
        } else {
            let found: Option<usize> = match comment_hashes.get(item.parent()) {
                Some(at) => Some(*at),
                None => None,
            };
            match found {
                Some(at) => {
                    proof {
                        lemma_index_of_in_range(names, item@.parent());
                    }
                    let ghost grown = item@;
                    comments[at].add_reply(item);
                    proof {
                        assert(comment_views(comments@) =~= ready.update(
                            at as int,
                            ready[at as int].add_reply(grown),
                        ));
                        assert(names_of(comments@) =~= names);
                    }
                },
                None => {
                    proof {
                        lemma_views_push(orphans@, item);
                    }
                    orphans.push(item);
                },
            }
        }
        *self = CommentList { comments, comment_hashes, more, orphans, link_id, parent };
    }

    /// Takes in a batch: every comment is merged in the order given, every
    /// "load more" marker joins the end of the markers.
    pub fn merge_more_comments(&mut self, things: Vec<Thing>)
        ensures
            final(self)@ == old(self)@.merge_all(thing_views(things@)),
        decreases things, 0int,
    {
        let ghost all = thing_views(things@);
        let ghost count = things@.len();
        let ghost start = self@;
        let ghost mut done: int = 0;
        let mut stack = reversed(things);
        while stack.len() > 0
            invariant
                count == things@.len(),
                all == thing_views(things@),
                0 <= done,
                done + stack@.len() == count,
                forall|j: int| 0 <= j < stack@.len() ==> stack@[j] == things@[count - 1 - j],
                self@ == start.merge_all(all.take(done)),
            decreases stack@.len(),
        {
            let thing = stack.pop().unwrap();
            assert(thing == things@[done]);
            assert(thing@ == all[done]);
            proof {
                let next = all.take(done + 1);
                assert(next.drop_last() =~= all.take(done));
                assert(next.last() == all[done]);
                assert(start.merge_all(next) == start.merge_all(all.take(done)).merge_thing(
                    all[done],
                ));
            }
            match thing {
                Thing::Comment(data, replies) => {
                    assert(thing@ == ThingView::Comment(data, thing_views(replies@)));
                    let comment = Comment::new(data, replies);
                    self.merge_comment(comment);
                },
                Thing::More(more) => {
                    self.push_more(more);
                },
            }
            proof {
                done = done + 1;
            }
        }
        assert(all.take(done) =~= all);
    }

    fn push_more(&mut self, more: MoreData)
        ensures
            final(self)@ == (CommentListView { more: old(self)@.more.push(more), ..old(self)@ }),
    {
        proof {
            use_type_invariant(&*self);
        }
        let mut taken = CommentList::empty();
        std::mem::swap(self, &mut taken);
        let CommentList { comments, comment_hashes, more: pending, orphans, link_id, parent } = taken;
        let mut pending = pending;
        pending.push(more);
        *self = CommentList { comments, comment_hashes, more: pending, orphans, link_id, parent };
    }

    /// The request that resolves the first "load more" marker, if one is
    /// waiting. One request asks for the replies of one marker only.
    pub fn fetch_more(&self) -> (r: Option<ApiRequest>)
        ensures
            self@.more.len() == 0 ==> r is None,
            self@.more.len() > 0 ==> r is Some && r->0.is_post(
                "/api/morechildren"@,
                more_children_body(self@.link_id, self@.more[0]),
            ),
    {
        if self.more.len() == 0 {
            return None;
        }
        let mut body = "api_type=json&raw_json=1&link_id=".to_owned();
        body.append(self.link_id.as_str());
        body.append("&children=");
        let children = join(&self.more[0].children, ",");
        body.append(children.as_str());
        Some(ApiRequest::post("/api/morechildren", body))
    }

    /// Takes in what came of the request for the first "load more" marker.
    ///
    /// A batch resolves the marker: the marker is dropped, the batch is
    /// merged, and the markers found in it wait behind those already there.
    /// An error is handed back as it is and changes nothing, so that the
    /// same marker is asked for again by the next request.
    pub fn finish_fetch(&mut self, outcome: Result<Vec<Thing>, APIError>) -> (r: Result<(), APIError>)
        ensures
            final(self)@ == old(self)@.after_fetch(fetched(outcome)),
            r == match outcome {
                Ok(_) => Ok::<(), APIError>(()),
                Err(e) => Err(e),
            },
    {
        match outcome {
            Err(e) => Err(e),
            Ok(things) => {
                self.drop_first_more();
                self.merge_more_comments(things);
                self.rebuild_index();
                Ok(())
            },
        }
    }

    fn drop_first_more(&mut self)
        ensures
            final(self)@ == (CommentListView {
                more: if old(self)@.more.len() > 0 {
                    old(self)@.more.drop_first()
                } else {
                    old(self)@.more
                },
                ..old(self)@
            }),
    {
        proof {
            use_type_invariant(&*self);
        }
        let mut taken = CommentList::empty();
        std::mem::swap(self, &mut taken);
        let CommentList { comments, comment_hashes, more, orphans, link_id, parent } = taken;
        let mut more = more;
        if more.len() > 0 {
            more.remove(0);
            assert(more@ =~= old(self)@.more.drop_first());
        }
        *self = CommentList { comments, comment_hashes, more, orphans, link_id, parent };
    }

    /// Clears the position index and builds it again from the ready comments.
    fn rebuild_index(&mut self)
        ensures
            final(self)@ == old(self)@,
    {
        let mut taken = CommentList::empty();
        std::mem::swap(self, &mut taken);
        let CommentList { comments, comment_hashes, more, orphans, link_id, parent } = taken;
        let mut comment_hashes = comment_hashes;
        comment_hashes.clear();
        let comment_hashes = index_names(&comments);
        *self = CommentList { comments, comment_hashes, more, orphans, link_id, parent };
    }

    /// Looks for the next top-level comment.
    ///
    /// A ready comment is taken out and handed over, with the replies already
    /// attached to it. With nothing ready, the first "load more" marker is to
    /// be resolved: the request for it is handed over and the list is left as
    /// it is, marker included. With nothing ready and no marker left the walk
    /// is over, and stays over however often it is asked again.
    pub fn next_comment(&mut self) -> (step: CommentStep)
        ensures
            old(self)@.comments.len() > 0 ==> (step matches CommentStep::Reply(c) && c@ == old(
                self,
            )@.comments[0] && final(self)@ == old(self)@.without_first()),
            old(self)@.comments.len() == 0 && old(self)@.more.len() > 0 ==> (step matches CommentStep::Fetch(
                request,
            ) && request.is_post(
                "/api/morechildren"@,
                more_children_body(old(self)@.link_id, old(self)@.more[0]),
            ) && final(self)@ == old(self)@),
            old(self)@.exhausted() ==> step is Done && final(self)@ == old(self)@,
    {
        if self.comments.len() > 0 {
            let mut taken = CommentList::empty();
            std::mem::swap(self, &mut taken);
            let CommentList { comments, comment_hashes, more, orphans, link_id, parent } = taken;
            let mut comments = comments;
            let child = comments.remove(0);
            assert(comment_views(comments@) =~= old(self)@.comments.drop_first());
            let comment_hashes = index_names(&comments);
            *self = CommentList { comments, comment_hashes, more, orphans, link_id, parent };
            CommentStep::Reply(child)
        } else {
            match self.fetch_more() {
                Some(request) => CommentStep::Fetch(request),
                None => CommentStep::Done,
            }
        }
    }

    /// Number of comments ready to be handed out.
    pub fn len(&self) -> (r: usize)
        ensures
            r == self@.comments.len(),
    {
        self.comments.len()
    }

    /// `true` if no comment is ready to be handed out.
    pub fn is_empty(&self) -> (r: bool)
        ensures
            r == (self@.comments.len() == 0),
    {
        self.comments.len() == 0
    }

    /// The ready comment at place `i`, if there is one.
    pub fn get(&self, i: usize) -> (r: Option<&Comment>)
        ensures
            i < self@.comments.len() ==> r is Some && r->0@ == self@.comments[i as int],
            i >= self@.comments.len() ==> r is None,
    {
        if i < self.comments.len() {
            Some(&self.comments[i])
        } else {
            None
        }
    }

    /// Number of "load more" markers still to be resolved.
    pub fn more_len(&self) -> (r: usize)
        ensures
            r == self@.more.len(),
    {
        self.more.len()
    }

    /// Number of comments whose parent has not been seen.
    pub fn orphan_len(&self) -> (r: usize)
        ensures
            r == self@.orphans.len(),
    {
        self.orphans.len()
    }
}

/// A failed attempt to resolve a "load more" marker leaves no trace: the
/// request for the marker is the same afterwards, and a batch that arrives
/// after the failure gives the list that it would have given at once.
pub proof fn lemma_failed_fetch_leaves_no_trace(
    list: CommentListView,
    error: APIError,
    things: Seq<ThingView>,
)
    ensures
        list.after_fetch(Err(error)) == list,
        list.after_fetch(Err(error)).after_fetch(Ok(things)) == list.after_fetch(Ok(things)),
{
}

/// Filtering by a test and then by a stronger one is filtering by the
/// stronger one.
pub proof fn lemma_filter_twice(s: Seq<CommentView>, outer: Seq<char>, inner: Seq<char>)
    requires
        outer != inner,
    ensures
        s.filter(waits_for_another(outer)).filter(waits_for(inner)) == s.filter(waits_for(inner)),
    decreases s.len(),
{
    reveal(Seq::filter);
    if s.len() > 0 {
        let front = s.drop_last();
        lemma_filter_twice(front, outer, inner);
        assert(front.push(s.last()) =~= s);
        front.lemma_filter_push(s.last(), waits_for_another(outer));
        front.lemma_filter_push(s.last(), waits_for(inner));
        front.filter(waits_for_another(outer)).lemma_filter_push(s.last(), waits_for(inner));
    } else {
        assert(s.filter(waits_for_another(outer)) =~= s);
    }
}

/// An orphan leaves the orphan table only when the comment it waits for
/// arrives. When a comment of another name is merged, the orphans that wait
/// for `name` all stay where they are, in order; the arrived comment joins
/// them if it waits for `name` too and finds no place among the ready
/// comments.
pub proof fn lemma_orphans_wait(list: CommentListView, item: CommentView, name: Seq<char>)
    requires
        item.name() != name,
    ensures
        list.orphans.filter(waits_for(name)).is_prefix_of(
            list.merge(item).orphans.filter(waits_for(name)),
        ),
        list.merge(item).orphans.filter(waits_for(name)).len() <= list.orphans.filter(
            waits_for(name),
        ).len() + 1,
        item.parent() != name ==> list.merge(item).orphans.filter(waits_for(name))
            == list.orphans.filter(waits_for(name)),
{
    let waiting = list.orphans.filter(waits_for(name));
    let rest = list.orphans.filter(waits_for_another(item.name()));
    let grown = item.add_replies(list.orphans.filter(waits_for(item.name())));
    lemma_filter_twice(list.orphans, item.name(), name);
    lemma_add_replies_keeps_data(item, list.orphans.filter(waits_for(item.name())));
    rest.lemma_filter_push(grown, waits_for(name));
    assert(waiting.is_prefix_of(waiting.push(grown)));
    assert(waiting.is_prefix_of(waiting));
}

/// While no comment called `name` arrives among the entries of a batch, the
/// orphans that wait for `name` stay in the orphan table, in order, whatever
/// else the batch brings.
pub proof fn lemma_orphans_wait_through_batch(
    list: CommentListView,
    things: Seq<ThingView>,
    name: Seq<char>,
)
    requires
        forall|i: int|
            0 <= i < things.len() ==> (#[trigger] things[i] matches ThingView::Comment(data, _)
                ==> data.name@ != name),
    ensures
        list.orphans.filter(waits_for(name)).is_prefix_of(
            list.merge_all(things).orphans.filter(waits_for(name)),
        ),
    decreases things.len(),
{
    let waiting = list.orphans.filter(waits_for(name));
    if things.len() == 0 {
        assert(waiting.is_prefix_of(waiting));
    } else {
        let front = things.drop_last();
        assert forall|i: int| 0 <= i < front.len() implies (#[trigger] front[i] matches ThingView::Comment(
            data,
            _,
        ) ==> data.name@ != name) by {
            assert(front[i] == things[i]);
        }
        lemma_orphans_wait_through_batch(list, front, name);
        let before = list.merge_all(front);
        let middle = before.orphans.filter(waits_for(name));
        match things.last() {
            ThingView::Comment(data, replies) => {
                lemma_orphans_wait(before, CommentView::of(data, replies), name);
                let after = before.merge_thing(things.last()).orphans.filter(waits_for(name));
                assert(waiting.is_prefix_of(after)) by {
                    assert(waiting.len() <= middle.len() <= after.len());
                    assert forall|j: int| 0 <= j < waiting.len() implies waiting[j] == after[j] by {
                        assert(waiting[j] == middle[j]);
                        assert(middle[j] == after[j]);
                    }
                }
            },
            ThingView::More(_) => {},
        }
    }
}

} // verus!
