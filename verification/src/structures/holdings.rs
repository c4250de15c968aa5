//! Every comment that arrives is held exactly once.
//!
//! A comment that has arrived stands in one place: among the ready comments,
//! among the replies of another comment, or among the orphans. Merging moves
//! comments between these places and never copies or drops one. The count is
//! kept by name, over every depth of the tree.

use vstd::prelude::*;
use vstd::multiset::*;
use crate::responses::comment::ThingView;
use crate::structures::comment::CommentView;
use crate::structures::comment_list::{
    CommentListView,
    built,
    index_of,
    lemma_index_of_in_range,
    waits_for,
    waits_for_another,
};

verus! {

/// The names of a comment and of every comment held in its reply list, each
/// as often as it is held.
pub open spec fn names_in(c: CommentView) -> Multiset<Seq<char>>
    decreases c,
{
    names_held(c.replies).insert(c.name())
}

/// The names of every comment that a list holds, ready or waiting, at any
/// depth, each as often as it is held.
pub open spec fn names_held(list: CommentListView) -> Multiset<Seq<char>>
    decreases list,
{
    names_among(list.comments).add(names_among(list.orphans))
}

/// The names of the comments of `s` and of every comment held below them.
pub open spec fn names_among(s: Seq<CommentView>) -> Multiset<Seq<char>>
    decreases s,
{
    if s.len() == 0 {
        Multiset::empty()
    } else {
        names_among(s.drop_last()).add(names_in(s.last()))
    }
}

/// The names of the comments that one entry of a batch delivers, nested ones
/// included.
pub open spec fn names_of_thing(thing: ThingView) -> Multiset<Seq<char>>
    decreases thing,
{
    match thing {
        ThingView::Comment(data, replies) => names_delivered(replies).insert(data.name@),
        ThingView::More(_) => Multiset::empty(),
    }
}

/// The names of the comments that a batch delivers, nested ones included.
pub open spec fn names_delivered(things: Seq<ThingView>) -> Multiset<Seq<char>>
    decreases things,
{
    if things.len() == 0 {
        Multiset::empty()
    } else {
        names_delivered(things.drop_last()).add(names_of_thing(things.last()))
    }
}

proof fn lemma_cancel(a: Multiset<Seq<char>>, b: Multiset<Seq<char>>, x: Multiset<Seq<char>>)
    requires
        a.add(x) =~= b.add(x),
    ensures
        a =~= b,
{
    broadcast use group_multiset_axioms;

    assert forall|v: Seq<char>| a.count(v) == b.count(v) by {
        assert(a.add(x).count(v) == b.add(x).count(v));
    }
}

proof fn lemma_among_push(s: Seq<CommentView>, c: CommentView)
    ensures
        names_among(s.push(c)) == names_among(s).add(names_in(c)),
{
    assert(s.push(c).drop_last() =~= s);
}

proof fn lemma_among_first(s: Seq<CommentView>)
    requires
        s.len() > 0,
    ensures
        names_among(s) =~= names_among(s.drop_first()).add(names_in(s[0])),
    decreases s.len(),
{
    broadcast use group_multiset_axioms;

    if s.len() == 1 {
        assert(s.drop_last() =~= Seq::<CommentView>::empty());
        assert(s.drop_first() =~= Seq::<CommentView>::empty());
    } else {
        lemma_among_first(s.drop_last());
        assert(s.drop_last().drop_first() =~= s.drop_first().drop_last());
        assert(s.drop_first().last() == s.last());
        assert(s.drop_last()[0] == s[0]);
    }
}

proof fn lemma_among_split(s: Seq<CommentView>, name: Seq<char>)
    ensures
        names_among(s.filter(waits_for(name))).add(names_among(s.filter(waits_for_another(name))))
            =~= names_among(s),
    decreases s.len(),
{
    broadcast use group_multiset_axioms;

    reveal(Seq::filter);
    if s.len() > 0 {
        let front = s.drop_last();
        lemma_among_split(front, name);
        assert(front.push(s.last()) =~= s);
        front.lemma_filter_push(s.last(), waits_for(name));
        front.lemma_filter_push(s.last(), waits_for_another(name));
        lemma_among_push(front.filter(waits_for(name)), s.last());
        lemma_among_push(front.filter(waits_for_another(name)), s.last());
    }
}

proof fn lemma_in_add_reply(c: CommentView, item: CommentView)
    ensures
        names_in(c.add_reply(item)) =~= names_in(c).add(names_in(item)),
{
    broadcast use group_multiset_axioms;

    lemma_among_push(c.replies.comments, item);
}

proof fn lemma_in_add_replies(c: CommentView, items: Seq<CommentView>)
    ensures
        names_in(c.add_replies(items)) =~= names_in(c).add(names_among(items)),
    decreases items.len(),
{
    broadcast use group_multiset_axioms;

    if items.len() > 0 {
        lemma_in_add_replies(c, items.drop_last());
        lemma_in_add_reply(c.add_replies(items.drop_last()), items.last());
    }
}

proof fn lemma_among_update(s: Seq<CommentView>, i: int, c: CommentView)
    requires
        0 <= i < s.len(),
    ensures
        names_among(s.update(i, c)).add(names_in(s[i])) =~= names_among(s).add(names_in(c)),
    decreases s.len(),
{
    broadcast use group_multiset_axioms;

    let changed = s.update(i, c);
    assert(names_among(changed) == names_among(changed.drop_last()).add(names_in(changed.last())));
    assert(names_among(s) == names_among(s.drop_last()).add(names_in(s.last())));
    if i == s.len() - 1 {
        assert(changed.drop_last() =~= s.drop_last());
        assert(changed.last() == c);
        assert(s.last() == s[i]);
    } else {
        lemma_among_update(s.drop_last(), i, c);
        assert(changed.drop_last() =~= s.drop_last().update(i, c));
        assert(s.drop_last()[i] == s[i]);
        assert(changed.last() == s.last());
        let front = names_among(changed.drop_last());
        let old_front = names_among(s.drop_last());
        let last = names_in(s.last());
        assert(front.add(names_in(s[i])) == old_front.add(names_in(c)));
        assert(front.add(last).add(names_in(s[i])) =~= front.add(names_in(s[i])).add(last));
        assert(old_front.add(names_in(c)).add(last) =~= old_front.add(last).add(names_in(c)));
    }
}

/// Merging a comment neither copies nor drops anything: afterwards the list
/// holds what it held before and what the comment brought, each name as
/// often as before.
pub proof fn lemma_merge_keeps_every_comment(list: CommentListView, item: CommentView)
    ensures
        names_held(list.merge(item)) =~= names_held(list).add(names_in(item)),
{
    broadcast use group_multiset_axioms;

    let waiting = list.orphans.filter(waits_for(item.name()));
    let rest = list.orphans.filter(waits_for_another(item.name()));
    let grown = item.add_replies(waiting);
    let after = list.merge(item);
    let ready = names_among(list.comments);
    let brought = names_in(item);
    lemma_among_split(list.orphans, item.name());
    lemma_in_add_replies(item, waiting);
    assert(names_among(waiting).add(names_among(rest)) =~= names_among(list.orphans));
    assert(names_in(grown) =~= brought.add(names_among(waiting)));
    assert(names_held(list) == ready.add(names_among(list.orphans)));
    assert(names_held(after) == names_among(after.comments).add(names_among(after.orphans)));
    if item.parent() == list.parent {
        lemma_among_push(list.comments, grown);
        assert(after.comments == list.comments.push(grown));
        assert(after.orphans == rest);
        assert(names_among(after.comments) == ready.add(names_in(grown)));
    } else if index_of(list.names()).contains_key(item.parent()) {
        let at = index_of(list.names())[item.parent()];
        lemma_index_of_in_range(list.names(), item.parent());
        assert(0 <= at < list.comments.len());
        let host = list.comments[at];
        lemma_in_add_reply(host, grown);
        lemma_among_update(list.comments, at, host.add_reply(grown));
        assert(after.comments == list.comments.update(at, host.add_reply(grown)));
        assert(after.orphans == rest);
        assert(names_among(after.comments).add(names_in(host)) == ready.add(
            names_in(host.add_reply(grown)),
        ));
        assert(ready.add(names_in(host).add(names_in(grown))) =~= ready.add(names_in(grown)).add(
            names_in(host),
        ));
        lemma_cancel(names_among(after.comments), ready.add(names_in(grown)), names_in(host));
    } else {
        lemma_among_push(rest, grown);
        assert(after.comments == list.comments);
        assert(after.orphans == rest.push(grown));
        assert(names_among(after.orphans) == names_among(rest).add(names_in(grown)));
    }
}

/// Merging a batch neither copies nor drops anything: afterwards the list
/// holds what it held before and every comment that the batch delivered,
/// nested ones included.
pub proof fn lemma_batch_keeps_every_comment(list: CommentListView, things: Seq<ThingView>)
    ensures
        names_held(list.merge_all(things)) =~= names_held(list).add(names_delivered(things)),
    decreases things,
{
    broadcast use group_multiset_axioms;

    if things.len() > 0 {
        lemma_batch_keeps_every_comment(list, things.drop_last());
        let before = list.merge_all(things.drop_last());
        assert(list.merge_all(things) == before.merge_thing(things.last()));
        assert(names_delivered(things) == names_delivered(things.drop_last()).add(
            names_of_thing(things.last()),
        ));
        match things.last() {
            ThingView::Comment(data, replies) => {
                let start = CommentListView::empty(data.link_id@, data.name@);
                let item = CommentView::of(data, replies);
                lemma_batch_keeps_every_comment(start, replies);
                assert(names_held(start) =~= Multiset::<Seq<char>>::empty());
                assert(item.replies == start.merge_all(replies));
                assert(names_in(item) =~= names_of_thing(things.last()));
                lemma_merge_keeps_every_comment(before, item);
                assert(before.merge_thing(things.last()) == before.merge(item));
            },
            ThingView::More(more) => {
                assert(names_of_thing(things.last()) =~= Multiset::<Seq<char>>::empty());
                let after = before.merge_thing(things.last());
                assert(after.comments == before.comments && after.orphans == before.orphans);
            },
        }
    }
}

/// The list built from a batch holds every comment that the batch delivered
/// exactly as often as the batch delivered it, and nothing else.
pub proof fn lemma_built_holds_the_batch(
    link_id: Seq<char>,
    parent: Seq<char>,
    things: Seq<ThingView>,
)
    ensures
        names_held(built(link_id, parent, things)) =~= names_delivered(things),
{
    broadcast use group_multiset_axioms;

    lemma_batch_keeps_every_comment(CommentListView::empty(link_id, parent), things);
}

/// Handing out the first ready comment takes it out of the list with all that
/// hangs below it, and nothing else.
pub proof fn lemma_take_hands_over(list: CommentListView)
    requires
        list.comments.len() > 0,
    ensures
        names_held(list) =~= names_held(list.without_first()).add(names_in(list.comments[0])),
{
    broadcast use group_multiset_axioms;

    lemma_among_first(list.comments);
}

proof fn lemma_among_member(s: Seq<CommentView>, i: int)
    requires
        0 <= i < s.len(),
    ensures
        names_among(s).count(s[i].name()) >= 1,
    decreases s.len(),
{
    broadcast use group_multiset_axioms;

    let name = s[i].name();
    let front = names_among(s.drop_last());
    let last = names_in(s.last());
    assert(names_among(s) == front.add(last));
    assert(front.add(last).count(name) == front.count(name) + last.count(name));
    if i < s.len() - 1 {
        lemma_among_member(s.drop_last(), i);
        assert(s.drop_last()[i] == s[i]);
    } else {
        assert(last == names_held(s.last().replies).insert(name));
        assert(last.count(name) >= 1);
    }
}

/// A comment that waits among the orphans stands nowhere in the tree that is
/// handed out: where the list holds its name once, no ready comment has the
/// name and none holds it among its replies, at any depth.
pub proof fn lemma_orphan_is_not_ready(list: CommentListView, i: int)
    requires
        0 <= i < list.orphans.len(),
        names_held(list).count(list.orphans[i].name()) == 1,
    ensures
        names_among(list.comments).count(list.orphans[i].name()) == 0,
{
    broadcast use group_multiset_axioms;

    lemma_among_member(list.orphans, i);
}

} // verus!
