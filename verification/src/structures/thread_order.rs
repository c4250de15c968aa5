//! The order in which a flat batch arrives does not decide who answers whom.
//!
//! A batch is flat when its comments carry no nested replies and it holds no
//! "load more" marker. For such a batch the list that [`built`] assembles can
//! be written down without going through the batch step by step: the ready
//! comments are the comments that answer the root, and the replies of each are
//! the comments that answer it. This holds as long as no comment of the batch
//! stands three levels below the root, and it makes the assembled thread the
//! same for every order of arrival.

use vstd::prelude::*;
use crate::responses::comment::{CommentData, ThingView};
use crate::structures::comment::CommentView;
use crate::structures::comment_list::{
    CommentListView,
    built,
    index_of,
    lemma_add_replies_keeps_data,
    lemma_add_replies_push,
    lemma_filter_twice,
    lemma_index_of_in_range,
    waits_for,
    waits_for_another,
};

verus! {

/// The batch that delivers the comments of `batch` with nothing nested in
/// them and no marker between them.
pub open spec fn flat(batch: Seq<CommentData>) -> Seq<ThingView> {
    batch.map_values(|d: CommentData| ThingView::Comment(d, Seq::empty()))
}

/// The comment with the record `data` and no replies.
pub open spec fn leaf(data: CommentData) -> CommentView {
    CommentView::of(data, Seq::empty())
}

/// The comments of `batch`, each without replies.
pub open spec fn leaves(batch: Seq<CommentData>) -> Seq<CommentView> {
    batch.map_values(|d: CommentData| leaf(d))
}

/// The test "answers the root".
pub open spec fn answers_root(root: Seq<char>) -> spec_fn(CommentData) -> bool {
    |d: CommentData| d.parent_id@ == root
}

/// The test "answers the comment called `name`, and not the root".
pub open spec fn answers_comment(root: Seq<char>, name: Seq<char>) -> spec_fn(CommentData) -> bool {
    |d: CommentData| d.parent_id@ == name && d.parent_id@ != root
}

/// `true` if no two comments of `batch` have the same name.
pub open spec fn distinct_names(batch: Seq<CommentData>) -> bool {
    forall|i: int, j: int|
        #![trigger batch[i], batch[j]]
        0 <= i < j < batch.len() ==> batch[i].name@ != batch[j].name@
}

/// `true` if no comment of `batch` stands three levels below the root: none
/// answers a comment that answers a comment that answers the root.
pub open spec fn shallow(batch: Seq<CommentData>, root: Seq<char>) -> bool {
    forall|i: int, j: int, k: int|
        #![trigger batch[i], batch[j], batch[k]]
        0 <= i < batch.len() && 0 <= j < batch.len() && 0 <= k < batch.len()
            && batch[i].parent_id@ == batch[j].name@ && batch[j].parent_id@ != root
            && batch[j].parent_id@ == batch[k].name@ ==> batch[k].parent_id@ != root
}

/// The comment `data` with the comments of `batch` that answer it as its
/// replies, in the order of the batch.
pub open spec fn family(data: CommentData, batch: Seq<CommentData>, root: Seq<char>) -> CommentView {
    leaf(data).add_replies(leaves(batch.filter(answers_comment(root, data.name@))))
}

/// The ready comments that a shallow flat batch assembles to: the comments
/// that answer the root, in the order of the batch, each with its family.
pub open spec fn expected(batch: Seq<CommentData>, root: Seq<char>) -> Seq<CommentView> {
    batch.filter(answers_root(root)).map_values(|d: CommentData| family(d, batch, root))
}

/// The names of the replies attached to the ready comment called `name`.
pub open spec fn reply_names(list: CommentListView, name: Seq<char>) -> Set<Seq<char>> {
    Set::new(
        |reply: Seq<char>|
            exists|i: int, j: int|
                #![trigger list.comments[i], list.comments[i].replies.comments[j]]
                0 <= i < list.comments.len() && list.comments[i].name() == name && 0 <= j
                    < list.comments[i].replies.comments.len()
                    && list.comments[i].replies.comments[j].name() == reply,
    )
}

/// The names of the ready comments.
pub open spec fn ready_names(list: CommentListView) -> Set<Seq<char>> {
    Set::new(
        |name: Seq<char>|
            exists|i: int|
                0 <= i < list.comments.len() && (#[trigger] list.comments[i]).name() == name,
    )
}

/// `true` if no reply of a ready comment has replies of its own.
pub open spec fn two_levels(list: CommentListView) -> bool {
    forall|i: int, j: int|
        #![trigger list.comments[i], list.comments[i].replies.comments[j]]
        0 <= i < list.comments.len() && 0 <= j < list.comments[i].replies.comments.len()
            ==> list.comments[i].replies.comments[j].replies.comments.len() == 0
}

spec fn settled(list: CommentListView, batch: Seq<CommentData>, n: int, root: Seq<char>) -> bool {
    let seen = batch.take(n);
    &&& list.parent == root
    &&& list.comments == expected(seen, root)
    &&& forall|m: int|
        0 <= m < list.orphans.len() ==> seen.contains((#[trigger] list.orphans[m]).data)
    &&& forall|k: int|
        n <= k < batch.len() && (#[trigger] batch[k]).parent_id@ == root ==> list.orphans.filter(
            waits_for(batch[k].name@),
        ) == leaves(seen.filter(answers_comment(root, batch[k].name@)))
}

proof fn lemma_leaf(data: CommentData)
    ensures
        leaf(data) == (CommentView {
            data,
            replies: CommentListView::empty(data.link_id@, data.name@),
        }),
{
}

proof fn lemma_replies_grow(c: CommentView, items: Seq<CommentView>)
    ensures
        c.add_replies(items).replies == (CommentListView {
            comments: c.replies.comments + items,
            ..c.replies
        }),
    decreases items.len(),
{
    if items.len() > 0 {
        lemma_replies_grow(c, items.drop_last());
        assert(c.replies.comments + items =~= (c.replies.comments + items.drop_last()).push(
            items.last(),
        ));
    } else {
        assert(c.replies.comments + items =~= c.replies.comments);
    }
}

proof fn lemma_flat_step(list: CommentListView, seen: Seq<CommentData>, data: CommentData)
    ensures
        list.merge_all(flat(seen.push(data))) == list.merge_all(flat(seen)).merge(leaf(data)),
{
    let things = flat(seen.push(data));
    assert(things.drop_last() =~= flat(seen));
    assert(things.last() == ThingView::Comment(data, Seq::empty()));
    assert(list.merge_all(things) == list.merge_all(things.drop_last()).merge_thing(things.last()));
    let before = list.merge_all(flat(seen));
    assert(before.merge_thing(ThingView::Comment(data, Seq::empty())) == before.merge(
        CommentView::of(data, Seq::empty()),
    ));
}

proof fn lemma_filter_none<A>(s: Seq<A>, pred: spec_fn(A) -> bool)
    requires
        forall|i: int| 0 <= i < s.len() ==> !pred(#[trigger] s[i]),
    ensures
        s.filter(pred) == Seq::<A>::empty(),
{
    let kept = s.filter(pred);
    if kept.len() > 0 {
        s.lemma_filter_pred(pred, 0);
        assert(kept.contains(kept[0]));
        s.lemma_filter_contains_rev(pred, kept[0]);
    }
    assert(kept =~= Seq::<A>::empty());
}

proof fn lemma_filter_member<A>(s: Seq<A>, pred: spec_fn(A) -> bool, i: int)
    requires
        0 <= i < s.filter(pred).len(),
    ensures
        pred(s.filter(pred)[i]),
        s.contains(s.filter(pred)[i]),
{
    let kept = s.filter(pred);
    s.lemma_filter_pred(pred, i);
    assert(kept.contains(kept[i]));
    s.lemma_filter_contains_rev(pred, kept[i]);
}

proof fn lemma_filter_distinct(s: Seq<CommentData>, pred: spec_fn(CommentData) -> bool)
    requires
        distinct_names(s),
    ensures
        distinct_names(s.filter(pred)),
    decreases s.len(),
{
    reveal(Seq::filter);
    if s.len() > 0 {
        let front = s.drop_last();
        assert forall|i: int, j: int| 0 <= i < j < front.len() implies front[i].name@
            != front[j].name@ by {
            assert(front[i] == s[i] && front[j] == s[j]);
        }
        lemma_filter_distinct(front, pred);
        assert(front.push(s.last()) =~= s);
        front.lemma_filter_push(s.last(), pred);
        let kept = front.filter(pred);
        if pred(s.last()) {
            assert forall|i: int, j: int| 0 <= i < j < kept.push(s.last()).len() implies kept.push(
                s.last(),
            )[i].name@ != kept.push(s.last())[j].name@ by {
                if j == kept.len() {
                    lemma_filter_member(front, pred, i);
                    let at = choose|at: int| 0 <= at < front.len() && front[at] == kept[i];
                    assert(s[at] == front[at]);
                    assert(s[at].name@ != s[s.len() - 1].name@);
                }
            }
        }
    }
}

proof fn lemma_index_of_contains(names: Seq<Seq<char>>, i: int)
    requires
        0 <= i < names.len(),
    ensures
        index_of(names).contains_key(names[i]),
    decreases names.len(),
{
    if i < names.len() - 1 {
        lemma_index_of_contains(names.drop_last(), i);
    }
}

proof fn lemma_expected_names(seen: Seq<CommentData>, root: Seq<char>)
    ensures
        expected(seen, root).len() == seen.filter(answers_root(root)).len(),
        forall|i: int|
            0 <= i < expected(seen, root).len() ==> (#[trigger] expected(seen, root)[i]).data
                == seen.filter(answers_root(root))[i],
{
    let tops = seen.filter(answers_root(root));
    assert forall|i: int| 0 <= i < expected(seen, root).len() implies (#[trigger] expected(
        seen,
        root,
    )[i]).data == tops[i] by {
        lemma_add_replies_keeps_data(
            leaf(tops[i]),
            leaves(seen.filter(answers_comment(root, tops[i].name@))),
        );
    }
}

proof fn lemma_nobody_waits(
    list: CommentListView,
    batch: Seq<CommentData>,
    n: int,
    k: int,
    root: Seq<char>,
)
    requires
        0 <= n < batch.len(),
        0 <= k < batch.len(),
        shallow(batch, root),
        settled(list, batch, n, root),
        batch[n].parent_id@ != root,
        batch[n].parent_id@ == batch[k].name@,
        batch[k].parent_id@ == root,
    ensures
        list.orphans.filter(waits_for(batch[n].name@)) == Seq::<CommentView>::empty(),
{
    let seen = batch.take(n);
    assert forall|m: int| 0 <= m < list.orphans.len() implies !waits_for(batch[n].name@)(
        #[trigger] list.orphans[m],
    ) by {
        let data = list.orphans[m].data;
        assert(seen.contains(data));
        let i = choose|i: int| 0 <= i < seen.len() && seen[i] == data;
        assert(batch[i] == data);
        if data.parent_id@ == batch[n].name@ {
            assert(batch[i].parent_id@ == batch[n].name@ && batch[n].parent_id@ == batch[k].name@);
            assert(false);
        }
    }
    lemma_filter_none(list.orphans, waits_for(batch[n].name@));
}

proof fn lemma_rest_seen(
    list: CommentListView,
    batch: Seq<CommentData>,
    n: int,
    root: Seq<char>,
    rest: Seq<CommentView>,
)
    requires
        0 <= n < batch.len(),
        settled(list, batch, n, root),
        rest == list.orphans.filter(waits_for_another(batch[n].name@)),
    ensures
        forall|m: int| 0 <= m < rest.len() ==> batch.take(n + 1).contains((#[trigger] rest[m]).data),
{
    let seen = batch.take(n);
    let next = batch.take(n + 1);
    assert forall|m: int| 0 <= m < rest.len() implies next.contains((#[trigger] rest[m]).data) by {
        lemma_filter_member(list.orphans, waits_for_another(batch[n].name@), m);
        let at = choose|at: int| 0 <= at < list.orphans.len() && list.orphans[at] == rest[m];
        assert(seen.contains(list.orphans[at].data));
        let i = choose|i: int| 0 <= i < seen.len() && seen[i] == rest[m].data;
        assert(next[i] == rest[m].data);
    }
}

proof fn lemma_step(list: CommentListView, batch: Seq<CommentData>, n: int, root: Seq<char>)
    requires
        0 <= n < batch.len(),
        distinct_names(batch),
        shallow(batch, root),
        settled(list, batch, n, root),
    ensures
        settled(list.merge(leaf(batch[n])), batch, n + 1, root),
{
    let d = batch[n];
    let seen = batch.take(n);
    let next = batch.take(n + 1);
    assert(next =~= seen.push(d));
    let item = leaf(d);
    lemma_leaf(d);
    let waiting = list.orphans.filter(waits_for(d.name@));
    let rest = list.orphans.filter(waits_for_another(d.name@));
    let grown = item.add_replies(waiting);
    lemma_add_replies_keeps_data(item, waiting);
    let after = list.merge(item);
    let tops = seen.filter(answers_root(root));
    let names = list.names();
    seen.lemma_filter_push(d, answers_root(root));
    lemma_expected_names(seen, root);
    lemma_expected_names(next, root);
    lemma_rest_seen(list, batch, n, root, rest);
    assert forall|i: int, j: int| 0 <= i < j < seen.len() implies seen[i].name@
        != seen[j].name@ by {
        assert(seen[i] == batch[i] && seen[j] == batch[j]);
    }
    lemma_filter_distinct(seen, answers_root(root));
    assert(names.len() == tops.len());
    assert forall|i: int| 0 <= i < names.len() implies names[i] == tops[i].name@ by {
        assert(list.comments[i].data == tops[i]);
    }
    // What the orphans that wait for a comment still to come look like afterwards.
    assert forall|k: int| n + 1 <= k < batch.len() && (#[trigger] batch[k]).parent_id@
        == root implies rest.filter(waits_for(batch[k].name@)) == leaves(
        seen.filter(answers_comment(root, batch[k].name@)),
    ) by {
        assert(batch[n].name@ != batch[k].name@);
        lemma_filter_twice(list.orphans, d.name@, batch[k].name@);
    }
    if d.parent_id@ == root {
        // The comment answers the root: it takes its place at the end.
        assert(waiting == leaves(seen.filter(answers_comment(root, d.name@))));
        assert(after.comments =~= expected(next, root)) by {
            assert forall|i: int| 0 <= i < expected(next, root).len() implies after.comments[i]
                == expected(next, root)[i] by {
                let t = next.filter(answers_root(root))[i];
                seen.lemma_filter_push(d, answers_comment(root, t.name@));
            }
        }
        assert forall|k: int| n + 1 <= k < batch.len() && (#[trigger] batch[k]).parent_id@
            == root implies after.orphans.filter(waits_for(batch[k].name@)) == leaves(
            next.filter(answers_comment(root, batch[k].name@)),
        ) by {
            seen.lemma_filter_push(d, answers_comment(root, batch[k].name@));
        }
    } else if index_of(names).contains_key(d.parent_id@) {
        // The comment answers a ready comment: it becomes its last reply.
        let at = index_of(names)[d.parent_id@];
        lemma_index_of_in_range(names, d.parent_id@);
        let t = tops[at];
        lemma_filter_member(seen, answers_root(root), at);
        let k0 = choose|k0: int| 0 <= k0 < seen.len() && seen[k0] == t;
        assert(batch[k0] == t);
        lemma_nobody_waits(list, batch, n, k0, root);
        assert(grown == item);
        assert(after.comments =~= expected(next, root)) by {
            assert forall|i: int| 0 <= i < expected(next, root).len() implies after.comments[i]
                == expected(next, root)[i] by {
                let ti = tops[i];
                seen.lemma_filter_push(d, answers_comment(root, ti.name@));
                if i == at {
                    let kids = seen.filter(answers_comment(root, ti.name@));
                    assert(leaves(kids.push(d)) =~= leaves(kids).push(item));
                    lemma_add_replies_push(leaf(ti), leaves(kids), item);
                } else {
                    if i < at {
                        assert(tops[i].name@ != tops[at].name@);
                    } else {
                        assert(tops[at].name@ != tops[i].name@);
                    }
                }
            }
        }
        assert forall|k: int| n + 1 <= k < batch.len() && (#[trigger] batch[k]).parent_id@
            == root implies after.orphans.filter(waits_for(batch[k].name@)) == leaves(
            next.filter(answers_comment(root, batch[k].name@)),
        ) by {
            assert(batch[k0].name@ != batch[k].name@);
            seen.lemma_filter_push(d, answers_comment(root, batch[k].name@));
        }
    } else {
        // The comment finds no place yet: it waits among the orphans.
        assert(after.comments =~= expected(next, root)) by {
            assert forall|i: int| 0 <= i < expected(next, root).len() implies after.comments[i]
                == expected(next, root)[i] by {
                let ti = tops[i];
                lemma_index_of_contains(names, i);
                seen.lemma_filter_push(d, answers_comment(root, ti.name@));
            }
        }
        assert forall|m: int| 0 <= m < after.orphans.len() implies next.contains(
            (#[trigger] after.orphans[m]).data,
        ) by {
            if m == rest.len() {
                assert(next[n] == d);
            }
        }
        assert forall|k: int| n + 1 <= k < batch.len() && (#[trigger] batch[k]).parent_id@
            == root implies after.orphans.filter(waits_for(batch[k].name@)) == leaves(
            next.filter(answers_comment(root, batch[k].name@)),
        ) by {
            let kids = seen.filter(answers_comment(root, batch[k].name@));
            seen.lemma_filter_push(d, answers_comment(root, batch[k].name@));
            rest.lemma_filter_push(grown, waits_for(batch[k].name@));
            if d.parent_id@ == batch[k].name@ {
                lemma_nobody_waits(list, batch, n, k, root);
                assert(grown == item);
                assert(leaves(kids.push(d)) =~= leaves(kids).push(item));
            }
        }
    }
}

proof fn lemma_settled(link_id: Seq<char>, batch: Seq<CommentData>, n: int, root: Seq<char>)
    requires
        0 <= n <= batch.len(),
        distinct_names(batch),
        shallow(batch, root),
    ensures
        settled(built(link_id, root, flat(batch.take(n))), batch, n, root),
    decreases n,
{
    let start = CommentListView::empty(link_id, root);
    if n == 0 {
        let seen = batch.take(0);
        assert(seen =~= Seq::<CommentData>::empty());
        assert(flat(seen) =~= Seq::<ThingView>::empty());
        reveal(Seq::filter);
        assert(expected(seen, root) =~= Seq::<CommentView>::empty());
        assert forall|k: int| 0 <= k < batch.len() && (#[trigger] batch[k]).parent_id@
            == root implies start.orphans.filter(waits_for(batch[k].name@)) == leaves(
            seen.filter(answers_comment(root, batch[k].name@)),
        ) by {
            assert(leaves(seen.filter(answers_comment(root, batch[k].name@)))
                =~= Seq::<CommentView>::empty());
        }
    } else {
        lemma_settled(link_id, batch, n - 1, root);
        assert(batch.take(n) =~= batch.take(n - 1).push(batch[n - 1]));
        lemma_flat_step(start, batch.take(n - 1), batch[n - 1]);
        lemma_step(built(link_id, root, flat(batch.take(n - 1))), batch, n - 1, root);
    }
}

/// What a shallow flat batch assembles to: the comments that answer the root
/// are ready, in the order of the batch, and each has the comments that
/// answer it as its replies, in the order of the batch, whether they came
/// before it or after it.
pub proof fn lemma_flat_batch_assembles(
    link_id: Seq<char>,
    root: Seq<char>,
    batch: Seq<CommentData>,
)
    requires
        distinct_names(batch),
        shallow(batch, root),
    ensures
        built(link_id, root, flat(batch)).comments == expected(batch, root),
{
    lemma_settled(link_id, batch, batch.len() as int, root);
    assert(batch.take(batch.len() as int) =~= batch);
}

proof fn lemma_family(data: CommentData, batch: Seq<CommentData>, root: Seq<char>)
    ensures
        family(data, batch, root).data == data,
        family(data, batch, root).replies.comments == leaves(
            batch.filter(answers_comment(root, data.name@)),
        ),
{
    let kids = leaves(batch.filter(answers_comment(root, data.name@)));
    lemma_leaf(data);
    lemma_add_replies_keeps_data(leaf(data), kids);
    lemma_replies_grow(leaf(data), kids);
    assert(leaf(data).replies.comments + kids =~= kids);
}

proof fn lemma_kept_in_both(
    first: Seq<CommentData>,
    second: Seq<CommentData>,
    pred: spec_fn(CommentData) -> bool,
    i: int,
) -> (at: int)
    requires
        0 <= i < first.filter(pred).len(),
        forall|d: CommentData| first.contains(d) ==> second.contains(d),
    ensures
        0 <= at < second.filter(pred).len(),
        second.filter(pred)[at] == first.filter(pred)[i],
{
    let d = first.filter(pred)[i];
    lemma_filter_member(first, pred, i);
    assert(second.contains(d));
    let place = choose|place: int| 0 <= place < second.len() && second[place] == d;
    second.lemma_filter_contains(pred, place);
    choose|at: int| 0 <= at < second.filter(pred).len() && second.filter(pred)[at] == d
}

proof fn lemma_shape_carries_over(
    here: CommentListView,
    there: CommentListView,
    first: Seq<CommentData>,
    second: Seq<CommentData>,
    root: Seq<char>,
)
    requires
        here.comments == expected(first, root),
        there.comments == expected(second, root),
        forall|d: CommentData| first.contains(d) ==> second.contains(d),
    ensures
        ready_names(here).subset_of(ready_names(there)),
        forall|name: Seq<char>|
            #![trigger reply_names(here, name)]
            #![trigger reply_names(there, name)]
            reply_names(here, name).subset_of(reply_names(there, name)),
        two_levels(here),
{
    let tops = first.filter(answers_root(root));
    lemma_expected_names(first, root);
    lemma_expected_names(second, root);
    assert forall|name: Seq<char>| ready_names(here).contains(name) implies ready_names(
        there,
    ).contains(name) by {
        let i = choose|i: int|
            0 <= i < here.comments.len() && (#[trigger] here.comments[i]).name() == name;
        let i2 = lemma_kept_in_both(first, second, answers_root(root), i);
        assert(there.comments[i2].data == tops[i]);
        assert(there.comments[i2].name() == name);
    }
    assert forall|name: Seq<char>, reply: Seq<char>| reply_names(here, name).contains(
        reply,
    ) implies reply_names(there, name).contains(reply) by {
        let (i, j) = choose|i: int, j: int|
            #![trigger here.comments[i], here.comments[i].replies.comments[j]]
            0 <= i < here.comments.len() && here.comments[i].name() == name && 0 <= j
                < here.comments[i].replies.comments.len()
                && here.comments[i].replies.comments[j].name() == reply;
        let t = tops[i];
        let i2 = lemma_kept_in_both(first, second, answers_root(root), i);
        assert(there.comments[i2].data == t);
        lemma_family(t, first, root);
        lemma_family(t, second, root);
        let kids = first.filter(answers_comment(root, t.name@));
        let z = kids[j];
        let j2 = lemma_kept_in_both(first, second, answers_comment(root, t.name@), j);
        lemma_leaf(z);
        assert(here.comments[i].replies.comments[j] == leaf(z));
        assert(there.comments[i2].replies.comments[j2] == leaf(z));
        assert(there.comments[i2].name() == name);
    }
    assert forall|i: int, j: int|
        #![trigger here.comments[i], here.comments[i].replies.comments[j]]
        0 <= i < here.comments.len() && 0 <= j
            < here.comments[i].replies.comments.len() implies here.comments[i].replies.comments[j].replies.comments.len()
        == 0 by {
        let t = tops[i];
        lemma_family(t, first, root);
        lemma_leaf(first.filter(answers_comment(root, t.name@))[j]);
    }
}

proof fn lemma_reordering_keeps_rules(
    first: Seq<CommentData>,
    second: Seq<CommentData>,
    root: Seq<char>,
)
    requires
        distinct_names(first),
        shallow(first, root),
        first.to_multiset() == second.to_multiset(),
    ensures
        forall|d: CommentData| first.contains(d) <==> second.contains(d),
        distinct_names(second),
        shallow(second, root),
{
    broadcast use vstd::seq_lib::group_to_multiset_ensures;

    assert forall|d: CommentData| first.contains(d) <==> second.contains(d) by {
        assert(first.contains(d) <==> first.to_multiset().count(d) > 0);
        assert(second.contains(d) <==> second.to_multiset().count(d) > 0);
    }
    assert(first.no_duplicates()) by {
        assert forall|i: int, j: int| 0 <= i < first.len() && 0 <= j < first.len() && i
            != j implies first[i] != first[j] by {
            if i < j {
                assert(first[i].name@ != first[j].name@);
            } else {
                assert(first[j].name@ != first[i].name@);
            }
        }
    }
    first.lemma_multiset_has_no_duplicates();
    second.lemma_multiset_has_no_duplicates_conv();
    assert forall|i: int, j: int| 0 <= i < j < second.len() implies second[i].name@
        != second[j].name@ by {
        assert(second.contains(second[i]) && second.contains(second[j]));
        let p = choose|p: int| 0 <= p < first.len() && first[p] == second[i];
        let q = choose|q: int| 0 <= q < first.len() && first[q] == second[j];
        assert(second[i] != second[j]);
        if p < q {
            assert(first[p].name@ != first[q].name@);
        } else {
            assert(first[q].name@ != first[p].name@);
        }
    }
    assert forall|i: int, j: int, k: int|
        #![trigger second[i], second[j], second[k]]
        0 <= i < second.len() && 0 <= j < second.len() && 0 <= k < second.len()
            && second[i].parent_id@ == second[j].name@ && second[j].parent_id@ != root
            && second[j].parent_id@ == second[k].name@ implies second[k].parent_id@ != root by {
        assert(second.contains(second[i]) && second.contains(second[j]) && second.contains(
            second[k],
        ));
        let p = choose|p: int| 0 <= p < first.len() && first[p] == second[i];
        let q = choose|q: int| 0 <= q < first.len() && first[q] == second[j];
        let r = choose|r: int| 0 <= r < first.len() && first[r] == second[k];
        assert(first[p].parent_id@ == first[q].name@ && first[q].parent_id@ == first[r].name@);
    }
}

/// The order of arrival does not decide the thread. Two flat batches that
/// hold the same comments, in whatever order, assemble to lists with the same
/// ready comments, each with the same replies, and in neither has a reply
/// replies of its own. A comment that arrives before the comment it answers
/// is taken in by it when that one arrives.
///
/// The batches are shallow: with a comment three levels below the root, what
/// becomes of it depends on whether it arrives before or after the comment it
/// answers.
pub proof fn lemma_order_does_not_matter(
    link_id: Seq<char>,
    root: Seq<char>,
    first: Seq<CommentData>,
    second: Seq<CommentData>,
)
    requires
        distinct_names(first),
        shallow(first, root),
        first.to_multiset() == second.to_multiset(),
    ensures
        ready_names(built(link_id, root, flat(first))) == ready_names(
            built(link_id, root, flat(second)),
        ),
        forall|name: Seq<char>|
            #![trigger reply_names(built(link_id, root, flat(first)), name)]
            #![trigger reply_names(built(link_id, root, flat(second)), name)]
            reply_names(built(link_id, root, flat(first)), name) == reply_names(
                built(link_id, root, flat(second)),
                name,
            ),
        two_levels(built(link_id, root, flat(first))),
        two_levels(built(link_id, root, flat(second))),
{
    let here = built(link_id, root, flat(first));
    let there = built(link_id, root, flat(second));
    lemma_reordering_keeps_rules(first, second, root);
    lemma_flat_batch_assembles(link_id, root, first);
    lemma_flat_batch_assembles(link_id, root, second);
    lemma_shape_carries_over(here, there, first, second, root);
    lemma_shape_carries_over(there, here, second, first, root);
    assert(ready_names(here) =~= ready_names(there));
    assert forall|name: Seq<char>| reply_names(here, name) == reply_names(there, name) by {
        assert(reply_names(here, name).subset_of(reply_names(there, name)));
        assert(reply_names(there, name).subset_of(reply_names(here, name)));
        assert(reply_names(here, name) =~= reply_names(there, name));
    }
}

} // verus!
