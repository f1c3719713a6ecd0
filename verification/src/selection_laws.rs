//! Laws of the mailing-list picker, stated over `SelectionView`.
use vstd::prelude::*;

use crate::mail_list::{matching, SelectionView};
use crate::mailing_list::ListView;

verus! {

/// A list is visible for a search text exactly when it is one of the
/// available lists and its name starts with that text; every visible list's
/// name starts with the text.
pub proof fn lemma_matching_membership(lists: Seq<ListView>, target: Seq<char>, x: ListView)
    ensures
        matching(lists, target).contains(x) <==> (lists.contains(x) && target.is_prefix_of(x.name)),
        forall|i: int|
            0 <= i < matching(lists, target).len() ==> target.is_prefix_of(
                #[trigger] matching(lists, target)[i].name,
            ),
        matching(lists, target).len() <= lists.len(),
{
    let pred = |l: ListView| target.is_prefix_of(l.name);
    broadcast use Seq::lemma_filter_len, Seq::lemma_filter_pred, Seq::lemma_filter_contains;
    if matching(lists, target).contains(x) {
        lists.lemma_filter_contains_rev(pred, x);
        let i = choose|i: int| 0 <= i < matching(lists, target).len() && matching(lists, target)[i] == x;
        assert(pred(matching(lists, target)[i]));
    }
    if lists.contains(x) && target.is_prefix_of(x.name) {
        let i = choose|i: int| 0 <= i < lists.len() && lists[i] == x;
        assert(lists.filter(pred).contains(lists[i]));
    }
}

/// Filtering goes through the lists in order: no list is visible among
/// none, and one more list at the end is visible after those of the others
/// exactly when its name starts with the search text. So the visible lists
/// keep the order, and the repetitions, of the available ones.
pub proof fn lemma_matching_step(lists: Seq<ListView>, target: Seq<char>, l: ListView)
    ensures
        matching(Seq::empty(), target) == Seq::<ListView>::empty(),
        target.is_prefix_of(l.name) ==> matching(lists.push(l), target) == matching(
            lists,
            target,
        ).push(l),
        !target.is_prefix_of(l.name) ==> matching(lists.push(l), target) == matching(
            lists,
            target,
        ),
{
    reveal(Seq::filter);
    assert(lists.push(l).drop_last() =~= lists);
    assert(Seq::<ListView>::empty().filter(|x: ListView| target.is_prefix_of(x.name)) =~= Seq::<
        ListView,
    >::empty());
}

/// With an empty search text every available list is visible, in order.
pub proof fn lemma_empty_target_matches_all(lists: Seq<ListView>)
    ensures
        matching(lists, Seq::empty()) == lists,
    decreases lists.len(),
{
    reveal(Seq::filter);
    if lists.len() > 0 {
        lemma_empty_target_matches_all(lists.drop_last());
        assert(Seq::<char>::empty().is_prefix_of(lists.last().name));
        assert(lists.drop_last().push(lists.last()) =~= lists);
    }
}

/// When the search text `shorter` is a prefix of `longer`, filtering by
/// `longer` gives the same lists whether it starts from all the lists or from
/// those already visible for `shorter`: typing more only narrows the choice.
pub proof fn lemma_longer_target_narrows(
    lists: Seq<ListView>,
    shorter: Seq<char>,
    longer: Seq<char>,
)
    requires
        shorter.is_prefix_of(longer),
    ensures
        matching(lists, longer) == matching(matching(lists, shorter), longer),
        matching(lists, longer).len() <= matching(lists, shorter).len(),
    decreases lists.len(),
{
    reveal(Seq::filter);
    if lists.len() > 0 {
        lemma_longer_target_narrows(lists.drop_last(), shorter, longer);
        let l = lists.last();
        if longer.is_prefix_of(l.name) {
            assert(shorter.is_prefix_of(l.name)) by {
                assert forall|k: int| 0 <= k < shorter.len() implies shorter[k] == l.name[k] by {
                    assert(shorter[k] == longer[k]);
                    assert(longer[k] == l.name[k]);
                }
                assert(shorter =~= l.name.subrange(0, shorter.len() as int));
            }
            let m = matching(lists.drop_last(), shorter);
            assert(m.push(l).drop_last() =~= m);
        } else if shorter.is_prefix_of(l.name) {
            let m = matching(lists.drop_last(), shorter);
            assert(m.push(l).drop_last() =~= m);
        }
    }
    let pred = |l: ListView| longer.is_prefix_of(l.name);
    matching(lists, shorter).lemma_filter_len(pred);
}

/// Typing one more character keeps only lists that were already visible.
pub proof fn lemma_push_narrows(v: SelectionView, c: char)
    ensures
        v.after_push(c).possible == matching(v.refiltered().possible, v.target.push(c)),
        v.after_push(c).possible.len() <= v.refiltered().possible.len(),
        forall|x: ListView|
            v.after_push(c).possible.contains(x) ==> #[trigger] v.refiltered().possible.contains(x),
{
    assert(v.target.is_prefix_of(v.target.push(c))) by {
        assert(v.target =~= v.target.push(c).subrange(0, v.target.len() as int));
    }
    lemma_longer_target_narrows(v.lists, v.target, v.target.push(c));
    assert forall|x: ListView| v.after_push(c).possible.contains(x) implies #[trigger] v.refiltered().possible.contains(x) by {
        lemma_matching_membership(v.refiltered().possible, v.target.push(c), x);
    }
}

/// Typing a character and then deleting it gives back the search text, and
/// the visible lists are those for that text again.
pub proof fn lemma_push_then_remove_restores(v: SelectionView, c: char)
    ensures
        v.after_push(c).after_remove_last() == v.refiltered(),
{
    assert(v.target.push(c).drop_last() =~= v.target);
}

/// Erasing the search text makes every available list visible, with the
/// first one highlighted.
pub proof fn lemma_clear_shows_every_list(v: SelectionView)
    ensures
        v.after_clear().target.len() == 0,
        v.after_clear().possible == v.lists,
        v.after_clear().highlighted == 0,
{
    lemma_empty_target_matches_all(v.lists);
}

/// After a successful refresh the search bar is empty and every fetched
/// list is visible.
pub proof fn lemma_refresh_shows_every_list(v: SelectionView, lists: Seq<ListView>)
    ensures
        v.after_refresh(lists).lists == lists,
        v.after_refresh(lists).target.len() == 0,
        v.after_refresh(lists).possible == lists,
        v.after_refresh(lists).highlighted == 0,
        v.after_refresh(lists).path == v.path,
{
    lemma_empty_target_matches_all(lists);
}

/// Each filtering puts the highlight on the top list; the highlight is then
/// valid exactly when some list is visible.
pub proof fn lemma_filter_highlights_top(v: SelectionView, target: Seq<char>)
    ensures
        v.with_target(target).highlighted == 0,
        v.with_target(target).has_valid() <==> v.with_target(target).possible.len() > 0,
{
}

/// Moving the highlight never takes it off the visible lists.
pub proof fn lemma_navigation_keeps_valid(v: SelectionView)
    requires
        v.has_valid(),
    ensures
        v.after_below().has_valid(),
        v.after_above().has_valid(),
{
}

/// Moving the highlight down and then up, where it could move down, comes
/// back to where it was; so does moving up and then down from below the top.
pub proof fn lemma_below_above_inverse(v: SelectionView)
    ensures
        v.highlighted + 1 < v.possible.len() ==> v.after_below().after_above() == v,
        0 < v.highlighted < v.possible.len() ==> v.after_above().after_below() == v,
{
}

/// Only a refresh changes the available lists; no operation changes where
/// they are saved.
pub proof fn lemma_operations_keep_lists(v: SelectionView, c: char)
    ensures
        v.after_push(c).lists == v.lists && v.after_push(c).path == v.path,
        v.after_remove_last().lists == v.lists && v.after_remove_last().path == v.path,
        v.after_clear().lists == v.lists && v.after_clear().path == v.path,
        v.refiltered().lists == v.lists && v.refiltered().path == v.path,
        v.after_below().lists == v.lists && v.after_below().path == v.path,
        v.after_above().lists == v.lists && v.after_above().path == v.path,
        v.after_below().target == v.target && v.after_below().possible == v.possible,
        v.after_above().target == v.target && v.after_above().possible == v.possible,
{
}

/// Backspace on a non-empty search text drops exactly its last character,
/// shows the lists whose name starts with what is left and highlights the
/// top one, wherever the highlight was; on an empty search text it changes
/// nothing.
pub proof fn lemma_remove_last_effect(v: SelectionView)
    ensures
        v.target.len() == 0 ==> v.after_remove_last() == v,
        v.target.len() > 0 ==> {
            let w = v.after_remove_last();
            &&& w.target.len() + 1 == v.target.len()
            &&& w.target.push(v.target.last()) == v.target
            &&& forall|x: ListView|
                #[trigger] w.possible.contains(x) <==> (v.lists.contains(x)
                    && w.target.is_prefix_of(x.name))
            &&& w.possible == matching(v.lists, w.target)
            &&& w.highlighted == 0
            &&& w.lists == v.lists
            &&& w.path == v.path
        },
{
    if v.target.len() > 0 {
        let w = v.after_remove_last();
        assert(w.target.push(v.target.last()) =~= v.target);
        assert forall|x: ListView| #[trigger] w.possible.contains(x) <==> (v.lists.contains(x)
            && w.target.is_prefix_of(x.name)) by {
            lemma_matching_membership(v.lists, w.target, x);
        }
    }
}

/// Typing a character appends exactly it to the search text, shows the
/// lists whose name starts with the new text and highlights the top one,
/// wherever the highlight was; the highlight is then valid exactly when some
/// list is visible.
pub proof fn lemma_push_effect(v: SelectionView, c: char)
    ensures
        ({
            let w = v.after_push(c);
            &&& w.target.len() == v.target.len() + 1
            &&& w.target.last() == c
            &&& w.target.drop_last() == v.target
            &&& forall|x: ListView|
                #[trigger] w.possible.contains(x) <==> (v.lists.contains(x)
                    && w.target.is_prefix_of(x.name))
            &&& w.possible == matching(v.lists, w.target)
            &&& w.highlighted == 0
            &&& (w.has_valid() <==> w.possible.len() > 0)
            &&& w.lists == v.lists
            &&& w.path == v.path
        }),
{
    let w = v.after_push(c);
    assert(w.target.drop_last() =~= v.target);
    assert forall|x: ListView| #[trigger] w.possible.contains(x) <==> (v.lists.contains(x)
        && w.target.is_prefix_of(x.name)) by {
        lemma_matching_membership(v.lists, w.target, x);
    }
}

/// Moving the highlight down never moves it up and moves it by at most one:
/// it goes to the next list when there is one below, and otherwise nothing
/// changes. The search text and the visible lists stay as they were.
pub proof fn lemma_below_effect(v: SelectionView)
    ensures
        v.highlighted <= v.after_below().highlighted <= v.highlighted + 1,
        v.highlighted + 1 < v.possible.len() ==> v.after_below().highlighted == v.highlighted + 1,
        v.highlighted + 1 >= v.possible.len() ==> v.after_below() == v,
        v.after_below().target == v.target,
        v.after_below().possible == v.possible,
        v.after_below().lists == v.lists,
        v.after_below().path == v.path,
{
}

/// Moving the highlight up never moves it down and moves it by at most one:
/// from the top nothing changes, from anywhere else it goes one list up. The
/// search text and the visible lists stay as they were.
pub proof fn lemma_above_effect(v: SelectionView)
    ensures
        v.after_above().highlighted <= v.highlighted <= v.after_above().highlighted + 1,
        v.highlighted == 0 ==> v.after_above() == v,
        v.highlighted > 0 ==> v.after_above().highlighted + 1 == v.highlighted,
        v.after_above().target == v.target,
        v.after_above().possible == v.possible,
        v.after_above().lists == v.lists,
        v.after_above().path == v.path,
{
    if v.highlighted == 0 {
        assert(v.after_above() == v);
    }
}

} // verus!
