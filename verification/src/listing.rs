//! What is shown of the repositories gathered: those that fit the filter
//! text, in the order of their ranks.

use crate::repository::Repository;
use vstd::prelude::*;

verus! {

/// The test that a repository fits the filter text.
pub open spec fn fitting(text: Seq<char>) -> spec_fn(Repository) -> bool {
    |repository: Repository| repository.fits(text)
}

/// Where `item` is put into `listed`: behind the last repository that does
/// not rank after it.
pub open spec fn place_of(listed: Seq<Repository>, item: Repository) -> int
    decreases listed.len(),
{
    if listed.len() == 0 {
        0
    } else if listed.last().ranks_after(item) {
        place_of(listed.drop_last(), item)
    } else {
        listed.len() as int
    }
}

/// The repositories in the order they are shown in: each is put, in turn,
/// behind the last of those before it that does not rank after it. So
/// repositories of the same rank stay in the order they came in.
pub open spec fn in_order(repos: Seq<Repository>) -> Seq<Repository>
    decreases repos.len(),
{
    if repos.len() == 0 {
        Seq::empty()
    } else {
        let listed = in_order(repos.drop_last());
        listed.insert(place_of(listed, repos.last()), repos.last())
    }
}

/// The test that a repository has the rank of `like`.
pub open spec fn ranked_like(like: Repository) -> spec_fn(Repository) -> bool {
    |repository: Repository| repository.rank() == like.rank()
}

/// Whether no repository of `repos` ranks after one that follows it.
pub open spec fn is_ranked(repos: Seq<Repository>) -> bool {
    forall|i: int, j: int| 0 <= i < j < repos.len() ==> !repos[i].ranks_after(repos[j])
}

/// The repositories that fit the filter text, in the order they came in.
pub fn keep_fitting(repos: Vec<Repository>, text: &str) -> (kept: Vec<Repository>)
    ensures
        kept@ == repos@.filter(fitting(text@)),
{
    let ghost all = repos@;
    let mut kept: Vec<Repository> = Vec::new();
    for repository in it: repos.into_iter()
        invariant
            it.seq() == all,
            kept@ == all.take(it.index() as int).filter(fitting(text@)),
    {
        proof {
            let seen = all.take(it.index() as int);
            assert(all.take(it.index() + 1) =~= seen.push(repository));
            seen.lemma_filter_push(repository, fitting(text@));
        }
        if repository.matches(text) {
            kept.push(repository);
        }
    }
    proof {
        assert(all.take(all.len() as int) =~= all);
    }
    kept
}

/// The repositories in the order they are shown in.
pub fn sort(repos: Vec<Repository>) -> (listed: Vec<Repository>)
    ensures
        listed@ == in_order(repos@),
{
    let ghost all = repos@;
    let mut listed: Vec<Repository> = Vec::new();
    for repository in it: repos.into_iter()
        invariant
            it.seq() == all,
            listed@ == in_order(all.take(it.index() as int)),
    {
        proof {
            let seen = all.take(it.index() + 1);
            assert(seen.drop_last() =~= all.take(it.index() as int));
            assert(seen.last() == repository);
        }
        let mut at: usize = listed.len();
        proof {
            assert(listed@.take(at as int) =~= listed@);
        }
        while at > 0 && listed[at - 1].comes_after(&repository)
            invariant
                at <= listed.len(),
                place_of(listed@, repository) == place_of(listed@.take(at as int), repository),
            decreases at,
        {
            proof {
                let head = listed@.take(at as int);
                assert(head.last() == listed@[at - 1]);
                assert(head.drop_last() =~= listed@.take(at - 1));
            }
            at -= 1;
        }
        proof {
            let head = listed@.take(at as int);
            if at > 0 {
                assert(head.last() == listed@[at - 1]);
            }
            assert(place_of(head, repository) == at);
        }
        listed.insert(at, repository);
    }
    proof {
        assert(all.take(all.len() as int) =~= all);
    }
    listed
}

/// Every repository at or behind the place of `item` ranks after it, and
/// the one just before that place, if there is one, does not.
proof fn lemma_place_of(listed: Seq<Repository>, item: Repository)
    ensures
        0 <= place_of(listed, item) <= listed.len(),
        forall|i: int|
            place_of(listed, item) <= i < listed.len() ==> (#[trigger] listed[i]).ranks_after(item),
        place_of(listed, item) > 0 ==> !listed[place_of(listed, item) - 1].ranks_after(item),
    decreases listed.len(),
{
    if listed.len() > 0 && listed.last().ranks_after(item) {
        lemma_place_of(listed.drop_last(), item);
        assert forall|i: int| place_of(listed, item) <= i < listed.len() implies (
        #[trigger] listed[i]).ranks_after(item) by {
            if i < listed.len() - 1 {
                assert(listed[i] == listed.drop_last()[i]);
            }
        }
        if place_of(listed, item) > 0 {
            assert(listed[place_of(listed, item) - 1] == listed.drop_last()[place_of(
                listed.drop_last(),
                item,
            ) - 1]);
        }
    }
}

/// In the order shown, no repository ranks after one that follows it: those
/// that are not archived come first, among them those that are not forks,
/// and among those the ones pushed to last.
pub proof fn order_shown_is_ranked(repos: Seq<Repository>)
    ensures
        is_ranked(in_order(repos)),
    decreases repos.len(),
{
    if repos.len() > 0 {
        let listed = in_order(repos.drop_last());
        let item = repos.last();
        let at = place_of(listed, item);
        order_shown_is_ranked(repos.drop_last());
        lemma_place_of(listed, item);
        let shown = listed.insert(at, item);
        assert forall|i: int, j: int| 0 <= i < j < shown.len() implies !shown[i].ranks_after(
            shown[j],
        ) by {
            if j < at {
                assert(shown[i] == listed[i] && shown[j] == listed[j]);
            } else if j == at {
                assert(shown[i] == listed[i]);
                if i < at - 1 {
                    assert(!listed[i].ranks_after(listed[at - 1]));
                }
            } else if i == at {
                assert(shown[j] == listed[j - 1]);
                assert(listed[j - 1].ranks_after(item));
            } else if i > at {
                assert(shown[i] == listed[i - 1] && shown[j] == listed[j - 1]);
            } else {
                assert(shown[i] == listed[i] && shown[j] == listed[j - 1]);
            }
        }
    }
}

/// The order shown holds the repositories that came in, each as often as it
/// came: none is lost, none is added.
pub proof fn order_shown_keeps_every_repository(repos: Seq<Repository>)
    ensures
        in_order(repos).to_multiset() == repos.to_multiset(),
    decreases repos.len(),
{
    broadcast use vstd::seq_lib::group_to_multiset_ensures;

    if repos.len() > 0 {
        let listed = in_order(repos.drop_last());
        let item = repos.last();
        order_shown_keeps_every_repository(repos.drop_last());
        lemma_place_of(listed, item);
        vstd::seq_lib::to_multiset_insert(listed, place_of(listed, item), item);
        assert(repos.drop_last().push(item) =~= repos);
        vstd::seq_lib::to_multiset_build(repos.drop_last(), item);
    } else {
        assert(in_order(repos) =~= repos);
    }
}

/// None of the repositories that rank after `item` has the rank of `like`,
/// if `item` has it.
proof fn lemma_none_ranked_like(behind: Seq<Repository>, item: Repository, like: Repository)
    requires
        item.rank() == like.rank(),
        forall|i: int| 0 <= i < behind.len() ==> (#[trigger] behind[i]).ranks_after(item),
    ensures
        behind.filter(ranked_like(like)) == Seq::<Repository>::empty(),
    decreases behind.len(),
{
    reveal(Seq::filter);
    if behind.len() > 0 {
        assert(behind.last().ranks_after(item));
        assert forall|i: int| 0 <= i < behind.drop_last().len() implies (
        #[trigger] behind.drop_last()[i]).ranks_after(item) by {
            assert(behind.drop_last()[i] == behind[i]);
        }
        lemma_none_ranked_like(behind.drop_last(), item, like);
    }
}

/// Repositories of one rank are shown in the order they came in.
pub proof fn order_shown_keeps_ties_in_order(repos: Seq<Repository>, like: Repository)
    ensures
        in_order(repos).filter(ranked_like(like)) == repos.filter(ranked_like(like)),
    decreases repos.len(),
{
    let same = ranked_like(like);
    if repos.len() > 0 {
        let listed = in_order(repos.drop_last());
        let item = repos.last();
        let at = place_of(listed, item);
        order_shown_keeps_ties_in_order(repos.drop_last(), like);
        lemma_place_of(listed, item);
        let before = listed.take(at);
        let behind = listed.skip(at);
        assert(listed =~= before + behind);
        assert(listed.insert(at, item) =~= before.push(item) + behind);
        assert(repos =~= repos.drop_last().push(item));
        Seq::filter_distributes_over_add(before, behind, same);
        Seq::filter_distributes_over_add(before.push(item), behind, same);
        before.lemma_filter_push(item, same);
        repos.drop_last().lemma_filter_push(item, same);
        if same(item) {
            assert forall|i: int| 0 <= i < behind.len() implies (#[trigger] behind[i]).ranks_after(
                item,
            ) by {
                assert(behind[i] == listed[at + i]);
            }
            lemma_none_ranked_like(behind, item, like);
        }
    } else {
        assert(in_order(repos) =~= repos);
    }
}

} // verus!
