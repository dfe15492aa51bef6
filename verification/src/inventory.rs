//! What a listing holds, told place by place.
//!
//! The laws here are about a listing that is run to its end in a [`World`]. They say
//! which worktrees it holds, where each of them was in the storage, and in what order
//! they stand.
use vstd::prelude::*;

use crate::laws;
use crate::listing;
use crate::listing::{Entry, EntryView, ListingView};
use crate::protocol::CatalogueView;
use crate::recency;
use crate::recency::DatedView;
use crate::world::World;
use crate::worktrees;
use crate::worktrees::WorktreeView;

verus! {

/// Every worktree in the catalogue is looked at, exactly once, one repository after the
/// other: at step `k` it is the turn of the name `places[k].1` of the repository
/// `places[k].0`.
pub proof fn the_whole_catalogue_is_looked_at(all: CatalogueView) -> (places: Seq<(int, int)>)
    ensures
        listing::all_entries(all).len() == places.len(),
        forall|k: int|
            0 <= k < places.len() ==> {
                &&& 0 <= (#[trigger] places[k]).0 < all.len()
                &&& 0 <= places[k].1 < all[places[k].0].1.len()
                &&& listing::all_entries(all)[k] == (Entry {
                    repo: all[places[k].0].0,
                    name: all[places[k].0].1[places[k].1],
                })
            },
        forall|k: int, l: int|
            0 <= k < l < places.len() ==> {
                ||| (#[trigger] places[k]).0 < (#[trigger] places[l]).0
                ||| places[k].0 == places[l].0 && places[k].1 < places[l].1
            },
        forall|i: int, j: int|
            0 <= i < all.len() && 0 <= j < all[i].1.len() ==> #[trigger] places.contains((i, j)),
    decreases all.len(),
{
    if all.len() == 0 {
        Seq::empty()
    } else {
        let rest = all.drop_last();
        let last = all.len() - 1;
        let before = the_whole_catalogue_is_looked_at(rest);
        let added = Seq::new(all.last().1.len(), |j: int| (last, j));
        let places = before + added;
        assert forall|k: int| 0 <= k < places.len() implies {
            &&& 0 <= (#[trigger] places[k]).0 < all.len()
            &&& 0 <= places[k].1 < all[places[k].0].1.len()
            &&& listing::all_entries(all)[k] == (Entry {
                repo: all[places[k].0].0,
                name: all[places[k].0].1[places[k].1],
            })
        } by {
            if k < before.len() {
                assert(places[k] == before[k]);
                assert(rest[before[k].0] == all[before[k].0]);
            } else {
                assert(places[k] == added[k - before.len()]);
            }
        }
        assert forall|k: int, l: int| 0 <= k < l < places.len() implies {
            ||| (#[trigger] places[k]).0 < (#[trigger] places[l]).0
            ||| places[k].0 == places[l].0 && places[k].1 < places[l].1
        } by {
            if k < before.len() {
                assert(places[k] == before[k]);
            }
            if l < before.len() {
                assert(places[l] == before[l]);
            }
        }
        assert forall|i: int, j: int|
            0 <= i < all.len() && 0 <= j < all[i].1.len() implies #[trigger] places.contains(
            (i, j),
        ) by {
            if i < last {
                assert(rest[i] == all[i]);
                assert(before.contains((i, j)));
                let k = choose|k: int| 0 <= k < before.len() && before[k] == (i, j);
                assert(places[k] == (i, j));
            } else {
                assert(places[before.len() + j] == (i, j));
            }
        }
        places
    }
}

/// The worktrees that are there stand where their times put them.
proof fn lemma_arranged<E>(w: World<E>, entries: Seq<EntryView>) -> (order: Seq<int>)
    requires
        forall|i: int|
            0 <= i < entries.len() && w.is_present(entries[i]) ==> w.record_of(
                #[trigger] entries[i],
            ) is Ok,
    ensures
        w.available(entries) is Ok,
        w.available(entries)->Ok_0.len() == order.len(),
        forall|k: int|
            0 <= k < order.len() ==> {
                &&& 0 <= #[trigger] order[k] < entries.len()
                &&& w.is_present(entries[order[k]])
                &&& w.available(entries)->Ok_0[k] == w.worktree_of(entries[order[k]])
            },
        forall|i: int|
            0 <= i < entries.len() && w.is_present(entries[i]) ==> #[trigger] order.contains(i),
        forall|k: int, l: int|
            0 <= k < l < order.len() ==> match (
                (w.modified)(w.path_of_entry(entries[#[trigger] order[k]])),
                (w.modified)(w.path_of_entry(entries[#[trigger] order[l]])),
            ) {
                (Some(x), Some(y)) => x > y || (x == y && order[k] < order[l]),
                (Some(_), None) => true,
                (None, Some(_)) => false,
                (None, None) => order[k] < order[l],
            },
{
    let here = |entry: EntryView| w.is_present(entry);
    let bad = |entry: EntryView| w.record_of(entry) is Err;
    let date = |entry: EntryView| w.dated(w.worktree_of(entry));
    let present = w.present(entries);
    let kept = worktrees::lemma_filter_places(entries, here);
    let spoiled = worktrees::lemma_filter_places(present, bad);
    if spoiled.len() > 0 {
        assert(bad(present[spoiled[0]]));
        assert(present[spoiled[0]] == entries[kept[spoiled[0]]]);
    }
    let dated = present.map_values(date);
    let places = recency::sorting_arranges_by_time(dated);
    let listed = w.available(entries)->Ok_0;
    let order = Seq::new(places.len(), |k: int| kept[places[k]]);
    assert forall|k: int| 0 <= k < order.len() implies {
        &&& 0 <= #[trigger] order[k] < entries.len()
        &&& w.is_present(entries[order[k]])
        &&& listed[k] == w.worktree_of(entries[order[k]])
        &&& dated[places[k]].modified == (w.modified)(w.path_of_entry(entries[order[k]]))
    } by {
        let p = places[k];
        assert(order[k] == kept[p]);
        assert(present[p] == entries[kept[p]]);
        assert(dated[p] == w.dated(w.worktree_of(present[p])));
        assert(recency::by_recency(dated)[k] == dated[p]);
    }
    assert forall|i: int|
        0 <= i < entries.len() && w.is_present(entries[i]) implies #[trigger] order.contains(i) by {
        assert(here(entries[i]));
        assert(kept.contains(i));
        let p = choose|p: int| 0 <= p < kept.len() && kept[p] == i;
        assert(places.contains(p));
        let k = choose|k: int| 0 <= k < places.len() && places[k] == p;
        assert(order[k] == i);
    }
    assert forall|k: int, l: int| 0 <= k < l < order.len() implies match (
        (w.modified)(w.path_of_entry(entries[#[trigger] order[k]])),
        (w.modified)(w.path_of_entry(entries[#[trigger] order[l]])),
    ) {
        (Some(x), Some(y)) => x > y || (x == y && order[k] < order[l]),
        (Some(_), None) => true,
        (None, Some(_)) => false,
        (None, None) => order[k] < order[l],
    } by {
        assert(order[k] == kept[places[k]] && order[l] == kept[places[l]]);
        if places[k] < places[l] {
            assert(kept[places[k]] < kept[places[l]]);
        }
    }
    order
}

/// The first record that cannot be read is what a listing fails with.
proof fn lemma_spoiled<E>(w: World<E>, entries: Seq<EntryView>, at: int)
    requires
        0 <= at < entries.len(),
        w.is_present(entries[at]),
        w.record_of(entries[at]) is Err,
        forall|i: int|
            0 <= i < at && w.is_present(entries[i]) ==> w.record_of(#[trigger] entries[i]) is Ok,
    ensures
        w.available(entries) == Err::<Seq<WorktreeView>, E>(w.record_of(entries[at])->Err_0),
{
    let here = |entry: EntryView| w.is_present(entry);
    let bad = |entry: EntryView| w.record_of(entry) is Err;
    let present = w.present(entries);
    let kept = worktrees::lemma_filter_places(entries, here);
    let spoiled = worktrees::lemma_filter_places(present, bad);
    assert(here(entries[at]));
    assert(kept.contains(at));
    let k = choose|k: int| 0 <= k < kept.len() && kept[k] == at;
    assert(present[k] == entries[at]);
    assert(bad(present[k]));
    assert(spoiled.contains(k));
    let l = choose|l: int| 0 <= l < spoiled.len() && spoiled[l] == k;
    let first = spoiled[0];
    assert(spoiled[0] <= spoiled[l]);
    assert(bad(present[first]));
    assert(present[first] == entries[kept[first]]);
    if first < k {
        assert(kept[first] < kept[k]);
    }
}

/// A listing of everything holds each worktree of the catalogue at whose path something
/// is, exactly once, and nothing else. What it holds is `listed.0`; at its place `k`
/// stands the name `listed.1[k].1` of the repository `listed.1[k].0`, by the branch on
/// record for it or else by the name itself. Of two of them the one with the greater time
/// stands first, however large the times are; one with a known time stands before one
/// without; and where the times do not differ, they stand as in the catalogue.
pub proof fn everything_there_is_listed_once<E>(w: World<E>, all: CatalogueView) -> (listed: (
    Seq<WorktreeView>,
    Seq<(int, int)>,
))
    requires
        w.all_worktrees == Ok::<CatalogueView, E>(all),
        forall|i: int, j: int|
            0 <= i < all.len() && 0 <= j < all[i].1.len() && (w.exists)(
                (w.path_of)(all[i].0, all[i].1[j]),
            ) ==> (w.original)(all[i].0, #[trigger] all[i].1[j]) is Ok,
    ensures
        laws::run_listing(w, ListingView::start(false)) == Ok::<Seq<WorktreeView>, E>(listed.0),
        listed.0.len() == listed.1.len(),
        forall|k: int|
            0 <= k < listed.1.len() ==> {
                let (repo, names) = all[(#[trigger] listed.1[k]).0];
                let name = names[listed.1[k].1];
                &&& 0 <= listed.1[k].0 < all.len()
                &&& 0 <= listed.1[k].1 < names.len()
                &&& (w.exists)((w.path_of)(repo, name))
                &&& listed.0[k].repo == repo
                &&& listed.0[k].path == (w.path_of)(repo, name)
                &&& (w.original)(repo, name) matches Ok(Some(branch)) ==> listed.0[k].branch
                    == branch
                &&& (w.original)(repo, name) matches Ok(None) ==> listed.0[k].branch == name
            },
        forall|i: int, j: int|
            0 <= i < all.len() && 0 <= j < all[i].1.len() && (w.exists)(
                (w.path_of)(all[i].0, all[i].1[j]),
            ) ==> #[trigger] listed.1.contains((i, j)),
        forall|k: int, l: int|
            0 <= k < l < listed.1.len() ==> {
                let earlier = listed.1[k].0 < listed.1[l].0 || (listed.1[k].0 == listed.1[l].0
                    && listed.1[k].1 < listed.1[l].1);
                let a = (w.modified)((#[trigger] listed.0[k]).path);
                let b = (w.modified)((#[trigger] listed.0[l]).path);
                &&& a is Some && b is Some ==> a->0 >= b->0
                &&& b is Some ==> a is Some
                &&& a == b ==> earlier
            },
{
    let entries = listing::all_entries(all);
    let places = the_whole_catalogue_is_looked_at(all);
    assert forall|k: int| 0 <= k < entries.len() && w.is_present(entries[k]) implies w.record_of(
        #[trigger] entries[k],
    ) is Ok by {
        let name = all[places[k].0].1[places[k].1];
        assert(entries[k].name == name);
    }
    let turns = lemma_arranged(w, entries);
    laws::listing_is_what_is_available(w, false);
    let found = w.available(entries)->Ok_0;
    let order = Seq::new(turns.len(), |k: int| places[turns[k]]);
    assert forall|k: int| 0 <= k < order.len() implies {
        let (repo, names) = all[(#[trigger] order[k]).0];
        let name = names[order[k].1];
        &&& 0 <= order[k].0 < all.len()
        &&& 0 <= order[k].1 < names.len()
        &&& (w.exists)((w.path_of)(repo, name))
        &&& found[k].repo == repo
        &&& found[k].path == (w.path_of)(repo, name)
        &&& (w.original)(repo, name) matches Ok(Some(branch)) ==> found[k].branch == branch
        &&& (w.original)(repo, name) matches Ok(None) ==> found[k].branch == name
        &&& entries[turns[k]] == (Entry { repo, name })
    } by {
        assert(order[k] == places[turns[k]]);
    }
    assert forall|i: int, j: int|
        0 <= i < all.len() && 0 <= j < all[i].1.len() && (w.exists)(
            (w.path_of)(all[i].0, all[i].1[j]),
        ) implies #[trigger] order.contains((i, j)) by {
        assert(places.contains((i, j)));
        let p = choose|p: int| 0 <= p < places.len() && places[p] == (i, j);
        assert(w.is_present(entries[p]));
        assert(turns.contains(p));
        let k = choose|k: int| 0 <= k < turns.len() && turns[k] == p;
        assert(order[k] == (i, j));
    }
    assert forall|k: int, l: int| 0 <= k < l < order.len() implies {
        let earlier = order[k].0 < order[l].0 || (order[k].0 == order[l].0 && order[k].1
            < order[l].1);
        let a = (w.modified)((#[trigger] found[k]).path);
        let b = (w.modified)((#[trigger] found[l]).path);
        &&& a is Some && b is Some ==> a->0 >= b->0
        &&& b is Some ==> a is Some
        &&& a == b ==> earlier
    } by {
        assert(order[k] == places[turns[k]] && order[l] == places[turns[l]]);
        assert(found[k].path == w.path_of_entry(entries[turns[k]]));
        assert(found[l].path == w.path_of_entry(entries[turns[l]]));
    }
    (found, order)
}

/// A listing of the current repository holds each of its worktrees at whose path
/// something is, exactly once, and nothing else. What it holds is `listed.0`; at its
/// place `k` stands the name `listed.1[k]`. What it goes by and where it stands are as in
/// a listing of everything.
pub proof fn everything_in_the_repository_is_listed_once<E>(
    w: World<E>,
    repo: Seq<char>,
    names: Seq<Seq<char>>,
) -> (listed: (Seq<WorktreeView>, Seq<int>))
    requires
        w.current_repo == Ok::<Option<Seq<char>>, E>(Some(repo)),
        (w.repo_worktrees)(repo) == Ok::<Seq<Seq<char>>, E>(names),
        forall|j: int|
            0 <= j < names.len() && (w.exists)((w.path_of)(repo, names[j])) ==> (w.original)(
                repo,
                #[trigger] names[j],
            ) is Ok,
    ensures
        laws::run_listing(w, ListingView::start(true)) == Ok::<Seq<WorktreeView>, E>(listed.0),
        listed.0.len() == listed.1.len(),
        forall|k: int|
            0 <= k < listed.1.len() ==> {
                let name = names[#[trigger] listed.1[k]];
                &&& 0 <= listed.1[k] < names.len()
                &&& (w.exists)((w.path_of)(repo, name))
                &&& listed.0[k].repo == repo
                &&& listed.0[k].path == (w.path_of)(repo, name)
                &&& (w.original)(repo, name) matches Ok(Some(branch)) ==> listed.0[k].branch
                    == branch
                &&& (w.original)(repo, name) matches Ok(None) ==> listed.0[k].branch == name
            },
        forall|j: int|
            0 <= j < names.len() && (w.exists)((w.path_of)(repo, names[j]))
                ==> #[trigger] listed.1.contains(j),
        forall|k: int, l: int|
            0 <= k < l < listed.1.len() ==> {
                let earlier = listed.1[k] < listed.1[l];
                let a = (w.modified)((#[trigger] listed.0[k]).path);
                let b = (w.modified)((#[trigger] listed.0[l]).path);
                &&& a is Some && b is Some ==> a->0 >= b->0
                &&& b is Some ==> a is Some
                &&& a == b ==> earlier
            },
{
    let entries = listing::entries_of(repo, names);
    assert forall|j: int| 0 <= j < entries.len() && w.is_present(entries[j]) implies w.record_of(
        #[trigger] entries[j],
    ) is Ok by {
        assert(entries[j].name == names[j]);
    }
    let order = lemma_arranged(w, entries);
    laws::listing_is_what_is_available(w, true);
    let found = w.available(entries)->Ok_0;
    assert forall|j: int|
        0 <= j < names.len() && (w.exists)(
            (w.path_of)(repo, names[j]),
        ) implies #[trigger] order.contains(j) by {
        assert(w.is_present(entries[j]));
    }
    assert forall|k: int, l: int| 0 <= k < l < order.len() implies {
        let earlier = order[k] < order[l];
        let a = (w.modified)((#[trigger] found[k]).path);
        let b = (w.modified)((#[trigger] found[l]).path);
        &&& a is Some && b is Some ==> a->0 >= b->0
        &&& b is Some ==> a is Some
        &&& a == b ==> earlier
    } by {
        assert(found[k].path == w.path_of_entry(entries[order[k]]));
        assert(found[l].path == w.path_of_entry(entries[order[l]]));
    }
    (found, order)
}

/// A listing of everything fails with the first record that cannot be read, of those
/// worktrees at whose path something is: the one of the name `j` of the repository `i`.
pub proof fn an_unreadable_record_spoils_a_listing<E>(
    w: World<E>,
    all: CatalogueView,
    i: int,
    j: int,
    e: E,
)
    requires
        w.all_worktrees == Ok::<CatalogueView, E>(all),
        0 <= i < all.len(),
        0 <= j < all[i].1.len(),
        (w.exists)((w.path_of)(all[i].0, all[i].1[j])),
        (w.original)(all[i].0, all[i].1[j]) == Err::<Option<Seq<char>>, E>(e),
        forall|a: int, b: int|
            0 <= a <= i && 0 <= b < all[a].1.len() && (a < i || b < j) && (w.exists)(
                (w.path_of)(all[a].0, all[a].1[b]),
            ) ==> (w.original)(all[a].0, #[trigger] all[a].1[b]) is Ok,
    ensures
        laws::run_listing(w, ListingView::start(false)) == Err::<Seq<WorktreeView>, E>(e),
{
    let entries = listing::all_entries(all);
    let places = the_whole_catalogue_is_looked_at(all);
    assert(places.contains((i, j)));
    let at = choose|at: int| 0 <= at < places.len() && places[at] == (i, j);
    assert forall|k: int| 0 <= k < at && w.is_present(entries[k]) implies w.record_of(
        #[trigger] entries[k],
    ) is Ok by {
        let (a, b) = places[k];
        assert(places[k].0 < places[at].0 || (places[k].0 == places[at].0 && places[k].1
            < places[at].1));
        assert(entries[k].name == all[a].1[b]);
    }
    lemma_spoiled(w, entries, at);
    laws::listing_is_what_is_available(w, false);
}

/// A listing of the current repository fails with the first record that cannot be read.
pub proof fn an_unreadable_record_spoils_a_listing_of_the_repository<E>(
    w: World<E>,
    repo: Seq<char>,
    names: Seq<Seq<char>>,
    j: int,
    e: E,
)
    requires
        w.current_repo == Ok::<Option<Seq<char>>, E>(Some(repo)),
        (w.repo_worktrees)(repo) == Ok::<Seq<Seq<char>>, E>(names),
        0 <= j < names.len(),
        (w.exists)((w.path_of)(repo, names[j])),
        (w.original)(repo, names[j]) == Err::<Option<Seq<char>>, E>(e),
        forall|b: int|
            0 <= b < j && (w.exists)((w.path_of)(repo, names[b])) ==> (w.original)(
                repo,
                #[trigger] names[b],
            ) is Ok,
    ensures
        laws::run_listing(w, ListingView::start(true)) == Err::<Seq<WorktreeView>, E>(e),
{
    let entries = listing::entries_of(repo, names);
    assert forall|k: int| 0 <= k < j && w.is_present(entries[k]) implies w.record_of(
        #[trigger] entries[k],
    ) is Ok by {
        assert(entries[k].name == names[k]);
    }
    lemma_spoiled(w, entries, j);
    laws::listing_is_what_is_available(w, true);
}

/// A listing fails with what the storage fails with. Of the current repository, where
/// there is none, it holds nothing.
pub proof fn a_listing_needs_the_storage<E>(w: World<E>, repo: Seq<char>, e: E)
    ensures
        w.all_worktrees == Err::<CatalogueView, E>(e) ==> laws::run_listing(
            w,
            ListingView::start(false),
        ) == Err::<Seq<WorktreeView>, E>(e),
        w.current_repo == Err::<Option<Seq<char>>, E>(e) ==> laws::run_listing(
            w,
            ListingView::start(true),
        ) == Err::<Seq<WorktreeView>, E>(e),
        w.current_repo == Ok::<Option<Seq<char>>, E>(Some(repo)) && (w.repo_worktrees)(repo)
            == Err::<Seq<Seq<char>>, E>(e) ==> laws::run_listing(w, ListingView::start(true))
            == Err::<Seq<WorktreeView>, E>(e),
        w.current_repo == Ok::<Option<Seq<char>>, E>(None) ==> laws::run_listing(
            w,
            ListingView::start(true),
        ) == Ok::<Seq<WorktreeView>, E>(Seq::empty()),
{
    laws::listing_is_what_is_available(w, false);
    laws::listing_is_what_is_available(w, true);
    reveal_with_fuel(laws::run_listing, 2);
}

} // verus!
