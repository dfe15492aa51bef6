//! The order in which worktrees are listed: the most recently modified first.
use vstd::prelude::*;

use crate::text;
use crate::worktrees::Worktree;

verus! {

/// A worktree with the time of its last modification, where that could be had.
#[derive(Debug, PartialEq, Eq)]
pub struct Dated<T> {
    pub worktree: Worktree<T>,
    pub modified: Option<i128>,
}

/// The model of a dated worktree.
pub type DatedView = Dated<Seq<char>>;

impl View for Dated<String> {
    type V = DatedView;

    open spec fn view(&self) -> DatedView {
        Dated { worktree: self.worktree@, modified: self.modified }
    }
}

/// Whether the time `a` is listed before the time `b`: it is later, or it is known
/// and `b` is not.
pub open spec fn precedes(a: Option<i128>, b: Option<i128>) -> bool {
    match (a, b) {
        (Some(x), Some(y)) => x > y,
        (Some(_), None) => true,
        _ => false,
    }
}

/// Whether nothing stands behind something that it precedes.
pub open spec fn newest_first(s: Seq<DatedView>) -> bool {
    forall|i: int, j: int|
        0 <= i < j < s.len() ==> !precedes((#[trigger] s[j]).modified, (#[trigger] s[i]).modified)
}

/// Those of the worktrees that were modified at a given time, in order.
pub open spec fn modified_at(s: Seq<DatedView>, time: Option<i128>) -> Seq<DatedView> {
    s.filter(|d: DatedView| d.modified == time)
}

/// Whether `t` is `s` in the listing order: newest first, and worktrees of the same
/// time as they stood. Since every worktree has one time, this also says that
/// nothing is lost and nothing is added.
pub open spec fn is_listing_order(s: Seq<DatedView>, t: Seq<DatedView>) -> bool {
    &&& newest_first(t)
    &&& forall|time: Option<i128>| #[trigger] modified_at(t, time) == modified_at(s, time)
}

/// Where a worktree goes that comes last among equals: behind all that it does not
/// precede.
pub open spec fn slot(s: Seq<DatedView>, d: DatedView) -> int
    decreases s.len(),
{
    if s.len() == 0 {
        0
    } else if precedes(d.modified, s.last().modified) {
        slot(s.drop_last(), d)
    } else {
        s.len() as int
    }
}

/// The worktrees in the listing order. [`by_recency_is_listing_order`] says what
/// this is, and [`listing_order_is_unique`] that it is nothing else.
pub open spec fn by_recency(s: Seq<DatedView>) -> Seq<DatedView>
    decreases s.len(),
{
    if s.len() == 0 {
        s
    } else {
        let sorted = by_recency(s.drop_last());
        sorted.insert(slot(sorted, s.last()), s.last())
    }
}

/// Whether the time `a` is listed before the time `b`.
fn is_before(a: &Option<i128>, b: &Option<i128>) -> (answer: bool)
    ensures
        answer == precedes(*a, *b),
{
    match (a, b) {
        (Some(x), Some(y)) => *x > *y,
        (Some(_), None) => true,
        _ => false,
    }
}

/// The worktrees, the most recently modified first. Those whose time is not known
/// come last; those of the same time stay as they stood.
pub fn sort_newest_first(dated: &Vec<Dated<String>>) -> (worktrees: Vec<Worktree<String>>)
    ensures
        text::views(worktrees@) == by_recency(text::views(dated@)).map_values(
            |d: DatedView| d.worktree,
        ),
{
    let ghost input = text::views(dated@);
    let mut sorted: Vec<Dated<String>> = Vec::new();
    assert(text::views(sorted@) =~= by_recency(input.take(0)));
    for done in 0..dated.len()
        invariant
            input == text::views(dated@),
            text::views(sorted@) == by_recency(input.take(done as int)),
    {
        let next = Dated {
            worktree: dated[done].worktree.duplicate(),
            modified: dated[done].modified,
        };
        let ghost item = next@;
        let ghost before = text::views(sorted@);
        let mut at: usize = sorted.len();
        assert(before.take(at as int) =~= before);
        while at > 0 && is_before(&next.modified, &sorted[at - 1].modified)
            invariant
                at <= sorted@.len(),
                before == text::views(sorted@),
                slot(before, next@) == slot(before.take(at as int), next@),
            decreases at,
        {
            assert(before.take(at as int).last() == sorted@[at - 1]@);
            assert(before.take(at as int).drop_last() =~= before.take(at - 1));
            at = at - 1;
        }
        assert(slot(before, item) == at) by {
            if at > 0 {
                assert(before.take(at as int).last() == sorted@[at - 1]@);
            }
        }
        sorted.insert(at, next);
        proof {
            assert(text::views(sorted@) =~= before.insert(at as int, item));
            assert(item == input[done as int]);
            assert(input.take(done + 1).drop_last() =~= input.take(done as int));
            assert(input.take(done + 1).last() == item);
        }
    }
    assert(input.take(input.len() as int) =~= input);
    let ghost order = by_recency(input);
    let mut worktrees: Vec<Worktree<String>> = Vec::new();
    for i in 0..sorted.len()
        invariant
            text::views(sorted@) == order,
            worktrees@.len() == i,
            forall|j: int| 0 <= j < i ==> (#[trigger] worktrees@[j])@ == order[j].worktree,
    {
        assert(order[i as int] == sorted@[i as int]@);
        worktrees.push(sorted[i].worktree.duplicate());
    }
    assert(text::views(worktrees@) =~= order.map_values(|d: DatedView| d.worktree));
    worktrees
}

// ---------------------------------------------------------------------------
// What the order is
// ---------------------------------------------------------------------------

/// The slot is in range, and it parts what the newcomer does not precede from what
/// it precedes.
proof fn lemma_slot(s: Seq<DatedView>, d: DatedView)
    requires
        newest_first(s),
    ensures
        0 <= slot(s, d) <= s.len(),
        forall|i: int| 0 <= i < slot(s, d) ==> !precedes(d.modified, (#[trigger] s[i]).modified),
        forall|i: int|
            slot(s, d) <= i < s.len() ==> precedes(d.modified, (#[trigger] s[i]).modified),
    decreases s.len(),
{
    if s.len() > 0 {
        let rest = s.drop_last();
        assert forall|i: int, j: int| 0 <= i < j < rest.len() implies !precedes(
            (#[trigger] rest[j]).modified,
            (#[trigger] rest[i]).modified,
        ) by {
            assert(rest[i] == s[i] && rest[j] == s[j]);
        }
        if precedes(d.modified, s.last().modified) {
            lemma_slot(rest, d);
            assert forall|i: int| 0 <= i < slot(s, d) implies !precedes(
                d.modified,
                (#[trigger] s[i]).modified,
            ) by {
                assert(rest[i] == s[i]);
            }
            assert forall|i: int| slot(s, d) <= i < s.len() implies precedes(
                d.modified,
                (#[trigger] s[i]).modified,
            ) by {
                if i < rest.len() {
                    assert(rest[i] == s[i]);
                }
            }
        } else {
            assert forall|i: int| 0 <= i < s.len() implies !precedes(
                d.modified,
                (#[trigger] s[i]).modified,
            ) by {
                if i < s.len() - 1 {
                    assert(!precedes(s[s.len() - 1].modified, s[i].modified));
                }
            }
        }
    }
}

/// Where nothing was modified at a time, nothing is picked for it.
proof fn lemma_none_at(s: Seq<DatedView>, time: Option<i128>)
    requires
        forall|i: int| 0 <= i < s.len() ==> (#[trigger] s[i]).modified != time,
    ensures
        modified_at(s, time) == Seq::<DatedView>::empty(),
{
    let pred = |d: DatedView| d.modified == time;
    s.lemma_all_neg_filter_empty(pred);
    assert(modified_at(s, time) =~= Seq::<DatedView>::empty());
}

/// Putting a worktree behind its equals puts it last among those of its time.
proof fn lemma_insert_at(s: Seq<DatedView>, d: DatedView, time: Option<i128>)
    requires
        newest_first(s),
    ensures
        modified_at(s.insert(slot(s, d), d), time) == modified_at(s.push(d), time),
{
    lemma_slot(s, d);
    let pred = |x: DatedView| x.modified == time;
    let at = slot(s, d);
    let front = s.take(at);
    let back = s.skip(at);
    assert(s.insert(at, d) =~= front + (seq![d] + back));
    assert(s.push(d) =~= front + (back + seq![d]));
    Seq::filter_distributes_over_add(front, seq![d] + back, pred);
    Seq::filter_distributes_over_add(front, back + seq![d], pred);
    Seq::filter_distributes_over_add(seq![d], back, pred);
    Seq::filter_distributes_over_add(back, seq![d], pred);
    if d.modified == time {
        assert forall|i: int| 0 <= i < back.len() implies (#[trigger] back[i]).modified != time by {
            assert(back[i] == s[at + i]);
        }
        lemma_none_at(back, time);
        assert(back.filter(pred) =~= Seq::<DatedView>::empty());
    } else {
        lemma_none_at(seq![d], time);
        assert(seq![d].filter(pred) =~= Seq::<DatedView>::empty());
    }
    assert((seq![d] + back).filter(pred) =~= (back + seq![d]).filter(pred));
}

/// Sorting by recency gives the listing order: newest first, nothing lost or added,
/// and worktrees of the same time as they stood.
pub proof fn by_recency_is_listing_order(s: Seq<DatedView>)
    ensures
        is_listing_order(s, by_recency(s)),
        by_recency(s).len() == s.len(),
    decreases s.len(),
{
    if s.len() > 0 {
        let rest = s.drop_last();
        let sorted = by_recency(rest);
        let d = s.last();
        by_recency_is_listing_order(rest);
        lemma_slot(sorted, d);
        let at = slot(sorted, d);
        let t = sorted.insert(at, d);
        assert forall|i: int, j: int| 0 <= i < j < t.len() implies !precedes(
            (#[trigger] t[j]).modified,
            (#[trigger] t[i]).modified,
        ) by {
            let x = if i < at { sorted[i] } else if i == at { d } else { sorted[i - 1] };
            let y = if j < at { sorted[j] } else if j == at { d } else { sorted[j - 1] };
            assert(t[i] == x && t[j] == y);
        }
        assert forall|time: Option<i128>| #[trigger] modified_at(t, time) == modified_at(
            s,
            time,
        ) by {
            let pred = |x: DatedView| x.modified == time;
            lemma_insert_at(sorted, d, time);
            assert(sorted.push(d) =~= sorted + seq![d]);
            assert(s =~= rest + seq![d]);
            Seq::filter_distributes_over_add(sorted, seq![d], pred);
            Seq::filter_distributes_over_add(rest, seq![d], pred);
            assert(modified_at(sorted, time) == modified_at(rest, time));
        }
    }
}

/// Two lists that are both newest first, and that hold the same worktrees of each
/// time in the same order, are the same.
proof fn lemma_same_order(a: Seq<DatedView>, b: Seq<DatedView>)
    requires
        newest_first(a),
        newest_first(b),
        forall|time: Option<i128>| #[trigger] modified_at(a, time) == modified_at(b, time),
    ensures
        a == b,
    decreases a.len(),
{
    if a.len() == 0 {
        if b.len() > 0 {
            let time = b[0].modified;
            lemma_head(b);
            lemma_none_at(a, time);
            assert(modified_at(a, time) == modified_at(b, time));
        }
        assert(a =~= b);
    } else {
        let time = a[0].modified;
        lemma_head(a);
        assert(modified_at(a, time) == modified_at(b, time));
        if b.len() == 0 {
            lemma_none_at(b, time);
        }
        let other = b[0].modified;
        lemma_head(b);
        assert(modified_at(a, other) == modified_at(b, other));
        if other != time {
            let i = lemma_holds(b, time);
            let j = lemma_holds(a, other);
            assert(!precedes(b[i].modified, b[0].modified));
            assert(!precedes(a[j].modified, a[0].modified));
            assert(false);
        }
        assert(a[0] == b[0]);
        let a1 = a.drop_first();
        let b1 = b.drop_first();
        assert forall|t: Option<i128>| #[trigger] modified_at(a1, t) == modified_at(b1, t) by {
            let pred = |x: DatedView| x.modified == t;
            assert(a =~= seq![a[0]] + a1);
            assert(b =~= seq![b[0]] + b1);
            Seq::filter_distributes_over_add(seq![a[0]], a1, pred);
            Seq::filter_distributes_over_add(seq![b[0]], b1, pred);
            assert(modified_at(a, t) == modified_at(b, t));
            let head = seq![a[0]].filter(pred);
            assert(a1.filter(pred) =~= (head + a1.filter(pred)).skip(head.len() as int));
            assert(b1.filter(pred) =~= (head + b1.filter(pred)).skip(head.len() as int));
        }
        assert forall|i: int, j: int| 0 <= i < j < a1.len() implies !precedes(
            (#[trigger] a1[j]).modified,
            (#[trigger] a1[i]).modified,
        ) by {
            assert(a1[i] == a[i + 1] && a1[j] == a[j + 1]);
        }
        assert forall|i: int, j: int| 0 <= i < j < b1.len() implies !precedes(
            (#[trigger] b1[j]).modified,
            (#[trigger] b1[i]).modified,
        ) by {
            assert(b1[i] == b[i + 1] && b1[j] == b[j + 1]);
        }
        lemma_same_order(a1, b1);
        assert(a =~= seq![a[0]] + a1);
        assert(b =~= seq![b[0]] + b1);
    }
}

/// The first worktree of a list is the first of those of its time.
proof fn lemma_head(s: Seq<DatedView>)
    ensures
        s.len() > 0 ==> modified_at(s, s[0].modified).len() > 0 && modified_at(s, s[0].modified)[0]
            == s[0],
{
    if s.len() > 0 {
        let time = s[0].modified;
        let pred = |x: DatedView| x.modified == time;
        assert(s =~= seq![s[0]] + s.drop_first());
        Seq::filter_distributes_over_add(seq![s[0]], s.drop_first(), pred);
        reveal(Seq::filter);
        assert(seq![s[0]].drop_last() =~= Seq::<DatedView>::empty());
        assert(seq![s[0]].filter(pred) =~= seq![s[0]]);
    }
}

/// Where something is picked for a time, something was modified then.
proof fn lemma_holds(s: Seq<DatedView>, time: Option<i128>) -> (i: int)
    requires
        modified_at(s, time).len() > 0,
    ensures
        0 <= i < s.len(),
        s[i].modified == time,
{
    if forall|i: int| 0 <= i < s.len() ==> (#[trigger] s[i]).modified != time {
        lemma_none_at(s, time);
    }
    choose|i: int| 0 <= i < s.len() && (#[trigger] s[i]).modified == time
}

/// The listing order is determined: whatever is in the listing order of `s` is `s`
/// sorted by recency.
pub proof fn listing_order_is_unique(s: Seq<DatedView>, t: Seq<DatedView>)
    requires
        is_listing_order(s, t),
    ensures
        t == by_recency(s),
{
    by_recency_is_listing_order(s);
    assert forall|time: Option<i128>| #[trigger] modified_at(t, time) == modified_at(
        by_recency(s),
        time,
    ) by {
        assert(modified_at(by_recency(s), time) == modified_at(s, time));
    }
    lemma_same_order(t, by_recency(s));
}

/// Sorting by recency rearranges: it gives every worktree exactly one place (the
/// worktree at place `k` stood at `places[k]`), and of two worktrees the one with the
/// greater time stands first, however large the times are. A known time stands before
/// an unknown one, and where the times do not differ the earlier place stands first.
pub proof fn sorting_arranges_by_time(s: Seq<DatedView>) -> (places: Seq<int>)
    ensures
        by_recency(s).len() == s.len(),
        places.len() == s.len(),
        forall|k: int|
            0 <= k < s.len() ==> 0 <= #[trigger] places[k] < s.len() && by_recency(s)[k]
                == s[places[k]],
        forall|i: int| 0 <= i < s.len() ==> #[trigger] places.contains(i),
        forall|k: int, l: int|
            0 <= k < l < s.len() ==> match (
                s[#[trigger] places[k]].modified,
                s[#[trigger] places[l]].modified,
            ) {
                (Some(x), Some(y)) => x > y || (x == y && places[k] < places[l]),
                (Some(_), None) => true,
                (None, Some(_)) => false,
                (None, None) => places[k] < places[l],
            },
    decreases s.len(),
{
    if s.len() == 0 {
        Seq::empty()
    } else {
        let rest = s.drop_last();
        let last = s.len() - 1;
        let before = sorting_arranges_by_time(rest);
        let sorted = by_recency(rest);
        by_recency_is_listing_order(rest);
        lemma_slot(sorted, s.last());
        let at = slot(sorted, s.last());
        let places = before.insert(at, last);
        assert forall|k: int| 0 <= k < s.len() implies 0 <= #[trigger] places[k] < s.len()
            && by_recency(s)[k] == s[places[k]] by {
            if k < at {
                assert(places[k] == before[k] && rest[before[k]] == s[before[k]]);
            } else if k > at {
                assert(places[k] == before[k - 1] && rest[before[k - 1]] == s[before[k - 1]]);
            }
        }
        assert forall|i: int| 0 <= i < s.len() implies #[trigger] places.contains(i) by {
            if i == last {
                assert(places[at] == i);
            } else {
                assert(before.contains(i));
                let k = choose|k: int| 0 <= k < before.len() && before[k] == i;
                if k < at {
                    assert(places[k] == i);
                } else {
                    assert(places[k + 1] == i);
                }
            }
        }
        assert forall|k: int, l: int| 0 <= k < l < s.len() implies match (
            s[#[trigger] places[k]].modified,
            s[#[trigger] places[l]].modified,
        ) {
            (Some(x), Some(y)) => x > y || (x == y && places[k] < places[l]),
            (Some(_), None) => true,
            (None, Some(_)) => false,
            (None, None) => places[k] < places[l],
        } by {
            let k0 = if k < at { k } else { k - 1 };
            let l0 = if l < at { l } else { l - 1 };
            if k != at {
                assert(places[k] == before[k0] && sorted[k0] == rest[before[k0]]);
                assert(rest[before[k0]] == s[before[k0]]);
            }
            if l != at {
                assert(places[l] == before[l0] && sorted[l0] == rest[before[l0]]);
                assert(rest[before[l0]] == s[before[l0]]);
            }
        }
        places
    }
}

} // verus!
