use vstd::prelude::*;
use vstd::relations::{sorted_by, total_ordering};
use vstd::seq_lib::lemma_sorted_unique;

use crate::model::{CardId, Deck};
use crate::text::{lemma_text_le_total, lemma_text_le_transitive, text_le, text_le_exec};

verus! {

broadcast use vstd::seq_lib::group_to_multiset_ensures;

/// The ascending order of card ids.
pub open spec fn id_le(a: CardId, b: CardId) -> bool {
    a <= b
}

/// The card ids in ascending order.
pub open spec fn ascending_ids(s: Seq<CardId>) -> Seq<CardId> {
    s.sort_by(|a: CardId, b: CardId| id_le(a, b))
}

/// The first `limit` elements of a sequence, or all of it when it is shorter.
pub open spec fn at_most<A>(s: Seq<A>, limit: nat) -> Seq<A> {
    if s.len() <= limit {
        s
    } else {
        s.take(limit as int)
    }
}

proof fn lemma_insert_multiset<A>(s: Seq<A>, p: int, x: A)
    requires
        0 <= p <= s.len(),
    ensures
        s.insert(p, x).to_multiset() =~= s.to_multiset().insert(x),
{
    let t = s.insert(p, x);
    assert(t.remove(p) =~= s);
    assert(t.to_multiset().count(x) > 0) by {
        assert(t[p] == x);
        assert(t.contains(x));
    }
    assert(t.to_multiset() =~= t.remove(p).to_multiset().insert(x)) by {
        assert(t.remove(p).to_multiset() =~= t.to_multiset().remove(t[p]));
    }
}

proof fn lemma_id_le_total()
    ensures
        total_ordering(|a: CardId, b: CardId| id_le(a, b)),
{
}

/// The card ids sorted ascending.
pub fn sort_ids(ids: &Vec<CardId>) -> (out: Vec<CardId>)
    ensures
        out@ == ascending_ids(ids@),
{
    let n = ids.len();
    let mut out: Vec<CardId> = Vec::new();
    let mut k: usize = 0;
    while k < n
        invariant
            n == ids.len(),
            k <= n,
            out@.to_multiset() == ids@.take(k as int).to_multiset(),
            forall|i: int, j: int| 0 <= i < j < out@.len() ==> out@[i] <= out@[j],
        decreases n - k,
    {
        let x = ids[k];
        let mut p = out.len();
        while p > 0 && out[p - 1] > x
            invariant
                p <= out.len(),
                forall|j: int| p <= j < out.len() ==> out@[j] > x,
            decreases p,
        {
            p = p - 1;
        }
        let ghost before = out@;
        out.insert(p, x);
        proof {
            lemma_insert_multiset(before, p as int, x);
            assert(ids@.take(k + 1) =~= ids@.take(k as int).push(x));
            assert(out@ == before.insert(p as int, x));
            assert forall|i: int, j: int| 0 <= i < j < out@.len() implies out@[i] <= out@[j] by {
                if j < p {
                } else if j == p {
                    assert(before[p - 1] <= x);
                    assert(before[i] <= before[p - 1] || i == p - 1);
                } else if i < p {
                    assert(before[i] <= before[j - 1]);
                } else if i == p {
                } else {
                    assert(before[i - 1] <= before[j - 1]);
                }
            }
        }
        k = k + 1;
    }
    proof {
        assert(ids@.take(n as int) =~= ids@);
        lemma_id_le_total();
        assert(sorted_by(out@, |a: CardId, b: CardId| id_le(a, b)));
        ids@.lemma_sort_by_ensures(|a: CardId, b: CardId| id_le(a, b));
        lemma_sorted_unique(out@, ascending_ids(ids@), |a: CardId, b: CardId| id_le(a, b));
    }
    out
}

/// The `limit` lowest card ids in ascending order (all of them when there
/// are fewer).
pub fn lowest_ids(ids: &Vec<CardId>, limit: u64) -> (out: Vec<CardId>)
    ensures
        out@ == at_most(ascending_ids(ids@), limit as nat),
{
    let mut out = sort_ids(ids);
    if (out.len() as u64) > limit {
        out.truncate(limit as usize);
    }
    out
}

/// Inserts a deck into a sequence behind every deck whose name comes no
/// later than its own.
pub open spec fn insert_by_name(s: Seq<Deck>, d: Deck) -> Seq<Deck>
    decreases s.len(),
{
    if s.len() == 0 {
        seq![d]
    } else if text_le(s.last().name@, d.name@) {
        s.push(d)
    } else {
        insert_by_name(s.drop_last(), d).push(s.last())
    }
}

/// The decks sorted by name; decks of equal names keep their order.
pub open spec fn sort_by_name(s: Seq<Deck>) -> Seq<Deck>
    decreases s.len(),
{
    if s.len() == 0 {
        s
    } else {
        insert_by_name(sort_by_name(s.drop_last()), s.last())
    }
}

/// Whether the decks stand in the order of their names.
pub open spec fn names_ascending(s: Seq<Deck>) -> bool {
    forall|i: int, j: int| 0 <= i < j < s.len() ==> text_le(#[trigger] s[i].name@, #[trigger] s[j].name@)
}

proof fn lemma_insert_by_name_at(s: Seq<Deck>, d: Deck, p: int)
    requires
        0 <= p <= s.len(),
        p == 0 || text_le(s[p - 1].name@, d.name@),
        forall|j: int| p <= j < s.len() ==> !text_le(#[trigger] s[j].name@, d.name@),
    ensures
        insert_by_name(s, d) =~= s.insert(p, d),
    decreases s.len(),
{
    if s.len() == 0 {
    } else if p == s.len() {
    } else {
        assert(!text_le(s[s.len() - 1].name@, d.name@));
        lemma_insert_by_name_at(s.drop_last(), d, p);
    }
}

/// Sorts decks by name; decks with equal names keep their order.
pub fn sort_decks_by_name(decks: Vec<Deck>) -> (out: Vec<Deck>)
    ensures
        out@ == sort_by_name(decks@),
{
    let ghost orig = decks@;
    let mut rest = decks;
    let mut out: Vec<Deck> = Vec::new();
    let ghost mut k: int = 0;
    while rest.len() > 0
        invariant
            0 <= k <= orig.len(),
            rest@ == orig.skip(k),
            out@ == sort_by_name(orig.take(k)),
        decreases rest.len(),
    {
        let d = rest.remove(0);
        let mut p = out.len();
        while p > 0 && !text_le_exec(out[p - 1].name.as_str(), d.name.as_str())
            invariant
                p <= out.len(),
                forall|j: int| p <= j < out.len() ==> !text_le(#[trigger] out@[j].name@, d.name@),
            decreases p,
        {
            p = p - 1;
        }
        proof {
            lemma_insert_by_name_at(out@, d, p as int);
            assert(orig.take(k + 1).drop_last() =~= orig.take(k));
            assert(orig.take(k + 1).last() == orig[k]);
            assert(orig.skip(k)[0] == orig[k]);
            assert(orig.skip(k).remove(0) =~= orig.skip(k + 1));
        }
        out.insert(p, d);
        proof {
            k = k + 1;
        }
    }
    proof {
        assert(orig.take(k) =~= orig);
    }
    out
}

proof fn lemma_insert_by_name_keeps_order(s: Seq<Deck>, d: Deck)
    requires
        names_ascending(s),
    ensures
        names_ascending(insert_by_name(s, d)),
        insert_by_name(s, d).to_multiset() =~= s.to_multiset().insert(d),
        insert_by_name(s, d).len() == s.len() + 1,
    decreases s.len(),
{
    if s.len() == 0 {
        assert(seq![d].to_multiset() =~= Seq::<Deck>::empty().push(d).to_multiset());
        assert(Seq::<Deck>::empty().push(d) =~= seq![d]);
    } else if text_le(s.last().name@, d.name@) {
        let t = s.push(d);
        assert forall|i: int, j: int| 0 <= i < j < t.len() implies text_le(
            #[trigger] t[i].name@,
            #[trigger] t[j].name@,
        ) by {
            if j == s.len() && i < s.len() - 1 {
                lemma_text_le_transitive(s[i].name@, s.last().name@, d.name@);
            }
        }
    } else {
        let u = s.drop_last();
        assert(names_ascending(u));
        lemma_insert_by_name_keeps_order(u, d);
        let v = insert_by_name(u, d);
        let t = v.push(s.last());
        lemma_text_le_total(s.last().name@, d.name@);
        assert forall|i: int| 0 <= i < v.len() implies text_le(
            #[trigger] v[i].name@,
            s.last().name@,
        ) by {
            assert(v.to_multiset().count(v[i]) > 0) by {
                assert(v.contains(v[i]));
            }
            assert(u.to_multiset().insert(d).count(v[i]) > 0);
            if v[i] == d {
            } else {
                assert(u.to_multiset().count(v[i]) > 0);
                assert(u.contains(v[i]));
                let m = choose|m: int| 0 <= m < u.len() && u[m] == v[i];
                assert(s[m] == u[m]);
            }
        }
        assert forall|i: int, j: int| 0 <= i < j < t.len() implies text_le(
            #[trigger] t[i].name@,
            #[trigger] t[j].name@,
        ) by {
            if j == v.len() {
                assert(t[i] == v[i]);
            }
        }
        assert(s =~= u.push(s.last()));
    }
}

/// Sorting decks by name puts them in the order of their names and keeps
/// every deck: the result is a permutation of the input.
pub proof fn lemma_sort_by_name_sorted_permutation(s: Seq<Deck>)
    ensures
        names_ascending(sort_by_name(s)),
        sort_by_name(s).to_multiset() =~= s.to_multiset(),
        sort_by_name(s).len() == s.len(),
    decreases s.len(),
{
    if s.len() == 0 {
    } else {
        lemma_sort_by_name_sorted_permutation(s.drop_last());
        lemma_insert_by_name_keeps_order(sort_by_name(s.drop_last()), s.last());
        assert(s =~= s.drop_last().push(s.last()));
    }
}

/// Sorting card ids puts them in ascending order and keeps every id.
pub proof fn lemma_ascending_ids_sorted_permutation(s: Seq<CardId>)
    ensures
        sorted_by(ascending_ids(s), |a: CardId, b: CardId| id_le(a, b)),
        ascending_ids(s).to_multiset() =~= s.to_multiset(),
{
    lemma_id_le_total();
    s.lemma_sort_by_ensures(|a: CardId, b: CardId| id_le(a, b));
}

} // verus!
