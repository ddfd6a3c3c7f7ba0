//! Ranking of costed opportunities: a stable sort by net profit, highest first, and the
//! split into profitable and unprofitable ones.

use vstd::prelude::*;
use crate::profit::ArbitrageOpportunity;
use vstd::seq_lib::{lemma_multiset_commutative, to_multiset_build};

verus! {

pub open spec fn net(o: ArbitrageOpportunity) -> int {
    o.net_profit_cents as int
}

/// Net profit never increases along the sequence.
pub open spec fn sorted_desc(s: Seq<ArbitrageOpportunity>) -> bool {
    forall|i: int, j: int| 0 <= i < j < s.len() ==> net(#[trigger] s[i]) >= net(#[trigger] s[j])
}

/// Where an opportunity with net profit `key` goes in a sorted sequence: after every
/// element whose net profit is at least `key`.
pub open spec fn insert_pos(s: Seq<ArbitrageOpportunity>, key: int) -> int
    decreases s.len(),
{
    if s.len() == 0 {
        0
    } else if net(s[0]) < key {
        0
    } else {
        1 + insert_pos(s.drop_first(), key)
    }
}

/// Stable sort by net profit, highest first: each element in turn is inserted after all
/// elements already placed whose net profit is at least its own.
pub open spec fn stable_sort_desc(s: Seq<ArbitrageOpportunity>) -> Seq<ArbitrageOpportunity>
    decreases s.len(),
{
    if s.len() == 0 {
        s
    } else {
        let r = stable_sort_desc(s.drop_last());
        r.insert(insert_pos(r, net(s.last())), s.last())
    }
}

proof fn lemma_insert_pos(s: Seq<ArbitrageOpportunity>, key: int)
    ensures
        0 <= insert_pos(s, key) <= s.len(),
        forall|k: int| 0 <= k < insert_pos(s, key) ==> net(#[trigger] s[k]) >= key,
        insert_pos(s, key) < s.len() ==> net(s[insert_pos(s, key)]) < key,
    decreases s.len(),
{
    if s.len() > 0 && net(s[0]) >= key {
        let t = s.drop_first();
        lemma_insert_pos(t, key);
        assert forall|k: int| 0 <= k < insert_pos(s, key) implies net(#[trigger] s[k]) >= key by {
            if k > 0 {
                assert(s[k] == t[k - 1]);
            }
        }
    }
}

proof fn lemma_insert_sorted(s: Seq<ArbitrageOpportunity>, x: ArbitrageOpportunity)
    requires
        sorted_desc(s),
    ensures
        sorted_desc(s.insert(insert_pos(s, net(x)), x)),
{
    let p = insert_pos(s, net(x));
    lemma_insert_pos(s, net(x));
    s.insert_ensures(p, x);
    let r = s.insert(p, x);
    assert forall|i: int, j: int| 0 <= i < j < r.len() implies net(#[trigger] r[i]) >= net(#[trigger] r[j]) by {
        if j < p {
            assert(r[i] == s[i] && r[j] == s[j]);
        } else if j == p {
            assert(r[i] == s[i]);
        } else if i < p {
            assert(r[i] == s[i] && r[j] == s[j - 1]);
        } else if i == p {
            assert(r[j] == s[j - 1]);
            assert(net(s[p]) < net(x));
            assert(net(s[p]) >= net(s[j - 1]) || p == j - 1);
        } else {
            assert(r[i] == s[i - 1] && r[j] == s[j - 1]);
        }
    }
}

/// The stable sort yields a sequence of the same length, sorted by net profit.
pub proof fn lemma_stable_sort_sorted(s: Seq<ArbitrageOpportunity>)
    ensures
        stable_sort_desc(s).len() == s.len(),
        sorted_desc(stable_sort_desc(s)),
    decreases s.len(),
{
    if s.len() > 0 {
        let r = stable_sort_desc(s.drop_last());
        lemma_stable_sort_sorted(s.drop_last());
        lemma_insert_pos(r, net(s.last()));
        r.insert_ensures(insert_pos(r, net(s.last())), s.last());
        lemma_insert_sorted(r, s.last());
    }
}

proof fn lemma_insert_multiset(s: Seq<ArbitrageOpportunity>, p: int, x: ArbitrageOpportunity)
    requires
        0 <= p <= s.len(),
    ensures
        s.insert(p, x).to_multiset() =~= s.to_multiset().insert(x),
{
    broadcast use vstd::multiset::group_multiset_axioms;
    let a = s.subrange(0, p);
    let b = s.subrange(p, s.len() as int);
    lemma_multiset_commutative(a.push(x), b);
    to_multiset_build(a, x);
    lemma_multiset_commutative(a, b);
    assert(a + b =~= s);
}

/// The stable sort only reorders: it keeps every opportunity, as often as it occurs.
pub proof fn lemma_stable_sort_permutes(s: Seq<ArbitrageOpportunity>)
    ensures
        stable_sort_desc(s).to_multiset() =~= s.to_multiset(),
    decreases s.len(),
{
    broadcast use vstd::multiset::group_multiset_axioms;
    if s.len() > 0 {
        let r = stable_sort_desc(s.drop_last());
        lemma_stable_sort_permutes(s.drop_last());
        lemma_stable_sort_sorted(s.drop_last());
        lemma_insert_pos(r, net(s.last()));
        lemma_insert_multiset(r, insert_pos(r, net(s.last())), s.last());
        to_multiset_build(s.drop_last(), s.last());
        assert(s.drop_last().push(s.last()) =~= s);
    }
}

/// Orders opportunities by net profit, highest first, keeping the order of equal ones.
pub fn rank_by_net_profit(opps: Vec<ArbitrageOpportunity>) -> (r: Vec<ArbitrageOpportunity>)
    ensures
        r@ == stable_sort_desc(opps@),
        sorted_desc(r@),
        r@.to_multiset() == opps@.to_multiset(),
{
    let ghost orig = opps@;
    let n = opps.len();
    let mut rest = opps;
    let mut out: Vec<ArbitrageOpportunity> = Vec::new();
    let mut k: usize = 0;
    while k < n
        invariant
            n == orig.len(),
            k <= n,
            rest@ == orig.skip(k as int),
            out@ == stable_sort_desc(orig.take(k as int)),
            sorted_desc(out@),
        decreases n - k,
    {
        let x = rest.remove(0);
        assert(x == orig[k as int]);
        let mut pos: usize = 0;
        while pos < out.len() && out[pos].net_profit_cents >= x.net_profit_cents
            invariant
                pos <= out.len(),
                forall|i: int| 0 <= i < pos ==> net(#[trigger] out@[i]) >= net(x),
            decreases out.len() - pos,
        {
            pos = pos + 1;
        }
        proof {
            lemma_insert_pos(out@, net(x));
            lemma_insert_sorted(out@, x);
            assert(orig.take(k + 1).drop_last() =~= orig.take(k as int));
            assert(orig.take(k + 1).last() == x);
            assert(orig.skip(k as int).remove(0) =~= orig.skip(k + 1));
        }
        out.insert(pos, x);
        k = k + 1;
    }
    assert(orig.take(n as int) =~= orig);
    proof {
        lemma_stable_sort_permutes(orig);
    }
    out
}

/// Splits opportunities into those with a positive net profit and the others, each in
/// the given order.
pub fn partition_by_profit(opps: Vec<ArbitrageOpportunity>) -> (r: (Vec<ArbitrageOpportunity>, Vec<ArbitrageOpportunity>))
    ensures
        r.0@ == opps@.filter(|o: ArbitrageOpportunity| o.net_profit_cents > 0),
        r.1@ == opps@.filter(|o: ArbitrageOpportunity| o.net_profit_cents <= 0),
{
    let ghost orig = opps@;
    let n = opps.len();
    let mut rest = opps;
    let mut profitable: Vec<ArbitrageOpportunity> = Vec::new();
    let mut unprofitable: Vec<ArbitrageOpportunity> = Vec::new();
    let mut k: usize = 0;
    while k < n
        invariant
            n == orig.len(),
            k <= n,
            rest@ == orig.skip(k as int),
            profitable@ == orig.take(k as int).filter(|o: ArbitrageOpportunity| o.net_profit_cents > 0),
            unprofitable@ == orig.take(k as int).filter(|o: ArbitrageOpportunity| o.net_profit_cents <= 0),
        decreases n - k,
    {
        let x = rest.remove(0);
        proof {
            assert(x == orig[k as int]);
            assert(orig.take(k + 1).drop_last() =~= orig.take(k as int));
            assert(orig.take(k + 1).last() == x);
            assert(orig.skip(k as int).remove(0) =~= orig.skip(k + 1));
            reveal(Seq::filter);
        }
        if x.net_profit_cents > 0 {
            profitable.push(x);
        } else {
            unprofitable.push(x);
        }
        k = k + 1;
    }
    assert(orig.take(n as int) =~= orig);
    (profitable, unprofitable)
}

} // verus!
