//! Which bodies pull on which during one step of the simulation.
//!
//! A step first records every body (a snapshot), then moves the bodies one
//! by one. While a body is moved, each recorded body pulls on it, but for
//! the record of the body itself. Bodies are told apart by their ids, never
//! by where they are.

use vstd::prelude::*;

verus! {

/// The first `n` places of a snapshot, in order.
pub open spec fn places(n: nat) -> Seq<usize> {
    Seq::new(n, |j: int| j as usize)
}

/// Tells, of a place of the snapshot `ids`, whether it holds another body
/// than `own`.
pub open spec fn is_other(ids: Seq<u32>, own: u32) -> spec_fn(usize) -> bool {
    |j: usize| ids[j as int] != own
}

/// The places of the snapshot `ids` whose bodies pull on the body `own`:
/// every place that holds another id than `own`, in snapshot order.
pub open spec fn partners_of(ids: Seq<u32>, own: u32) -> Seq<usize> {
    places(ids.len()).filter(is_other(ids, own))
}

/// Finds the places of the snapshot `ids` whose bodies pull on the body
/// `own`: each place that holds another id, once, in rising order.
pub fn partners(ids: &Vec<u32>, own: u32) -> (found: Vec<usize>)
    ensures
        found@ == partners_of(ids@, own),
        forall|j: usize| #[trigger] found@.contains(j) <==> j < ids.len() && ids[j as int] != own,
        forall|a: int, b: int| 0 <= a < b < found.len() ==> found[a] < found[b],
{
    let mut found: Vec<usize> = Vec::new();
    let mut j: usize = 0;
    proof {
        reveal(Seq::filter);
        assert(places(0).filter(is_other(ids@, own)) =~= Seq::<usize>::empty());
    }
    while j < ids.len()
        invariant
            j <= ids.len(),
            found@ == places(j as nat).filter(is_other(ids@, own)),
        decreases ids.len() - j,
    {
        proof {
            assert(places((j + 1) as nat) =~= places(j as nat).push(j));
            places(j as nat).lemma_filter_push(j, is_other(ids@, own));
        }
        if ids[j] != own {
            found.push(j);
        }
        j += 1;
    }
    proof {
        assert(found@ == partners_of(ids@, own));
        lemma_partners_are_the_others(ids@, own);
    }
    found
}

/// What the first `n` places contribute to the partners of `own`: they come
/// in rising order, each lies below `n`, and a place below `n` is among them
/// exactly if it holds another id than `own`.
proof fn lemma_prefix(ids: Seq<u32>, own: u32, n: nat)
    requires
        n <= ids.len() <= usize::MAX,
    ensures
        forall|a: int, b: int|
            0 <= a < b < places(n).filter(is_other(ids, own)).len() ==> places(n).filter(
                is_other(ids, own),
            )[a] < places(n).filter(is_other(ids, own))[b],
        forall|a: int|
            0 <= a < places(n).filter(is_other(ids, own)).len() ==> #[trigger] places(n).filter(
                is_other(ids, own),
            )[a] < n,
        forall|j: usize|
            #[trigger] places(n).filter(is_other(ids, own)).contains(j) <==> j < n && ids[j as int]
                != own,
    decreases n,
{
    let kept = places(n).filter(is_other(ids, own));
    if n == 0 {
        reveal(Seq::filter);
        assert(kept =~= Seq::<usize>::empty());
    } else {
        let m = (n - 1) as nat;
        let last = m as usize;
        let before = places(m).filter(is_other(ids, own));
        lemma_prefix(ids, own, m);
        assert(places(n) =~= places(m).push(last));
        places(m).lemma_filter_push(last, is_other(ids, own));
        assert forall|j: usize| kept.contains(j) <==> j < n && ids[j as int] != own by {
            if ids[last as int] != own {
                assert(kept =~= before.push(last));
                if kept.contains(j) {
                    let a = choose|a: int| 0 <= a < kept.len() && kept[a] == j;
                    if a < before.len() {
                        assert(before[a] == j);
                    }
                }
                if j < n && ids[j as int] != own {
                    if j == last {
                        assert(kept[kept.len() - 1] == j);
                    } else {
                        assert(before.contains(j));
                        let a = choose|a: int| 0 <= a < before.len() && before[a] == j;
                        assert(kept[a] == j);
                    }
                }
            }
        }
    }
}

/// A place is among the partners of `own` exactly if it lies in the snapshot
/// and holds another id than `own`; the partners come in snapshot order.
pub proof fn lemma_partners_are_the_others(ids: Seq<u32>, own: u32)
    requires
        ids.len() <= usize::MAX,
    ensures
        forall|j: usize|
            #[trigger] partners_of(ids, own).contains(j) <==> j < ids.len() && ids[j as int] != own,
        forall|a: int, b: int|
            0 <= a < b < partners_of(ids, own).len() ==> partners_of(ids, own)[a] < partners_of(
                ids,
                own,
            )[b],
{
    lemma_prefix(ids, own, ids.len());
}

/// A body that is alone in the snapshot has no partner: nothing pulls on it.
pub proof fn lemma_alone_has_no_partner(own: u32)
    ensures
        partners_of(seq![own], own) == Seq::<usize>::empty(),
{
    let ids = seq![own];
    lemma_prefix(ids, own, 1);
    let kept = partners_of(ids, own);
    if kept.len() > 0 {
        assert(kept.contains(kept[0]));
    }
    assert(kept =~= Seq::<usize>::empty());
}

/// Pulling is mutual: the body at place `j` pulls on the body at place `i`
/// exactly if the body at place `i` pulls on the body at place `j`.
pub proof fn lemma_pull_is_mutual(ids: Seq<u32>, i: usize, j: usize)
    requires
        ids.len() <= usize::MAX,
        i < ids.len(),
        j < ids.len(),
    ensures
        partners_of(ids, ids[i as int]).contains(j) <==> partners_of(ids, ids[j as int]).contains(
            i,
        ),
{
    lemma_prefix(ids, ids[i as int], ids.len());
    lemma_prefix(ids, ids[j as int], ids.len());
}

/// Whether no id stands at two places of the snapshot.
pub open spec fn distinct(ids: Seq<u32>) -> bool {
    forall|a: int, b: int| 0 <= a < b < ids.len() ==> ids[a] != ids[b]
}

/// Among the first `n` places of a snapshot of distinct ids, all pull on the
/// body at place `i` but that place itself.
proof fn lemma_prefix_count(ids: Seq<u32>, i: int, n: nat)
    requires
        distinct(ids),
        0 <= i < ids.len(),
        n <= ids.len() <= usize::MAX,
    ensures
        places(n).filter(is_other(ids, ids[i])).len() == if i < n {
            n - 1
        } else {
            n as int
        },
    decreases n,
{
    if n == 0 {
        reveal(Seq::filter);
        assert(places(0).filter(is_other(ids, ids[i])) =~= Seq::<usize>::empty());
    } else {
        let m = (n - 1) as nat;
        lemma_prefix_count(ids, i, m);
        assert(places(n) =~= places(m).push(m as usize));
        places(m).lemma_filter_push(m as usize, is_other(ids, ids[i]));
        assert(is_other(ids, ids[i])(m as usize) <==> m != i) by {
            if m < i {
                assert(ids[m as int] != ids[i]);
            } else if i < m {
                assert(ids[i] != ids[m as int]);
            }
        }
    }
}

/// In a snapshot of distinct ids every body has all the others as partners:
/// one step looks at each ordered pair of bodies once.
pub proof fn lemma_everyone_else_pulls(ids: Seq<u32>, i: int)
    requires
        distinct(ids),
        ids.len() <= usize::MAX,
        0 <= i < ids.len(),
    ensures
        partners_of(ids, ids[i]).len() == ids.len() - 1,
{
    lemma_prefix_count(ids, i, ids.len());
}

} // verus!
