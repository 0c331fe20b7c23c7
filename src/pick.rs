//! Choosing one element of a sequence: the first of the greatest keys, or the
//! first that qualifies.

use vstd::prelude::*;

verus! {

/// The index of the first greatest present key, if any key is present.
pub open spec fn first_max(keys: Seq<Option<u64>>) -> Option<int>
    decreases keys.len(),
{
    if keys.len() == 0 {
        None
    } else {
        let prev = first_max(keys.drop_last());
        match keys.last() {
            Some(k) => match prev {
                Some(p) => if k > keys[p]->0 {
                    Some(keys.len() - 1)
                } else {
                    prev
                },
                None => Some(keys.len() - 1),
            },
            None => prev,
        }
    }
}

/// The index of the first flag that is set, if one is.
pub open spec fn first_true(flags: Seq<bool>) -> Option<int>
    decreases flags.len(),
{
    if flags.len() == 0 {
        None
    } else {
        let prev = first_true(flags.drop_last());
        if prev is Some {
            prev
        } else if flags.last() {
            Some(flags.len() - 1)
        } else {
            None
        }
    }
}

/// The index that an executable choice stands for.
pub open spec fn index_of(o: Option<usize>) -> Option<int> {
    match o {
        Some(i) => Some(i as int),
        None => None,
    }
}

/// `first_max` picks a present key that no other present key exceeds, and that
/// every present key before it is below.
pub proof fn lemma_first_max(keys: Seq<Option<u64>>)
    ensures
        match first_max(keys) {
            Some(i) => {
                &&& 0 <= i < keys.len()
                &&& keys[i] is Some
                &&& forall|j: int| 0 <= j < keys.len() && keys[j] is Some ==> keys[j]->0 <= keys[i]->0
                &&& forall|j: int| 0 <= j < i && keys[j] is Some ==> keys[j]->0 < keys[i]->0
            },
            None => forall|j: int| 0 <= j < keys.len() ==> keys[j] is None,
        },
    decreases keys.len(),
{
    if keys.len() > 0 {
        let init = keys.drop_last();
        lemma_first_max(init);
        assert(forall|j: int| 0 <= j < init.len() ==> init[j] == keys[j]);
    }
}

/// `first_true` picks a set flag with no set flag before it.
pub proof fn lemma_first_true(flags: Seq<bool>)
    ensures
        match first_true(flags) {
            Some(i) => 0 <= i < flags.len() && flags[i] && forall|j: int| 0 <= j < i ==> !flags[j],
            None => forall|j: int| 0 <= j < flags.len() ==> !flags[j],
        },
    decreases flags.len(),
{
    if flags.len() > 0 {
        let init = flags.drop_last();
        lemma_first_true(init);
        assert(forall|j: int| 0 <= j < init.len() ==> init[j] == flags[j]);
    }
}

/// The index of the first greatest present key.
pub fn pick_first_max(keys: &Vec<Option<u64>>) -> (r: Option<usize>)
    ensures
        index_of(r) == first_max(keys@),
{
    let mut best: Option<usize> = None;
    let mut best_key: u64 = 0;
    let mut i: usize = 0;
    while i < keys.len()
        invariant
            i <= keys@.len(),
            index_of(best) == first_max(keys@.take(i as int)),
            best matches Some(b) ==> b < i && keys@[b as int] == Some(best_key),
        decreases keys@.len() - i,
    {
        proof {
            let next = keys@.take(i + 1);
            assert(next.drop_last() =~= keys@.take(i as int));
            assert(next.last() == keys@[i as int]);
            assert(best matches Some(b) ==> next[b as int] == keys@[b as int]);
        }
        if let Some(k) = keys[i] {
            if best.is_none() || k > best_key {
                best = Some(i);
                best_key = k;
            }
        }
        i = i + 1;
    }
    assert(keys@.take(keys@.len() as int) =~= keys@);
    best
}

/// The index of the first set flag.
pub fn pick_first_true(flags: &Vec<bool>) -> (r: Option<usize>)
    ensures
        index_of(r) == first_true(flags@),
{
    let mut i: usize = 0;
    while i < flags.len()
        invariant
            i <= flags@.len(),
            first_true(flags@.take(i as int)) is None,
        decreases flags@.len() - i,
    {
        proof {
            let next = flags@.take(i + 1);
            assert(next.drop_last() =~= flags@.take(i as int));
        }
        if flags[i] {
            proof {
                lemma_first_true_prefix(flags@, i as int + 1);
            }
            return Some(i);
        }
        i = i + 1;
    }
    assert(flags@.take(flags@.len() as int) =~= flags@);
    None
}

/// Once a prefix has a set flag, longer prefixes pick the same one.
proof fn lemma_first_true_prefix(flags: Seq<bool>, n: int)
    requires
        0 <= n <= flags.len(),
        first_true(flags.take(n)) is Some,
    ensures
        first_true(flags) == first_true(flags.take(n)),
    decreases flags.len() - n,
{
    if n < flags.len() {
        assert(flags.take(n + 1).drop_last() =~= flags.take(n));
        lemma_first_true_prefix(flags, n + 1);
    } else {
        assert(flags.take(n) =~= flags);
    }
}

} // verus!
