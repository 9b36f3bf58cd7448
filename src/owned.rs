use vstd::prelude::*;
use crate::types::Dna;

verus! {

/// The list `s` with every occurrence of `d` taken out, order kept.
pub open spec fn without(s: Seq<Dna>, d: Dna) -> Seq<Dna>
    decreases s.len(),
{
    if s.len() == 0 {
        s
    } else if s.last() == d {
        without(s.drop_last(), d)
    } else {
        without(s.drop_last(), d).push(s.last())
    }
}

/// Taking out `d` keeps every other element and leaves no `d`.
pub proof fn lemma_without(s: Seq<Dna>, d: Dna)
    ensures
        without(s, d).len() <= s.len(),
        !without(s, d).contains(d),
        forall|x: Dna| x != d ==> (#[trigger] without(s, d).contains(x) <==> s.contains(x)),
    decreases s.len(),
{
    if s.len() > 0 {
        lemma_without(s.drop_last(), d);
        let sub = without(s.drop_last(), d);
        assert forall|x: Dna| x != d implies (#[trigger] without(s, d).contains(x) <==> s.contains(x)) by {
            if s.contains(x) {
                let i = choose|i: int| 0 <= i < s.len() && s[i] == x;
                if i < s.len() - 1 {
                    assert(s.drop_last()[i] == x);
                    assert(s.drop_last().contains(x));
                    assert(sub.contains(x));
                    let j = choose|j: int| 0 <= j < sub.len() && sub[j] == x;
                    assert(without(s, d)[j] == x);
                } else {
                    assert(without(s, d)[without(s, d).len() - 1] == x);
                }
            }
            if without(s, d).contains(x) {
                let j = choose|j: int| 0 <= j < without(s, d).len() && without(s, d)[j] == x;
                if j < sub.len() {
                    assert(sub[j] == x);
                    assert(sub.contains(x));
                    assert(s.drop_last().contains(x));
                    let i = choose|i: int| 0 <= i < s.drop_last().len() && s.drop_last()[i] == x;
                    assert(s[i] == x);
                } else {
                    assert(s[s.len() - 1] == x);
                }
            }
        }
        if without(s, d).contains(d) {
            let j = choose|j: int| 0 <= j < without(s, d).len() && without(s, d)[j] == d;
            if j < sub.len() {
                assert(sub[j] == d);
            }
        }
    }
}

/// Takes every occurrence of `d` out of `list`, keeping the others in order.
pub fn retain_other(list: &mut Vec<Dna>, d: Dna)
    ensures
        final(list)@ == without(old(list)@, d),
{
    let mut kept: Vec<Dna> = Vec::new();
    let n = list.len();
    let mut i: usize = 0;
    while i < n
        invariant
            n == list.len(),
            i <= n,
            kept@ == without(list@.take(i as int), d),
        decreases n - i,
    {
        proof {
            assert(list@.take(i as int + 1).drop_last() =~= list@.take(i as int));
        }
        let x = list[i];
        if x != d {
            kept.push(x);
        }
        i = i + 1;
    }
    assert(list@.take(n as int) =~= list@);
    *list = kept;
}

/// A copy of `v`.
pub fn copy_vec<T: Copy>(v: &Vec<T>) -> (r: Vec<T>)
    ensures
        r@ == v@,
{
    let mut r: Vec<T> = Vec::new();
    let mut i: usize = 0;
    while i < v.len()
        invariant
            i <= v.len(),
            r@ == v@.take(i as int),
        decreases v.len() - i,
    {
        r.push(v[i]);
        i = i + 1;
        assert(r@ =~= v@.take(i as int));
    }
    assert(v@.take(i as int) =~= v@);
    r
}

} // verus!
