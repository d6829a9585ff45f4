//! Order-preserving removal of repeated link values.
use vstd::prelude::*;
use crate::model::first_seen;
use crate::seen::{SeenSet, seen_values};

verus! {

/// Keeps the first occurrence of each distinct value (exact string equality)
/// and drops the later ones, in one forward pass over a hash set of the
/// values seen so far.
pub fn dedup_first_seen(values: &Vec<String>) -> (r: Vec<String>)
    ensures
        r.deep_view() == first_seen(values.deep_view()),
{
    let ghost vals = values.deep_view();
    let mut seen = SeenSet::new();
    let mut out: Vec<String> = Vec::new();
    let mut i: usize = 0;
    while i < values.len()
        invariant
            i <= values.len(),
            vals == values.deep_view(),
            out.deep_view() == first_seen(vals.take(i as int)),
            forall|x: Seq<char>| seen_values(seen).contains(x) <==> vals.take(i as int).contains(x),
        decreases values.len() - i,
    {
        let v = values[i].clone();
        let ghost prefix = vals.take(i as int);
        let ghost next = vals.take(i + 1);
        assert(next.drop_last() =~= prefix);
        assert(vals[i as int] == v@);
        let ghost before = out.deep_view();
        if seen.insert(v.clone()) {
            out.push(v);
            assert(out.deep_view() =~= before.push(v@));
        }
        assert forall|x: Seq<char>| seen_values(seen).contains(x) <==> next.contains(x) by {
            if next.contains(x) {
                let k = choose|k: int| 0 <= k < i + 1 && next[k] == x;
                if k < i {
                    assert(prefix[k] == x);
                }
            }
            if prefix.contains(x) {
                let k = choose|k: int| 0 <= k < i && prefix[k] == x;
                assert(next[k] == x);
            }
            if x == v@ {
                assert(next[i as int] == x);
            }
        }
        i = i + 1;
    }
    assert(vals.take(values.len() as int) =~= vals);
    out
}

} // verus!
