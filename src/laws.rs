//! What holds of every run of the pipeline.
use vstd::prelude::*;
use crate::model::{present, first_seen, line_of, links_of};

verus! {

/// Every occurrence of `b` in `s` comes after some occurrence of `a`: the
/// first appearance of `a` precedes the first appearance of `b`.
pub open spec fn first_before(s: Seq<Seq<char>>, a: Seq<char>, b: Seq<char>) -> bool {
    forall|m: int| 0 <= m < s.len() && #[trigger] s[m] == b ==> exists|k: int|
        0 <= k < m && #[trigger] s[k] == a
}

/// A value is kept exactly when it occurs.
proof fn lemma_first_seen_contains(s: Seq<Seq<char>>)
    ensures
        forall|x: Seq<char>| first_seen(s).contains(x) <==> s.contains(x),
    decreases s.len(),
{
    if s.len() > 0 {
        let p = s.drop_last();
        lemma_first_seen_contains(p);
        let y = s.last();
        let dp = first_seen(p);
        assert forall|x: Seq<char>| first_seen(s).contains(x) <==> s.contains(x) by {
            if p.contains(x) {
                let k = choose|k: int| 0 <= k < p.len() && p[k] == x;
                assert(s[k] == x);
            }
            if s.contains(x) {
                let k = choose|k: int| 0 <= k < s.len() && s[k] == x;
                if k < p.len() {
                    assert(p[k] == x);
                } else {
                    assert(x == y);
                }
            }
            assert(s[s.len() - 1] == y);
            if !p.contains(y) {
                let d = dp.push(y);
                assert(first_seen(s) == d);
                assert(d[dp.len() as int] == y);
                if dp.contains(x) {
                    let k = choose|k: int| 0 <= k < dp.len() && dp[k] == x;
                    assert(d[k] == x);
                }
                if d.contains(x) {
                    let k = choose|k: int| 0 <= k < d.len() && d[k] == x;
                    if k < dp.len() {
                        assert(dp[k] == x);
                    }
                }
            }
        }
    }
}

proof fn lemma_first_seen_distinct(s: Seq<Seq<char>>)
    ensures
        first_seen(s).no_duplicates(),
    decreases s.len(),
{
    if s.len() > 0 {
        let p = s.drop_last();
        lemma_first_seen_distinct(p);
        lemma_first_seen_contains(p);
    }
}

proof fn lemma_first_seen_order(s: Seq<Seq<char>>)
    ensures
        forall|i: int, j: int|
            0 <= i < j < first_seen(s).len() ==> #[trigger] first_before(
                s,
                first_seen(s)[i],
                first_seen(s)[j],
            ),
    decreases s.len(),
{
    if s.len() > 0 {
        let p = s.drop_last();
        let y = s.last();
        let d = first_seen(s);
        let dp = first_seen(p);
        lemma_first_seen_order(p);
        lemma_first_seen_contains(p);
        assert forall|i: int, j: int| 0 <= i < j < d.len() implies #[trigger] first_before(
            s,
            d[i],
            d[j],
        ) by {
            assert forall|m: int| 0 <= m < s.len() && #[trigger] s[m] == d[j] implies exists|k: int|
                0 <= k < m && #[trigger] s[k] == d[i] by {
                if j < dp.len() {
                    assert(d[i] == dp[i] && d[j] == dp[j]);
                    assert(first_before(p, dp[i], dp[j]));
                    if m < p.len() {
                        assert(p[m] == d[j]);
                        let k = choose|k: int| 0 <= k < m && #[trigger] p[k] == d[i];
                        assert(s[k] == d[i]);
                    } else {
                        // the last value already occurred earlier
                        assert(dp.contains(d[j]));
                        assert(p.contains(y));
                        let m2 = choose|m2: int| 0 <= m2 < p.len() && p[m2] == y;
                        assert(p[m2] == d[j]);
                        let k = choose|k: int| 0 <= k < m2 && #[trigger] p[k] == d[i];
                        assert(s[k] == d[i]);
                    }
                } else {
                    // d[j] is the last value, seen for the first time
                    assert(!p.contains(y));
                    assert(d == dp.push(y));
                    assert(d[j] == y);
                    if m < p.len() {
                        assert(p[m] == y);
                    }
                    assert(d[i] == dp[i]);
                    assert(dp.contains(d[i]));
                    assert(p.contains(d[i]));
                    let k = choose|k: int| 0 <= k < p.len() && p[k] == d[i];
                    assert(s[k] == d[i]);
                }
            }
        }
    }
}

/// The output holds no two equal lines.
pub proof fn lemma_links_distinct(attrs: Seq<Option<Seq<char>>>, base: Option<Seq<char>>)
    ensures
        links_of(attrs, base).no_duplicates(),
{
    let d = first_seen(present(attrs));
    lemma_first_seen_distinct(present(attrs));
    let out = links_of(attrs, base);
    assert forall|i: int, j: int| 0 <= i < out.len() && 0 <= j < out.len() && i != j implies out[i]
        != out[j] by {
        if out[i] == out[j] {
            match base {
                Some(b) => {
                    assert(out[i] == b + d[i]);
                    assert(out[j] == b + d[j]);
                    assert(d[i] =~= out[i].subrange(b.len() as int, out[i].len() as int));
                    assert(d[j] =~= out[j].subrange(b.len() as int, out[j].len() as int));
                },
                None => {},
            }
        }
    }
}

/// The distinct values in the output are exactly the present `href` values,
/// in the order of their first appearance among the matched elements: line
/// `i` is made from the `i`-th distinct value, and of two lines the earlier
/// one comes from the value that appeared first.
pub proof fn lemma_links_first_seen_order(attrs: Seq<Option<Seq<char>>>, base: Option<Seq<char>>)
    ensures
        forall|x: Seq<char>| first_seen(present(attrs)).contains(x) <==> present(attrs).contains(x),
        links_of(attrs, base).len() == first_seen(present(attrs)).len(),
        forall|i: int|
            0 <= i < links_of(attrs, base).len() ==> #[trigger] links_of(attrs, base)[i]
                == line_of(base, first_seen(present(attrs))[i]),
        forall|i: int, j: int|
            0 <= i < j < first_seen(present(attrs)).len() ==> #[trigger] first_before(
                present(attrs),
                first_seen(present(attrs))[i],
                first_seen(present(attrs))[j],
            ),
{
    lemma_first_seen_contains(present(attrs));
    lemma_first_seen_order(present(attrs));
}

proof fn lemma_present_skips_none(attrs: Seq<Option<Seq<char>>>, i: int)
    requires
        0 <= i <= attrs.len(),
    ensures
        present(attrs.insert(i, None)) == present(attrs),
    decreases attrs.len(),
{
    let a = attrs.insert(i, None);
    if i == attrs.len() {
        assert(a.drop_last() =~= attrs);
    } else {
        let p = attrs.drop_last();
        lemma_present_skips_none(p, i);
        assert(a.drop_last() =~= p.insert(i, None));
        assert(a.last() == attrs.last());
    }
}

/// A matched element without the attribute contributes no line: the output
/// is the same with or without it, wherever it stands.
pub proof fn lemma_absent_href_contributes_nothing(
    attrs: Seq<Option<Seq<char>>>,
    i: int,
    base: Option<Seq<char>>,
)
    requires
        0 <= i <= attrs.len(),
    ensures
        links_of(attrs.insert(i, None), base) == links_of(attrs, base),
{
    lemma_present_skips_none(attrs, i);
}

} // verus!
