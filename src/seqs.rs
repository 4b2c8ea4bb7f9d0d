use vstd::prelude::*;

verus! {

/// No two entries of `s` share a key.
pub open spec fn keys_unique<A, K>(s: Seq<A>, key: spec_fn(A) -> K) -> bool {
    forall|i: int, j: int|
        #![trigger s[i], s[j]]
        0 <= i < s.len() && 0 <= j < s.len() && i != j ==> key(s[i]) != key(s[j])
}

/// The times of the entries of `s` never decrease along it.
pub open spec fn times_sorted<A>(s: Seq<A>, time: spec_fn(A) -> i64) -> bool {
    forall|i: int, j: int| #![trigger s[i], s[j]] 0 <= i <= j < s.len() ==> time(s[i]) <= time(s[j])
}

/// Filtering a prefix one entry longer adds that entry where it passes.
pub proof fn lemma_filter_step<A>(s: Seq<A>, f: spec_fn(A) -> bool, i: int)
    requires
        0 <= i < s.len(),
    ensures
        s.subrange(0, i + 1).filter(f) == (if f(s[i]) {
            s.subrange(0, i).filter(f).push(s[i])
        } else {
            s.subrange(0, i).filter(f)
        }),
{
    reveal(Seq::filter);
    assert(s.subrange(0, i + 1).drop_last() =~= s.subrange(0, i));
}

/// What a filter keeps comes from the sequence and passes the test; it keeps
/// keys unique and times sorted.
pub proof fn lemma_filter_keeps<A, K>(s: Seq<A>, f: spec_fn(A) -> bool, key: spec_fn(A) -> K, time: spec_fn(A) -> i64)
    requires
        keys_unique(s, key),
        times_sorted(s, time),
    ensures
        keys_unique(s.filter(f), key),
        times_sorted(s.filter(f), time),
        forall|x: A| #[trigger] s.filter(f).contains(x) ==> s.contains(x) && f(x),
        forall|k: int| 0 <= k < s.len() && f(s[k]) ==> #[trigger] s.filter(f).contains(s[k]),
    decreases s.len(),
{
    reveal(Seq::filter);
    broadcast use vstd::seq_lib::group_filter_ensures;
    if s.len() > 0 {
        let d = s.drop_last();
        assert forall|i: int, j: int|
            #![trigger d[i], d[j]]
            0 <= i < d.len() && 0 <= j < d.len() && i != j implies key(d[i]) != key(d[j]) by {
            assert(d[i] == s[i] && d[j] == s[j]);
        }
        assert forall|i: int, j: int| #![trigger d[i], d[j]] 0 <= i <= j < d.len() implies time(d[i]) <= time(
            d[j],
        ) by {
            assert(d[i] == s[i] && d[j] == s[j]);
        }
        lemma_filter_keeps(d, f, key, time);
        let sub = d.filter(f);
        let last = s.last();
        assert forall|x: A| #[trigger] d.contains(x) implies s.contains(x) by {
            let k = choose|k: int| 0 <= k < d.len() && d[k] == x;
            assert(s[k] == x);
        }
        if f(last) {
            let out = sub.push(last);
            assert(s.filter(f) == out);
            assert forall|i: int| 0 <= i < sub.len() implies key(#[trigger] sub[i]) != key(last) && time(sub[i])
                <= time(last) by {
                assert(sub.contains(sub[i]));
                let k = choose|k: int| 0 <= k < d.len() && d[k] == sub[i];
                assert(s[k] == sub[i]);
                assert(s[s.len() - 1] == last);
            }
            assert forall|i: int, j: int|
                #![trigger out[i], out[j]]
                0 <= i < out.len() && 0 <= j < out.len() && i != j implies key(out[i]) != key(out[j]) by {
                if i < sub.len() && j < sub.len() {
                    assert(out[i] == sub[i] && out[j] == sub[j]);
                } else if i < sub.len() {
                    assert(out[i] == sub[i]);
                } else {
                    assert(out[j] == sub[j]);
                }
            }
            assert forall|i: int, j: int| #![trigger out[i], out[j]] 0 <= i <= j < out.len() implies time(out[i])
                <= time(out[j]) by {
                if j < sub.len() {
                    assert(out[i] == sub[i] && out[j] == sub[j]);
                } else if i < sub.len() {
                    assert(out[i] == sub[i]);
                }
            }
            assert forall|x: A| #[trigger] out.contains(x) implies s.contains(x) && f(x) by {
                let k = choose|k: int| 0 <= k < out.len() && out[k] == x;
                if k < sub.len() {
                    assert(sub[k] == x);
                    assert(sub.contains(x));
                } else {
                    assert(s[s.len() - 1] == x);
                }
            }
            assert forall|k: int| 0 <= k < s.len() && f(s[k]) implies #[trigger] out.contains(s[k]) by {
                if k < d.len() {
                    assert(d[k] == s[k]);
                    assert(sub.contains(s[k]));
                    let m = choose|m: int| 0 <= m < sub.len() && sub[m] == s[k];
                    assert(out[m] == s[k]);
                } else {
                    assert(out[out.len() - 1] == s[k]);
                }
            }
        } else {
            assert(s.filter(f) == sub);
            assert forall|k: int| 0 <= k < s.len() && f(s[k]) implies #[trigger] sub.contains(s[k]) by {
                if k < d.len() {
                    assert(d[k] == s[k]);
                }
            }
        }
    }
}

} // verus!
