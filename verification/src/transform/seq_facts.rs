//! Facts about filtered sequences that the proofs of the hierarchy stages use.

use vstd::prelude::*;

verus! {

/// Two tests that agree on every item of a sequence keep the same items.
pub proof fn lemma_filter_agree<A>(s: Seq<A>, f: spec_fn(A) -> bool, g: spec_fn(A) -> bool)
    requires
        forall|i: int| 0 <= i < s.len() ==> f(#[trigger] s[i]) == g(s[i]),
    ensures
        s.filter(f) == s.filter(g),
    decreases s.len(),
{
    reveal(Seq::filter);
    if s.len() > 0 {
        assert(f(s[s.len() - 1]) == g(s[s.len() - 1]));
        assert forall|i: int| 0 <= i < s.drop_last().len() implies f(#[trigger] s.drop_last()[i])
            == g(s.drop_last()[i]) by {
            assert(s.drop_last()[i] == s[i]);
        }
        lemma_filter_agree(s.drop_last(), f, g);
    }
}

/// A test that every item passes keeps the whole sequence.
pub proof fn lemma_filter_all<A>(s: Seq<A>, f: spec_fn(A) -> bool)
    requires
        forall|i: int| 0 <= i < s.len() ==> f(#[trigger] s[i]),
    ensures
        s.filter(f) == s,
    decreases s.len(),
{
    reveal(Seq::filter);
    if s.len() > 0 {
        assert(f(s[s.len() - 1]));
        assert forall|i: int| 0 <= i < s.drop_last().len() implies f(#[trigger] s.drop_last()[i]) by {
            assert(s.drop_last()[i] == s[i]);
        }
        lemma_filter_all(s.drop_last(), f);
        assert(s.drop_last().push(s.last()) =~= s);
    }
}

/// Filtering twice is filtering once by both tests.
pub proof fn lemma_filter_filter<A>(
    s: Seq<A>,
    f: spec_fn(A) -> bool,
    g: spec_fn(A) -> bool,
    h: spec_fn(A) -> bool,
)
    requires
        forall|i: int| 0 <= i < s.len() ==> h(#[trigger] s[i]) == (f(s[i]) && g(s[i])),
    ensures
        s.filter(f).filter(g) == s.filter(h),
    decreases s.len(),
{
    reveal(Seq::filter);
    if s.len() > 0 {
        let rest = s.drop_last();
        let last = s.last();
        assert(h(s[s.len() - 1]) == (f(s[s.len() - 1]) && g(s[s.len() - 1])));
        assert forall|i: int| 0 <= i < rest.len() implies h(#[trigger] rest[i]) == (f(rest[i])
            && g(rest[i])) by {
            assert(rest[i] == s[i]);
        }
        lemma_filter_filter(rest, f, g, h);
        if f(last) {
            rest.filter(f).lemma_filter_push(last, g);
        }
    }
}

/// Every item that a filter keeps passes the test and is in the sequence.
pub proof fn lemma_filter_members<A>(s: Seq<A>, f: spec_fn(A) -> bool)
    ensures
        forall|x: A| #[trigger] s.filter(f).contains(x) <==> (s.contains(x) && f(x)),
{
    assert forall|x: A| #[trigger] s.filter(f).contains(x) <==> (s.contains(x) && f(x)) by {
        if s.filter(f).contains(x) {
            s.lemma_filter_contains_rev(f, x);
            let i = choose|i: int| 0 <= i < s.filter(f).len() && s.filter(f)[i] == x;
            s.lemma_filter_pred(f, i);
        }
        if s.contains(x) && f(x) {
            let i = choose|i: int| 0 <= i < s.len() && s[i] == x;
            s.lemma_filter_contains(f, i);
        }
    }
}

/// The identifiers below `n`.
pub open spec fn ids_below(n: nat) -> Set<usize> {
    Set::new(|x: usize| x < n)
}

/// There are at most `n` identifiers below `n`.
pub proof fn lemma_ids_below(n: nat)
    ensures
        ids_below(n).finite(),
        ids_below(n).len() <= n,
    decreases n,
{
    if n == 0 {
        assert(ids_below(n) =~= Set::<usize>::empty());
    } else {
        lemma_ids_below((n - 1) as nat);
        if n - 1 <= usize::MAX {
            assert(ids_below(n) =~= ids_below((n - 1) as nat).insert((n - 1) as usize));
        } else {
            assert(ids_below(n) =~= ids_below((n - 1) as nat));
        }
    }
}

/// A sequence of distinct identifiers below `n` has at most `n` items.
pub proof fn lemma_distinct_bounded(s: Seq<usize>, n: nat)
    requires
        s.no_duplicates(),
        forall|i: int| 0 <= i < s.len() ==> #[trigger] s[i] < n,
    ensures
        s.len() <= n,
{
    s.unique_seq_to_set();
    lemma_ids_below(n);
    assert(s.to_set().subset_of(ids_below(n))) by {
        assert forall|x: usize| s.to_set().contains(x) implies ids_below(n).contains(x) by {
            let i = choose|i: int| 0 <= i < s.len() && s[i] == x;
            assert(s[i] < n);
        }
    }
    vstd::set_lib::lemma_len_subset(s.to_set(), ids_below(n));
}

} // verus!
