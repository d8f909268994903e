//! Strings in code-point order, and sets of strings kept as sorted vectors.
use vstd::prelude::*;

verus! {

/// `a` sorts strictly before `b`, comparing character by character
/// by code point (the same order as comparing their UTF-8 bytes).
pub open spec fn lex_lt(a: Seq<char>, b: Seq<char>) -> bool
    decreases a.len(),
{
    if a.len() == 0 {
        b.len() > 0
    } else if b.len() == 0 {
        false
    } else if a[0] < b[0] {
        true
    } else if a[0] == b[0] {
        lex_lt(a.drop_first(), b.drop_first())
    } else {
        false
    }
}

pub proof fn lemma_lex_irreflexive(a: Seq<char>)
    ensures
        !lex_lt(a, a),
    decreases a.len(),
{
    if a.len() > 0 {
        lemma_lex_irreflexive(a.drop_first());
    }
}

pub proof fn lemma_lex_transitive(a: Seq<char>, b: Seq<char>, c: Seq<char>)
    requires
        lex_lt(a, b),
        lex_lt(b, c),
    ensures
        lex_lt(a, c),
    decreases a.len(),
{
    if a.len() > 0 && b.len() > 0 && c.len() > 0 && a[0] == b[0] && b[0] == c[0] {
        lemma_lex_transitive(a.drop_first(), b.drop_first(), c.drop_first());
    }
}

pub proof fn lemma_lex_total(a: Seq<char>, b: Seq<char>)
    requires
        a != b,
    ensures
        lex_lt(a, b) || lex_lt(b, a),
    decreases a.len(),
{
    if a.len() == 0 {
        if b.len() == 0 {
            assert(a =~= b);
        }
    } else if b.len() == 0 {
    } else if a[0] == b[0] {
        if a.drop_first() == b.drop_first() {
            assert(a =~= seq![a[0]] + a.drop_first());
            assert(b =~= seq![b[0]] + b.drop_first());
        }
        lemma_lex_total(a.drop_first(), b.drop_first());
    } else if a[0] < b[0] {
    } else {
        assert(b[0] < a[0]);
    }
}

pub proof fn lemma_lex_asymmetric(a: Seq<char>, b: Seq<char>)
    requires
        lex_lt(a, b),
    ensures
        !lex_lt(b, a),
{
    if lex_lt(b, a) {
        lemma_lex_transitive(a, b, a);
        lemma_lex_irreflexive(a);
    }
}

proof fn lemma_lex_skip_step(a: Seq<char>, b: Seq<char>, i: int)
    requires
        0 <= i < a.len(),
        i < b.len(),
        a[i] == b[i],
    ensures
        lex_lt(a.skip(i), b.skip(i)) == lex_lt(a.skip(i + 1), b.skip(i + 1)),
{
    assert(a.skip(i).drop_first() =~= a.skip(i + 1));
    assert(b.skip(i).drop_first() =~= b.skip(i + 1));
}

/// Whether `a` sorts strictly before `b`.
pub fn lex_less(a: &str, b: &str) -> (r: bool)
    ensures
        r == lex_lt(a@, b@),
{
    let n = a.unicode_len();
    let m = b.unicode_len();
    let mut i: usize = 0;
    assert(a@.skip(0) =~= a@);
    assert(b@.skip(0) =~= b@);
    while i < n && i < m
        invariant
            n == a@.len(),
            m == b@.len(),
            i <= n,
            i <= m,
            lex_lt(a@, b@) == lex_lt(a@.skip(i as int), b@.skip(i as int)),
        decreases n - i,
    {
        let x = a.get_char(i);
        let y = b.get_char(i);
        if x != y {
            assert(a@.skip(i as int)[0] == x);
            assert(b@.skip(i as int)[0] == y);
            return x < y;
        }
        proof {
            lemma_lex_skip_step(a@, b@, i as int);
        }
        i = i + 1;
    }
    i < m
}

/// Strictly increasing: sorted, no element twice.
pub open spec fn strictly_sorted(s: Seq<Seq<char>>) -> bool {
    forall|i: int, j: int| 0 <= i < j < s.len() ==> lex_lt(#[trigger] s[i], #[trigger] s[j])
}

/// Adds `x` to a sorted set of strings, keeping it sorted and free of repeats.
pub fn insert_sorted(v: &mut Vec<String>, x: String)
    requires
        strictly_sorted(old(v).deep_view()),
    ensures
        strictly_sorted(final(v).deep_view()),
        forall|y: Seq<char>|
            #![trigger final(v).deep_view().contains(y)]
            final(v).deep_view().contains(y) <==> (old(v).deep_view().contains(y) || y == x@),
{
    let ghost old_view = v.deep_view();
    let mut p: usize = 0;
    while p < v.len() && lex_less(v[p].as_str(), x.as_str())
        invariant
            p <= v@.len(),
            v.deep_view() == old_view,
            strictly_sorted(old_view),
            forall|k: int| 0 <= k < p ==> lex_lt(#[trigger] old_view[k], x@),
        decreases v@.len() - p,
    {
        p = p + 1;
    }
    if p < v.len() && crate::text::str_eq(v[p].as_str(), x.as_str()) {
        assert(old_view[p as int] == x@);
        assert(old_view.contains(x@));
        assert forall|y: Seq<char>| v.deep_view().contains(y) <==> (old_view.contains(y) || y
            == x@) by {}
        return;
    }
    proof {
        if p < v@.len() {
            assert(old_view[p as int] == v@[p as int]@);
            lemma_lex_total(old_view[p as int], x@);
        }
    }
    v.insert(p, x);
    let ghost new_view = v.deep_view();
    assert(new_view =~= old_view.insert(p as int, x@));
    assert forall|i: int, j: int| 0 <= i < j < new_view.len() implies lex_lt(
        #[trigger] new_view[i],
        #[trigger] new_view[j],
    ) by {
        if j < p {
            assert(new_view[i] == old_view[i] && new_view[j] == old_view[j]);
        } else if j == p {
            assert(new_view[i] == old_view[i]);
        } else if i < p {
            assert(new_view[i] == old_view[i] && new_view[j] == old_view[j - 1]);
            assert(lex_lt(old_view[i], x@));
            assert(lex_lt(x@, old_view[p as int]));
            if j - 1 > p {
                assert(lex_lt(old_view[p as int], old_view[j - 1]));
                lemma_lex_transitive(x@, old_view[p as int], old_view[j - 1]);
            }
            lemma_lex_transitive(old_view[i], x@, old_view[j - 1]);
        } else if i == p {
            assert(new_view[j] == old_view[j - 1]);
            if j - 1 > p {
                assert(lex_lt(old_view[p as int], old_view[j - 1]));
                lemma_lex_transitive(x@, old_view[p as int], old_view[j - 1]);
            }
        } else {
            assert(new_view[i] == old_view[i - 1] && new_view[j] == old_view[j - 1]);
        }
    }
    assert forall|y: Seq<char>| #[trigger] new_view.contains(y) <==> (old_view.contains(y) || y
        == x@) by {
        if new_view.contains(y) {
            let k = choose|k: int| 0 <= k < new_view.len() && new_view[k] == y;
            if k < p {
                assert(old_view[k] == y);
            } else if k > p {
                assert(old_view[k - 1] == y);
            }
        }
        if old_view.contains(y) {
            let k = choose|k: int| 0 <= k < old_view.len() && old_view[k] == y;
            if k < p {
                assert(new_view[k] == y);
            } else {
                assert(new_view[k + 1] == y);
            }
        }
        if y == x@ {
            assert(new_view[p as int] == y);
        }
    }
}

/// Whether `v` holds `s`.
pub fn contains_str(v: &Vec<String>, s: &str) -> (r: bool)
    ensures
        r == v.deep_view().contains(s@),
{
    let mut i: usize = 0;
    while i < v.len()
        invariant
            i <= v@.len(),
            forall|j: int| 0 <= j < i ==> v@[j]@ != s@,
        decreases v@.len() - i,
    {
        if crate::text::str_eq(v[i].as_str(), s) {
            assert(v.deep_view()[i as int] == s@);
            return true;
        }
        i = i + 1;
    }
    assert forall|j: int| 0 <= j < v.deep_view().len() implies v.deep_view()[j] != s@ by {
        assert(v.deep_view()[j] == v@[j]@);
    }
    false
}

} // verus!
