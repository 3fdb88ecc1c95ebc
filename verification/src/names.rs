//! Comparison of names, and the sorted list of distinct names.
//!
//! Names are compared as `str` compares them: lexicographically. (For UTF-8
//! text, comparing bytes lexicographically orders two strings exactly as
//! comparing their characters by code point does.)

use vstd::prelude::*;

verus! {

broadcast use vstd::std_specs::vec::group_vec_axioms;

/// Lexicographic order on character sequences.
pub open spec fn text_lt(a: Seq<char>, b: Seq<char>) -> bool
    decreases a.len(),
{
    if a.len() == 0 {
        b.len() > 0
    } else if b.len() == 0 {
        false
    } else if a[0] != b[0] {
        (a[0] as int) < (b[0] as int)
    } else {
        text_lt(a.drop_first(), b.drop_first())
    }
}

/// A sequence of names in strictly ascending order: sorted, with no name twice.
pub open spec fn strictly_sorted(s: Seq<Seq<char>>) -> bool {
    forall|i: int, j: int| 0 <= i < j < s.len() ==> #[trigger] text_lt(s[i], s[j])
}

/// The names of a list of string slices.
pub open spec fn names(s: Seq<&'static str>) -> Seq<Seq<char>> {
    s.map_values(|x: &'static str| x@)
}

/// Puts `x` into its place in a sorted sequence, unless it is there already.
pub open spec fn insert_sorted(x: Seq<char>, s: Seq<Seq<char>>) -> Seq<Seq<char>>
    decreases s.len(),
{
    if s.len() == 0 {
        seq![x]
    } else if x == s[0] {
        s
    } else if text_lt(x, s[0]) {
        seq![x] + s
    } else {
        seq![s[0]] + insert_sorted(x, s.drop_first())
    }
}

/// The names of `s` sorted, each once (what `sort` and then `dedup` leave).
pub open spec fn sorted_names(s: Seq<Seq<char>>) -> Seq<Seq<char>>
    decreases s.len(),
{
    if s.len() == 0 {
        Seq::empty()
    } else {
        insert_sorted(s.last(), sorted_names(s.drop_last()))
    }
}

/// No name comes before itself.
pub proof fn lemma_text_lt_irreflexive(a: Seq<char>)
    ensures
        !text_lt(a, a),
    decreases a.len(),
{
    if a.len() > 0 {
        lemma_text_lt_irreflexive(a.drop_first());
    }
}

/// The order is transitive.
pub proof fn lemma_text_lt_transitive(a: Seq<char>, b: Seq<char>, c: Seq<char>)
    requires
        text_lt(a, b),
        text_lt(b, c),
    ensures
        text_lt(a, c),
    decreases a.len(),
{
    if a.len() > 0 && b.len() > 0 && c.len() > 0 && a[0] == b[0] && b[0] == c[0] {
        lemma_text_lt_transitive(a.drop_first(), b.drop_first(), c.drop_first());
    }
}

/// Of two different names, one comes before the other.
pub proof fn lemma_text_lt_total(a: Seq<char>, b: Seq<char>)
    requires
        a != b,
    ensures
        text_lt(a, b) || text_lt(b, a),
    decreases a.len(),
{
    if a.len() > 0 && b.len() > 0 && a[0] == b[0] {
        assert(a =~= seq![a[0]] + a.drop_first());
        assert(b =~= seq![b[0]] + b.drop_first());
        lemma_text_lt_total(a.drop_first(), b.drop_first());
    } else if a.len() == 0 && b.len() == 0 {
        assert(a =~= b);
    }
}

/// The order of names is the lexicographic order of `str`: `a` comes before
/// `b` exactly when `a` is a proper prefix of `b`, or at the first position
/// where they differ the character of `a` is the smaller one, whatever the
/// lengths of the two names.
pub proof fn law_text_lt_is_lexicographic(a: Seq<char>, b: Seq<char>)
    ensures
        text_lt(a, b) <==> ((a.len() < b.len() && b.take(a.len() as int) == a) || exists|k: int|
            0 <= k < a.len() && k < b.len() && a.take(k) == b.take(k) && (#[trigger] a[k] as int)
                < (b[k] as int)),
    decreases a.len(),
{
    if a.len() == 0 {
        if b.len() > 0 {
            assert(b.take(0) =~= a);
        }
    } else if b.len() == 0 {
    } else if a[0] != b[0] {
        if (a[0] as int) < (b[0] as int) {
            assert(a.take(0) =~= b.take(0));
        }
        assert forall|k: int|
            0 <= k < a.len() && k < b.len() && a.take(k) == b.take(k) implies !((a[k] as int)
            < (b[k] as int)) || k == 0 by {
            if k > 0 {
                assert(a.take(k)[0] == b.take(k)[0]);
            }
        }
        if a.len() < b.len() && b.take(a.len() as int) == a {
            assert(b.take(a.len() as int)[0] == a[0]);
        }
    } else {
        let a1 = a.drop_first();
        let b1 = b.drop_first();
        law_text_lt_is_lexicographic(a1, b1);
        if a1.len() < b1.len() && b1.take(a1.len() as int) == a1 {
            assert forall|j: int| 0 <= j < a.len() implies #[trigger] b.take(a.len() as int)[j]
                == a[j] by {
                if j > 0 {
                    assert(b1.take(a1.len() as int)[j - 1] == a1[j - 1]);
                }
            }
            assert(b.take(a.len() as int) =~= a);
        }
        if a.len() < b.len() && b.take(a.len() as int) == a {
            assert(b1.take(a1.len() as int) =~= a1);
        }
        if exists|k: int|
            0 <= k < a1.len() && k < b1.len() && a1.take(k) == b1.take(k) && (#[trigger] a1[k] as int)
                < (b1[k] as int) {
            let k = choose|k: int|
                0 <= k < a1.len() && k < b1.len() && a1.take(k) == b1.take(k) && (#[trigger] a1[k] as int)
                    < (b1[k] as int);
            assert(a.take(k + 1) =~= b.take(k + 1)) by {
                assert forall|j: int| 0 <= j < k + 1 implies #[trigger] a.take(k + 1)[j] == b.take(k + 1)[j] by {
                    if j > 0 {
                        assert(a1.take(k)[j - 1] == b1.take(k)[j - 1]);
                    }
                }
            }
            assert(a[k + 1] == a1[k]);
        }
        if exists|k: int|
            0 <= k < a.len() && k < b.len() && a.take(k) == b.take(k) && (#[trigger] a[k] as int)
                < (b[k] as int) {
            let k = choose|k: int|
                0 <= k < a.len() && k < b.len() && a.take(k) == b.take(k) && (#[trigger] a[k] as int)
                    < (b[k] as int);
            assert(k > 0);
            assert(a1.take(k - 1) =~= b1.take(k - 1)) by {
                assert forall|j: int| 0 <= j < k - 1 implies #[trigger] a1.take(k - 1)[j] == b1.take(k - 1)[j] by {
                    assert(a.take(k)[j + 1] == b.take(k)[j + 1]);
                }
            }
            assert(a1[k - 1] == a[k]);
        }
    }
}

/// Inserting into a strictly sorted sequence keeps it strictly sorted and adds
/// exactly `x` to its set of names.
pub proof fn lemma_insert_sorted(x: Seq<char>, s: Seq<Seq<char>>)
    requires
        strictly_sorted(s),
    ensures
        strictly_sorted(insert_sorted(x, s)),
        insert_sorted(x, s).to_set() == s.to_set().insert(x),
    decreases s.len(),
{
    let r = insert_sorted(x, s);
    if s.len() == 0 {
        assert(r.to_set() =~= s.to_set().insert(x)) by {
            assert forall|y: Seq<char>| r.contains(y) <==> y == x by {
                if y == x {
                    assert(r[0] == x);
                }
            }
        }
    } else if x == s[0] {
        assert(r.to_set() =~= s.to_set().insert(x));
    } else if text_lt(x, s[0]) {
        assert forall|i: int, j: int| 0 <= i < j < r.len() implies #[trigger] text_lt(r[i], r[j]) by {
            if i == 0 {
                if j > 1 {
                    assert(text_lt(s[0], s[j - 1]));
                    lemma_text_lt_transitive(x, s[0], s[j - 1]);
                }
            } else {
                assert(text_lt(s[i - 1], s[j - 1]));
            }
        }
        assert(r.to_set() =~= s.to_set().insert(x)) by {
            assert forall|y: Seq<char>| r.contains(y) <==> s.contains(y) || y == x by {
                if s.contains(y) {
                    let k = choose|k: int| 0 <= k < s.len() && s[k] == y;
                    assert(r[k + 1] == y);
                }
                if r.contains(y) && y != x {
                    let k = choose|k: int| 0 <= k < r.len() && r[k] == y;
                    assert(s[k - 1] == y);
                }
                if y == x {
                    assert(r[0] == x);
                }
            }
        }
    } else {
        let t = s.drop_first();
        assert(strictly_sorted(t)) by {
            assert forall|i: int, j: int| 0 <= i < j < t.len() implies #[trigger] text_lt(t[i], t[j]) by {
                assert(text_lt(s[i + 1], s[j + 1]));
            }
        }
        lemma_insert_sorted(x, t);
        let rt = insert_sorted(x, t);
        lemma_text_lt_total(x, s[0]);
        assert(r == seq![s[0]] + rt);
        assert forall|k: int| 0 <= k < rt.len() implies #[trigger] text_lt(s[0], rt[k]) by {
            assert(rt.to_set().contains(rt[k]));
            if rt[k] != x {
                assert(t.to_set().contains(rt[k]));
                let m = choose|m: int| 0 <= m < t.len() && t[m] == rt[k];
                assert(text_lt(s[0], s[m + 1]));
            }
        }
        assert forall|i: int, j: int| 0 <= i < j < r.len() implies #[trigger] text_lt(r[i], r[j]) by {
            if i == 0 {
                assert(text_lt(s[0], rt[j - 1]));
            } else {
                assert(text_lt(rt[i - 1], rt[j - 1]));
            }
        }
        assert(r.to_set() =~= s.to_set().insert(x)) by {
            assert(s =~= seq![s[0]] + t);
            assert forall|y: Seq<char>| r.contains(y) <==> s.contains(y) || y == x by {
                if r.contains(y) {
                    let k = choose|k: int| 0 <= k < r.len() && r[k] == y;
                    if k > 0 {
                        assert(rt.to_set().contains(y));
                        if y != x {
                            assert(t.to_set().contains(y));
                            let m = choose|m: int| 0 <= m < t.len() && t[m] == y;
                            assert(s[m + 1] == y);
                        }
                    } else {
                        assert(s[0] == y);
                    }
                }
                if s.contains(y) {
                    let k = choose|k: int| 0 <= k < s.len() && s[k] == y;
                    if k == 0 {
                        assert(r[0] == y);
                    } else {
                        assert(t[k - 1] == y);
                        assert(t.to_set().contains(y));
                        assert(rt.to_set().contains(y));
                        let m = choose|m: int| 0 <= m < rt.len() && rt[m] == y;
                        assert(r[m + 1] == y);
                    }
                }
                if y == x {
                    assert(rt.to_set().contains(x));
                    let m = choose|m: int| 0 <= m < rt.len() && rt[m] == x;
                    assert(r[m + 1] == x);
                }
            }
        }
    }
}

/// What `sort` followed by `dedup` leaves of a list of names is strictly
/// sorted, holds no name twice, and holds exactly the names of the list.
pub proof fn law_sorted_names(s: Seq<Seq<char>>)
    ensures
        strictly_sorted(sorted_names(s)),
        sorted_names(s).no_duplicates(),
        sorted_names(s).to_set() == s.to_set(),
    decreases s.len(),
{
    lemma_sorted_names(s);
    let r = sorted_names(s);
    assert forall|i: int, j: int| 0 <= i < r.len() && 0 <= j < r.len() && i != j implies r[i]
        != r[j] by {
        if i < j {
            assert(text_lt(r[i], r[j]));
        } else {
            assert(text_lt(r[j], r[i]));
        }
        lemma_text_lt_irreflexive(r[i]);
    }
}

/// The sorted names are strictly sorted and hold the names of the list.
proof fn lemma_sorted_names(s: Seq<Seq<char>>)
    ensures
        strictly_sorted(sorted_names(s)),
        sorted_names(s).to_set() == s.to_set(),
    decreases s.len(),
{
    if s.len() > 0 {
        lemma_sorted_names(s.drop_last());
        lemma_insert_sorted(s.last(), sorted_names(s.drop_last()));
        assert(s.to_set() =~= s.drop_last().to_set().insert(s.last())) by {
            assert(s =~= s.drop_last().push(s.last()));
            assert forall|y: Seq<char>| s.contains(y) <==> s.drop_last().contains(y) || y == s.last() by {
                if s.contains(y) {
                    let k = choose|k: int| 0 <= k < s.len() && s[k] == y;
                    if k < s.len() - 1 {
                        assert(s.drop_last()[k] == y);
                    }
                }
                if s.drop_last().contains(y) {
                    let k = choose|k: int| 0 <= k < s.drop_last().len() && s.drop_last()[k] == y;
                    assert(s[k] == y);
                }
                if y == s.last() {
                    assert(s[s.len() - 1] == y);
                }
            }
        }
    } else {
        assert(s.to_set() =~= Set::empty());
        assert(sorted_names(s).to_set() =~= Set::empty());
    }
}

/// Whether two strings are equal.
pub fn text_equal(a: &str, b: &str) -> (r: bool)
    ensures
        r == (a@ == b@),
{
    let n = a.unicode_len();
    let m = b.unicode_len();
    if n != m {
        return false;
    }
    let mut i: usize = 0;
    while i < n
        invariant
            n == a@.len(),
            m == b@.len(),
            n == m,
            i <= n,
            a@.subrange(0, i as int) == b@.subrange(0, i as int),
        decreases n - i,
    {
        if a.get_char(i) != b.get_char(i) {
            return false;
        }
        assert(a@.subrange(0, i + 1) =~= a@.subrange(0, i as int).push(a@[i as int]));
        assert(b@.subrange(0, i + 1) =~= b@.subrange(0, i as int).push(b@[i as int]));
        i = i + 1;
    }
    assert(a@ =~= a@.subrange(0, n as int));
    assert(b@ =~= b@.subrange(0, n as int));
    true
}

/// Whether `a` comes before `b` in the order of `str`.
pub fn text_less(a: &str, b: &str) -> (r: bool)
    ensures
        r == text_lt(a@, b@),
{
    let n = a.unicode_len();
    let m = b.unicode_len();
    let mut i: usize = 0;
    assert(a@.skip(0) =~= a@);
    assert(b@.skip(0) =~= b@);
    while i < n && i < m
        invariant
            n == a@.len(),
            m == b@.len(),
            i <= n,
            i <= m,
            text_lt(a@, b@) == text_lt(a@.skip(i as int), b@.skip(i as int)),
        decreases n - i,
    {
        let c = a.get_char(i);
        let d = b.get_char(i);
        if c != d {
            return (c as u32) < (d as u32);
        }
        assert(a@.skip(i as int)[0] == c);
        assert(a@.skip(i as int).drop_first() =~= a@.skip(i + 1));
        assert(b@.skip(i as int).drop_first() =~= b@.skip(i + 1));
        i = i + 1;
    }
    i < m
}

/// Puts `x` into its place in the sorted list `v`, unless a name equal to it
/// is there already.
fn insert_name(sorted: Vec<&'static str>, x: &'static str) -> (r: Vec<&'static str>)
    ensures
        names(r@) == insert_sorted(x@, names(sorted@)),
{
    let mut v = sorted;
    let ghost s = names(v@);
    let mut j: usize = 0;
    assert(s.skip(0) =~= s);
    assert(s.take(0) + insert_sorted(x@, s) =~= insert_sorted(x@, s));
    while j < v.len()
        invariant
            s == names(v@),
            s == names(sorted@),
            j <= v.len(),
            insert_sorted(x@, s) == s.take(j as int) + insert_sorted(x@, s.skip(j as int)),
        decreases v.len() - j,
    {
        let ghost t = s.skip(j as int);
        assert(t[0] == v@[j as int]@);
        if text_equal(x, v[j]) {
            assert(insert_sorted(x@, t) == t);
            assert(s =~= s.take(j as int) + t);
            return v;
        }
        if text_less(x, v[j]) {
            assert(insert_sorted(x@, t) == seq![x@] + t);
            v.insert(j, x);
            assert(names(v@) =~= s.take(j as int) + (seq![x@] + t));
            return v;
        }
        assert(t.drop_first() =~= s.skip(j + 1));
        assert(s.take(j as int) + (seq![t[0]] + insert_sorted(x@, t.drop_first())) =~= s.take(j + 1)
            + insert_sorted(x@, s.skip(j + 1)));
        j = j + 1;
    }
    v.push(x);
    assert(s.skip(j as int) =~= Seq::<Seq<char>>::empty());
    assert(names(v@) =~= s.take(j as int) + seq![x@]);
    v
}

/// Sorts a list of names and removes repeated ones, as `sort` followed by
/// `dedup` does.
pub fn sort_names(v: Vec<&'static str>) -> (r: Vec<&'static str>)
    ensures
        names(r@) == sorted_names(names(v@)),
{
    let mut r: Vec<&'static str> = Vec::new();
    let mut i: usize = 0;
    while i < v.len()
        invariant
            i <= v.len(),
            names(r@) == sorted_names(names(v@.take(i as int))),
        decreases v.len() - i,
    {
        let ghost before = names(v@.take(i as int));
        let ghost after = names(v@.take(i + 1));
        assert(after.drop_last() =~= before);
        assert(after.last() == v@[i as int]@);
        r = insert_name(r, v[i]);
        i = i + 1;
    }
    assert(v@.take(i as int) =~= v@);
    r
}

} // verus!
