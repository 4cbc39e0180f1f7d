//! Lexicographic orders on texts and on paths, and their laws.

use vstd::prelude::*;

verus! {

/// `a` comes before `b` in the lexicographic order built on `lt`: at the first
/// position where they differ `a` has the smaller element, or `a` is a proper
/// prefix of `b`.
pub open spec fn lex_before<T>(a: Seq<T>, b: Seq<T>, lt: spec_fn(T, T) -> bool) -> bool {
    exists|k: int| #[trigger] splits_at(a, b, k, lt)
}

/// `a` and `b` agree before position `k`, where `a` ends first or is smaller.
pub open spec fn splits_at<T>(a: Seq<T>, b: Seq<T>, k: int, lt: spec_fn(T, T) -> bool) -> bool {
    &&& 0 <= k <= a.len()
    &&& k <= b.len()
    &&& forall|i: int| 0 <= i < k ==> a[i] == b[i]
    &&& if k == a.len() {
        k < b.len()
    } else {
        k < b.len() && lt(a[k], b[k])
    }
}

/// `lt` is a strict total order.
pub open spec fn strict_total<T>(lt: spec_fn(T, T) -> bool) -> bool {
    &&& forall|x: T| !(#[trigger] lt(x, x))
    &&& forall|x: T, y: T, z: T| #[trigger] lt(x, y) && #[trigger] lt(y, z) ==> lt(x, z)
    &&& forall|x: T, y: T| x != y ==> #[trigger] lt(x, y) || #[trigger] lt(y, x)
}

/// Order of characters by code point.
pub open spec fn char_lt(x: char, y: char) -> bool {
    x < y
}

/// The order of characters by code point, as a relation.
pub open spec fn char_order() -> spec_fn(char, char) -> bool {
    |x: char, y: char| char_lt(x, y)
}

/// `a` sorts before `b` as texts: by code point, which for UTF-8 text is the
/// byte order std uses to compare `str` and `OsStr`.
pub open spec fn text_before(a: Seq<char>, b: Seq<char>) -> bool {
    lex_before(a, b, char_order())
}

/// The order of texts, as a relation.
pub open spec fn text_order() -> spec_fn(Seq<char>, Seq<char>) -> bool {
    |x: Seq<char>, y: Seq<char>| text_before(x, y)
}

/// `p` sorts before `q` as paths made of the given components, compared
/// component by component as std compares `Path`s.
pub open spec fn path_before(p: Seq<Seq<char>>, q: Seq<Seq<char>>) -> bool {
    lex_before(p, q, text_order())
}

/// Texts are strictly and totally ordered.
pub proof fn lemma_text_order()
    ensures
        strict_total(text_order()),
{
    let c = char_order();
    assert(strict_total(char_order()));
    lemma_lex_strict_total(char_order());
    assert(text_order() =~= (|a: Seq<char>, b: Seq<char>| lex_before(a, b, char_order())));
}

/// Paths are strictly and totally ordered.
pub proof fn lemma_path_order()
    ensures
        strict_total(|p: Seq<Seq<char>>, q: Seq<Seq<char>>| path_before(p, q)),
{
    lemma_text_order();
    lemma_lex_strict_total(text_order());
    assert((|p: Seq<Seq<char>>, q: Seq<Seq<char>>| path_before(p, q)) =~= (|a: Seq<Seq<char>>, b: Seq<Seq<char>>| lex_before(a, b, text_order())));
}

/// Whether text `a` sorts before text `b`.
pub fn text_precedes(a: &Vec<char>, b: &Vec<char>) -> (r: bool)
    ensures
        r == text_before(a@, b@),
{
    let m = if a.len() < b.len() { a.len() } else { b.len() };
    let mut i: usize = 0;
    while i < m && a[i] == b[i]
        invariant
            m <= a@.len(),
            m <= b@.len(),
            i <= m,
            forall|j: int| 0 <= j < i ==> a@[j] == b@[j],
        decreases m - i,
    {
        i = i + 1;
    }
    let r = if i < m {
        a[i] < b[i]
    } else {
        a.len() < b.len()
    };
    proof {
        if r {
            assert(splits_at(a@, b@, i as int, char_order()));
        } else {
            assert forall|k: int| !splits_at(a@, b@, k, char_order()) by {
                if splits_at(a@, b@, k, char_order()) && k > i && i < m {
                    assert(a@[i as int] == b@[i as int]);
                }
            }
        }
    }
    r
}



/// The lexicographic order built on a strict total order is strict and total.
pub proof fn lemma_lex_strict_total<T>(lt: spec_fn(T, T) -> bool)
    requires
        strict_total(lt),
    ensures
        strict_total(|a: Seq<T>, b: Seq<T>| lex_before(a, b, lt)),
{
    let l = |a: Seq<T>, b: Seq<T>| lex_before(a, b, lt);
    assert forall|a: Seq<T>| !(#[trigger] l(a, a)) by {
        if lex_before(a, a, lt) {
            let k = choose|k: int| #[trigger] splits_at(a, a, k, lt);
            if k < a.len() {
                assert(lt(a[k], a[k]));
            }
        }
    }
    assert forall|a: Seq<T>, b: Seq<T>, c: Seq<T>| #[trigger] l(a, b) && #[trigger] l(b, c) implies l(
        a,
        c,
    ) by {
        let k1 = choose|k: int| #[trigger] splits_at(a, b, k, lt);
        let k2 = choose|k: int| #[trigger] splits_at(b, c, k, lt);
        if k1 < k2 {
            assert(splits_at(a, c, k1, lt));
        } else if k2 < k1 {
            assert(splits_at(a, c, k2, lt));
        } else {
            if k1 < a.len() {
                assert(lt(a[k1], b[k1]) && lt(b[k1], c[k1]));
            }
            assert(splits_at(a, c, k1, lt));
        }
    }
    assert forall|a: Seq<T>, b: Seq<T>| a != b implies #[trigger] l(a, b) || #[trigger] l(b, a) by {
        lemma_lex_total(a, b, lt);
    }
}

proof fn lemma_lex_total<T>(a: Seq<T>, b: Seq<T>, lt: spec_fn(T, T) -> bool)
    requires
        strict_total(lt),
        a != b,
    ensures
        lex_before(a, b, lt) || lex_before(b, a, lt),
{
    let m = if a.len() < b.len() { a.len() } else { b.len() };
    if forall|i: int| 0 <= i < m ==> a[i] == b[i] {
        if a.len() < b.len() {
            assert(splits_at(a, b, a.len() as int, lt));
        } else if b.len() < a.len() {
            assert(splits_at(b, a, b.len() as int, lt));
        } else {
            assert(a =~= b);
        }
    } else {
        let k = first_difference(a, b, m as int, 0);
        if lt(a[k], b[k]) {
            assert(splits_at(a, b, k, lt));
        } else {
            assert(lt(b[k], a[k]));
            assert(splits_at(b, a, k, lt));
        }
    }
}

/// The first position below `m`, from `j` on, where `a` and `b` differ.
pub proof fn first_difference<T>(a: Seq<T>, b: Seq<T>, m: int, j: int) -> (k: int)
    requires
        0 <= j <= m,
        m <= a.len(),
        m <= b.len(),
        forall|i: int| 0 <= i < j ==> a[i] == b[i],
        exists|i: int| j <= i < m && a[i] != b[i],
    ensures
        j <= k < m,
        a[k] != b[k],
        forall|i: int| 0 <= i < k ==> a[i] == b[i],
    decreases m - j,
{
    if a[j] != b[j] {
        j
    } else {
        first_difference(a, b, m, j + 1)
    }
}

/// The character views of a path held as component character vectors.
pub open spec fn components_view(p: Seq<Vec<char>>) -> Seq<Seq<char>> {
    p.map_values(|c: Vec<char>| c@)
}

/// Whether two character vectors hold the same text.
pub fn same_chars(a: &Vec<char>, b: &Vec<char>) -> (r: bool)
    ensures
        r == (a@ == b@),
{
    if a.len() != b.len() {
        return false;
    }
    let mut i: usize = 0;
    while i < a.len()
        invariant
            a@.len() == b@.len(),
            i <= a@.len(),
            forall|j: int| 0 <= j < i ==> a@[j] == b@[j],
        decreases a@.len() - i,
    {
        if a[i] != b[i] {
            return false;
        }
        i = i + 1;
    }
    assert(a@ =~= b@);
    true
}

/// Whether path `p` sorts before path `q`.
pub fn path_precedes(p: &Vec<Vec<char>>, q: &Vec<Vec<char>>) -> (r: bool)
    ensures
        r == path_before(components_view(p@), components_view(q@)),
{
    let ghost a = components_view(p@);
    let ghost b = components_view(q@);
    let m = if p.len() < q.len() { p.len() } else { q.len() };
    let mut i: usize = 0;
    while i < m && same_chars(&p[i], &q[i])
        invariant
            a == components_view(p@),
            b == components_view(q@),
            m <= p@.len(),
            m <= q@.len(),
            i <= m,
            forall|j: int| 0 <= j < i ==> a[j] == b[j],
        decreases m - i,
    {
        i = i + 1;
    }
    let r = if i < m {
        text_precedes(&p[i], &q[i])
    } else {
        p.len() < q.len()
    };
    proof {
        if r {
            assert(splits_at(a, b, i as int, text_order()));
        } else {
            assert forall|k: int| !splits_at(a, b, k, text_order()) by {
                if splits_at(a, b, k, text_order()) && k > i && i < m {
                    assert(a[i as int] == b[i as int]);
                }
            }
        }
    }
    r
}

/// The laws of the path order, stated on `path_before` itself.
pub proof fn lemma_path_laws()
    ensures
        forall|p: Seq<Seq<char>>| !(#[trigger] path_before(p, p)),
        forall|p: Seq<Seq<char>>, q: Seq<Seq<char>>, r: Seq<Seq<char>>|
            #[trigger] path_before(p, q) && #[trigger] path_before(q, r) ==> path_before(p, r),
        forall|p: Seq<Seq<char>>, q: Seq<Seq<char>>|
            p != q ==> #[trigger] path_before(p, q) || #[trigger] path_before(q, p),
{
    lemma_path_order();
    let l = |p: Seq<Seq<char>>, q: Seq<Seq<char>>| path_before(p, q);
    assert forall|p: Seq<Seq<char>>| !(#[trigger] path_before(p, p)) by {
        assert(!l(p, p));
    }
    assert forall|p: Seq<Seq<char>>, q: Seq<Seq<char>>, r: Seq<Seq<char>>|
        #[trigger] path_before(p, q) && #[trigger] path_before(q, r) implies path_before(p, r) by {
        assert(l(p, q) && l(q, r));
    }
    assert forall|p: Seq<Seq<char>>, q: Seq<Seq<char>>|
        p != q implies #[trigger] path_before(p, q) || #[trigger] path_before(q, p) by {
        assert(l(p, q) || l(q, p));
    }
}

/// The laws of the text order, stated on `text_before` itself.
pub proof fn lemma_text_laws()
    ensures
        forall|a: Seq<char>| !(#[trigger] text_before(a, a)),
        forall|a: Seq<char>, b: Seq<char>, c: Seq<char>|
            #[trigger] text_before(a, b) && #[trigger] text_before(b, c) ==> text_before(a, c),
        forall|a: Seq<char>, b: Seq<char>|
            a != b ==> #[trigger] text_before(a, b) || #[trigger] text_before(b, a),
{
    lemma_text_order();
    let l = text_order();
    assert forall|a: Seq<char>| !(#[trigger] text_before(a, a)) by {
        assert(!l(a, a));
    }
    assert forall|a: Seq<char>, b: Seq<char>, c: Seq<char>|
        #[trigger] text_before(a, b) && #[trigger] text_before(b, c) implies text_before(a, c) by {
        assert(l(a, b) && l(b, c));
    }
    assert forall|a: Seq<char>, b: Seq<char>|
        a != b implies #[trigger] text_before(a, b) || #[trigger] text_before(b, a) by {
        assert(l(a, b) || l(b, a));
    }
}

} // verus!
