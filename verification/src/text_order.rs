//! Lexicographic order of texts by Unicode scalar value (the order of `str` comparison), and
//! sorting of values by a text key.

use vstd::prelude::*;

verus! {

broadcast use vstd::seq_lib::group_to_multiset_ensures;

/// `a` comes before or equals `b` in lexicographic order of scalar values.
pub open spec fn text_le(a: Seq<char>, b: Seq<char>) -> bool
    decreases a.len(),
{
    if a.len() == 0 {
        true
    } else if b.len() == 0 {
        false
    } else if a[0] != b[0] {
        (a[0] as int) < (b[0] as int)
    } else {
        text_le(a.drop_first(), b.drop_first())
    }
}

/// Any two texts are ordered one way or the other.
pub proof fn lemma_text_le_total(a: Seq<char>, b: Seq<char>)
    ensures
        text_le(a, b) || text_le(b, a),
    decreases a.len(),
{
    if a.len() > 0 && b.len() > 0 && a[0] == b[0] {
        lemma_text_le_total(a.drop_first(), b.drop_first());
    }
}

/// The order is transitive.
pub proof fn lemma_text_le_transitive(a: Seq<char>, b: Seq<char>, c: Seq<char>)
    requires
        text_le(a, b),
        text_le(b, c),
    ensures
        text_le(a, c),
    decreases a.len(),
{
    if a.len() > 0 && b.len() > 0 && c.len() > 0 && a[0] == b[0] && b[0] == c[0] {
        lemma_text_le_transitive(a.drop_first(), b.drop_first(), c.drop_first());
    }
}

/// Texts ordered both ways are equal.
pub proof fn lemma_text_le_antisymmetric(a: Seq<char>, b: Seq<char>)
    requires
        text_le(a, b),
        text_le(b, a),
    ensures
        a == b,
    decreases a.len(),
{
    if a.len() > 0 && b.len() > 0 {
        lemma_text_le_antisymmetric(a.drop_first(), b.drop_first());
        assert(a =~= seq![a[0]] + a.drop_first());
        assert(b =~= seq![b[0]] + b.drop_first());
    }
}

/// Whether `a` comes before or equals `b`.
pub fn text_before_eq(a: &str, b: &str) -> (r: bool)
    ensures
        r == text_le(a@, b@),
{
    let x = crate::text::chars_of(a);
    let y = crate::text::chars_of(b);
    let mut i: usize = 0;
    proof {
        assert(a@.subrange(0, a@.len() as int) =~= a@);
        assert(b@.subrange(0, b@.len() as int) =~= b@);
    }
    while i < x.len() && i < y.len()
        invariant
            i <= x@.len(),
            i <= y@.len(),
            x@ == a@,
            y@ == b@,
            text_le(a@, b@) == text_le(
                a@.subrange(i as int, a@.len() as int),
                b@.subrange(i as int, b@.len() as int),
            ),
        decreases x@.len() - i,
    {
        let c = x[i];
        let d = y[i];
        let ghost sa = a@.subrange(i as int, a@.len() as int);
        let ghost sb = b@.subrange(i as int, b@.len() as int);
        proof {
            assert(sa[0] == c);
            assert(sb[0] == d);
        }
        if c != d {
            return c < d;
        }
        proof {
            assert(sa.drop_first() =~= a@.subrange(i + 1, a@.len() as int));
            assert(sb.drop_first() =~= b@.subrange(i + 1, b@.len() as int));
        }
        i = i + 1;
    }
    proof {
        assert(a@.subrange(i as int, a@.len() as int).len() == a@.len() - i);
    }
    i == x.len()
}

/// Values that carry a text key.
pub trait TextKeyed {
    spec fn key_view(&self) -> Seq<char>;

    fn text_key(&self) -> (r: &str)
        ensures
            r@ == self.key_view();
}

/// The order of keyed values by their keys.
pub open spec fn key_le<T: TextKeyed>(x: T, y: T) -> bool {
    text_le(x.key_view(), y.key_view())
}

/// The values are in order of their keys.
pub open spec fn sorted_by_key<T: TextKeyed>(s: Seq<T>) -> bool {
    forall|i: int, j: int| 0 <= i < j < s.len() ==> key_le(#[trigger] s[i], #[trigger] s[j])
}

/// Sort values by their text keys. The result holds the same values, each as often, in
/// lexicographic order of their keys.
pub fn sort_by_text_key<T: TextKeyed>(v: Vec<T>) -> (r: Vec<T>)
    ensures
        r@.to_multiset() == v@.to_multiset(),
        sorted_by_key(r@),
{
    let ghost initial = v@;
    let mut rest = v;
    let mut out: Vec<T> = Vec::new();
    while rest.len() > 0
        invariant
            out@.to_multiset().add(rest@.to_multiset()) == initial.to_multiset(),
            sorted_by_key(out@),
        decreases rest@.len(),
    {
        let ghost before = rest@;
        let x = rest.pop().unwrap();
        proof {
            assert(before =~= rest@.push(x));
            vstd::seq_lib::lemma_multiset_commutative(rest@, seq![x]);
            assert(rest@ + seq![x] =~= rest@.push(x));
        }
        let mut p: usize = 0;
        while p < out.len() && text_before_eq(out[p].text_key(), x.text_key())
            invariant
                p <= out@.len(),
                forall|j: int| 0 <= j < p ==> key_le(#[trigger] out@[j], x),
            decreases out@.len() - p,
        {
            p = p + 1;
        }
        let ghost old_out = out@;
        proof {
            if p < out@.len() {
                assert(!key_le(out@[p as int], x));
                lemma_text_le_total(out@[p as int].key_view(), x.key_view());
            }
        }
        out.insert(p, x);
        proof {
            assert(out@ =~= old_out.insert(p as int, x));
            assert forall|i: int, j: int| 0 <= i < j < out@.len() implies key_le(
                #[trigger] out@[i],
                #[trigger] out@[j],
            ) by {
                if j > p {
                    let below = old_out[j - 1];
                    if j - 1 > p {
                        assert(key_le(old_out[p as int], below));
                        lemma_text_le_transitive(
                            x.key_view(),
                            old_out[p as int].key_view(),
                            below.key_view(),
                        );
                    }
                    assert(key_le(x, below));
                    if i < p {
                        lemma_text_le_transitive(out@[i].key_view(), x.key_view(), below.key_view());
                    } else if i > p {
                        assert(key_le(old_out[i - 1], below));
                    }
                }
            }
        }
    }
    proof {
        assert(rest@ =~= Seq::<T>::empty());
        assert(out@.to_multiset().add(Seq::<T>::empty().to_multiset()) =~= out@.to_multiset());
    }
    out
}

impl TextKeyed for String {
    open spec fn key_view(&self) -> Seq<char> {
        self@
    }

    fn text_key(&self) -> (r: &str) {
        self.as_str()
    }
}

impl TextKeyed for crate::domain::path::StorageKey {
    open spec fn key_view(&self) -> Seq<char> {
        self@
    }

    fn text_key(&self) -> (r: &str) {
        self.as_str()
    }
}

/// Texts in lexicographic order.
pub open spec fn texts_sorted(s: Seq<Seq<char>>) -> bool {
    forall|i: int, j: int| 0 <= i < j < s.len() ==> text_le(#[trigger] s[i], #[trigger] s[j])
}

/// Sequences holding the same values, each as often, still do after mapping each value.
pub proof fn lemma_map_values_multiset<A, B>(a: Seq<A>, b: Seq<A>, f: spec_fn(A) -> B)
    requires
        a.to_multiset() == b.to_multiset(),
    ensures
        a.map_values(f).to_multiset() == b.map_values(f).to_multiset(),
    decreases a.len(),
{
    if a.len() == 0 {
        assert(a.to_multiset().len() == a.len());
        assert(b.to_multiset().len() == b.len());
        assert(b.len() == 0);
        assert(a.map_values(f) =~= Seq::<B>::empty());
        assert(b.map_values(f) =~= Seq::<B>::empty());
    } else {
        let x = a.last();
        let a0 = a.drop_last();
        assert(a =~= a0.push(x));
        assert(a.to_multiset() =~= a0.to_multiset().insert(x));
        assert(b.to_multiset().count(x) > 0);
        assert(b.contains(x));
        let i = choose|i: int| 0 <= i < b.len() && b[i] == x;
        let b0 = b.remove(i);
        assert(b0.to_multiset() =~= b.to_multiset().remove(x));
        assert(a0.to_multiset() =~= b0.to_multiset());
        lemma_map_values_multiset(a0, b0, f);
        assert(a.map_values(f) =~= a0.map_values(f).push(f(x)));
        assert(b0.map_values(f) =~= b.map_values(f).remove(i));
        assert(b.map_values(f)[i] == f(x));
        let mb = b.map_values(f).to_multiset();
        assert(b0.map_values(f).to_multiset() =~= mb.remove(f(x)));
        assert(mb.count(f(x)) > 0);
        assert(mb =~= mb.remove(f(x)).insert(f(x)));
    }
}

} // verus!
