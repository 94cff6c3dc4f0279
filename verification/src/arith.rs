//! Integer arithmetic as the machine does it, and sums over maps.

use vstd::prelude::*;

verus! {

/// Whether `x` is an `i128`.
pub open spec fn fits(x: int) -> bool {
    i128::MIN <= x <= i128::MAX
}

/// The quotient of `a` by a positive `b`, rounded towards zero.
pub open spec fn quotient(a: int, b: int) -> int {
    if a >= 0 {
        a / b
    } else {
        -((-a) / b)
    }
}

/// What [`quotient`] leaves over, with the sign of `a`.
pub open spec fn remainder(a: int, b: int) -> int {
    if a >= 0 {
        a % b
    } else {
        -((-a) % b)
    }
}

/// The sum of `weight` over the entries of a finite map.
pub open spec fn total<K, V>(m: Map<K, V>, weight: spec_fn(K, V) -> int) -> int
    decreases m.dom().len(),
{
    if m.dom().finite() && m.dom().len() > 0 {
        let k = m.dom().choose();
        weight(k, m[k]) + total(m.remove(k), weight)
    } else {
        0
    }
}

/// What one key weighs, nothing where it is absent.
pub open spec fn weight_at<K, V>(m: Map<K, V>, weight: spec_fn(K, V) -> int, k: K) -> int {
    if m.contains_key(k) {
        weight(k, m[k])
    } else {
        0
    }
}

/// A sum may be taken starting from any key.
pub proof fn lemma_total_remove<K, V>(m: Map<K, V>, weight: spec_fn(K, V) -> int, k: K)
    requires
        m.dom().finite(),
    ensures
        m.remove(k).dom().finite(),
        total(m, weight) == weight_at(m, weight, k) + total(m.remove(k), weight),
    decreases m.dom().len(),
{
    if m.contains_key(k) {
        let c = m.dom().choose();
        if c != k {
            lemma_total_remove(m.remove(c), weight, k);
            lemma_total_remove(m.remove(k), weight, c);
            assert(m.remove(c).remove(k) =~= m.remove(k).remove(c));
        }
    } else {
        assert(m.remove(k) =~= m);
    }
}

/// Writing one entry moves a sum by the change in that entry's weight.
pub proof fn lemma_total_insert<K, V>(m: Map<K, V>, weight: spec_fn(K, V) -> int, k: K, v: V)
    requires
        m.dom().finite(),
    ensures
        m.insert(k, v).dom().finite(),
        total(m.insert(k, v), weight) == total(m, weight) - weight_at(m, weight, k) + weight(k, v),
{
    lemma_total_remove(m.insert(k, v), weight, k);
    assert(m.insert(k, v).remove(k) =~= m.remove(k));
    lemma_total_remove(m, weight, k);
}

/// The sum over no entries is nothing.
pub proof fn lemma_total_empty<K, V>(weight: spec_fn(K, V) -> int)
    ensures
        Map::<K, V>::empty().dom().finite(),
        total(Map::<K, V>::empty(), weight) == 0,
{
    assert(Map::<K, V>::empty().dom() =~= Set::empty());
}

/// A sum of nothings is nothing.
pub proof fn lemma_total_nothing<K, V>(m: Map<K, V>, weight: spec_fn(K, V) -> int)
    requires
        m.dom().finite(),
        forall|k: K| #[trigger] m.contains_key(k) ==> weight(k, m[k]) == 0,
    ensures
        total(m, weight) == 0,
    decreases m.dom().len(),
{
    if m.dom().len() > 0 {
        let c = m.dom().choose();
        assert(m.contains_key(c));
        assert forall|k: K| #[trigger] m.remove(c).contains_key(k) implies weight(
            k,
            m.remove(c)[k],
        ) == 0 by {
            assert(m.contains_key(k));
        }
        lemma_total_nothing(m.remove(c), weight);
    }
}

/// Weights that are nowhere larger have no larger sum, and where one is smaller
/// by some amount the sum is smaller by at least that.
pub proof fn lemma_total_bounds<K, V>(
    m: Map<K, V>,
    below: spec_fn(K, V) -> int,
    above: spec_fn(K, V) -> int,
)
    requires
        m.dom().finite(),
        forall|k: K| #[trigger] m.contains_key(k) ==> below(k, m[k]) <= above(k, m[k]),
    ensures
        total(m, below) <= total(m, above),
        forall|k: K| #[trigger]
            m.contains_key(k) ==> total(m, below) + (above(k, m[k]) - below(k, m[k])) <= total(
                m,
                above,
            ),
    decreases m.dom().len(),
{
    if m.dom().len() > 0 {
        let c = m.dom().choose();
        assert(m.contains_key(c));
        assert forall|k: K| #[trigger] m.remove(c).contains_key(k) implies below(
            k,
            m.remove(c)[k],
        ) <= above(k, m.remove(c)[k]) by {
            assert(m.contains_key(k));
        }
        lemma_total_bounds(m.remove(c), below, above);
        assert forall|k: K| #[trigger] m.contains_key(k) implies total(m, below) + (above(k, m[k])
            - below(k, m[k])) <= total(m, above) by {
            if k != c {
                assert(m.remove(c).contains_key(k));
            }
        }
    } else {
        assert forall|k: K| #[trigger] m.contains_key(k) implies total(m, below) + (above(k, m[k])
            - below(k, m[k])) <= total(m, above) by {
            assert(m.dom() =~= Set::empty());
        }
    }
}

/// Adding `factor` times one weight to another adds `factor` times its sum.
pub proof fn lemma_total_linear<K, V>(
    m: Map<K, V>,
    base: spec_fn(K, V) -> int,
    unit: spec_fn(K, V) -> int,
    factor: int,
    combined: spec_fn(K, V) -> int,
)
    requires
        m.dom().finite(),
        forall|k: K| #[trigger]
            m.contains_key(k) ==> combined(k, m[k]) == base(k, m[k]) + factor * unit(k, m[k]),
    ensures
        total(m, combined) == total(m, base) + factor * total(m, unit),
    decreases m.dom().len(),
{
    if m.dom().len() > 0 {
        let c = m.dom().choose();
        assert(m.contains_key(c));
        assert forall|k: K| #[trigger] m.remove(c).contains_key(k) implies combined(
            k,
            m.remove(c)[k],
        ) == base(k, m.remove(c)[k]) + factor * unit(k, m.remove(c)[k]) by {
            assert(m.contains_key(k));
        }
        lemma_total_linear(m.remove(c), base, unit, factor, combined);
        let u = unit(c, m[c]);
        let rest = total(m.remove(c), unit);
        assert(factor * (u + rest) == factor * u + factor * rest) by (nonlinear_arith);
    } else {
        assert(factor * 0 == 0);
    }
}

} // verus!
