use vstd::prelude::*;
use vstd::std_specs::cmp::PartialEqSpec;
use vstd::std_specs::cmp::PartialOrdIs;
use vstd::std_specs::cmp::PartialOrdSpec;

pub mod vec2;
pub mod vec3;

verus! {

/// The value that `clamp(value, min, max)` returns, in terms of the
/// ordering that `T`'s `PartialOrd` specifies.
pub open spec fn clamp_spec<T: PartialOrd>(value: T, min: T, max: T) -> T {
    if value.is_lt(&min) {
        min
    } else if value.is_gt(&max) {
        max
    } else {
        value
    }
}

/// Returns `min` when `value < min`, otherwise `max` when `value > max`,
/// otherwise `value`.
pub fn clamp<T: PartialOrd>(value: T, min: T, max: T) -> (r: T)
    ensures
        T::obeys_partial_cmp_spec() ==> r == clamp_spec(value, min, max),
{
    if value < min {
        min
    } else if value > max {
        max
    } else {
        value
    }
}

} // verus!

verus! {

/// On `u32`, `clamp` follows the numeric order.
pub proof fn lemma_clamp_u32(value: u32, min: u32, max: u32)
    ensures
        u32::obeys_partial_cmp_spec(),
        clamp_spec(value, min, max) == (if value < min {
            min
        } else if value > max {
            max
        } else {
            value
        }),
{
}

} // verus!

verus! {

/// On `u32`, with `min <= max`, `clamp` lands within `[min, max]`, and
/// leaves a value that is already there unchanged.
pub proof fn law_clamp_within_bounds(value: u32, min: u32, max: u32)
    requires
        min <= max,
    ensures
        min <= clamp_spec(value, min, max) <= max,
        min <= value <= max ==> clamp_spec(value, min, max) == value,
{
    lemma_clamp_u32(value, min, max);
}

} // verus!

verus! {

/// The ordering that `T`'s `PartialOrd` specifies compares `a` and `b`.
pub open spec fn comparable<T: PartialOrd>(a: T, b: T) -> bool {
    a.partial_cmp_spec(&b) is Some
}

/// Under an ordering that keeps the laws of a partial order, `<` is
/// irreflexive, `a <= b` excludes `a > b`, and `<=` chains through values
/// that the ordering compares.
proof fn lemma_order_facts<T: PartialOrd>(a: T, b: T, c: T)
    requires
        vstd::laws_cmp::obeys_partial_cmp_spec_properties::<T>(),
    ensures
        !a.is_lt(&a),
        !a.is_gt(&a),
        a.is_le(&b) ==> !a.is_gt(&b) && !b.is_lt(&a),
        comparable(a, b) && !a.is_lt(&b) ==> b.is_le(&a),
        a.is_le(&b) && b.is_le(&c) && comparable(a, c) ==> a.is_le(&c),
        a.is_le(&b) && b.is_lt(&c) && comparable(a, c) ==> a.is_lt(&c),
{
    reveal(vstd::laws_cmp::obeys_partial_cmp_spec_properties);
    reveal(vstd::laws_eq::obeys_eq_spec_properties);
    if comparable(a, b) && !a.is_lt(&b) {
        if a.is_gt(&b) {
            assert(b.is_lt(&a));
        } else {
            assert(a.eq_spec(&b));
            assert(b.eq_spec(&a));
        }
    }
    if a.is_le(&b) && b.is_le(&c) && comparable(a, c) {
        if a.is_gt(&c) {
            assert(c.is_lt(&a));
            if b.is_lt(&c) {
                assert(b.is_lt(&a));
                assert(a.is_gt(&b));
            } else {
                assert(b.eq_spec(&c));
                if a.is_lt(&b) {
                    assert(c.is_lt(&b));
                    assert(b.is_gt(&c));
                } else {
                    assert(a.eq_spec(&b));
                    assert(a.eq_spec(&c));
                }
            }
        }
    }
    if a.is_le(&b) && b.is_lt(&c) && comparable(a, c) {
        if !a.is_lt(&c) {
            if a.is_gt(&c) {
                assert(c.is_lt(&a));
                if a.is_lt(&b) {
                    assert(c.is_lt(&b));
                    assert(b.is_gt(&c));
                } else {
                    assert(a.eq_spec(&b));
                    assert(c.is_gt(&b));
                }
            } else {
                assert(a.eq_spec(&c));
                if a.is_lt(&b) {
                    assert(c.eq_spec(&a));
                    assert(b.is_gt(&a));
                } else {
                    assert(a.eq_spec(&b));
                    assert(b.eq_spec(&a));
                    assert(b.eq_spec(&c));
                }
            }
        }
    }
}

/// Clamping twice into the same range `[min, max]` gives what clamping
/// once gives, for any `T` whose ordering keeps the laws of a partial order.
pub proof fn law_clamp_idempotent<T: PartialOrd>(value: T, min: T, max: T)
    requires
        vstd::laws_cmp::obeys_partial_cmp_spec_properties::<T>(),
        min.is_le(&max),
    ensures
        clamp_spec(clamp_spec(value, min, max), min, max) == clamp_spec(value, min, max),
{
    lemma_order_facts(min, max, max);
    lemma_order_facts(max, min, min);
}

/// Clamping into a range `[min, max]` keeps the order of two values, for any
/// `T` whose ordering keeps the laws of a partial order and compares each
/// two of the values involved.
pub proof fn law_clamp_monotonic<T: PartialOrd>(v1: T, v2: T, min: T, max: T)
    requires
        vstd::laws_cmp::obeys_partial_cmp_spec_properties::<T>(),
        min.is_le(&max),
        v1.is_le(&v2),
        comparable(v1, min),
        comparable(v1, max),
        comparable(v2, min),
        comparable(v2, max),
        comparable(min, min),
        comparable(max, max),
    ensures
        clamp_spec(v1, min, max).is_le(&clamp_spec(v2, min, max)),
{
    lemma_order_facts(min, min, min);
    lemma_order_facts(max, max, max);
    lemma_order_facts(v2, min, min);
    lemma_order_facts(v1, max, max);
    lemma_order_facts(v1, v2, min);
    lemma_order_facts(v2, max, max);
    if !v1.is_lt(&min) && v1.is_gt(&max) && !v2.is_gt(&max) {
        lemma_order_facts(max, v2, v2);
        lemma_order_facts(v2, max, max);
        lemma_order_facts(v1, v2, max);
    }
}

} // verus!
