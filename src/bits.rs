use vstd::prelude::*;

verus! {

/// Whether bit `pos` of a container value is set: what a getter reads.
pub open spec fn bit_set(value: u128, pos: u32) -> bool {
    value & (1u128 << pos) != 0
}

/// The container value after a setter wrote `on` to bit `pos`.
pub open spec fn with_bit(value: u128, pos: u32, on: bool) -> u128 {
    if on {
        value | (1u128 << pos)
    } else {
        value & !(1u128 << pos)
    }
}

/// A value fits a container of `width` bits.
pub open spec fn fits(value: u128, width: u32) -> bool {
    width >= 128 || value < (1u128 << width)
}

/// Reads bit `pos` of `value`.
pub fn get_bit(value: u128, pos: u32) -> (r: bool)
    requires
        pos < 128,
    ensures
        r == bit_set(value, pos),
{
    value & (1u128 << pos) != 0
}

/// Writes `on` to bit `pos` of `value`, as one whole new value.
pub fn set_bit(value: u128, pos: u32, on: bool) -> (r: u128)
    requires
        pos < 128,
    ensures
        r == with_bit(value, pos, on),
{
    if on {
        value | (1u128 << pos)
    } else {
        value & !(1u128 << pos)
    }
}

/// Reading a bit just written gives the value written.
pub proof fn lemma_get_after_set(value: u128, pos: u32, on: bool)
    requires
        pos < 128,
    ensures
        bit_set(with_bit(value, pos, on), pos) == on,
{
    if on {
        assert((value | (1u128 << pos)) & (1u128 << pos) != 0) by (bit_vector)
            requires
                pos < 128,
        ;
    } else {
        assert((value & !(1u128 << pos)) & (1u128 << pos) == 0) by (bit_vector)
            requires
                pos < 128,
        ;
    }
}

/// Writing one bit leaves every other bit as it was.
pub proof fn lemma_set_keeps_others(value: u128, pos: u32, other: u32, on: bool)
    requires
        pos < 128,
        other < 128,
        pos != other,
    ensures
        bit_set(with_bit(value, pos, on), other) == bit_set(value, other),
{
    if on {
        assert(((value | (1u128 << pos)) & (1u128 << other) != 0) == (value & (1u128 << other)
            != 0)) by (bit_vector)
            requires
                pos < 128,
                other < 128,
                pos != other,
        ;
    } else {
        assert(((value & !(1u128 << pos)) & (1u128 << other) != 0) == (value & (1u128 << other)
            != 0)) by (bit_vector)
            requires
                pos < 128,
                other < 128,
                pos != other,
        ;
    }
}

/// Writing a bit inside a container's width keeps the value inside it.
pub proof fn lemma_set_keeps_width(value: u128, pos: u32, width: u32, on: bool)
    requires
        pos < width <= 128,
        fits(value, width),
    ensures
        fits(with_bit(value, pos, on), width),
{
    if width < 128 {
        if on {
            assert((value | (1u128 << pos)) < (1u128 << width)) by (bit_vector)
                requires
                    pos < width < 128,
                    value < (1u128 << width),
            ;
        } else {
            assert((value & !(1u128 << pos)) < (1u128 << width)) by (bit_vector)
                requires
                    pos < width < 128,
                    value < (1u128 << width),
            ;
        }
    }
}

/// The default bit pattern of flags whose defaults are `defaults`, in bit order:
/// the OR of `1 << k` over every `k` with `defaults[k]` true.
pub open spec fn default_mask(defaults: Seq<bool>) -> u128
    decreases defaults.len(),
{
    if defaults.len() == 0 {
        0
    } else if defaults.last() {
        default_mask(defaults.drop_last()) | (1u128 << ((defaults.len() - 1) as u32))
    } else {
        default_mask(defaults.drop_last())
    }
}

/// Bit `k` of the default pattern is set exactly where flag `k` defaults to
/// `true`, and no bit past the last flag is set.
pub proof fn lemma_default_mask_bits(defaults: Seq<bool>)
    requires
        defaults.len() <= 128,
    ensures
        forall|k: u32| k < defaults.len() ==> #[trigger] bit_set(default_mask(defaults), k)
            == defaults[k as int],
        forall|k: u32| defaults.len() <= k < 128 ==> !#[trigger] bit_set(default_mask(defaults), k),
        fits(default_mask(defaults), defaults.len() as u32),
    decreases defaults.len(),
{
    if defaults.len() == 0 {
        assert forall|k: u32| k < 128 implies !#[trigger] bit_set(0u128, k) by {
            assert(0u128 & (1u128 << k) == 0) by (bit_vector);
        }
        assert(0u128 < (1u128 << 0u32)) by (bit_vector);
    } else {
        let rest = defaults.drop_last();
        lemma_default_mask_bits(rest);
        let m = default_mask(rest);
        let p = (defaults.len() - 1) as u32;
        assert forall|k: u32| k < 128 implies #[trigger] bit_set(default_mask(defaults), k) == (
        bit_set(m, k) || (k == p && defaults.last())) by {
            if defaults.last() {
                if k == p {
                    lemma_get_after_set(m, p, true);
                } else {
                    lemma_set_keeps_others(m, p, k, true);
                }
            }
        }
        assert forall|k: u32| k < defaults.len() implies #[trigger] bit_set(
            default_mask(defaults),
            k,
        ) == defaults[k as int] by {
            if k < p {
                assert(defaults[k as int] == rest[k as int]);
            }
        }
        if defaults.len() < 128 {
            let w = defaults.len() as u32;
            assert(m < (1u128 << p) ==> (m | (1u128 << p)) < (1u128 << w) && m < (1u128 << w))
                by (bit_vector)
                requires
                    w == p + 1,
                    w < 128,
            ;
        }
    }
}

/// Where no flag defaults to `true`, the default pattern is zero.
pub proof fn lemma_default_mask_none(defaults: Seq<bool>)
    requires
        forall|k: int| 0 <= k < defaults.len() ==> !defaults[k],
    ensures
        default_mask(defaults) == 0,
    decreases defaults.len(),
{
    if defaults.len() > 0 {
        lemma_default_mask_none(defaults.drop_last());
    }
}

/// Where exactly flag `p` defaults to `true`, the default pattern has bit `p`
/// alone set.
pub proof fn lemma_default_mask_single(defaults: Seq<bool>, p: int)
    requires
        defaults.len() <= 128,
        0 <= p < defaults.len(),
        defaults[p],
        forall|k: int| 0 <= k < defaults.len() && k != p ==> !defaults[k],
    ensures
        default_mask(defaults) == 1u128 << (p as u32),
    decreases defaults.len(),
{
    if defaults.len() - 1 == p {
        lemma_default_mask_none(defaults.drop_last());
        let b = 1u128 << (p as u32);
        assert(0u128 | b == b) by (bit_vector);
    } else {
        lemma_default_mask_single(defaults.drop_last(), p);
    }
}

} // verus!
