use vstd::prelude::*;

verus! {

/// Whether bit `n` of `value` is set.
pub open spec fn bit_spec(value: u8, n: u8) -> bool {
    (value >> n) & 1u8 == 1u8
}

/// `value` with bit `n` forced to `on`, every other bit kept.
pub open spec fn set_bit_spec(value: u8, n: u8, on: bool) -> u8 {
    if on {
        value | (1u8 << n)
    } else {
        value & !(1u8 << n)
    }
}

/// Setting a bit changes that bit alone.
pub proof fn lemma_set_bit(value: u8, n: u8, on: bool, m: u8)
    requires
        n < 8,
        m < 8,
    ensures
        bit_spec(set_bit_spec(value, n, on), m) == (if m == n { on } else { bit_spec(value, m) }),
{
    if on {
        assert(((value | (1u8 << n)) >> m) & 1u8 == 1u8 <==> (if m == n { true } else {
            (value >> m) & 1u8 == 1u8
        })) by (bit_vector)
            requires
                n < 8,
                m < 8,
        ;
    } else {
        assert(((value & !(1u8 << n)) >> m) & 1u8 == 1u8 <==> (if m == n { false } else {
            (value >> m) & 1u8 == 1u8
        })) by (bit_vector)
            requires
                n < 8,
                m < 8,
        ;
    }
}

/// Tests bit `n` of `value`.
pub fn bit(value: u8, n: u8) -> (r: bool)
    requires
        n < 8,
    ensures
        r == bit_spec(value, n),
{
    (value >> n) & 1 == 1
}

/// Returns `value` with bit `n` set when `on` holds and cleared otherwise.
pub fn set_bit(value: u8, n: u8, on: bool) -> (r: u8)
    requires
        n < 8,
    ensures
        r == set_bit_spec(value, n, on),
        forall|m: u8| m < 8 ==> #[trigger] bit_spec(r, m) == (if m == n { on } else { bit_spec(value, m) }),
{
    let r = if on {
        value | (1u8 << n)
    } else {
        value & !(1u8 << n)
    };
    assert forall|m: u8| m < 8 implies #[trigger] bit_spec(r, m) == (if m == n { on } else {
        bit_spec(value, m)
    }) by {
        lemma_set_bit(value, n, on, m);
    }
    r
}

} // verus!
