//! Bit-level facts about 32-bit register values.
use vstd::prelude::*;

verus! {

/// Bit `i` of a 32-bit register value.
pub open spec fn bit32(x: u32, i: u32) -> bool {
    (x >> i) & 1u32 == 1u32
}

/// `x` with bit `i` set.
pub open spec fn set_bit32(x: u32, i: u32) -> u32 {
    x | (1u32 << i)
}

/// `x` with bit `i` cleared.
pub open spec fn clear_bit32(x: u32, i: u32) -> u32 {
    x & !(1u32 << i)
}

pub proof fn lemma_set_bit32(x: u32, i: u32, j: u32)
    requires
        i < 32,
        j < 32,
    ensures
        bit32(set_bit32(x, i), j) == (i == j || bit32(x, j)),
{
    assert(bit32(x | (1u32 << i), j) == (i == j || bit32(x, j))) by (bit_vector)
        requires
            i < 32,
            j < 32,
    ;
}

pub proof fn lemma_clear_bit32(x: u32, i: u32, j: u32)
    requires
        i < 32,
        j < 32,
    ensures
        bit32(clear_bit32(x, i), j) == (i != j && bit32(x, j)),
{
    assert(bit32(x & !(1u32 << i), j) == (i != j && bit32(x, j))) by (bit_vector)
        requires
            i < 32,
            j < 32,
    ;
}

/// Setting a bit that is already set changes nothing.
pub proof fn lemma_set_bit32_idempotent(x: u32, i: u32)
    requires
        i < 32,
    ensures
        set_bit32(set_bit32(x, i), i) == set_bit32(x, i),
{
    assert((x | (1u32 << i)) | (1u32 << i) == x | (1u32 << i)) by (bit_vector);
}

/// Clearing a bit that is already clear changes nothing.
pub proof fn lemma_clear_bit32_idempotent(x: u32, i: u32)
    requires
        i < 32,
    ensures
        clear_bit32(clear_bit32(x, i), i) == clear_bit32(x, i),
{
    assert((x & !(1u32 << i)) & !(1u32 << i) == x & !(1u32 << i)) by (bit_vector);
}

/// Setting bit `i` and clearing bit `j` commute when the bits differ.
pub proof fn lemma_set_clear_commute32(x: u32, i: u32, j: u32)
    requires
        i < 32,
        j < 32,
        i != j,
    ensures
        clear_bit32(set_bit32(x, i), j) == set_bit32(clear_bit32(x, j), i),
        set_bit32(set_bit32(x, i), j) == set_bit32(set_bit32(x, j), i),
        clear_bit32(clear_bit32(x, i), j) == clear_bit32(clear_bit32(x, j), i),
{
    assert((x | (1u32 << i)) & !(1u32 << j) == (x & !(1u32 << j)) | (1u32 << i)) by (bit_vector)
        requires
            i < 32,
            j < 32,
            i != j,
    ;
    assert((x | (1u32 << i)) | (1u32 << j) == (x | (1u32 << j)) | (1u32 << i)) by (bit_vector);
    assert((x & !(1u32 << i)) & !(1u32 << j) == (x & !(1u32 << j)) & !(1u32 << i)) by (bit_vector);
}

} // verus!
