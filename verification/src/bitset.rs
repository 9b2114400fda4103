//! The bit-position model shared by the flag sets of this crate.
//!
//! A raw `i32` mask is viewed as the set of bit positions (`0..32`) that it has
//! switched on. The lemmas below relate the machine operators `|`, `&` and
//! `== 0` to union, subset and emptiness of those sets.

use vstd::prelude::*;

verus! {

/// Whether bit `i` (counting from the least significant bit) is on in `x`.
pub open spec fn bit_set(x: i32, i: int) -> bool {
    (x >> (i as u32)) & 1i32 == 1i32
}

/// The set of bit positions in `0..32` that are on in `x`.
pub open spec fn bits_of(x: i32) -> Set<int> {
    Set::new(|i: int| 0 <= i < 32 && bit_set(x, i))
}

proof fn lemma_or_bit(a: i32, b: i32, i: u32)
    by (bit_vector)
    requires
        i < 32,
    ensures
        ((a | b) >> i) & 1i32 == 1i32 <==> ((a >> i) & 1i32 == 1i32 || (b >> i) & 1i32 == 1i32),
{
}

proof fn lemma_and_bit(a: i32, b: i32, i: u32)
    by (bit_vector)
    requires
        i < 32,
    ensures
        ((a & b) >> i) & 1i32 == 1i32 <==> ((a >> i) & 1i32 == 1i32 && (b >> i) & 1i32 == 1i32),
{
}

proof fn lemma_zero_bit(i: u32)
    by (bit_vector)
    requires
        i < 32,
    ensures
        (0i32 >> i) & 1i32 != 1i32,
{
}

/// Two masks with the same bits are the same mask.
pub proof fn lemma_bits_determine(x: i32, y: i32)
    requires
        forall|i: int| 0 <= i < 32 ==> bit_set(x, i) == bit_set(y, i),
    ensures
        x == y,
{
    assert(bit_set(x, 0) == bit_set(y, 0));
    assert(bit_set(x, 1) == bit_set(y, 1));
    assert(bit_set(x, 2) == bit_set(y, 2));
    assert(bit_set(x, 3) == bit_set(y, 3));
    assert(bit_set(x, 4) == bit_set(y, 4));
    assert(bit_set(x, 5) == bit_set(y, 5));
    assert(bit_set(x, 6) == bit_set(y, 6));
    assert(bit_set(x, 7) == bit_set(y, 7));
    assert(bit_set(x, 8) == bit_set(y, 8));
    assert(bit_set(x, 9) == bit_set(y, 9));
    assert(bit_set(x, 10) == bit_set(y, 10));
    assert(bit_set(x, 11) == bit_set(y, 11));
    assert(bit_set(x, 12) == bit_set(y, 12));
    assert(bit_set(x, 13) == bit_set(y, 13));
    assert(bit_set(x, 14) == bit_set(y, 14));
    assert(bit_set(x, 15) == bit_set(y, 15));
    assert(bit_set(x, 16) == bit_set(y, 16));
    assert(bit_set(x, 17) == bit_set(y, 17));
    assert(bit_set(x, 18) == bit_set(y, 18));
    assert(bit_set(x, 19) == bit_set(y, 19));
    assert(bit_set(x, 20) == bit_set(y, 20));
    assert(bit_set(x, 21) == bit_set(y, 21));
    assert(bit_set(x, 22) == bit_set(y, 22));
    assert(bit_set(x, 23) == bit_set(y, 23));
    assert(bit_set(x, 24) == bit_set(y, 24));
    assert(bit_set(x, 25) == bit_set(y, 25));
    assert(bit_set(x, 26) == bit_set(y, 26));
    assert(bit_set(x, 27) == bit_set(y, 27));
    assert(bit_set(x, 28) == bit_set(y, 28));
    assert(bit_set(x, 29) == bit_set(y, 29));
    assert(bit_set(x, 30) == bit_set(y, 30));
    assert(bit_set(x, 31) == bit_set(y, 31));
    assert(x == y) by (bit_vector)
        requires
            ((x >> 0u32) & 1i32 == 1i32) == ((y >> 0u32) & 1i32 == 1i32),
            ((x >> 1u32) & 1i32 == 1i32) == ((y >> 1u32) & 1i32 == 1i32),
            ((x >> 2u32) & 1i32 == 1i32) == ((y >> 2u32) & 1i32 == 1i32),
            ((x >> 3u32) & 1i32 == 1i32) == ((y >> 3u32) & 1i32 == 1i32),
            ((x >> 4u32) & 1i32 == 1i32) == ((y >> 4u32) & 1i32 == 1i32),
            ((x >> 5u32) & 1i32 == 1i32) == ((y >> 5u32) & 1i32 == 1i32),
            ((x >> 6u32) & 1i32 == 1i32) == ((y >> 6u32) & 1i32 == 1i32),
            ((x >> 7u32) & 1i32 == 1i32) == ((y >> 7u32) & 1i32 == 1i32),
            ((x >> 8u32) & 1i32 == 1i32) == ((y >> 8u32) & 1i32 == 1i32),
            ((x >> 9u32) & 1i32 == 1i32) == ((y >> 9u32) & 1i32 == 1i32),
            ((x >> 10u32) & 1i32 == 1i32) == ((y >> 10u32) & 1i32 == 1i32),
            ((x >> 11u32) & 1i32 == 1i32) == ((y >> 11u32) & 1i32 == 1i32),
            ((x >> 12u32) & 1i32 == 1i32) == ((y >> 12u32) & 1i32 == 1i32),
            ((x >> 13u32) & 1i32 == 1i32) == ((y >> 13u32) & 1i32 == 1i32),
            ((x >> 14u32) & 1i32 == 1i32) == ((y >> 14u32) & 1i32 == 1i32),
            ((x >> 15u32) & 1i32 == 1i32) == ((y >> 15u32) & 1i32 == 1i32),
            ((x >> 16u32) & 1i32 == 1i32) == ((y >> 16u32) & 1i32 == 1i32),
            ((x >> 17u32) & 1i32 == 1i32) == ((y >> 17u32) & 1i32 == 1i32),
            ((x >> 18u32) & 1i32 == 1i32) == ((y >> 18u32) & 1i32 == 1i32),
            ((x >> 19u32) & 1i32 == 1i32) == ((y >> 19u32) & 1i32 == 1i32),
            ((x >> 20u32) & 1i32 == 1i32) == ((y >> 20u32) & 1i32 == 1i32),
            ((x >> 21u32) & 1i32 == 1i32) == ((y >> 21u32) & 1i32 == 1i32),
            ((x >> 22u32) & 1i32 == 1i32) == ((y >> 22u32) & 1i32 == 1i32),
            ((x >> 23u32) & 1i32 == 1i32) == ((y >> 23u32) & 1i32 == 1i32),
            ((x >> 24u32) & 1i32 == 1i32) == ((y >> 24u32) & 1i32 == 1i32),
            ((x >> 25u32) & 1i32 == 1i32) == ((y >> 25u32) & 1i32 == 1i32),
            ((x >> 26u32) & 1i32 == 1i32) == ((y >> 26u32) & 1i32 == 1i32),
            ((x >> 27u32) & 1i32 == 1i32) == ((y >> 27u32) & 1i32 == 1i32),
            ((x >> 28u32) & 1i32 == 1i32) == ((y >> 28u32) & 1i32 == 1i32),
            ((x >> 29u32) & 1i32 == 1i32) == ((y >> 29u32) & 1i32 == 1i32),
            ((x >> 30u32) & 1i32 == 1i32) == ((y >> 30u32) & 1i32 == 1i32),
            ((x >> 31u32) & 1i32 == 1i32) == ((y >> 31u32) & 1i32 == 1i32),
    ;
}

/// Two masks are equal exactly when their bit sets are.
pub proof fn lemma_bits_of_injective(x: i32, y: i32)
    ensures
        (bits_of(x) == bits_of(y)) == (x == y),
{
    if bits_of(x) == bits_of(y) {
        assert forall|i: int| 0 <= i < 32 implies bit_set(x, i) == bit_set(y, i) by {
            assert(bits_of(x).contains(i) == bits_of(y).contains(i));
        }
        lemma_bits_determine(x, y);
    }
}

/// `|` is union of the bit sets.
pub proof fn lemma_bits_of_or(a: i32, b: i32)
    ensures
        bits_of(a | b) == bits_of(a).union(bits_of(b)),
{
    assert forall|i: int| 0 <= i < 32 implies bit_set(a | b, i) == (bit_set(a, i) || bit_set(b, i)) by {
        lemma_or_bit(a, b, i as u32);
    }
    assert(bits_of(a | b) =~= bits_of(a).union(bits_of(b)));
}

/// `a & b == b` says that the bits of `b` are among those of `a`.
pub proof fn lemma_bits_of_and_eq(a: i32, b: i32)
    ensures
        (a & b == b) == bits_of(b).subset_of(bits_of(a)),
{
    assert forall|i: int| 0 <= i < 32 implies bit_set(a & b, i) == (bit_set(a, i) && bit_set(b, i)) by {
        lemma_and_bit(a, b, i as u32);
    }
    if bits_of(b).subset_of(bits_of(a)) {
        assert forall|i: int| 0 <= i < 32 implies bit_set(a & b, i) == bit_set(b, i) by {
            if bit_set(b, i) {
                assert(bits_of(b).contains(i));
            }
        }
        lemma_bits_determine(a & b, b);
    }
    if a & b == b {
        assert forall|i: int| bits_of(b).contains(i) implies bits_of(a).contains(i) by {
            assert(bit_set(a & b, i));
        }
    }
}

/// The zero mask is exactly the mask with no bits.
pub proof fn lemma_bits_of_zero(x: i32)
    ensures
        (x == 0) == (bits_of(x) == Set::<int>::empty()),
{
    assert forall|i: int| 0 <= i < 32 implies !bit_set(0i32, i) by {
        lemma_zero_bit(i as u32);
    }
    assert(bits_of(0i32) =~= Set::<int>::empty());
    lemma_bits_of_injective(x, 0i32);
}

} // verus!
