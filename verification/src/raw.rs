//! Decoding of the plain integer results that the Noesis entry points report:
//! indices that are negative on failure, counts that must not go negative,
//! `0`/`1` flags, and `int32` carriers of narrower integers.

use vstd::prelude::*;

verus! {

/// Whether a string may cross the shim as a C string: it holds no NUL.
pub open spec fn no_nul(s: Seq<char>) -> bool {
    !s.contains('\0')
}

/// An insertion index reported by Noesis (`Add` on a collection): a negative
/// value means the item was not added.
pub fn index_from_raw(idx: i32) -> (r: Option<usize>)
    ensures
        idx >= 0 ==> r == Some(idx as usize),
        idx < 0 ==> r is None,
{
    if idx >= 0 {
        Some(idx as usize)
    } else {
        None
    }
}

/// An element count reported by Noesis, with a negative (error) value read as
/// an empty collection.
pub fn count_from_raw(n: i32) -> (r: usize)
    ensures
        n >= 0 ==> r == n,
        n < 0 ==> r == 0,
{
    if n >= 0 {
        n as usize
    } else {
        0
    }
}

/// An element count reported by Noesis as an `int32`, `None` when it is
/// negative (the object did not answer).
pub fn count_u32_from_raw(n: i32) -> (r: Option<u32>)
    ensures
        n >= 0 ==> r == Some(n as u32),
        n < 0 ==> r is None,
{
    if n >= 0 {
        Some(n as u32)
    } else {
        None
    }
}

/// An element count reported by Noesis as an `int32`, with a negative value
/// read as zero.
pub fn count_u32_or_zero(n: i32) -> (r: u32)
    ensures
        n >= 0 ==> r == n,
        n < 0 ==> r == 0,
{
    if n >= 0 {
        n as u32
    } else {
        0
    }
}

/// A boolean that Noesis reports as an `int32`: exactly `1` means `true`.
pub fn flag_from_raw(v: i32) -> (r: bool)
    ensures
        r == (v == 1),
{
    v == 1
}

/// An `Int16` value that Noesis carries in an `int32`: the low 16 bits, as a
/// Rust `as` cast keeps them.
pub fn int16_from_raw(v: i32) -> (r: i16)
    ensures
        r == v as i16,
        i16::MIN <= v <= i16::MAX ==> r == v,
{
    v as i16
}

/// An `Int16` widened to the `int32` that Noesis carries; an absent value
/// travels as `0`.
pub fn int16_to_raw(v: Option<i16>) -> (r: i32)
    ensures
        match v {
            Some(x) => r == x,
            None => r == 0,
        },
{
    match v {
        Some(x) => x as i32,
        None => 0,
    }
}

/// A name read back from Noesis, where the empty string stands for "unset".
pub fn non_empty(s: String) -> (r: Option<String>)
    ensures
        s@.len() == 0 ==> r is None,
        s@.len() > 0 ==> r == Some(s),
{
    if s.as_str().unicode_len() == 0 {
        None
    } else {
        Some(s)
    }
}

} // verus!
