//! Bounded reads over a byte slice.
//!
//! A cursor is a slice together with a position; every decoder checks the
//! bytes it needs before calling these readers, so the readers themselves
//! carry `requires` instead of failure paths and each one says exactly which
//! big-endian value it returns.

use crate::util::{as_signed_16, as_signed_32, be_u16_at, be_u32_at};
use vstd::prelude::*;

verus! {

/// The bytes still unread at `pos`.
pub fn remaining(s: &[u8], pos: usize) -> (r: usize)
    requires
        pos <= s@.len(),
    ensures
        r == s@.len() - pos,
{
    s.len() - pos
}

/// Reads one byte and advances.
pub fn take_u8(s: &[u8], pos: &mut usize) -> (r: u8)
    requires
        *old(pos) + 1 <= s@.len(),
    ensures
        *final(pos) == *old(pos) + 1,
        r == s@[*old(pos) as int],
{
    proof { vstd::slice::axiom_spec_len(s); }
    let b: u8 = *vstd::slice::slice_index_get(s, *pos);
    *pos = *pos + 1;
    b
}

/// Reads a big-endian `u16` and advances.
pub fn take_be_u16(s: &[u8], pos: &mut usize) -> (r: u16)
    requires
        *old(pos) + 2 <= s@.len(),
    ensures
        *final(pos) == *old(pos) + 2,
        r == be_u16_at(s@, *old(pos) as int),
{
    proof { vstd::slice::axiom_spec_len(s); }
    let b0: u8 = *vstd::slice::slice_index_get(s, *pos);
    let b1: u8 = *vstd::slice::slice_index_get(s, *pos + 1);
    *pos = *pos + 2;
    b0 as u16 * 256 + b1 as u16
}

/// Reads a big-endian `u32` and advances.
pub fn take_be_u32(s: &[u8], pos: &mut usize) -> (r: u32)
    requires
        *old(pos) + 4 <= s@.len(),
    ensures
        *final(pos) == *old(pos) + 4,
        r == be_u32_at(s@, *old(pos) as int),
{
    proof { vstd::slice::axiom_spec_len(s); }
    let b0: u8 = *vstd::slice::slice_index_get(s, *pos);
    let b1: u8 = *vstd::slice::slice_index_get(s, *pos + 1);
    let b2: u8 = *vstd::slice::slice_index_get(s, *pos + 2);
    let b3: u8 = *vstd::slice::slice_index_get(s, *pos + 3);
    *pos = *pos + 4;
    b0 as u32 * 0x1000000 + b1 as u32 * 0x10000 + b2 as u32 * 0x100 + b3 as u32
}

/// Reads a big-endian `i16` (two's complement) and advances.
pub fn take_be_i16(s: &[u8], pos: &mut usize) -> (r: i16)
    requires
        *old(pos) + 2 <= s@.len(),
    ensures
        *final(pos) == *old(pos) + 2,
        r == as_signed_16(be_u16_at(s@, *old(pos) as int)),
{
    let v: u16 = take_be_u16(s, pos);
    if v < 0x8000 {
        v as i16
    } else {
        let mag: i32 = 0x10000i32 - v as i32;
        (-mag) as i16
    }
}

/// Reads a big-endian `i32` (two's complement) and advances.
pub fn take_be_i32(s: &[u8], pos: &mut usize) -> (r: i32)
    requires
        *old(pos) + 4 <= s@.len(),
    ensures
        *final(pos) == *old(pos) + 4,
        r == as_signed_32(be_u32_at(s@, *old(pos) as int)),
{
    let v: u32 = take_be_u32(s, pos);
    if v < 0x80000000 {
        v as i32
    } else {
        let mag: i64 = 0x100000000i64 - v as i64;
        (-mag) as i32
    }
}

/// Copies `n` bytes out of the slice and advances.
pub fn take_bytes(s: &[u8], pos: &mut usize, n: usize) -> (r: Vec<u8>)
    requires
        *old(pos) + n <= s@.len(),
    ensures
        *final(pos) == *old(pos) + n,
        r@ == s@.subrange(*old(pos) as int, *old(pos) + n),
{
    proof { vstd::slice::axiom_spec_len(s); }
    let sub: &[u8] = vstd::slice::slice_subrange(s, *pos, *pos + n);
    let v: Vec<u8> = vstd::slice::slice_to_vec(sub);
    *pos = *pos + n;
    v
}

} // verus!
