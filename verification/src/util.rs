//! Shared primitives: the name-table hash, big-endian integer readers and the
//! classic MacOS epoch conversions.

use vstd::prelude::*;
use vstd::string::StringSliceAdditionalSpecFns;

verus! {

/// Size of the name hash table; hashes are always below it.
pub const NAMEHASH: u16 = 1024;

/// One step of the hash accumulator: rotate the byte right by three, then add
/// the next name byte modulo 256.
pub open spec fn name_hash_step(u: u8, b: u8) -> u8 {
    (((((u >> 3) | (u << 5)) as int) + (b as int)) % 256) as u8
}

/// The hash accumulator after folding a whole byte sequence, starting from 0.
pub open spec fn name_hash_accum(s: Seq<u8>) -> u8
    decreases s.len(),
{
    if s.len() == 0 {
        0u8
    } else {
        name_hash_step(name_hash_accum(s.drop_last()), s.last())
    }
}

/// The name-table hash of a byte sequence: the low byte of the length paired
/// with the accumulator, masked to ten bits. A length that is a multiple of
/// 256 hashes to 0 without looking at the bytes.
pub open spec fn name_hash(s: Seq<u8>) -> u16 {
    let l = (s.len() % 256) as u16;
    if l == 0 {
        0u16
    } else {
        ((l as int * 256 + name_hash_accum(s) as int) % 1024) as u16
    }
}

/// Hashes a name, as the on-disk name table stores it. Equal byte sequences
/// always hash alike, and every hash is below `NAMEHASH`.
pub fn nametable_hash_bytes(name: &[u8]) -> (r: u16)
    ensures
        r == name_hash(name@),
        r < 1024,
{
    let len: usize = name.len();
    let l: u16 = (len % 256) as u16;
    if l == 0 {
        return 0;
    }
    let mut u: u8 = 0;
    let mut i: usize = 0;
    while i < len
        invariant
            i <= len,
            len == name@.len(),
            u == name_hash_accum(name@.take(i as int)),
        decreases len - i,
    {
        let b: u8 = *vstd::slice::slice_index_get(name, i);
        let rot: u8 = (u >> 3) | ((u & 0x07) << 5);
        proof {
            let uu = u;
            assert(((uu >> 3) | ((uu & 0x07) << 5)) == ((uu >> 3) | (uu << 5))) by (bit_vector);
            assert(name@.take(i + 1).drop_last() =~= name@.take(i as int));
            assert(name@.take(i + 1).last() == name@[i as int]);
        }
        u = ((rot as u16 + b as u16) % 256) as u8;
        i = i + 1;
    }
    proof {
        assert(name@.take(len as int) =~= name@);
    }
    (l * 256 + u as u16) % 1024
}

/// The public hash entry point over string names; the hash is computed over
/// the name's UTF-8 bytes.
pub fn nametable_hash(name: &str) -> (r: u16)
    ensures
        r == name_hash(name.spec_bytes()),
        r < 1024,
{
    nametable_hash_bytes(name.as_bytes())
}

/// The hash of the empty name is zero.
pub proof fn lemma_name_hash_empty()
    ensures
        name_hash(Seq::<u8>::empty()) == 0,
{
}

/// Every hash value fits the 1024-slot table.
pub proof fn lemma_name_hash_bounded(s: Seq<u8>)
    ensures
        name_hash(s) < 1024,
{
}

/// A 16-bit big-endian integer assembled from two bytes.
pub open spec fn be_u16(b0: u8, b1: u8) -> u16 {
    (b0 as int * 256 + b1 as int) as u16
}

/// A 32-bit big-endian integer assembled from four bytes.
pub open spec fn be_u32(b0: u8, b1: u8, b2: u8, b3: u8) -> u32 {
    (b0 as int * 0x1000000 + b1 as int * 0x10000 + b2 as int * 0x100 + b3 as int) as u32
}

/// Two's-complement reading of a 32-bit value.
pub open spec fn as_signed_32(v: u32) -> i32 {
    if v < 0x80000000 {
        v as i32
    } else {
        (v as int - 0x100000000) as i32
    }
}

/// Two's-complement reading of a 16-bit value.
pub open spec fn as_signed_16(v: u16) -> i16 {
    if v < 0x8000 {
        v as i16
    } else {
        (v as int - 0x10000) as i16
    }
}

/// The 16-bit big-endian integer at offset `i` of a byte sequence.
pub open spec fn be_u16_at(s: Seq<u8>, i: int) -> u16 {
    be_u16(s[i], s[i + 1])
}

/// The 32-bit big-endian integer at offset `i` of a byte sequence.
pub open spec fn be_u32_at(s: Seq<u8>, i: int) -> u32 {
    be_u32(s[i], s[i + 1], s[i + 2], s[i + 3])
}

/// The signed 32-bit big-endian integer at offset `i` of a byte sequence.
pub open spec fn be_i32_at(s: Seq<u8>, i: int) -> i32 {
    as_signed_32(be_u32_at(s, i))
}

/// The signed 16-bit big-endian integer at offset `i` of a byte sequence.
pub open spec fn be_i16_at(s: Seq<u8>, i: int) -> i16 {
    as_signed_16(be_u16_at(s, i))
}

/// Assembles a big-endian `u16` from a two-byte array.
pub fn convert_be_u16(data: &[u8; 2]) -> (r: u16)
    ensures
        r == be_u16(data@[0], data@[1]),
{
    let b0: u8 = *vstd::slice::slice_index_get(data.as_slice(), 0);
    let b1: u8 = *vstd::slice::slice_index_get(data.as_slice(), 1);
    b0 as u16 * 256 + b1 as u16
}

/// Assembles a big-endian `u32` from a four-byte array.
pub fn convert_be_u32(data: &[u8; 4]) -> (r: u32)
    ensures
        r == be_u32(data@[0], data@[1], data@[2], data@[3]),
{
    let b0: u8 = *vstd::slice::slice_index_get(data.as_slice(), 0);
    let b1: u8 = *vstd::slice::slice_index_get(data.as_slice(), 1);
    let b2: u8 = *vstd::slice::slice_index_get(data.as_slice(), 2);
    let b3: u8 = *vstd::slice::slice_index_get(data.as_slice(), 3);
    b0 as u32 * 0x1000000 + b1 as u32 * 0x10000 + b2 as u32 * 0x100 + b3 as u32
}

/// Assembles a big-endian `i16` from a two-byte array, two's complement.
pub fn convert_be_i16(data: &[u8; 2]) -> (r: i16)
    ensures
        r == as_signed_16(be_u16(data@[0], data@[1])),
{
    let v: u16 = convert_be_u16(data);
    if v < 0x8000 {
        v as i16
    } else {
        let mag: i32 = 0x10000i32 - v as i32;
        (-mag) as i16
    }
}

/// Assembles a big-endian `i32` from a four-byte array, two's complement.
pub fn convert_be_i32(data: &[u8; 4]) -> (r: i32)
    ensures
        r == as_signed_32(be_u32(data@[0], data@[1], data@[2], data@[3])),
{
    let v: u32 = convert_be_u32(data);
    if v < 0x80000000 {
        v as i32
    } else {
        let mag: i64 = 0x100000000i64 - v as i64;
        (-mag) as i32
    }
}

/// The Unix timestamp of 1904-01-01 00:00:00 in UTC.
pub const MAC_EPOCH_UTC_BASE: i64 = -2082844800;

/// Relies on chrono's `NaiveDate::from_ymd_opt`, `NaiveDateTime::and_local_timezone`
/// and `DateTime::timestamp`: the Unix timestamp of 1904-01-01 00:00:00 in the
/// machine's local zone. chrono restricts zone offsets to less than a day in
/// magnitude, so the result stays within a day of the UTC value -2082844800.
/// A zone in which that local instant does not exist at all is not supported.
#[verifier::external_body]
fn local_mac_epoch_base() -> (r: i64)
    ensures
        -2082931200 <= r <= -2082758400,
{
    chrono::NaiveDate::from_ymd_opt(1904, 1, 1)
        .unwrap()
        .and_hms_opt(0, 0, 0)
        .unwrap()
        .and_local_timezone(chrono::Local)
        .earliest()
        .unwrap()
        .timestamp()
}

/// Relies on chrono's `Local::now` and `DateTime::timestamp`: the machine
/// clock as Unix seconds. Nothing is promised of the clock's value.
#[verifier::external_body]
pub(crate) fn now_unix_seconds() -> i64 {
    chrono::Local::now().timestamp()
}

/// The distance in seconds between the Unix epoch and midnight 1904-01-01 in
/// the local zone; classic MacOS timestamps count from the latter.
pub fn mac_epoch_offset() -> (r: i64)
    ensures
        2082758400 <= r <= 2082931200,
{
    let base: i64 = local_mac_epoch_base();
    -base
}

/// Converting a Mac timestamp to Unix seconds with an explicit epoch offset.
pub open spec fn from_mac_spec(date: u32, offset: i64) -> int {
    date - offset
}

/// Converting Unix seconds back to a Mac timestamp with an explicit offset.
pub open spec fn to_mac_spec(secs: int, offset: i64) -> int {
    secs + offset
}

/// The Mac-epoch round trip: converting a Mac date to Unix seconds and back
/// with the same epoch offset gives the date back unchanged, for every
/// 32-bit date and every offset.
pub proof fn lemma_mac_round_trip(date: u32, offset: i64)
    ensures
        to_mac_spec(from_mac_spec(date, offset), offset) == date,
{
}

/// Turns a Mac timestamp into Unix seconds under the given epoch offset.
pub fn from_mac_with_offset(date: u32, offset: i64) -> (r: i64)
    requires
        0 <= offset <= 0x100000000i64,
    ensures
        r == from_mac_spec(date, offset),
{
    date as i64 - offset
}

/// Turns Unix seconds back into a Mac timestamp under the given epoch offset;
/// the instant must be representable as an unsigned 32-bit Mac date.
pub fn to_mac_with_offset(secs: i64, offset: i64) -> (r: u32)
    requires
        0 <= to_mac_spec(secs as int, offset) < 0x100000000,
    ensures
        r == to_mac_spec(secs as int, offset),
{
    (secs + offset) as u32
}

/// Turns a Mac timestamp into Unix seconds using the machine's local zone as
/// the classic toolchain did; the exact offset depends on that zone alone.
pub fn from_mac_datetime(date: u32) -> (r: i64)
    ensures
        exists|off: i64|
            2082758400 <= off <= 2082931200 && r == from_mac_spec(date, off),
{
    let off: i64 = mac_epoch_offset();
    let r = from_mac_with_offset(date, off);
    proof {
        assert(2082758400 <= off <= 2082931200 && r == from_mac_spec(date, off));
    }
    r
}

/// Turns Unix seconds into a Mac timestamp using the machine's local zone;
/// instants outside the representable Mac range come back as `None`. Every
/// instant that lies inside that range under every possible zone offset is
/// converted; `None` comes back only near and beyond the range's edges.
pub fn to_mac_datetime(secs: i64) -> (r: Option<u32>)
    ensures
        match r {
            Some(d) => exists|off: i64|
                2082758400 <= off <= 2082931200 && d == to_mac_spec(secs as int, off),
            None => secs < -2082758400 || secs > 0xFFFFFFFFi64 - 2082931200,
        },
        -2082758400 <= secs <= 0xFFFFFFFFi64 - 2082931200 ==> r is Some,
{
    let off: i64 = mac_epoch_offset();
    if secs >= -off && secs <= 0xFFFFFFFFi64 - off {
        let d = to_mac_with_offset(secs, off);
        proof {
            assert(2082758400 <= off <= 2082931200 && d == to_mac_spec(secs as int, off));
        }
        Some(d)
    } else {
        None
    }
}

} // verus!
