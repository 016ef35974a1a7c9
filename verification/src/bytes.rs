//! Little-endian fields read from instruction payloads.

use vstd::prelude::*;
use crate::address::Address;
use crate::address::address_of;
use crate::address::bytes_array;
use crate::address::lemma_bytes_array;

verus! {

/// The unsigned integer that the `width` bytes of `s` from offset `at` encode,
/// least significant byte first.
pub open spec fn le_value(s: Seq<u8>, at: int, width: nat) -> nat
    decreases width,
{
    if width == 0 {
        0
    } else {
        s[at] as nat + 256 * le_value(s, at + 1, (width - 1) as nat)
    }
}

/// The signed 64-bit integer that the 8 bytes of `s` from `at` encode in
/// two's complement, least significant byte first.
pub open spec fn le_i64_value(s: Seq<u8>, at: int) -> int {
    if le_value(s, at, 8) < 0x8000_0000_0000_0000 {
        le_value(s, at, 8) as int
    } else {
        le_value(s, at, 8) - 0x1_0000_0000_0000_0000
    }
}

/// The boolean that the byte at `at` encodes: 0 is false, 1 is true, and no
/// other byte is a boolean.
pub open spec fn bool_value(s: Seq<u8>, at: int) -> Option<bool> {
    if s[at] == 0 {
        Some(false)
    } else if s[at] == 1 {
        Some(true)
    } else {
        None
    }
}

/// An encoded integer of `width` bytes is below 256 to the power `width`.
pub proof fn lemma_le_value_bound(s: Seq<u8>, at: int, width: nat)
    ensures
        width == 1 ==> le_value(s, at, width) < 0x100,
        width == 2 ==> le_value(s, at, width) < 0x1_0000,
        width == 4 ==> le_value(s, at, width) < 0x1_0000_0000,
        width == 8 ==> le_value(s, at, width) < 0x1_0000_0000_0000_0000,
{
    reveal_with_fuel(le_value, 9);
}

/// Reads an unsigned 16-bit integer.
pub fn read_u16_le(data: &[u8], at: usize) -> (r: u16)
    requires
        at + 2 <= data@.len(),
    ensures
        r == le_value(data@, at as int, 2),
{
    proof {
        reveal_with_fuel(le_value, 3);
    }
    (data[at] as u16) + 256 * (data[at + 1] as u16)
}

/// Reads an unsigned 32-bit integer.
pub fn read_u32_le(data: &[u8], at: usize) -> (r: u32)
    requires
        at + 4 <= data@.len(),
    ensures
        r == le_value(data@, at as int, 4),
{
    proof {
        reveal_with_fuel(le_value, 5);
    }
    (data[at] as u32) + 256 * ((data[at + 1] as u32) + 256 * ((data[at + 2] as u32) + 256 * (
    data[at + 3] as u32)))
}

/// Reads an unsigned 64-bit integer.
pub fn read_u64_le(data: &[u8], at: usize) -> (r: u64)
    requires
        at + 8 <= data@.len(),
    ensures
        r == le_value(data@, at as int, 8),
{
    proof {
        reveal_with_fuel(le_value, 5);
        lemma_le_value_bound(data@, at as int, 4);
        lemma_le_value_bound(data@, at + 4, 4);
        lemma_le_value_split(data@, at as int);
    }
    let len: usize = data.len();
    let low: u32 = read_u32_le(data, at);
    let high: u32 = read_u32_le(data, at + 4);
    (low as u64) + 0x1_0000_0000 * (high as u64)
}

/// An 8-byte integer is its low 4 bytes plus 2^32 times its high 4 bytes.
pub proof fn lemma_le_value_split(s: Seq<u8>, at: int)
    ensures
        le_value(s, at, 8) == le_value(s, at, 4) + 0x1_0000_0000 * le_value(s, at + 4, 4),
{
    reveal_with_fuel(le_value, 9);
}

/// Reads a signed 64-bit integer.
pub fn read_i64_le(data: &[u8], at: usize) -> (r: i64)
    requires
        at + 8 <= data@.len(),
    ensures
        r == le_i64_value(data@, at as int),
{
    let raw: u64 = read_u64_le(data, at);
    if raw < 0x8000_0000_0000_0000 {
        raw as i64
    } else {
        let rest: u64 = raw - 0x8000_0000_0000_0000;
        (rest as i64) + i64::MIN
    }
}

/// Reads a boolean; `None` where the byte is neither 0 nor 1.
pub fn read_bool(data: &[u8], at: usize) -> (r: Option<bool>)
    requires
        at < data@.len(),
    ensures
        r == bool_value(data@, at as int),
{
    let b: u8 = data[at];
    if b == 0 {
        Some(false)
    } else if b == 1 {
        Some(true)
    } else {
        None
    }
}

/// Reads an array of `N` bytes.
pub fn read_array<const N: usize>(data: &[u8], at: usize) -> (r: [u8; N])
    requires
        at + N <= data@.len(),
    ensures
        r@ == data@.subrange(at as int, at + N),
        r == bytes_array::<N>(data@.subrange(at as int, at + N)),
{
    let len: usize = data.len();
    let mut bytes: [u8; N] = [0u8; N];
    let mut i: usize = 0;
    while i < N
        invariant
            i <= N,
            at + N <= data@.len(),
            len == data@.len(),
            forall|j: int| 0 <= j < i ==> bytes[j] == data@[at + j],
        decreases N - i,
    {
        bytes[i] = data[at + i];
        i = i + 1;
    }
    assert(bytes@ =~= data@.subrange(at as int, at + N));
    proof {
        lemma_bytes_array::<N>(bytes);
    }
    bytes
}

/// Reads the 32 bytes of an address.
pub fn read_address(data: &[u8], at: usize) -> (r: Address)
    requires
        at + 32 <= data@.len(),
    ensures
        r@ == data@.subrange(at as int, at + 32),
        r == address_of(data@.subrange(at as int, at + 32)),
{
    Address { bytes: read_array::<32>(data, at) }
}

/// Whether `data` holds exactly the bytes of `tag` from offset `at` on.
pub open spec fn has_bytes_at(data: Seq<u8>, at: int, tag: Seq<u8>) -> bool {
    at + tag.len() <= data.len() && data.subrange(at, at + tag.len()) == tag
}

/// Compares the bytes of `data` from `at` with `tag`.
pub fn bytes_match(data: &[u8], at: usize, tag: &[u8]) -> (r: bool)
    ensures
        r == has_bytes_at(data@, at as int, tag@),
{
    if tag.len() > data.len() || at > data.len() - tag.len() {
        return false;
    }
    let len: usize = data.len();
    let mut i: usize = 0;
    while i < tag.len()
        invariant
            i <= tag@.len(),
            at + tag@.len() <= data@.len(),
            len == data@.len(),
            forall|j: int| 0 <= j < i ==> data@[at + j] == tag@[j],
        decreases tag@.len() - i,
    {
        if data[at + i] != tag[i] {
            assert(data@.subrange(at as int, at + tag@.len())[i as int] != tag@[i as int]);
            return false;
        }
        i = i + 1;
    }
    assert(data@.subrange(at as int, at + tag@.len()) =~= tag@);
    true
}

/// Whether `a` comes before `b` in lexicographic order, from position `from`
/// on: at the first position where they differ `a` holds the smaller byte,
/// or `a` ends there and `b` goes on.
pub open spec fn lex_less_from(a: Seq<u8>, b: Seq<u8>, from: int) -> bool
    decreases a.len() - from,
{
    if from >= b.len() {
        false
    } else if from >= a.len() {
        true
    } else if a[from] != b[from] {
        a[from] < b[from]
    } else {
        lex_less_from(a, b, from + 1)
    }
}

/// Whether `a` comes strictly before `b` in lexicographic order.
pub open spec fn lex_less(a: Seq<u8>, b: Seq<u8>) -> bool {
    lex_less_from(a, b, 0)
}

/// Compares two byte strings in lexicographic order.
pub fn lexicographically_less(a: &[u8], b: &[u8]) -> (r: bool)
    ensures
        r == lex_less(a@, b@),
{
    let mut i: usize = 0;
    while i < a.len() && i < b.len()
        invariant
            i <= a@.len(),
            i <= b@.len(),
            lex_less(a@, b@) == lex_less_from(a@, b@, i as int),
        decreases a@.len() - i,
    {
        if a[i] != b[i] {
            return a[i] < b[i];
        }
        i = i + 1;
    }
    i < b.len()
}

} // verus!
