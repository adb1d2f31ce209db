//! Fixed-width integers as they lie in a byte sequence.

use vstd::arithmetic::div_mod::lemma_fundamental_div_mod_converse;
use vstd::prelude::*;
use vstd::slice::slice_subrange;

verus! {

/// The 16-bit value whose two bytes stand at `at`, least significant first.
pub open spec fn u16_le(s: Seq<u8>, at: int) -> u16 {
    (s[at] + 0x100 * s[at + 1]) as u16
}

/// The 32-bit value whose four bytes stand at `at`, least significant first.
pub open spec fn u32_le(s: Seq<u8>, at: int) -> u32 {
    (s[at] + 0x100 * s[at + 1] + 0x1_0000 * s[at + 2] + 0x100_0000 * s[at + 3]) as u32
}

/// The 32-bit value whose four bytes stand at `at`, most significant first.
pub open spec fn u32_be(s: Seq<u8>, at: int) -> u32 {
    (0x100_0000 * s[at] + 0x1_0000 * s[at + 1] + 0x100 * s[at + 2] + s[at + 3]) as u32
}

/// The 64-bit value whose eight bytes stand at `at`, least significant first.
pub open spec fn u64_le(s: Seq<u8>, at: int) -> u64 {
    (u32_le(s, at) + 0x1_0000_0000 * u32_le(s, at + 4)) as u64
}

/// The value with the four bytes of `x` in reverse order.
#[verifier::opaque]
pub open spec fn swap_u32(x: u32) -> u32 {
    ((x % 0x100) * 0x100_0000 + ((x / 0x100) % 0x100) * 0x1_0000 + ((x / 0x1_0000) % 0x100) * 0x100
        + x / 0x100_0000) as u32
}

/// The two's-complement reading of a 32-bit pattern.
pub open spec fn signed_u32(x: u32) -> i32 {
    if x < 0x8000_0000 {
        x as i32
    } else {
        (x - 0x1_0000_0000) as i32
    }
}

/// Reversing the bytes of a little-endian reading gives the big-endian one.
pub proof fn lemma_swap_le_is_be(s: Seq<u8>, at: int)
    ensures
        swap_u32(u32_le(s, at)) == u32_be(s, at),
        swap_u32(u32_be(s, at)) == u32_le(s, at),
{
    reveal(swap_u32);
    lemma_digits(s[at] as int, s[at + 1] as int, s[at + 2] as int, s[at + 3] as int);
    lemma_digits(s[at + 3] as int, s[at + 2] as int, s[at + 1] as int, s[at] as int);
}

/// The base-256 digits of a four-digit number are its quotients and remainders.
proof fn lemma_digits(d0: int, d1: int, d2: int, d3: int)
    requires
        0 <= d0 < 0x100,
        0 <= d1 < 0x100,
        0 <= d2 < 0x100,
        0 <= d3 < 0x100,
    ensures
        ({
            let x = d0 + 0x100 * d1 + 0x1_0000 * d2 + 0x100_0000 * d3;
            &&& 0 <= x < 0x1_0000_0000
            &&& x % 0x100 == d0
            &&& (x / 0x100) % 0x100 == d1
            &&& (x / 0x1_0000) % 0x100 == d2
            &&& x / 0x100_0000 == d3
        }),
{
    let x = d0 + 0x100 * d1 + 0x1_0000 * d2 + 0x100_0000 * d3;
    lemma_fundamental_div_mod_converse(x, 0x100, d1 + 0x100 * d2 + 0x1_0000 * d3, d0);
    lemma_fundamental_div_mod_converse(d1 + 0x100 * d2 + 0x1_0000 * d3, 0x100, d2 + 0x100 * d3, d1);
    lemma_fundamental_div_mod_converse(x, 0x1_0000, d2 + 0x100 * d3, d0 + 0x100 * d1);
    lemma_fundamental_div_mod_converse(d2 + 0x100 * d3, 0x100, d3, d2);
    lemma_fundamental_div_mod_converse(x, 0x100_0000, d3, d0 + 0x100 * d1 + 0x1_0000 * d2);
}

/// The magics of the two byte orders are each other's reverse, and those of
/// the Mach-O images read in reverse are no magic of a fat container.
pub proof fn lemma_swapped_magics()
    ensures
        swap_u32(0xcafebabe) == 0xbebafeca,
        swap_u32(0xbebafeca) == 0xcafebabe,
        swap_u32(0xfeedface) == 0xcefaedfe,
        swap_u32(0xfeedfacf) == 0xcffaedfe,
{
    reveal(swap_u32);
}

/// Reversing the bytes twice gives the value back.
pub proof fn lemma_swap_twice(x: u32)
    ensures
        swap_u32(swap_u32(x)) == x,
{
    reveal(swap_u32);
    let d0 = (x % 0x100) as int;
    let d1 = ((x / 0x100) % 0x100) as int;
    let d2 = ((x / 0x1_0000) % 0x100) as int;
    let d3 = (x / 0x100_0000) as int;
    assert(x == d0 + 0x100 * d1 + 0x1_0000 * d2 + 0x100_0000 * d3);
    lemma_digits(d3, d2, d1, d0);
}

pub fn read_u16_le(b: &[u8], at: usize) -> (r: u16)
    requires
        at + 2 <= b.len(),
    ensures
        r == u16_le(b@, at as int),
{
    b[at] as u16 + 0x100 * (b[at + 1] as u16)
}

pub fn read_u32_le(b: &[u8], at: usize) -> (r: u32)
    requires
        at + 4 <= b.len(),
    ensures
        r == u32_le(b@, at as int),
{
    b[at] as u32 + 0x100 * (b[at + 1] as u32) + 0x1_0000 * (b[at + 2] as u32) + 0x100_0000 * (b[at
        + 3] as u32)
}

pub fn read_u32_be(b: &[u8], at: usize) -> (r: u32)
    requires
        at + 4 <= b.len(),
    ensures
        r == u32_be(b@, at as int),
{
    0x100_0000 * (b[at] as u32) + 0x1_0000 * (b[at + 1] as u32) + 0x100 * (b[at + 2] as u32) + (b[at
        + 3] as u32)
}

pub fn read_u64_le(b: &[u8], at: usize) -> (r: u64)
    requires
        at + 8 <= b.len(),
    ensures
        r == u64_le(b@, at as int),
{
    let low: u32 = read_u32_le(b, at);
    let high: u32 = read_u32_le(b, at + 4);
    low as u64 + 0x1_0000_0000 * (high as u64)
}

/// Reverses the byte order of `x`.
pub fn swap_bytes(x: u32) -> (r: u32)
    ensures
        r == swap_u32(x),
{
    proof {
        reveal(swap_u32);
    }
    (x % 0x100) * 0x100_0000 + ((x / 0x100) % 0x100) * 0x1_0000 + ((x / 0x1_0000) % 0x100) * 0x100
        + x / 0x100_0000
}

/// Reads a 32-bit pattern as a signed number.
pub fn to_signed(x: u32) -> (r: i32)
    ensures
        r == signed_u32(x),
{
    if x < 0x8000_0000 {
        x as i32
    } else {
        let low: u32 = x - 0x8000_0000;
        (low as i32) + i32::MIN
    }
}

/// Whether two byte strings hold the same bytes.
pub fn bytes_equal(a: &[u8], b: &[u8]) -> (r: bool)
    ensures
        r == (a@ == b@),
{
    if a.len() != b.len() {
        return false;
    }
    let mut i: usize = 0;
    while i < a.len()
        invariant
            i <= a@.len(),
            a@.len() == b@.len(),
            forall|j: int| 0 <= j < i ==> a@[j] == b@[j],
        decreases a@.len() - i,
    {
        if a[i] != b[i] {
            return false;
        }
        i = i + 1;
    }
    assert(a@ =~= b@);
    true
}

/// A copy of the bytes of `b` from `from` up to `to`.
pub fn copy_range(b: &[u8], from: usize, to: usize) -> (r: Vec<u8>)
    requires
        from <= to <= b.len(),
    ensures
        r@ == b@.subrange(from as int, to as int),
{
    let mut out: Vec<u8> = Vec::new();
    let mut i: usize = from;
    while i < to
        invariant
            from <= i <= to,
            to <= b@.len(),
            out@ == b@.subrange(from as int, i as int),
        decreases to - i,
    {
        out.push(b[i]);
        i = i + 1;
        assert(out@ =~= b@.subrange(from as int, i as int));
    }
    out
}


/// The number of bytes from `at` up to the first zero byte of `table` at or
/// after `at`, or up to the end where there is none.
pub open spec fn c_string_len(table: Seq<u8>, at: int) -> nat
    decreases table.len() - at,
{
    if at < 0 || at >= table.len() || table[at] == 0 {
        0
    } else {
        1 + c_string_len(table, at + 1)
    }
}

/// The zero-terminated string that starts at `at` in `table`, without its
/// terminator; empty where `at` lies outside `table`.
pub open spec fn c_string(table: Seq<u8>, at: int) -> Seq<u8> {
    if 0 <= at < table.len() {
        table.subrange(at, at + c_string_len(table, at))
    } else {
        Seq::empty()
    }
}

/// A zero-terminated string stays inside its table, holds no zero byte, and
/// ends at a zero byte or at the end of the table.
pub proof fn lemma_c_string(table: Seq<u8>, at: int)
    requires
        0 <= at <= table.len(),
    ensures
        at + c_string_len(table, at) <= table.len(),
        forall|j: int| at <= j < at + c_string_len(table, at) ==> table[j] != 0,
        at + c_string_len(table, at) == table.len() || table[at + c_string_len(table, at)] == 0,
    decreases table.len() - at,
{
    if at < table.len() && table[at] != 0 {
        lemma_c_string(table, at + 1);
    }
}

/// A run of non-zero bytes that ends at a zero byte or at the end of the
/// table is the zero-terminated string at its start.
pub proof fn lemma_c_string_unique(table: Seq<u8>, at: int, n: nat)
    requires
        0 <= at,
        at + n <= table.len(),
        forall|j: int| at <= j < at + n ==> table[j] != 0,
        at + n == table.len() || table[at + n] == 0,
    ensures
        c_string_len(table, at) == n,
    decreases n,
{
    if n > 0 {
        lemma_c_string_unique(table, at + 1, (n - 1) as nat);
    }
}

/// The zero-terminated string at `offset` in `table`, without its
/// terminator; empty where `offset` lies outside `table`.
pub fn get_string_from_table(table: &[u8], offset: usize) -> (name: &[u8])
    ensures
        name@ == c_string(table@, offset as int),
{
    let total: usize = table.len();
    if offset >= total {
        let empty = slice_subrange(table, 0, 0);
        assert(empty@ =~= Seq::<u8>::empty());
        return empty;
    }
    let mut end: usize = offset;
    while end < total && table[end] != 0
        invariant
            offset <= end <= total,
            total == table@.len(),
            forall|j: int| offset <= j < end ==> table@[j] != 0,
        decreases total - end,
    {
        end = end + 1;
    }
    proof {
        lemma_c_string_unique(table@, offset as int, (end - offset) as nat);
    }
    slice_subrange(table, offset, end)
}

} // verus!
