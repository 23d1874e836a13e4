//! Big-endian integers in byte strings.
//!
//! Every message of the runtime is a concatenation of fixed-width unsigned
//! integers, most significant byte first.  `be_bytes` spells a number and
//! `be_value` reads one back; the two laws at the end say that they undo each
//! other.

use vstd::prelude::*;

verus! {

/// The number of values that `n` bytes can spell.
pub open spec fn radix(n: nat) -> nat
    decreases n,
{
    if n == 0 {
        1
    } else {
        256 * radix((n - 1) as nat)
    }
}

/// The number that the bytes `s` spell, most significant byte first.
pub open spec fn be_value(s: Seq<u8>) -> nat
    decreases s.len(),
{
    if s.len() == 0 {
        0
    } else {
        be_value(s.drop_last()) * 256 + s.last() as nat
    }
}

/// The `n` bytes that spell `v` modulo `radix(n)`, most significant byte first.
pub open spec fn be_bytes(v: nat, n: nat) -> Seq<u8>
    decreases n,
{
    if n == 0 {
        Seq::empty()
    } else {
        be_bytes(v / 256, (n - 1) as nat).push((v % 256) as u8)
    }
}

/// The number that the `n` bytes of `s` from `offset` on spell.
pub open spec fn be_at(s: Seq<u8>, offset: int, n: int) -> nat {
    be_value(s.subrange(offset, offset + n))
}

/// `be_bytes` yields exactly `n` bytes.
pub broadcast proof fn lemma_be_bytes_len(v: nat, n: nat)
    ensures
        #[trigger] be_bytes(v, n).len() == n,
    decreases n,
{
    if n > 0 {
        lemma_be_bytes_len(v / 256, (n - 1) as nat);
    }
}

/// What `n` bytes spell is below `radix(n)`.
pub proof fn lemma_be_value_bound(s: Seq<u8>)
    ensures
        be_value(s) < radix(s.len()),
    decreases s.len(),
{
    if s.len() > 0 {
        lemma_be_value_bound(s.drop_last());
    }
}

/// The ranges of two, four and eight bytes.
pub proof fn lemma_radix_values()
    ensures
        radix(1) == 0x100,
        radix(2) == 0x1_0000,
        radix(4) == 0x1_0000_0000,
        radix(8) == 0x1_0000_0000_0000_0000,
{
    reveal_with_fuel(radix, 9);
}

/// Reading a spelled number gives it back, whenever it fits the width.
pub proof fn law_value_of_bytes(v: nat, n: nat)
    requires
        v < radix(n),
    ensures
        be_value(be_bytes(v, n)) == v,
    decreases n,
{
    if n > 0 {
        let m = (n - 1) as nat;
        assert(v / 256 < radix(m)) by (nonlinear_arith)
            requires
                v < 256 * radix(m),
        ;
        law_value_of_bytes(v / 256, m);
        lemma_be_bytes_len(v / 256, m);
        assert(be_bytes(v, n).drop_last() =~= be_bytes(v / 256, m));
    }
}

/// Spelling what some bytes spell gives those bytes back.
pub proof fn law_bytes_of_value(s: Seq<u8>)
    ensures
        be_bytes(be_value(s), s.len()) == s,
    decreases s.len(),
{
    if s.len() > 0 {
        let front = be_value(s.drop_last());
        let v = be_value(s);
        assert(v == front * 256 + s.last() as nat);
        assert(v / 256 == front && v % 256 == s.last() as nat);
        law_bytes_of_value(s.drop_last());
        assert(be_bytes(v, s.len()) =~= s);
    } else {
        assert(be_bytes(be_value(s), s.len()) =~= s);
    }
}

/// A `u16` in two bytes reads back as itself.
pub broadcast proof fn lemma_two_bytes(v: u16)
    ensures
        be_value(#[trigger] be_bytes(v as nat, 2)) == v,
{
    lemma_radix_values();
    law_value_of_bytes(v as nat, 2);
}

/// A `u32` in four bytes reads back as itself.
pub broadcast proof fn lemma_four_bytes(v: u32)
    ensures
        be_value(#[trigger] be_bytes(v as nat, 4)) == v,
{
    lemma_radix_values();
    law_value_of_bytes(v as nat, 4);
}

/// A `u64` in eight bytes reads back as itself.
pub broadcast proof fn lemma_eight_bytes(v: u64)
    ensures
        be_value(#[trigger] be_bytes(v as nat, 8)) == v,
{
    lemma_radix_values();
    law_value_of_bytes(v as nat, 8);
}

/// What two, four or eight bytes spell fits the integer of that width and spells
/// the same bytes again.
pub proof fn lemma_field(s: Seq<u8>, offset: int, n: int)
    requires
        0 <= offset,
        0 <= n,
        offset + n <= s.len(),
    ensures
        n == 2 ==> be_at(s, offset, n) <= u16::MAX,
        n == 4 ==> be_at(s, offset, n) <= u32::MAX,
        n == 8 ==> be_at(s, offset, n) <= u64::MAX,
        be_bytes(be_at(s, offset, n), n as nat) == s.subrange(offset, offset + n),
{
    let field = s.subrange(offset, offset + n);
    lemma_radix_values();
    lemma_be_value_bound(field);
    law_bytes_of_value(field);
}

/// The lengths and values of spelled numbers.
pub broadcast group group_wire {
    lemma_be_bytes_len,
    lemma_two_bytes,
    lemma_four_bytes,
    lemma_eight_bytes,
}

/// Appends the four bytes of `value`.
pub fn push_u32(output: &mut Vec<u8>, value: u32)
    ensures
        final(output)@ == old(output)@ + be_bytes(value as nat, 4),
{
    output.push((value / 0x100_0000) as u8);
    output.push((value / 0x1_0000 % 0x100) as u8);
    output.push((value / 0x100 % 0x100) as u8);
    output.push((value % 0x100) as u8);
    proof {
        reveal_with_fuel(be_bytes, 5);
        assert(output@ =~= old(output)@ + be_bytes(value as nat, 4));
    }
}

/// Appends the two bytes of `value`.
pub fn push_u16(output: &mut Vec<u8>, value: u16)
    ensures
        final(output)@ == old(output)@ + be_bytes(value as nat, 2),
{
    output.push((value / 0x100) as u8);
    output.push((value % 0x100) as u8);
    proof {
        reveal_with_fuel(be_bytes, 3);
        assert(output@ =~= old(output)@ + be_bytes(value as nat, 2));
    }
}

/// Appends the eight bytes of `value`.
pub fn push_u64(output: &mut Vec<u8>, value: u64)
    ensures
        final(output)@ == old(output)@ + be_bytes(value as nat, 8),
{
    let ghost before = output@;
    let v1: u64 = value / 0x100;
    let v2: u64 = v1 / 0x100;
    let v3: u64 = v2 / 0x100;
    let v4: u64 = v3 / 0x100;
    let v5: u64 = v4 / 0x100;
    let v6: u64 = v5 / 0x100;
    let v7: u64 = v6 / 0x100;
    output.push(v7 as u8);
    output.push((v6 % 0x100) as u8);
    output.push((v5 % 0x100) as u8);
    output.push((v4 % 0x100) as u8);
    output.push((v3 % 0x100) as u8);
    output.push((v2 % 0x100) as u8);
    output.push((v1 % 0x100) as u8);
    output.push((value % 0x100) as u8);
    proof {
        reveal_with_fuel(be_bytes, 2);
        assert(be_bytes(v7 as nat, 1) =~= seq![v7 as u8]);
        assert(be_bytes(value as nat, 8) =~= seq![
            v7 as u8,
            (v6 % 0x100) as u8,
            (v5 % 0x100) as u8,
            (v4 % 0x100) as u8,
            (v3 % 0x100) as u8,
            (v2 % 0x100) as u8,
            (v1 % 0x100) as u8,
            (value % 0x100) as u8,
        ]) by {
            assert(be_bytes(v6 as nat, 2) == be_bytes(v7 as nat, 1).push((v6 % 0x100) as u8));
            assert(be_bytes(v5 as nat, 3) == be_bytes(v6 as nat, 2).push((v5 % 0x100) as u8));
            assert(be_bytes(v4 as nat, 4) == be_bytes(v5 as nat, 3).push((v4 % 0x100) as u8));
            assert(be_bytes(v3 as nat, 5) == be_bytes(v4 as nat, 4).push((v3 % 0x100) as u8));
            assert(be_bytes(v2 as nat, 6) == be_bytes(v3 as nat, 5).push((v2 % 0x100) as u8));
            assert(be_bytes(v1 as nat, 7) == be_bytes(v2 as nat, 6).push((v1 % 0x100) as u8));
        }
        assert(output@ =~= before + be_bytes(value as nat, 8));
    }
}

/// Reads the two bytes of `bytes` from `offset` on.
pub fn read_u16(bytes: &[u8], offset: usize) -> (value: u16)
    requires
        offset + 2 <= bytes.len(),
    ensures
        value == be_at(bytes@, offset as int, 2),
{
    proof {
        lemma_small_values(bytes@, offset as int);
    }
    bytes[offset] as u16 * 0x100 + bytes[offset + 1] as u16
}

/// Reads the four bytes of `bytes` from `offset` on.
pub fn read_u32(bytes: &[u8], offset: usize) -> (value: u32)
    requires
        offset + 4 <= bytes.len(),
    ensures
        value == be_at(bytes@, offset as int, 4),
{
    proof {
        lemma_word_values(bytes@, offset as int);
    }
    bytes[offset] as u32 * 0x100_0000 + bytes[offset + 1] as u32 * 0x1_0000 + bytes[offset
        + 2] as u32 * 0x100 + bytes[offset + 3] as u32
}

/// Reads the eight bytes of `bytes` from `offset` on.
pub fn read_u64(bytes: &[u8], offset: usize) -> (value: u64)
    requires
        offset + 8 <= bytes.len(),
    ensures
        value == be_at(bytes@, offset as int, 8),
{
    let high: u32 = read_u32(bytes, offset);
    let low: u32 = read_u32(bytes, offset + 4);
    proof {
        lemma_be_value_concat(
            bytes@.subrange(offset as int, offset + 4),
            bytes@.subrange(offset + 4, offset + 8),
        );
        lemma_radix_values();
        assert(bytes@.subrange(offset as int, offset + 4) + bytes@.subrange(offset + 4, offset + 8)
            =~= bytes@.subrange(offset as int, offset + 8));
    }
    high as u64 * 0x1_0000_0000 + low as u64
}

/// What a concatenation spells.
proof fn lemma_be_value_concat(s: Seq<u8>, t: Seq<u8>)
    ensures
        be_value(s + t) == be_value(s) * radix(t.len()) + be_value(t),
    decreases t.len(),
{
    if t.len() == 0 {
        assert(s + t =~= s);
        assert(be_value(s) * radix(0) == be_value(s)) by {
            assert(radix(0) == 1);
        }
    } else {
        let front = t.drop_last();
        lemma_be_value_concat(s, front);
        assert((s + t).drop_last() =~= s + front);
        assert(radix(t.len()) == 256 * radix(front.len()));
        assert((be_value(s) * radix(front.len()) + be_value(front)) * 256 + t.last() as nat
            == be_value(s) * (256 * radix(front.len())) + (be_value(front) * 256
            + t.last() as nat)) by (nonlinear_arith);
    }
}

proof fn lemma_small_values(s: Seq<u8>, offset: int)
    requires
        0 <= offset,
        offset + 2 <= s.len(),
    ensures
        be_at(s, offset, 2) == s[offset] * 0x100 + s[offset + 1],
{
    reveal_with_fuel(be_value, 3);
}

proof fn lemma_word_values(s: Seq<u8>, offset: int)
    requires
        0 <= offset,
        offset + 4 <= s.len(),
    ensures
        be_at(s, offset, 4) == s[offset] * 0x100_0000 + s[offset + 1] * 0x1_0000 + s[offset + 2]
            * 0x100 + s[offset + 3],
{
    reveal_with_fuel(be_value, 5);
}

/// Numbers are read most significant byte first: each byte counts 256 times as much as the
/// one behind it.
pub proof fn law_most_significant_byte_first(s: Seq<u8>, offset: int)
    requires
        0 <= offset,
    ensures
        offset + 2 <= s.len() ==> be_at(s, offset, 2) == s[offset] * 0x100 + s[offset + 1],
        offset + 4 <= s.len() ==> be_at(s, offset, 4) == s[offset] * 0x100_0000 + s[offset + 1]
            * 0x1_0000 + s[offset + 2] * 0x100 + s[offset + 3],
        offset + 8 <= s.len() ==> be_at(s, offset, 8) == (s[offset] * 0x100_0000 + s[offset + 1]
            * 0x1_0000 + s[offset + 2] * 0x100 + s[offset + 3]) * 0x1_0000_0000 + (s[offset + 4]
            * 0x100_0000 + s[offset + 5] * 0x1_0000 + s[offset + 6] * 0x100 + s[offset + 7]),
{
    if offset + 2 <= s.len() {
        lemma_small_values(s, offset);
    }
    if offset + 4 <= s.len() {
        lemma_word_values(s, offset);
    }
    if offset + 8 <= s.len() {
        lemma_word_values(s, offset + 4);
        lemma_be_value_concat(
            s.subrange(offset, offset + 4),
            s.subrange(offset + 4, offset + 8),
        );
        lemma_radix_values();
        assert(s.subrange(offset, offset + 4) + s.subrange(offset + 4, offset + 8)
            =~= s.subrange(offset, offset + 8));
    }
}

/// Numbers are written most significant byte first, and the first byte holds what is above
/// the others.
pub proof fn law_first_byte_is_the_highest(v: nat)
    ensures
        v < 0x1_0000 ==> be_bytes(v, 2) == seq![(v / 0x100) as u8, (v % 0x100) as u8],
        v < 0x1_0000_0000 ==> be_bytes(v, 4) == seq![
            (v / 0x100_0000) as u8,
            (v / 0x1_0000 % 0x100) as u8,
            (v / 0x100 % 0x100) as u8,
            (v % 0x100) as u8,
        ],
{
    reveal_with_fuel(be_bytes, 5);
    if v < 0x1_0000 {
        assert(be_bytes(v, 2) =~= seq![(v / 0x100) as u8, (v % 0x100) as u8]);
    }
    if v < 0x1_0000_0000 {
        assert(be_bytes(v, 4) =~= seq![
            (v / 0x100_0000) as u8,
            (v / 0x1_0000 % 0x100) as u8,
            (v / 0x100 % 0x100) as u8,
            (v % 0x100) as u8,
        ]);
    }
}

} // verus!
