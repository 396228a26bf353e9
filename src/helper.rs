//! Fixed-width integer decoders over byte spans.

use vstd::prelude::*;

verus! {

/// The unsigned value of `s` read little-endian: byte `i` weighs `256^i`.
pub open spec fn le_value(s: Seq<u8>) -> nat
    decreases s.len(),
{
    if s.len() == 0 {
        0
    } else {
        s[0] as nat + 256 * le_value(s.subrange(1, s.len() as int))
    }
}

/// The unsigned value of `s` read big-endian: the last byte weighs `1`.
pub open spec fn be_value(s: Seq<u8>) -> nat
    decreases s.len(),
{
    if s.len() == 0 {
        0
    } else {
        s.last() as nat + 256 * be_value(s.drop_last())
    }
}

/// The little-endian value of the `width` bytes of `b` that start at `offset`.
pub open spec fn le_at(b: Seq<u8>, offset: int, width: int) -> nat {
    le_value(b.subrange(offset, offset + width))
}

/// `256^n`, the number of values that `n` bytes can hold.
pub open spec fn radix_pow(n: nat) -> nat
    decreases n,
{
    if n == 0 {
        1
    } else {
        256 * radix_pow((n - 1) as nat)
    }
}

/// The `width` bytes of `v` in little-endian order (`v` truncated to `width` bytes).
pub open spec fn le_bytes(v: nat, width: nat) -> Seq<u8>
    decreases width,
{
    if width == 0 {
        Seq::empty()
    } else {
        seq![(v % 256) as u8] + le_bytes(v / 256, (width - 1) as nat)
    }
}

/// Encoding a value that fits in `width` bytes little-endian and decoding it
/// again gives the value back.
pub proof fn lemma_le_round_trip(v: nat, width: nat)
    requires
        v < radix_pow(width),
    ensures
        le_bytes(v, width).len() == width,
        le_value(le_bytes(v, width)) == v,
    decreases width,
{
    if width > 0 {
        let rest = le_bytes(v / 256, (width - 1) as nat);
        lemma_le_round_trip(v / 256, (width - 1) as nat);
        let s = le_bytes(v, width);
        assert(s.subrange(1, s.len() as int) =~= rest);
    }
}

/// The round trip at the three widths that the decoders read.
pub proof fn lemma_le_round_trip_widths(a: u16, b: u32, c: u64)
    ensures
        le_value(le_bytes(a as nat, 2)) == a,
        le_value(le_bytes(b as nat, 4)) == b,
        le_value(le_bytes(c as nat, 8)) == c,
{
    reveal_with_fuel(radix_pow, 9);
    lemma_le_round_trip(a as nat, 2);
    lemma_le_round_trip(b as nat, 4);
    lemma_le_round_trip(c as nat, 8);
}

/// Decodes a two-byte span: little-endian when `reverse` is set, big-endian otherwise.
pub fn slice_to_u16(slice: &[u8], reverse: bool) -> (r: u16)
    requires
        slice@.len() == 2,
    ensures
        r == if reverse { le_value(slice@) } else { be_value(slice@) },
{
    let ghost s = slice@;
    proof {
        reveal_with_fuel(le_value, 3);
        reveal_with_fuel(be_value, 3);
        assert(s.drop_last().drop_last() =~= Seq::<u8>::empty());
    }
    if reverse {
        (slice[0] as u16) + (slice[1] as u16) * 256
    } else {
        (slice[1] as u16) + (slice[0] as u16) * 256
    }
}

/// Decodes a four-byte span: little-endian when `reverse` is set, big-endian otherwise.
pub fn slice_to_u32(slice: &[u8], reverse: bool) -> (r: u32)
    requires
        slice@.len() == 4,
    ensures
        r == if reverse { le_value(slice@) } else { be_value(slice@) },
{
    let ghost s = slice@;
    proof {
        reveal_with_fuel(le_value, 5);
        reveal_with_fuel(be_value, 5);
        assert(s.drop_last().drop_last().drop_last().drop_last() =~= Seq::<u8>::empty());
    }
    if reverse {
        (slice[0] as u32) + (slice[1] as u32) * 0x100 + (slice[2] as u32) * 0x1_0000
            + (slice[3] as u32) * 0x100_0000
    } else {
        (slice[3] as u32) + (slice[2] as u32) * 0x100 + (slice[1] as u32) * 0x1_0000
            + (slice[0] as u32) * 0x100_0000
    }
}

/// Decodes an eight-byte span: little-endian when `reverse` is set, big-endian otherwise.
pub fn slice_to_u64(slice: &[u8], reverse: bool) -> (r: u64)
    requires
        slice@.len() == 8,
    ensures
        r == if reverse { le_value(slice@) } else { be_value(slice@) },
{
    let ghost s = slice@;
    proof {
        reveal_with_fuel(le_value, 9);
        reveal_with_fuel(be_value, 9);
        assert(s.drop_last().drop_last().drop_last().drop_last().drop_last().drop_last()
            .drop_last().drop_last() =~= Seq::<u8>::empty());
    }
    if reverse {
        (slice[0] as u64) + (slice[1] as u64) * 0x100 + (slice[2] as u64) * 0x1_0000
            + (slice[3] as u64) * 0x100_0000 + (slice[4] as u64) * 0x1_0000_0000
            + (slice[5] as u64) * 0x100_0000_0000 + (slice[6] as u64) * 0x1_0000_0000_0000
            + (slice[7] as u64) * 0x100_0000_0000_0000
    } else {
        (slice[7] as u64) + (slice[6] as u64) * 0x100 + (slice[5] as u64) * 0x1_0000
            + (slice[4] as u64) * 0x100_0000 + (slice[3] as u64) * 0x1_0000_0000
            + (slice[2] as u64) * 0x100_0000_0000 + (slice[1] as u64) * 0x1_0000_0000_0000
            + (slice[0] as u64) * 0x100_0000_0000_0000
    }
}

} // verus!
