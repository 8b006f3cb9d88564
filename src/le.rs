use vstd::prelude::*;

verus! {

/// `256` to the power `w`.
pub open spec fn pow256(w: nat) -> nat
    decreases w,
{
    if w == 0 {
        1
    } else {
        256 * pow256((w - 1) as nat)
    }
}

/// The unsigned value of `s` read little-endian: `s[0]` is the lowest byte.
pub open spec fn le_nat(s: Seq<u8>) -> nat
    decreases s.len(),
{
    if s.len() == 0 {
        0
    } else {
        s[0] as nat + 256 * le_nat(s.drop_first())
    }
}

/// The `w` little-endian bytes of `v` (taken modulo `256^w`).
pub open spec fn le_bytes(v: nat, w: nat) -> Seq<u8>
    decreases w,
{
    if w == 0 {
        Seq::empty()
    } else {
        seq![(v % 256) as u8] + le_bytes(v / 256, (w - 1) as nat)
    }
}

/// Two's-complement reading of the `w`-byte unsigned pattern `u`.
pub open spec fn to_signed(u: nat, w: nat) -> int {
    if u >= pow256(w) / 2 {
        u - pow256(w)
    } else {
        u as int
    }
}

/// The `w`-byte unsigned pattern of the two's-complement value `v`.
pub open spec fn from_signed(v: int, w: nat) -> nat {
    if v < 0 {
        (v + pow256(w)) as nat
    } else {
        v as nat
    }
}

/// Whether the `w` bytes from `start` lie wholly inside `s`.
pub open spec fn in_bounds(s: Seq<u8>, start: int, w: int) -> bool {
    0 <= start && start + w <= s.len()
}

/// The unsigned little-endian value of the `w` bytes of `s` from `start`.
pub open spec fn le_at(s: Seq<u8>, start: int, w: int) -> nat {
    le_nat(s.subrange(start, start + w))
}

pub proof fn lemma_pow256_values()
    ensures
        pow256(1) == 0x100,
        pow256(2) == 0x1_0000,
        pow256(4) == 0x1_0000_0000,
        pow256(8) == 0x1_0000_0000_0000_0000,
{
    reveal_with_fuel(pow256, 9);
}

/// `pow256` grows with its exponent.
pub proof fn lemma_pow256_monotone(a: nat, b: nat)
    requires
        a <= b,
    ensures
        pow256(a) <= pow256(b),
    decreases b,
{
    if a < b {
        lemma_pow256_monotone(a, (b - 1) as nat);
    }
}

/// Decoding the little-endian bytes of an unsigned value gives the value back,
/// for every value that fits in `w` bytes.
pub proof fn lemma_unsigned_round_trip(v: nat, w: nat)
    requires
        v < pow256(w),
    ensures
        le_bytes(v, w).len() == w,
        le_nat(le_bytes(v, w)) == v,
    decreases w,
{
    if w > 0 {
        let p = pow256((w - 1) as nat);
        assert(v / 256 < p) by (nonlinear_arith)
            requires
                v < 256 * p,
        ;
        lemma_unsigned_round_trip(v / 256, (w - 1) as nat);
        let s = le_bytes(v, w);
        assert(s.drop_first() =~= le_bytes(v / 256, (w - 1) as nat));
        assert(v == v % 256 + 256 * (v / 256)) by (nonlinear_arith);
    }
}

/// Decoding the little-endian bytes of a two's-complement value, and reading the
/// pattern as signed, gives the value back, for every value that fits in `w` bytes.
pub proof fn lemma_signed_round_trip(v: int, w: nat)
    requires
        w >= 1,
        -(pow256(w) / 2) <= v < pow256(w) / 2,
    ensures
        to_signed(le_nat(le_bytes(from_signed(v, w), w)), w) == v,
{
    lemma_unsigned_round_trip(from_signed(v, w), w);
}

} // verus!
