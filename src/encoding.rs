use vstd::prelude::*;

verus! {

/// 2^64, the number of values of a 64-bit word.
pub open spec fn word_range() -> int {
    0x1_0000_0000_0000_0000int
}

/// 256^n.
pub open spec fn pow256(n: nat) -> nat
    decreases n,
{
    if n == 0 {
        1
    } else {
        256 * pow256((n - 1) as nat)
    }
}

/// The unsigned value of a little-endian byte sequence.
pub open spec fn le_unsigned(b: Seq<u8>) -> nat
    decreases b.len(),
{
    if b.len() == 0 {
        0
    } else {
        b[0] as nat + 256 * le_unsigned(b.drop_first())
    }
}

/// The two's-complement reading of eight little-endian bytes.
pub open spec fn le_i64(b: Seq<u8>) -> i64 {
    let u = le_unsigned(b);
    if u > i64::MAX {
        (u - word_range()) as i64
    } else {
        u as i64
    }
}

/// The `n` low little-endian bytes of `u`.
pub open spec fn le_bytes(u: nat, n: nat) -> Seq<u8>
    decreases n,
{
    if n == 0 {
        Seq::empty()
    } else {
        seq![(u % 256) as u8] + le_bytes(u / 256, (n - 1) as nat)
    }
}

/// The 64-bit two's-complement bit pattern of `v`, as an unsigned number.
pub open spec fn unsigned_of(v: i64) -> nat {
    if v < 0 {
        (v + word_range()) as nat
    } else {
        v as nat
    }
}

/// The eight-byte little-endian encoding of `v`.
pub open spec fn encode_i64(v: i64) -> Seq<u8> {
    le_bytes(unsigned_of(v), 8)
}

pub proof fn lemma_le_bytes_len(u: nat, n: nat)
    ensures
        le_bytes(u, n).len() == n,
    decreases n,
{
    if n > 0 {
        lemma_le_bytes_len(u / 256, (n - 1) as nat);
    }
}

/// Reading back the `n` low bytes of a number below 256^n gives the number.
pub proof fn lemma_le_bytes_inverse(u: nat, n: nat)
    requires
        u < pow256(n),
    ensures
        le_unsigned(le_bytes(u, n)) == u,
    decreases n,
{
    if n > 0 {
        let m = (n - 1) as nat;
        let p = pow256(m);
        assert(u / 256 < p) by (nonlinear_arith)
            requires
                u < 256 * p,
        ;
        lemma_le_bytes_inverse(u / 256, m);
        let s = le_bytes(u, n);
        assert(s.drop_first() =~= le_bytes(u / 256, m));
        assert(u == (u % 256) + 256 * (u / 256)) by (nonlinear_arith);
    }
}

/// Every sequence of eight bytes reads as a value below 2^64.
pub proof fn lemma_le_unsigned_bound(b: Seq<u8>)
    ensures
        le_unsigned(b) < pow256(b.len()),
    decreases b.len(),
{
    if b.len() > 0 {
        lemma_le_unsigned_bound(b.drop_first());
        let r = le_unsigned(b.drop_first());
        let p = pow256((b.len() - 1) as nat);
        let h = b[0] as nat;
        assert(h + 256 * r < 256 * p) by (nonlinear_arith)
            requires
                r < p,
                h < 256,
        ;
    }
}

pub proof fn lemma_pow256_8()
    ensures
        pow256(8) == word_range(),
{
    reveal_with_fuel(pow256, 9);
}

/// Encoding a value in eight little-endian bytes and reading them back gives
/// the value unchanged.
pub proof fn lemma_encode_decode_i64(v: i64)
    ensures
        encode_i64(v).len() == 8,
        le_i64(encode_i64(v)) == v,
{
    lemma_le_bytes_len(unsigned_of(v), 8);
    lemma_pow256_8();
    lemma_le_bytes_inverse(unsigned_of(v), 8);
}

/// The eight-byte little-endian encoding of `v`, as a `PushConst` operand.
pub fn encode_i64_le(v: i64) -> (r: Vec<u8>)
    ensures
        r@ == encode_i64(v),
{
    let mut u: i128 = if v < 0 {
        v as i128 + 0x1_0000_0000_0000_0000i128
    } else {
        v as i128
    };
    let mut out: Vec<u8> = Vec::new();
    let mut k: usize = 0;
    while k < 8
        invariant
            0 <= k <= 8,
            0 <= u,
            out@ + le_bytes(u as nat, (8 - k) as nat) == encode_i64(v),
        decreases 8 - k,
    {
        let d = (u % 256) as u8;
        proof {
            let rest = le_bytes((u / 256) as nat, (7 - k) as nat);
            assert(le_bytes(u as nat, (8 - k) as nat) == seq![d] + rest);
            assert(out@.push(d) + rest =~= out@ + (seq![d] + rest));
        }
        out.push(d);
        u = u / 256;
        k = k + 1;
    }
    assert(out@ + le_bytes(u as nat, 0) =~= out@);
    out
}

} // verus!
