//! Little-endian integers as byte sequences.

use vstd::prelude::*;

verus! {

/// The number of distinct values of `n` bytes.
pub open spec fn pow256(n: nat) -> nat
    decreases n,
{
    if n == 0 {
        1
    } else {
        256 * pow256((n - 1) as nat)
    }
}

/// The unsigned value of a little-endian byte sequence.
pub open spec fn le_value(s: Seq<u8>) -> nat
    decreases s.len(),
{
    if s.len() == 0 {
        0
    } else {
        s[0] as nat + 256 * le_value(s.drop_first())
    }
}

/// The `n` low-order bytes of `v`, least significant first.
pub open spec fn le_bytes(v: nat, n: nat) -> Seq<u8>
    decreases n,
{
    if n == 0 {
        Seq::empty()
    } else {
        seq![(v % 256) as u8] + le_bytes(v / 256, (n - 1) as nat)
    }
}

pub proof fn lemma_le_bytes_len(v: nat, n: nat)
    ensures
        le_bytes(v, n).len() == n,
    decreases n,
{
    if n > 0 {
        lemma_le_bytes_len(v / 256, (n - 1) as nat);
    }
}

pub proof fn lemma_pow256_pos(n: nat)
    ensures
        pow256(n) >= 1,
    decreases n,
{
    if n > 0 {
        lemma_pow256_pos((n - 1) as nat);
    }
}

/// A value of fewer than `pow256(n)` survives encoding to `n` bytes and decoding again.
pub proof fn lemma_le_value_of_bytes(v: nat, n: nat)
    requires
        v < pow256(n),
    ensures
        le_value(le_bytes(v, n)) == v,
    decreases n,
{
    if n == 0 {
    } else {
        let p = pow256((n - 1) as nat);
        assert(v / 256 < p) by (nonlinear_arith)
            requires
                v < 256 * p,
        ;
        lemma_le_value_of_bytes(v / 256, (n - 1) as nat);
        let s = le_bytes(v, n);
        assert(s.drop_first() =~= le_bytes(v / 256, (n - 1) as nat));
    }
}

/// Decoding bytes and encoding the value to as many bytes gives the bytes back.
pub proof fn lemma_le_bytes_of_value(s: Seq<u8>)
    ensures
        le_bytes(le_value(s), s.len()) =~= s,
        le_value(s) < pow256(s.len()),
    decreases s.len(),
{
    if s.len() > 0 {
        let r = le_value(s.drop_first());
        lemma_le_bytes_of_value(s.drop_first());
        let v = le_value(s);
        assert(v == s[0] as nat + 256 * r);
        assert(v % 256 == s[0] as nat);
        assert(v / 256 == r);
        assert(le_bytes(v, s.len()) =~= seq![s[0]] + le_bytes(r, s.drop_first().len()));
        assert(v < pow256(s.len())) by (nonlinear_arith)
            requires
                v == s[0] as nat + 256 * r,
                r < pow256(s.drop_first().len()),
                pow256(s.len()) == 256 * pow256(s.drop_first().len()),
                s[0] < 256,
        ;
    }
}

/// Encodings of equal length are equal exactly when the values agree below `pow256(n)`.
pub proof fn lemma_le_bytes_injective(a: nat, b: nat, n: nat)
    requires
        a < pow256(n),
        b < pow256(n),
        le_bytes(a, n) == le_bytes(b, n),
    ensures
        a == b,
{
    lemma_le_value_of_bytes(a, n);
    lemma_le_value_of_bytes(b, n);
}

/// The little-endian 32-bit number held by the four bytes of `s` that start at `i`.
pub open spec fn u32_at_le(s: Seq<u8>, i: int) -> int {
    s[i] as int + 256 * s[i + 1] as int + 65536 * s[i + 2] as int + 16777216 * s[i + 3] as int
}

/// The value of four bytes is the little-endian number they hold.
pub proof fn lemma_le_value_at(s: Seq<u8>, i: int)
    requires
        0 <= i,
        i + 4 <= s.len(),
    ensures
        le_value(s.subrange(i, i + 4)) == u32_at_le(s, i),
        u32_at_le(s, i) < 0x1_0000_0000,
{
    let t = s.subrange(i, i + 4);
    lemma_le_value_4(t);
    assert(t[0] == s[i] && t[1] == s[i + 1] && t[2] == s[i + 2] && t[3] == s[i + 3]);
}

/// The value of two bytes is the little-endian number they hold.
pub proof fn lemma_le_value_at2(s: Seq<u8>, i: int)
    requires
        0 <= i,
        i + 2 <= s.len(),
    ensures
        le_value(s.subrange(i, i + 2)) == s[i] as int + 256 * s[i + 1] as int,
{
    let t = s.subrange(i, i + 2);
    lemma_le_value_2(t);
    assert(t[0] == s[i] && t[1] == s[i + 1]);
}

/// Four bytes written for a 32-bit number hold that number.
pub proof fn lemma_u32_at_le_of_bytes(s: Seq<u8>, i: int, v: u32)
    requires
        0 <= i,
        i + 4 <= s.len(),
        s.subrange(i, i + 4) == le_bytes(v as nat, 4),
    ensures
        u32_at_le(s, i) == v,
{
    reveal_with_fuel(pow256, 5);
    lemma_le_value_of_bytes(v as nat, 4);
    lemma_le_value_at(s, i);
}

pub proof fn lemma_le_value_2(s: Seq<u8>)
    requires
        s.len() == 2,
    ensures
        le_value(s) == s[0] as nat + 256 * s[1] as nat,
{
    reveal_with_fuel(le_value, 3);
    assert(s.drop_first().drop_first().len() == 0);
}

pub proof fn lemma_le_value_4(s: Seq<u8>)
    requires
        s.len() == 4,
    ensures
        le_value(s) == s[0] as nat + 256 * (s[1] as nat + 256 * (s[2] as nat + 256
            * s[3] as nat)),
{
    reveal_with_fuel(le_value, 5);
    assert(s.drop_first().drop_first().drop_first().drop_first().len() == 0);
}

pub proof fn lemma_le_value_8(s: Seq<u8>)
    requires
        s.len() == 8,
    ensures
        le_value(s) == le_value(s.subrange(0, 4)) + 4294967296 * le_value(s.subrange(4, 8)),
{
    reveal_with_fuel(pow256, 5);
    lemma_le_value_split(s, 4);
    assert(s.subrange(4, s.len() as int) =~= s.subrange(4, 8));
}

/// The value of a concatenation: the low part plus the high part shifted.
pub proof fn lemma_le_value_split(s: Seq<u8>, k: int)
    requires
        0 <= k <= s.len(),
    ensures
        le_value(s) == le_value(s.subrange(0, k)) + pow256(k as nat) * le_value(
            s.subrange(k, s.len() as int),
        ),
    decreases k,
{
    if k == 0 {
        assert(s.subrange(0, 0).len() == 0);
        assert(le_value(s.subrange(0, 0)) == 0);
        assert(pow256(0) == 1);
        assert(s.subrange(k, s.len() as int) =~= s);
        assert(pow256(k as nat) == 1);
        assert(le_value(s.subrange(0, k)) == 0);
    } else {
        lemma_le_value_split(s.drop_first(), k - 1);
        assert(s.drop_first().subrange(0, k - 1) =~= s.subrange(0, k).drop_first());
        assert(s.drop_first().subrange(k - 1, s.drop_first().len() as int) =~= s.subrange(
            k,
            s.len() as int,
        ));
        let a = le_value(s.subrange(0, k).drop_first());
        let b = le_value(s.subrange(k, s.len() as int));
        let p = pow256((k - 1) as nat);
        assert(le_value(s.drop_first()) == a + p * b);
        assert(s.subrange(0, k)[0] == s[0]);
        assert(le_value(s.subrange(0, k)) == s[0] as nat + 256 * a);
        assert(pow256(k as nat) == 256 * p);
        let t = le_value(s);
        let t0 = le_value(s.subrange(0, k));
        let pk = pow256(k as nat);
        assert(t == s[0] as nat + 256 * le_value(s.drop_first()));
        assert(t == t0 + pk * b) by (nonlinear_arith)
            requires
                t == s[0] as nat + 256 * (a + p * b),
                t0 == s[0] as nat + 256 * a,
                pk == 256 * p,
        ;
        assert(le_value(s) == le_value(s.subrange(0, k)) + pow256(k as nat) * le_value(
            s.subrange(k, s.len() as int)));
    }
}

pub proof fn lemma_le_bytes_2(v: nat)
    ensures
        le_bytes(v, 2) == seq![(v % 256) as u8, ((v / 256) % 256) as u8],
{
    reveal_with_fuel(le_bytes, 3);
    assert(le_bytes(v, 2) =~= seq![(v % 256) as u8, ((v / 256) % 256) as u8]);
}

pub proof fn lemma_le_bytes_4(v: nat)
    ensures
        le_bytes(v, 4) == seq![
            (v % 256) as u8,
            ((v / 256) % 256) as u8,
            ((v / 65536) % 256) as u8,
            ((v / 16777216) % 256) as u8,
        ],
{
    reveal_with_fuel(le_bytes, 5);
    assert(v / 256 / 256 == v / 65536);
    assert(v / 256 / 256 / 256 == v / 16777216);
    assert(le_bytes(v, 4) =~= seq![
        (v % 256) as u8,
        ((v / 256) % 256) as u8,
        ((v / 65536) % 256) as u8,
        ((v / 16777216) % 256) as u8,
    ]);
}

/// Reads the byte at `pos`.
pub fn read_u8_at(data: &[u8], pos: usize) -> (r: Option<u8>)
    ensures
        r is Some <==> pos + 1 <= data@.len(),
        r matches Some(v) ==> v == data@[pos as int] && v as nat == le_value(
            data@.subrange(pos as int, pos + 1),
        ),
{
    if pos < data.len() {
        proof {
            reveal_with_fuel(le_value, 2);
            assert(data@.subrange(pos as int, pos + 1).drop_first().len() == 0);
        }
        Some(data[pos])
    } else {
        None
    }
}

/// Reads a little-endian `u16` starting at `pos`.
pub fn read_u16_at(data: &[u8], pos: usize) -> (r: Option<u16>)
    ensures
        r is Some <==> pos + 2 <= data@.len(),
        r matches Some(v) ==> v as nat == le_value(data@.subrange(pos as int, pos + 2)),
{
    if data.len() >= 2 && pos <= data.len() - 2 {
        let b0 = data[pos] as u16;
        let b1 = data[pos + 1] as u16;
        proof {
            lemma_le_value_2(data@.subrange(pos as int, pos + 2));
        }
        Some(b0 + 256 * b1)
    } else {
        None
    }
}

/// Reads a little-endian `u32` starting at `pos`.
pub fn read_u32_at(data: &[u8], pos: usize) -> (r: Option<u32>)
    ensures
        r is Some <==> pos + 4 <= data@.len(),
        r matches Some(v) ==> v as nat == le_value(data@.subrange(pos as int, pos + 4)),
{
    if data.len() >= 4 && pos <= data.len() - 4 {
        let b0 = data[pos] as u32;
        let b1 = data[pos + 1] as u32;
        let b2 = data[pos + 2] as u32;
        let b3 = data[pos + 3] as u32;
        proof {
            lemma_le_value_4(data@.subrange(pos as int, pos + 4));
        }
        Some(b0 + 256 * (b1 + 256 * (b2 + 256 * b3)))
    } else {
        None
    }
}

/// Reads a little-endian `u64` starting at `pos`.
pub fn read_u64_at(data: &[u8], pos: usize) -> (r: Option<u64>)
    ensures
        r is Some <==> pos + 8 <= data@.len(),
        r matches Some(v) ==> v as nat == le_value(data@.subrange(pos as int, pos + 8)),
{
    if data.len() >= 8 && pos <= data.len() - 8 {
        let lo = read_u32_at(data, pos).unwrap();
        let hi = read_u32_at(data, pos + 4).unwrap();
        proof {
            let s = data@.subrange(pos as int, pos + 8);
            lemma_le_value_8(s);
            assert(s.subrange(0, 4) =~= data@.subrange(pos as int, pos + 4));
            assert(s.subrange(4, 8) =~= data@.subrange(pos + 4, pos + 8));
        }
        Some(lo as u64 + 4294967296 * hi as u64)
    } else {
        None
    }
}

/// Appends the little-endian bytes of a `u16`.
pub fn push_u16(out: &mut Vec<u8>, v: u16)
    ensures
        final(out)@ == old(out)@ + le_bytes(v as nat, 2),
{
    proof {
        lemma_le_bytes_2(v as nat);
    }
    out.push((v % 256) as u8);
    out.push((v / 256) as u8);
}

/// Appends the little-endian bytes of a `u32`.
pub fn push_u32(out: &mut Vec<u8>, v: u32)
    ensures
        final(out)@ == old(out)@ + le_bytes(v as nat, 4),
{
    proof {
        lemma_le_bytes_4(v as nat);
    }
    out.push((v % 256) as u8);
    out.push(((v / 256) % 256) as u8);
    out.push(((v / 65536) % 256) as u8);
    out.push((v / 16777216) as u8);
}

/// Appends the little-endian bytes of a `u64`.
pub fn push_u64(out: &mut Vec<u8>, v: u64)
    ensures
        final(out)@ == old(out)@ + le_bytes(v as nat, 8),
{
    let lo = (v % 4294967296) as u32;
    let hi = (v / 4294967296) as u32;
    push_u32(out, lo);
    push_u32(out, hi);
    proof {
        reveal_with_fuel(pow256, 5);
        lemma_le_bytes_split(v as nat, 4, 4);
    }
}

/// Encoding to `a + b` bytes is encoding the low part to `a` bytes, then the rest to `b`.
pub proof fn lemma_le_bytes_split(v: nat, a: nat, b: nat)
    ensures
        le_bytes(v, a + b) =~= le_bytes(v % pow256(a), a) + le_bytes(v / pow256(a), b),
    decreases a,
{
    if a == 0 {
        assert(pow256(0) == 1);
        assert(v / 1 == v);
        assert(le_bytes(v % 1, 0) =~= Seq::<u8>::empty());
        assert(le_bytes(v, b) =~= le_bytes(v % pow256(a), a) + le_bytes(v / pow256(a), b));
    } else {
        let p = pow256((a - 1) as nat);
        lemma_pow256_pos((a - 1) as nat);
        lemma_le_bytes_split(v / 256, (a - 1) as nat, b);
        assert((v / 256) / p == v / (256 * p)) by {
            vstd::arithmetic::div_mod::lemma_div_denominator(v as int, 256, p as int);
        }
        assert((v % (256 * p)) % 256 == v % 256) by {
            vstd::arithmetic::div_mod::lemma_mod_mod(v as int, 256, p as int);
        }
        assert((v % (256 * p)) / 256 == (v / 256) % p) by {
            vstd::arithmetic::div_mod::lemma_mod_breakdown(v as int, 256, p as int);
            vstd::arithmetic::div_mod::lemma_mod_multiples_basic(p as int, 256);
            lemma_mod_div_256(v, p);
        }
        assert(pow256(a) == 256 * p);
        assert(le_bytes(v, a + b) =~= seq![(v % 256) as u8] + le_bytes(
            v / 256,
            ((a - 1) as nat + b) as nat,
        ));
        assert(le_bytes(v % (256 * p), a) =~= seq![((v % (256 * p)) % 256) as u8] + le_bytes(
            (v % (256 * p)) / 256,
            (a - 1) as nat,
        ));
        assert(le_bytes(v % pow256(a), a) =~= seq![(v % 256) as u8] + le_bytes(
            (v / 256) % p,
            (a - 1) as nat,
        ));
        assert(v / pow256(a) == (v / 256) / p);
    }
}

proof fn lemma_mod_div_256(v: nat, p: nat)
    requires
        p >= 1,
    ensures
        (v % (256 * p)) / 256 == (v / 256) % p,
{
    let q = v / (256 * p);
    let r = v % (256 * p);
    vstd::arithmetic::div_mod::lemma_fundamental_div_mod(v as int, (256 * p) as int);
    assert(v == (256 * p) * q + r);
    assert(0 <= r < 256 * p);
    assert(v / 256 == p * q + r / 256) by {
        assert(v == 256 * (p * q) + r) by (nonlinear_arith)
            requires
                v == (256 * p) * q + r,
        ;
        vstd::arithmetic::div_mod::lemma_fundamental_div_mod(r as int, 256);
        assert(v == 256 * (p * q + r / 256) + r % 256) by (nonlinear_arith)
            requires
                v == 256 * (p * q) + r,
                r == 256 * (r / 256) + r % 256,
        ;
    }
    assert(r / 256 < p) by (nonlinear_arith)
        requires
            r < 256 * p,
    ;
    vstd::arithmetic::div_mod::lemma_mod_multiples_vanish(q as int, (r / 256) as int, p as int);
    vstd::arithmetic::div_mod::lemma_small_mod((r / 256) as nat, p);
    assert(p * q == q * p) by (nonlinear_arith);
}

} // verus!
