//! Big-endian byte encodings of integers and their numeric meaning.

use vstd::prelude::*;

verus! {

/// The numeric value of a byte string read as a big-endian unsigned integer.
pub open spec fn be_nat(s: Seq<u8>) -> nat
    decreases s.len(),
{
    if s.len() == 0 {
        0
    } else {
        be_nat(s.drop_last()) * 256 + s.last() as nat
    }
}

/// The `len` least significant bytes of `n`, most significant first.
pub open spec fn nat_to_be(n: nat, len: nat) -> Seq<u8>
    decreases len,
{
    if len == 0 {
        Seq::empty()
    } else {
        nat_to_be(n / 256, (len - 1) as nat).push((n % 256) as u8)
    }
}

/// `nat_to_be` produces exactly `len` bytes.
pub proof fn lemma_nat_to_be_len(n: nat, len: nat)
    ensures
        nat_to_be(n, len).len() == len,
    decreases len,
{
    if len > 0 {
        lemma_nat_to_be_len(n / 256, (len - 1) as nat);
    }
}

/// Writing out the value of a byte string gives the byte string back.
pub proof fn lemma_nat_to_be_of_be_nat(s: Seq<u8>)
    ensures
        nat_to_be(be_nat(s), s.len()) == s,
    decreases s.len(),
{
    if s.len() > 0 {
        let prefix = s.drop_last();
        let x = s.last();
        let n = be_nat(s);
        assert(n == be_nat(prefix) * 256 + x as nat);
        assert(n / 256 == be_nat(prefix) && n % 256 == x as nat) by {
            vstd::arithmetic::div_mod::lemma_fundamental_div_mod_converse(
                n as int,
                256,
                be_nat(prefix) as int,
                x as int,
            );
        }
        lemma_nat_to_be_of_be_nat(prefix);
        assert(nat_to_be(n, s.len()) =~= s);
    }
}

/// `256^e`.
pub open spec fn pow256(e: nat) -> nat
    decreases e,
{
    if e == 0 {
        1
    } else {
        256 * pow256((e - 1) as nat)
    }
}

/// The bytes written for `n` denote `n` modulo `256^len`.
pub proof fn lemma_be_nat_of_nat_to_be(n: nat, len: nat)
    ensures
        pow256(len) > 0,
        be_nat(nat_to_be(n, len)) == n % pow256(len),
    decreases len,
{
    if len == 0 {
        assert(nat_to_be(n, 0) =~= Seq::<u8>::empty());
    } else {
        let rest = (len - 1) as nat;
        lemma_be_nat_of_nat_to_be(n / 256, rest);
        let t = nat_to_be(n, len);
        assert(t.drop_last() =~= nat_to_be(n / 256, rest));
        let p = pow256(rest);
        vstd::arithmetic::div_mod::lemma_mod_breakdown(n as int, 256, p as int);
        assert(be_nat(t) == be_nat(t.drop_last()) * 256 + (n % 256));
    }
}

/// A byte string's value is below `256^len`.
pub proof fn lemma_be_nat_bound(s: Seq<u8>)
    ensures
        be_nat(s) < pow256(s.len()),
    decreases s.len(),
{
    if s.len() > 0 {
        let p = s.drop_last();
        lemma_be_nat_bound(p);
        let a = be_nat(p);
        let x = s.last() as nat;
        let q = pow256(p.len());
        assert(a * 256 + x < q * 256) by (nonlinear_arith)
            requires
                a < q,
                x < 256,
        ;
    }
}

/// The first byte of a non-empty byte string carries weight `256^(len-1)`.
pub proof fn lemma_be_nat_first(s: Seq<u8>)
    requires
        s.len() > 0,
    ensures
        be_nat(s) == s[0] as nat * pow256((s.len() - 1) as nat) + be_nat(s.drop_first()),
    decreases s.len(),
{
    if s.len() == 1 {
        assert(s.drop_last() =~= Seq::<u8>::empty());
        assert(s.drop_first() =~= Seq::<u8>::empty());
        assert(be_nat(Seq::<u8>::empty()) == 0);
        assert(pow256(0) == 1);
        assert(s.last() == s[0]);
        assert(be_nat(s) == s[0] as nat);
        assert(be_nat(s.drop_first()) == 0);
        assert(((s.len() - 1) as nat) == 0nat);
        assert(pow256((s.len() - 1) as nat) == 1);
    } else {
        let p = s.drop_last();
        lemma_be_nat_first(p);
        assert(p[0] == s[0]);
        assert(s.drop_first().drop_last() =~= p.drop_first());
        assert(s.drop_first().last() == s.last());
        let w = pow256((p.len() - 1) as nat);
        let r = be_nat(p.drop_first());
        let b = s[0] as nat;
        assert((b * w + r) * 256 + s.last() as nat == b * (256 * w) + (r * 256 + s.last() as nat))
            by (nonlinear_arith);
        assert(pow256((s.len() - 1) as nat) == 256 * w);
        assert(be_nat(s.drop_first()) == be_nat(s.drop_first().drop_last()) * 256 + s.drop_first().last() as nat);
        assert(be_nat(s.drop_first()) == r * 256 + s.last() as nat);
        assert(be_nat(s) == be_nat(p) * 256 + s.last() as nat);
        assert(be_nat(p) == b * w + r);
        assert(be_nat(s) == b * (256 * w) + be_nat(s.drop_first()));
    }
}

/// `s` comes no later than `t` in lexicographic byte order (for strings of
/// equal length).
pub open spec fn lex_le(s: Seq<u8>, t: Seq<u8>) -> bool
    decreases s.len(),
{
    if s.len() == 0 || t.len() == 0 {
        true
    } else if s[0] != t[0] {
        s[0] < t[0]
    } else {
        lex_le(s.drop_first(), t.drop_first())
    }
}

/// For byte strings of equal length, lexicographic order is numeric order.
pub proof fn lemma_lex_le_is_numeric(s: Seq<u8>, t: Seq<u8>)
    requires
        s.len() == t.len(),
    ensures
        lex_le(s, t) <==> be_nat(s) <= be_nat(t),
    decreases s.len(),
{
    if s.len() > 0 {
        lemma_be_nat_first(s);
        lemma_be_nat_first(t);
        let n = (s.len() - 1) as nat;
        let w = pow256(n);
        let rs = be_nat(s.drop_first());
        let rt = be_nat(t.drop_first());
        lemma_be_nat_bound(s.drop_first());
        lemma_be_nat_bound(t.drop_first());
        let a = s[0] as nat;
        let b = t[0] as nat;
        if a < b {
            assert(a * w + rs < b * w + rt) by (nonlinear_arith)
                requires
                    a < b,
                    rs < w,
            ;
        } else if a > b {
            assert(b * w + rt < a * w + rs) by (nonlinear_arith)
                requires
                    b < a,
                    rt < w,
            ;
        } else {
            lemma_lex_le_is_numeric(s.drop_first(), t.drop_first());
        }
    }
}

/// The 32-byte encoding of `u64` values keeps their order: byte order of
/// the encodings is numeric order of the values.
pub proof fn law_u64_be32_order(a: u64, b: u64)
    ensures
        (a <= b) <==> lex_le(u64_be32(a), u64_be32(b)),
        be_nat(u64_be32(a)) == a,
{
    lemma_be_nat_u64(a);
    lemma_be_nat_u64(b);
    lemma_lex_le_is_numeric(u64_be32(a), u64_be32(b));
}

/// Leading zero bytes do not change the value of a byte string.
pub proof fn lemma_be_nat_zero_prefix(zeros: Seq<u8>, t: Seq<u8>)
    requires
        forall|i: int| 0 <= i < zeros.len() ==> zeros[i] == 0u8,
    ensures
        be_nat(zeros + t) == be_nat(t),
    decreases zeros.len() + t.len(),
{
    if t.len() == 0 {
        assert(zeros + t =~= zeros);
        if zeros.len() > 0 {
            lemma_be_nat_zero_prefix(zeros.drop_last(), t);
            assert(zeros.drop_last() + t =~= zeros.drop_last());
        }
    } else {
        assert((zeros + t).drop_last() =~= zeros + t.drop_last());
        lemma_be_nat_zero_prefix(zeros, t.drop_last());
    }
}

/// The eight big-endian bytes of `v` denote `v`.
pub proof fn lemma_be_nat_u64(v: u64)
    ensures
        be_nat(u64_be_bytes(v)) == v,
        be_nat(u64_be32(v)) == v,
{
    let s = u64_be_bytes(v);
    let b0 = (v >> 56u64) as u8;
    let b1 = (v >> 48u64) as u8;
    let b2 = (v >> 40u64) as u8;
    let b3 = (v >> 32u64) as u8;
    let b4 = (v >> 24u64) as u8;
    let b5 = (v >> 16u64) as u8;
    let b6 = (v >> 8u64) as u8;
    let b7 = v as u8;
    assert(((((((b0 as u64 * 256u64 + b1 as u64) * 256u64 + b2 as u64) * 256u64 + b3 as u64)
        * 256u64 + b4 as u64) * 256u64 + b5 as u64) * 256u64 + b6 as u64) * 256u64 + b7 as u64
        == v) by (bit_vector)
        requires
            b0 == (v >> 56u64) as u8,
            b1 == (v >> 48u64) as u8,
            b2 == (v >> 40u64) as u8,
            b3 == (v >> 32u64) as u8,
            b4 == (v >> 24u64) as u8,
            b5 == (v >> 16u64) as u8,
            b6 == (v >> 8u64) as u8,
            b7 == v as u8,
    ;
    let t0 = s.subrange(0, 0);
    let t1 = s.subrange(0, 1);
    let t2 = s.subrange(0, 2);
    let t3 = s.subrange(0, 3);
    let t4 = s.subrange(0, 4);
    let t5 = s.subrange(0, 5);
    let t6 = s.subrange(0, 6);
    let t7 = s.subrange(0, 7);
    assert(t0 =~= Seq::<u8>::empty());
    assert(t1.drop_last() =~= t0 && t1.last() == b0);
    assert(t2.drop_last() =~= t1 && t2.last() == b1);
    assert(t3.drop_last() =~= t2 && t3.last() == b2);
    assert(t4.drop_last() =~= t3 && t4.last() == b3);
    assert(t5.drop_last() =~= t4 && t5.last() == b4);
    assert(t6.drop_last() =~= t5 && t6.last() == b5);
    assert(t7.drop_last() =~= t6 && t7.last() == b6);
    assert(s.drop_last() =~= t7 && s.last() == b7);
    assert(be_nat(t0) == 0);
    assert(be_nat(t1) == b0 as nat);
    assert(be_nat(t2) == be_nat(t1) * 256 + b1 as nat);
    assert(be_nat(t3) == be_nat(t2) * 256 + b2 as nat);
    assert(be_nat(t4) == be_nat(t3) * 256 + b3 as nat);
    assert(be_nat(t5) == be_nat(t4) * 256 + b4 as nat);
    assert(be_nat(t6) == be_nat(t5) * 256 + b5 as nat);
    assert(be_nat(t7) == be_nat(t6) * 256 + b6 as nat);
    assert(be_nat(s) == be_nat(t7) * 256 + b7 as nat);
    assert(be_nat(s) == v);
    let zeros = Seq::new(24, |i: int| 0u8);
    lemma_be_nat_zero_prefix(zeros, s);
}

/// The eight bytes of `v`, most significant first (`u64::to_be_bytes`).
pub open spec fn u64_be_bytes(v: u64) -> Seq<u8> {
    seq![
        (v >> 56u64) as u8,
        (v >> 48u64) as u8,
        (v >> 40u64) as u8,
        (v >> 32u64) as u8,
        (v >> 24u64) as u8,
        (v >> 16u64) as u8,
        (v >> 8u64) as u8,
        v as u8,
    ]
}

/// The eight bytes of the two's-complement form of `v`, most significant
/// first (`i64::to_be_bytes`).
pub open spec fn i64_be_bytes(v: i64) -> Seq<u8> {
    u64_be_bytes(v as u64)
}

/// The `u64` whose big-endian bytes are `s[0..8]` (`u64::from_be_bytes`).
pub open spec fn u64_from_be(s: Seq<u8>) -> u64
    recommends
        s.len() >= 8,
{
    ((s[0] as u64) << 56u64) | ((s[1] as u64) << 48u64) | ((s[2] as u64) << 40u64) | ((
    s[3] as u64) << 32u64) | ((s[4] as u64) << 24u64) | ((s[5] as u64) << 16u64) | ((
    s[6] as u64) << 8u64) | (s[7] as u64)
}

/// The 32-byte big-endian form of `v`: 24 zero bytes, then the bytes of `v`.
pub open spec fn u64_be32(v: u64) -> Seq<u8> {
    Seq::new(24, |i: int| 0u8) + u64_be_bytes(v)
}

/// Reading back the low eight bytes of an encoded `u64` gives the value.
pub proof fn lemma_u64_be_round_trip(v: u64)
    ensures
        u64_from_be(u64_be_bytes(v)) == v,
        u64_from_be(u64_be32(v).subrange(24, 32)) == v,
{
    let s = u64_be_bytes(v);
    assert(s.len() == 8);
    let b0 = (v >> 56u64) as u8;
    let b1 = (v >> 48u64) as u8;
    let b2 = (v >> 40u64) as u8;
    let b3 = (v >> 32u64) as u8;
    let b4 = (v >> 24u64) as u8;
    let b5 = (v >> 16u64) as u8;
    let b6 = (v >> 8u64) as u8;
    let b7 = v as u8;
    assert(((b0 as u64) << 56u64) | ((b1 as u64) << 48u64) | ((b2 as u64) << 40u64) | ((
    b3 as u64) << 32u64) | ((b4 as u64) << 24u64) | ((b5 as u64) << 16u64) | ((b6 as u64)
        << 8u64) | (b7 as u64) == v) by (bit_vector)
        requires
            b0 == (v >> 56u64) as u8,
            b1 == (v >> 48u64) as u8,
            b2 == (v >> 40u64) as u8,
            b3 == (v >> 32u64) as u8,
            b4 == (v >> 24u64) as u8,
            b5 == (v >> 16u64) as u8,
            b6 == (v >> 8u64) as u8,
            b7 == v as u8,
    ;
    assert(u64_be32(v).subrange(24, 32) =~= s);
}

/// The big-endian bytes of `v` (`u64::to_be_bytes`).
pub fn u64_to_be8(v: u64) -> (out: [u8; 8])
    ensures
        out@ == u64_be_bytes(v),
        be_nat(out@) == v,
{
    proof {
        lemma_be_nat_u64(v);
    }
    let out = [
        (v >> 56u64) as u8,
        (v >> 48u64) as u8,
        (v >> 40u64) as u8,
        (v >> 32u64) as u8,
        (v >> 24u64) as u8,
        (v >> 16u64) as u8,
        (v >> 8u64) as u8,
        v as u8,
    ];
    assert(out@ =~= u64_be_bytes(v));
    out
}

/// Convert a u64 to a big-endian 32-byte array (zero-padded in the upper 24 bytes).
pub fn u64_to_be32(v: u64) -> (out: [u8; 32])
    ensures
        out@ == u64_be32(v),
        be_nat(out@) == v,
{
    proof {
        lemma_be_nat_u64(v);
    }
    let b = u64_to_be8(v);
    let mut out = [0u8; 32];
    let mut i: usize = 0;
    while i < 8
        invariant
            0 <= i <= 8,
            b@ == u64_be_bytes(v),
            out@.len() == 32,
            forall|j: int| 0 <= j < 24 ==> out@[j] == 0u8,
            forall|j: int| 0 <= j < i ==> out@[24 + j] == b@[j],
        decreases 8 - i,
    {
        out[24 + i] = b[i];
        i = i + 1;
    }
    assert(out@ =~= u64_be32(v));
    out
}

/// Read a `u64` from the last eight bytes of a 32-byte big-endian array.
pub fn u64_from_be32_tail(be: &[u8; 32]) -> (v: u64)
    ensures
        v == u64_from_be(be@.subrange(24, 32)),
{
    ((be[24] as u64) << 56u64) | ((be[25] as u64) << 48u64) | ((be[26] as u64) << 40u64) | ((
    be[27] as u64) << 32u64) | ((be[28] as u64) << 24u64) | ((be[29] as u64) << 16u64) | ((
    be[30] as u64) << 8u64) | (be[31] as u64)
}

/// Append every byte of `s` to `v`.
pub fn append_bytes(v: &mut Vec<u8>, s: &[u8])
    ensures
        final(v)@ == old(v)@ + s@,
{
    let mut i: usize = 0;
    let ghost start = v@;
    while i < s.len()
        invariant
            0 <= i <= s@.len(),
            v@ == start + s@.subrange(0, i as int),
        decreases s@.len() - i,
    {
        v.push(s[i]);
        i = i + 1;
        assert(v@ =~= start + s@.subrange(0, i as int));
    }
    assert(s@.subrange(0, s@.len() as int) =~= s@);
}

/// Whether two byte strings are equal.
pub fn bytes_eq(a: &[u8], b: &[u8]) -> (eq: bool)
    ensures
        eq == (a@ == b@),
{
    if a.len() != b.len() {
        return false;
    }
    let mut i: usize = 0;
    while i < a.len()
        invariant
            0 <= i <= a@.len(),
            a@.len() == b@.len(),
            forall|j: int| 0 <= j < i ==> a@[j] == b@[j],
        decreases a@.len() - i,
    {
        if a[i] != b[i] {
            return false;
        }
        i = i + 1;
    }
    assert(a@ =~= b@);
    true
}

} // verus!
