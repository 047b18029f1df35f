//! Binary identifiers and the numbers they are shown as.
//!
//! A row is keyed by a byte string. Outside the store an identifier is an
//! `i64`: the first eight bytes of the key, read big-endian in two's
//! complement.

use vstd::prelude::*;

verus! {

/// Bytes of an identifier that the store generates.
pub const ID_LEN: usize = 16;

/// Bytes of an identifier that make up its number.
pub const PREFIX_LEN: usize = 8;

/// The natural number that `s` spells in base 256, most significant byte first.
pub open spec fn be_nat(s: Seq<u8>) -> nat
    decreases s.len(),
{
    if s.len() == 0 {
        0
    } else {
        be_nat(s.drop_last()) * 256 + s.last() as nat
    }
}

/// The signed number that eight bytes spell, big-endian, two's complement.
pub open spec fn be_i64(s: Seq<u8>) -> int {
    let v = be_nat(s) as int;
    if v < 0x8000_0000_0000_0000 {
        v
    } else {
        v - 0x1_0000_0000_0000_0000
    }
}

/// The number under which an identifier of at least eight bytes is shown.
pub open spec fn external_id(s: Seq<u8>) -> int
    recommends
        s.len() >= PREFIX_LEN,
{
    be_i64(s.subrange(0, PREFIX_LEN as int))
}

/// 256 to the power `n`.
pub open spec fn pow256(n: nat) -> nat
    decreases n,
{
    if n == 0 {
        1
    } else {
        256 * pow256((n - 1) as nat)
    }
}

/// The unsigned 64-bit pattern of `v` in two's complement.
pub open spec fn twos_complement(v: i64) -> nat {
    if v >= 0 {
        v as nat
    } else {
        (v + 0x1_0000_0000_0000_0000) as nat
    }
}

/// Byte `i` (0 first) of the `n`-byte big-endian spelling of `v`.
pub open spec fn be_byte(v: nat, n: nat, i: int) -> u8 {
    ((v / pow256((n - 1 - i) as nat)) % 256) as u8
}

/// The `n` bytes that spell `v` big-endian.
pub open spec fn be_bytes(v: nat, n: nat) -> Seq<u8> {
    Seq::new(n, |i: int| be_byte(v, n, i))
}

/// The eight bytes of `v`, big-endian, two's complement.
pub open spec fn i64_be_bytes(v: i64) -> Seq<u8> {
    be_bytes(twos_complement(v), 8)
}

/// The two bytes of `v`, big-endian.
pub open spec fn u16_be_bytes(v: u16) -> Seq<u8> {
    be_bytes(v as nat, 2)
}

/// A byte string of length `n` spells a number below 256^n.
pub proof fn lemma_be_nat_bound(s: Seq<u8>)
    ensures
        be_nat(s) < pow256(s.len()),
    decreases s.len(),
{
    if s.len() > 0 {
        lemma_be_nat_bound(s.drop_last());
    }
}

proof fn lemma_pow256_values()
    ensures
        pow256(0) == 1,
        pow256(1) == 0x100,
        pow256(2) == 0x1_0000,
        pow256(3) == 0x100_0000,
        pow256(4) == 0x1_0000_0000,
        pow256(5) == 0x100_0000_0000,
        pow256(6) == 0x1_0000_0000_0000,
        pow256(7) == 0x100_0000_0000_0000,
        pow256(8) == 0x1_0000_0000_0000_0000,
{
    reveal_with_fuel(pow256, 9);
}

/// Spelling `v` in `n` bytes and reading the bytes back gives `v`.
pub proof fn lemma_be_nat_of_be_bytes(v: nat, n: nat)
    requires
        v < pow256(n),
    ensures
        be_nat(be_bytes(v, n)) == v,
    decreases n,
{
    let s = be_bytes(v, n);
    if n > 0 {
        let m = (n - 1) as nat;
        let q = v / 256;
        assert(q < pow256(m)) by (nonlinear_arith)
            requires
                v < 256 * pow256(m),
                q == v / 256,
        ;
        lemma_be_nat_of_be_bytes(q, m);
        assert(s.drop_last() =~= be_bytes(q, m)) by {
            assert forall|i: int| 0 <= i < m implies s[i] == be_bytes(q, m)[i] by {
                let e = (m - 1 - i) as nat;
                assert(pow256((n - 1 - i) as nat) == 256 * pow256(e));
                lemma_pow256_positive(e);
                lemma_div_twice(v, pow256(e));
            }
        }
        assert(s.last() == (v % 256) as u8) by {
            assert(s.last() == be_byte(v, n, n - 1));
            assert(pow256(0) == 1);
            assert(v / 1 == v);
        }
        assert(v == q * 256 + v % 256) by (nonlinear_arith)
            requires
                q == v / 256,
        ;
    }
}

proof fn lemma_div_twice(v: nat, p: nat)
    requires
        p > 0,
    ensures
        v / (256 * p) == (v / 256) / p,
{
    vstd::arithmetic::div_mod::lemma_div_denominator(v as int, 256, p as int);
}

/// Reading a byte string and spelling the number again gives the byte string.
pub proof fn lemma_be_bytes_of_be_nat(s: Seq<u8>)
    ensures
        be_bytes(be_nat(s), s.len()) == s,
    decreases s.len(),
{
    let n = s.len();
    let v = be_nat(s);
    if n > 0 {
        let m = (n - 1) as nat;
        let q = be_nat(s.drop_last());
        lemma_be_bytes_of_be_nat(s.drop_last());
        assert(v / 256 == q && v % 256 == s.last() as nat) by (nonlinear_arith)
            requires
                v == q * 256 + s.last() as nat,
                (s.last() as nat) < 256,
        ;
        assert forall|i: int| 0 <= i < n implies be_bytes(v, n)[i] == s[i] by {
            if i < m {
                let e = (m - 1 - i) as nat;
                assert(pow256((n - 1 - i) as nat) == 256 * pow256(e));
                lemma_pow256_positive(e);
                lemma_div_twice(v, pow256(e));
                assert(be_bytes(q, m)[i] == s.drop_last()[i]);
                assert(be_bytes(q, m)[i] == be_byte(q, m, i));
                assert(s.drop_last()[i] == s[i]);
            } else {
                assert(pow256(0) == 1);
                assert(v / 1 == v);
                assert(s[i] == s.last());
            }
        }
    }
    assert(be_bytes(v, n) =~= s);
}

proof fn lemma_pow256_positive(n: nat)
    ensures
        pow256(n) > 0,
    decreases n,
{
    if n > 0 {
        lemma_pow256_positive((n - 1) as nat);
    }
}

/// The number of the eight bytes of `v` is `v`.
pub proof fn lemma_i64_round_trip(v: i64)
    ensures
        i64_be_bytes(v).len() == 8,
        be_i64(i64_be_bytes(v)) == v,
        external_id(i64_be_bytes(v)) == v,
{
    lemma_pow256_values();
    lemma_be_nat_of_be_bytes(twos_complement(v), 8);
    assert(i64_be_bytes(v).subrange(0, 8) =~= i64_be_bytes(v));
}

/// Eight bytes are the spelling of their own number: on eight bytes the
/// number determines the bytes.
pub proof fn lemma_bytes_round_trip(s: Seq<u8>)
    requires
        s.len() == 8,
    ensures
        -0x8000_0000_0000_0000 <= be_i64(s) < 0x8000_0000_0000_0000,
        i64_be_bytes(be_i64(s) as i64) == s,
{
    lemma_pow256_values();
    lemma_be_nat_bound(s);
    lemma_be_bytes_of_be_nat(s);
}

/// The number of an identifier: its first eight bytes, big-endian.
pub fn vec_u8_to_i64(bytes: &[u8]) -> (id: i64)
    requires
        bytes@.len() >= PREFIX_LEN,
    ensures
        id == external_id(bytes@),
{
    let ghost prefix = bytes@.subrange(0, PREFIX_LEN as int);
    let mut acc: u64 = 0;
    let mut i: usize = 0;
    while i < PREFIX_LEN
        invariant
            i <= PREFIX_LEN,
            bytes@.len() >= PREFIX_LEN,
            prefix == bytes@.subrange(0, PREFIX_LEN as int),
            acc == be_nat(prefix.subrange(0, i as int)),
        decreases PREFIX_LEN - i,
    {
        let ghost before = prefix.subrange(0, i as int);
        let ghost after = prefix.subrange(0, i + 1);
        proof {
            lemma_be_nat_bound(before);
            lemma_be_nat_bound(after);
            lemma_pow256_values();
            assert(after.drop_last() =~= before);
            assert(after.last() == bytes@[i as int]);
        }
        acc = acc * 256 + bytes[i] as u64;
        i = i + 1;
    }
    proof {
        assert(prefix.subrange(0, PREFIX_LEN as int) =~= prefix);
    }
    if acc < 0x8000_0000_0000_0000 {
        acc as i64
    } else {
        (acc - 0x8000_0000_0000_0000) as i64 + i64::MIN
    }
}

/// The `n` low bytes of `v`, most significant first.
fn be_bytes_of(v: u64, n: usize) -> (out: Vec<u8>)
    requires
        n <= 8,
        v < pow256(n as nat),
    ensures
        out@ == be_bytes(v as nat, n as nat),
{
    let mut out: Vec<u8> = Vec::new();
    let mut i: usize = 0;
    let mut divisor: u64 = 1;
    let mut k: usize = 1;
    proof {
        lemma_pow256_values();
    }
    while k < n
        invariant
            1 <= k,
            k <= n || n == 0,
            n <= 8,
            divisor == pow256((k - 1) as nat),
        decreases n - k,
    {
        proof {
            lemma_pow256_values();
        }
        divisor = divisor * 256;
        k = k + 1;
    }
    while i < n
        invariant
            i <= n <= 8,
            out@.len() == i,
            i < n ==> divisor == pow256((n - 1 - i) as nat),
            forall|j: int| 0 <= j < i ==> out@[j] == be_byte(v as nat, n as nat, j),
        decreases n - i,
    {
        proof {
            lemma_pow256_values();
        }
        let byte: u8 = ((v / divisor) % 256) as u8;
        out.push(byte);
        i = i + 1;
        if i < n {
            divisor = divisor / 256;
        }
    }
    proof {
        assert(out@ =~= be_bytes(v as nat, n as nat));
    }
    out
}

/// The eight-byte key under which the number `val` is stored and looked up.
pub fn i64_to_binary(val: i64) -> (bytes: Vec<u8>)
    ensures
        bytes@ == i64_be_bytes(val),
        bytes@.len() == 8,
        external_id(bytes@) == val,
{
    let pattern: u64 = if val >= 0 {
        val as u64
    } else {
        (val - i64::MIN) as u64 + 0x8000_0000_0000_0000
    };
    proof {
        lemma_pow256_values();
        lemma_i64_round_trip(val);
    }
    be_bytes_of(pattern, 8)
}

/// The two-byte big-endian spelling of `val`.
pub fn u16_to_binary(val: u16) -> (bytes: Vec<u8>)
    ensures
        bytes@ == u16_be_bytes(val),
        bytes@.len() == 2,
        be_nat(bytes@) == val,
{
    proof {
        lemma_pow256_values();
        lemma_be_nat_of_be_bytes(val as nat, 2);
    }
    be_bytes_of(val as u64, 2)
}

} // verus!
