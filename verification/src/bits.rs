//! Bit-addressed access to a byte buffer.
//!
//! Bits are numbered from the most significant bit of the first byte, the
//! order in which a coded stream lays its fields out.

use vstd::prelude::*;

verus! {

use vstd::arithmetic::power2::{
    lemma2_to64, lemma_pow2_pos, lemma_pow2_strictly_increases, lemma_pow2_unfold, pow2,
};

/// Bit `k` of byte `b`, counting from the most significant bit.
pub open spec fn u8_bit(b: u8, k: u8) -> bool
    recommends
        k < 8,
{
    (b >> ((7u8 - k) as u8)) & 1u8 == 1u8
}

/// Bit `i` of a byte sequence, counting from the most significant bit of
/// the first byte.
pub open spec fn seq_bit(s: Seq<u8>, i: int) -> bool
    recommends
        0 <= i < s.len() * 8,
{
    u8_bit(s[i / 8], (i % 8) as u8)
}

/// A byte is determined by its eight bits.
pub proof fn lemma_u8_bits_determine(x: u8, y: u8)
    by (bit_vector)
    requires
        u8_bit(x, 0) == u8_bit(y, 0),
        u8_bit(x, 1) == u8_bit(y, 1),
        u8_bit(x, 2) == u8_bit(y, 2),
        u8_bit(x, 3) == u8_bit(y, 3),
        u8_bit(x, 4) == u8_bit(y, 4),
        u8_bit(x, 5) == u8_bit(y, 5),
        u8_bit(x, 6) == u8_bit(y, 6),
        u8_bit(x, 7) == u8_bit(y, 7),
    ensures
        x == y,
{
}

/// Two byte sequences that agree on every bit are equal.
pub proof fn lemma_bitwise_eq(a: Seq<u8>, b: Seq<u8>)
    requires
        a.len() == b.len(),
        forall|j: int| 0 <= j < a.len() * 8 ==> seq_bit(a, j) == seq_bit(b, j),
    ensures
        a =~= b,
{
    assert forall|bi: int| 0 <= bi < a.len() implies a[bi] == b[bi] by {
        assert forall|k: u8| k < 8 implies u8_bit(a[bi], k) == u8_bit(b[bi], k) by {
            let j = bi * 8 + k;
            lemma_bit_index(a.len() as int, bi, k);
            assert(seq_bit(a, j) == seq_bit(b, j));
        }
        lemma_u8_bits_determine(a[bi], b[bi]);
    }
}

/// Splitting the bit index `bi * 8 + k` back into byte and bit positions.
proof fn lemma_bit_index(len: int, bi: int, k: u8)
    requires
        0 <= bi < len,
        k < 8,
    ensures
        0 <= bi * 8 + k < len * 8,
        (bi * 8 + k) / 8 == bi,
        (bi * 8 + k) % 8 == k,
{
    assert(0 <= bi * 8 + k < len * 8 && (bi * 8 + k) / 8 == bi && (bi * 8 + k) % 8 == k)
        by (nonlinear_arith)
        requires
            0 <= bi < len,
            0 <= k < 8,
    ;
}

proof fn lemma_bit_in_byte(i: int, len: int)
    requires
        0 <= i < len * 8,
    ensures
        0 <= i / 8 < len,
        0 <= i % 8 < 8,
        i == (i / 8) * 8 + (i % 8),
{
    assert(0 <= i / 8 < len && 0 <= i % 8 < 8 && i == (i / 8) * 8 + (i % 8)) by (nonlinear_arith)
        requires
            0 <= i < len * 8,
    ;
}

proof fn lemma_u8_set_bit(x: u8, k: u8, b: bool, y: u8)
    by (bit_vector)
    requires
        k < 8,
        b ==> y == x | (1u8 << ((7u8 - k) as u8)),
        !b ==> y == x & !(1u8 << ((7u8 - k) as u8)),
    ensures
        u8_bit(y, k) == b,
        forall|k2: u8| k2 < 8 && k2 != k ==> u8_bit(y, k2) == u8_bit(x, k2),
{
}

/// The value of the `n` bits starting at bit `pos`, most significant first.
pub open spec fn bits_val(s: Seq<u8>, pos: int, n: nat) -> int
    decreases n,
{
    if n == 0 {
        0
    } else {
        bits_val(s, pos, (n - 1) as nat) * 2 + (if seq_bit(s, pos + n - 1) {
            1int
        } else {
            0int
        })
    }
}

/// An `n`-bit field's value lies below `2^n`.
pub proof fn lemma_bits_val_bound(s: Seq<u8>, pos: int, n: nat)
    ensures
        0 <= bits_val(s, pos, n) < pow2(n),
    decreases n,
{
    lemma_pow2_pos(n);
    if n > 0 {
        lemma_bits_val_bound(s, pos, (n - 1) as nat);
        lemma_pow2_unfold(n);
    }
}

/// Read the `n`-bit field starting at bit `pos`, most significant first.
pub fn read_bits(v: &Vec<u8>, pos: usize, n: usize) -> (r: u32)
    requires
        v@.len() <= usize::MAX / 8,
        n <= 32,
        pos + n <= v@.len() * 8,
    ensures
        r == bits_val(v@, pos as int, n as nat),
        r < pow2(n as nat),
{
    let mut acc: u64 = 0;
    let mut k: usize = 0;
    proof {
        lemma_pow2_pos(0);
    }
    while k < n
        invariant
            v@.len() <= usize::MAX / 8,
            n <= 32,
            pos + n <= v@.len() * 8,
            k <= n,
            acc == bits_val(v@, pos as int, k as nat),
            acc < pow2(k as nat),
        decreases n - k,
    {
        proof {
            lemma_pow2_unfold((k + 1) as nat);
            lemma_pow2_strictly_increases((k + 1) as nat, 33);
            lemma2_to64();
        }
        let b = get_bit(v, pos + k);
        acc = acc * 2 + (if b {
            1
        } else {
            0
        });
        k = k + 1;
    }
    proof {
        lemma_pow2_strictly_increases(n as nat, 33);
        lemma2_to64();
        if (n as nat) < 32 {
            lemma_pow2_strictly_increases(n as nat, 32);
        }
    }
    acc as u32
}

/// Read bit `i` of the buffer.
pub fn get_bit(v: &Vec<u8>, i: usize) -> (r: bool)
    requires
        v@.len() <= usize::MAX / 8,
        i < v@.len() * 8,
    ensures
        r == seq_bit(v@, i as int),
{
    proof {
        lemma_bit_in_byte(i as int, v@.len() as int);
    }
    let byte = v[i / 8];
    let k = (i % 8) as u8;
    ((byte >> (7 - k)) & 1) == 1
}

/// Write bit `i` of the buffer, leaving every other bit as it was.
pub fn set_bit(v: &mut Vec<u8>, i: usize, b: bool)
    requires
        old(v)@.len() <= usize::MAX / 8,
        i < old(v)@.len() * 8,
    ensures
        final(v)@.len() == old(v)@.len(),
        seq_bit(final(v)@, i as int) == b,
        forall|j: int|
            0 <= j < old(v)@.len() * 8 && j != i ==> seq_bit(final(v)@, j) == seq_bit(old(v)@, j),
{
    proof {
        lemma_bit_in_byte(i as int, v@.len() as int);
    }
    let idx = i / 8;
    let k = (i % 8) as u8;
    let old_byte = v[idx];
    let mask: u8 = 1u8 << (7 - k);
    let new_byte = if b {
        old_byte | mask
    } else {
        old_byte & !mask
    };
    v.set(idx, new_byte);
    proof {
        lemma_u8_set_bit(old_byte, k, b, new_byte);
        assert forall|j: int|
            0 <= j < old(v)@.len() * 8 && j != i implies seq_bit(v@, j) == seq_bit(old(v)@, j) by {
            lemma_bit_in_byte(j, old(v)@.len() as int);
            if j / 8 == idx as int {
                assert((j % 8) as u8 != k);
            }
        }
    }
}

} // verus!
