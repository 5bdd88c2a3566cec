//! Helpers for integers that occupy a variable number of bytes, from 1 to 8 (or 16).
use vstd::prelude::*;

use crate::encoding::{lemma_pow256_monotonic, lemma_pow256_widths, pow256, to_signed, to_unsigned};
use crate::endian::{i128_from_bits, i128_to_bits, i64_to_bits};

verus! {

/// Returns `256` raised to the power `n`.
fn pow256_of(n: usize) -> (p: u128)
    requires
        n <= 15,
    ensures
        p == pow256(n as nat),
{
    let mut p: u128 = 1;
    let mut i: usize = 0;
    while i < n
        invariant
            i <= n <= 15,
            p == pow256(i as nat),
        decreases n - i,
    {
        proof {
            lemma_pow256_monotonic(i as nat, 15);
            reveal_with_fuel(pow256, 17);
        }
        p = p * 256;
        i = i + 1;
    }
    p
}

/// Returns the number of bytes, from 1 to 8, needed to hold `n`.
pub fn pack_size(n: u64) -> (size: usize)
    ensures
        1 <= size <= 8,
        n < pow256(size as nat),
        size > 1 ==> n >= pow256((size - 1) as nat),
{
    proof {
        reveal_with_fuel(pow256, 9);
    }
    if n < 0x100 {
        1
    } else if n < 0x1_0000 {
        2
    } else if n < 0x100_0000 {
        3
    } else if n < 0x1_0000_0000 {
        4
    } else if n < 0x100_0000_0000 {
        5
    } else if n < 0x1_0000_0000_0000 {
        6
    } else if n < 0x100_0000_0000_0000 {
        7
    } else {
        8
    }
}

/// Returns the number of bytes, from 1 to 16, needed to hold `n`.
pub fn pack_size128(n: u128) -> (size: usize)
    ensures
        1 <= size <= 16,
        n < pow256(size as nat),
        size > 1 ==> n >= pow256((size - 1) as nat),
{
    proof {
        reveal_with_fuel(pow256, 17);
    }
    if n < 0x100 {
        1
    } else if n < 0x1_0000 {
        2
    } else if n < 0x100_0000 {
        3
    } else if n < 0x1_0000_0000 {
        4
    } else if n < 0x100_0000_0000 {
        5
    } else if n < 0x1_0000_0000_0000 {
        6
    } else if n < 0x100_0000_0000_0000 {
        7
    } else if n < 0x1_0000_0000_0000_0000 {
        8
    } else if n < 0x100_0000_0000_0000_0000 {
        9
    } else if n < 0x1_0000_0000_0000_0000_0000 {
        10
    } else if n < 0x100_0000_0000_0000_0000_0000 {
        11
    } else if n < 0x1_0000_0000_0000_0000_0000_0000 {
        12
    } else if n < 0x100_0000_0000_0000_0000_0000_0000 {
        13
    } else if n < 0x1_0000_0000_0000_0000_0000_0000_0000 {
        14
    } else if n < 0x100_0000_0000_0000_0000_0000_0000_0000 {
        15
    } else {
        16
    }
}

/// Sign-extends the `nbytes` low-order bytes of `val` to a 64-bit signed integer.
pub fn extend_sign(val: u64, nbytes: usize) -> (r: i64)
    requires
        1 <= nbytes <= 8,
    ensures
        r as int == to_signed((val as nat) % pow256(nbytes as nat), nbytes as nat),
{
    proof {
        lemma_pow256_widths();
        lemma_pow256_monotonic(nbytes as nat, 8);
        lemma_pow256_monotonic(1, nbytes as nat);
        assert(pow256(nbytes as nat) == 256 * pow256((nbytes - 1) as nat));
    }
    let p = pow256_of(nbytes);
    let m = (val as u128) % p;
    if m < p / 2 {
        m as i64
    } else {
        ((m as i128) - (p as i128)) as i64
    }
}

/// Sign-extends the `nbytes` low-order bytes of `val` to a 128-bit signed integer.
pub fn extend_sign128(val: u128, nbytes: usize) -> (r: i128)
    requires
        1 <= nbytes <= 16,
    ensures
        r as int == to_signed((val as nat) % pow256(nbytes as nat), nbytes as nat),
{
    proof {
        lemma_pow256_widths();
        lemma_pow256_monotonic(nbytes as nat, 16);
        lemma_pow256_monotonic(1, nbytes as nat);
        assert(pow256(nbytes as nat) == 256 * pow256((nbytes - 1) as nat));
    }
    if nbytes == 16 {
        proof {
            vstd::arithmetic::div_mod::lemma_small_mod(val as nat, pow256(16));
        }
        i128_from_bits(val)
    } else {
        let p = pow256_of(nbytes);
        let m = val % p;
        proof {
            lemma_pow256_monotonic(nbytes as nat, 15);
        }
        if m < p / 2 {
            m as i128
        } else {
            (m as i128) - (p as i128)
        }
    }
}

/// Truncates the two's complement pattern of `val` to its `nbytes` low-order bytes.
pub fn unextend_sign(val: i64, nbytes: usize) -> (r: u64)
    requires
        1 <= nbytes <= 8,
    ensures
        r as nat == to_unsigned(val as int, 8) % pow256(nbytes as nat),
{
    proof {
        lemma_pow256_widths();
        lemma_pow256_monotonic(nbytes as nat, 8);
    }
    let bits = i64_to_bits(val);
    let p = pow256_of(nbytes);
    ((bits as u128) % p) as u64
}

/// Truncates the two's complement pattern of `val` to its `nbytes` low-order bytes.
pub fn unextend_sign128(val: i128, nbytes: usize) -> (r: u128)
    requires
        1 <= nbytes <= 16,
    ensures
        r as nat == to_unsigned(val as int, 16) % pow256(nbytes as nat),
{
    proof {
        lemma_pow256_widths();
        lemma_pow256_monotonic(nbytes as nat, 16);
    }
    let bits = i128_to_bits(val);
    if nbytes == 16 {
        proof {
            vstd::arithmetic::div_mod::lemma_small_mod(bits as nat, pow256(16));
        }
        bits
    } else {
        let p = pow256_of(nbytes);
        bits % p
    }
}

} // verus!
