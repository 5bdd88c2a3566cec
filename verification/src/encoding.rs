//! The mathematical meaning of a byte sequence as an unsigned or signed integer in
//! either byte order, and the executable routines that convert between the two.
use vstd::prelude::*;
use vstd::arithmetic::div_mod::{lemma_div_denominator, lemma_mod_breakdown};

use crate::endian::Endian;

verus! {

/// `256` raised to the power `n`: the number of values `n` bytes can represent.
pub open spec fn pow256(n: nat) -> nat
    decreases n,
{
    if n == 0 {
        1
    } else {
        256 * pow256((n - 1) as nat)
    }
}

/// The value of `s` read with its least significant byte first.
pub open spec fn le_value(s: Seq<u8>) -> nat
    decreases s.len(),
{
    if s.len() == 0 {
        0
    } else {
        s[0] as nat + 256 * le_value(s.drop_first())
    }
}

/// The value of `s` read with its most significant byte first.
pub open spec fn be_value(s: Seq<u8>) -> nat {
    le_value(s.reverse())
}

/// The `n` low-order bytes of `v`, least significant byte first.
pub open spec fn le_bytes(v: nat, n: nat) -> Seq<u8> {
    Seq::new(n, |k: int| ((v / pow256(k as nat)) % 256) as u8)
}

/// The `n` low-order bytes of `v`, most significant byte first.
pub open spec fn be_bytes(v: nat, n: nat) -> Seq<u8> {
    le_bytes(v, n).reverse()
}

/// The value whose `n`-byte pattern is that of `v` with the order of its bytes reversed.
pub open spec fn swap_bytes(v: nat, n: nat) -> nat {
    be_value(le_bytes(v, n))
}

/// The value of `s` read in byte order `order`.
pub open spec fn value_of(s: Seq<u8>, order: Endian) -> nat {
    match order {
        Endian::Big => be_value(s),
        Endian::Little => le_value(s),
    }
}

/// The `n` low-order bytes of `v` laid out in byte order `order`.
pub open spec fn bytes_of(v: nat, n: nat, order: Endian) -> Seq<u8> {
    match order {
        Endian::Big => be_bytes(v, n),
        Endian::Little => le_bytes(v, n),
    }
}

/// The two's complement reading of the `n`-byte unsigned value `u`.
pub open spec fn to_signed(u: nat, n: nat) -> int {
    if u < pow256(n) / 2 {
        u as int
    } else {
        u - pow256(n)
    }
}

/// The `n`-byte two's complement pattern of the signed value `i`, as an unsigned value.
pub open spec fn to_unsigned(i: int, n: nat) -> nat {
    if i >= 0 {
        i as nat
    } else {
        (i + pow256(n)) as nat
    }
}

/// The powers of 256 that the primitive integer widths use.
pub proof fn lemma_pow256_widths()
    ensures
        pow256(0) == 1,
        pow256(1) == 0x100,
        pow256(2) == 0x1_0000,
        pow256(4) == 0x1_0000_0000,
        pow256(8) == 0x1_0000_0000_0000_0000,
        pow256(16) == 0x1_0000_0000_0000_0000_0000_0000_0000_0000,
{
    reveal_with_fuel(pow256, 17);
}

/// A larger width never represents fewer values.
pub proof fn lemma_pow256_monotonic(a: nat, b: nat)
    requires
        a <= b,
    ensures
        0 < pow256(a) <= pow256(b),
    decreases b,
{
    if b > 0 {
        lemma_pow256_monotonic(0, (b - 1) as nat);
        if a < b {
            lemma_pow256_monotonic(a, (b - 1) as nat);
        }
    }
}

/// An `n`-byte sequence holds a value below `256^n`.
pub proof fn lemma_le_value_bound(s: Seq<u8>)
    ensures
        le_value(s) < pow256(s.len()),
    decreases s.len(),
{
    if s.len() > 0 {
        lemma_le_value_bound(s.drop_first());
    }
}

/// An `n`-byte sequence holds a value below `256^n`, in either byte order.
pub proof fn lemma_value_of_bound(s: Seq<u8>, order: Endian)
    ensures
        value_of(s, order) < pow256(s.len()),
{
    lemma_le_value_bound(s);
    lemma_le_value_bound(s.reverse());
}

proof fn lemma_pow256_succ(k: nat)
    ensures
        pow256(k + 1) == 256 * pow256(k),
        pow256(k) > 0,
{
    lemma_pow256_monotonic(0, k);
}

proof fn lemma_div_pow256_succ(v: nat, k: nat)
    ensures
        v / pow256(k + 1) == (v / 256) / pow256(k),
        v / pow256(k + 1) == (v / pow256(k)) / 256,
{
    lemma_pow256_succ(k);
    lemma_div_denominator(v as int, 256, pow256(k) as int);
    lemma_div_denominator(v as int, pow256(k) as int, 256);
}

proof fn lemma_le_bytes_drop_first(v: nat, n: nat)
    requires
        n > 0,
    ensures
        le_bytes(v, n).drop_first() =~= le_bytes(v / 256, (n - 1) as nat),
        le_bytes(v, n)[0] == (v % 256) as u8,
{
    assert(pow256(0) == 1);
    assert(le_bytes(v, n)[0] == ((v / pow256(0)) % 256) as u8);
    assert(v / 1 == v);
    assert forall|k: int| 0 <= k < n - 1 implies #[trigger] le_bytes(v, n).drop_first()[k]
        == le_bytes(v / 256, (n - 1) as nat)[k] by {
        lemma_div_pow256_succ(v, k as nat);
    }
}

/// Reading the `n` bytes written for `v` gives back `v` modulo `256^n`.
pub proof fn lemma_le_value_of_le_bytes(v: nat, n: nat)
    ensures
        le_value(le_bytes(v, n)) == v % pow256(n),
    decreases n,
{
    if n == 0 {
        assert(le_bytes(v, n) =~= Seq::<u8>::empty());
    } else {
        lemma_le_bytes_drop_first(v, n);
        lemma_le_value_of_le_bytes(v / 256, (n - 1) as nat);
        lemma_pow256_succ((n - 1) as nat);
        lemma_mod_breakdown(v as int, 256, pow256((n - 1) as nat) as int);
    }
}

/// Writing the value of an `n`-byte sequence into `n` bytes gives back the sequence.
pub proof fn lemma_le_bytes_of_le_value(s: Seq<u8>)
    ensures
        le_bytes(le_value(s), s.len()) =~= s,
    decreases s.len(),
{
    if s.len() > 0 {
        let x = le_value(s);
        lemma_le_bytes_of_le_value(s.drop_first());
        lemma_le_bytes_drop_first(x, s.len());
        assert(x % 256 == s[0] as nat);
        assert(x / 256 == le_value(s.drop_first()));
        let t = le_bytes(x, s.len());
        assert forall|k: int| 0 <= k < s.len() implies #[trigger] t[k] == s[k] by {
            if k > 0 {
                assert(t.drop_first()[k - 1] == t[k]);
                assert(s.drop_first()[k - 1] == s[k]);
            }
        }
    }
}

/// Law: decoding the bytes that encode `v` in `n` bytes gives back `v`, for every `v`
/// that fits in `n` bytes and in either byte order.
pub proof fn lemma_decode_of_encode(v: nat, n: nat, order: Endian)
    requires
        v < pow256(n),
    ensures
        bytes_of(v, n, order).len() == n,
        value_of(bytes_of(v, n, order), order) == v,
{
    lemma_le_value_of_le_bytes(v, n);
    assert(le_bytes(v, n).reverse().reverse() =~= le_bytes(v, n));
    vstd::arithmetic::div_mod::lemma_small_mod(v, pow256(n));
}

/// Law: encoding the value that `s` decodes to, with as many bytes as `s` has, gives back
/// `s`, in either byte order.
pub proof fn lemma_encode_of_decode(s: Seq<u8>, order: Endian)
    ensures
        bytes_of(value_of(s, order), s.len(), order) =~= s,
{
    lemma_le_bytes_of_le_value(s);
    lemma_le_bytes_of_le_value(s.reverse());
    assert(s.reverse().reverse() =~= s);
}

/// Law: a big endian reading of `s` is the little endian reading of `s` reversed, and a
/// big endian encoding is the little endian encoding reversed.
pub proof fn lemma_big_endian_is_reversed_little_endian(s: Seq<u8>, v: nat, n: nat)
    ensures
        value_of(s, Endian::Big) == value_of(s.reverse(), Endian::Little),
        bytes_of(v, n, Endian::Big) == bytes_of(v, n, Endian::Little).reverse(),
{
}

/// Law: the signed reading of the unsigned pattern of `i` is `i`, for every `i` that fits
/// in `n` bytes.
pub proof fn lemma_signed_of_unsigned(i: int, n: nat)
    requires
        n > 0,
        -(pow256(n) / 2) <= i < pow256(n) / 2,
    ensures
        to_unsigned(i, n) < pow256(n),
        to_signed(to_unsigned(i, n), n) == i,
{
    lemma_pow256_monotonic(1, n);
}

/// Law: the unsigned pattern of the signed reading of `u` is `u`, for every `u` below
/// `256^n`.
pub proof fn lemma_unsigned_of_signed(u: nat, n: nat)
    requires
        n > 0,
        u < pow256(n),
    ensures
        -(pow256(n) / 2) <= to_signed(u, n) < pow256(n) / 2,
        to_unsigned(to_signed(u, n), n) == u,
{
    lemma_pow256_monotonic(1, n);
    assert(pow256(n) == 256 * pow256((n - 1) as nat));
}

/// Reads the unsigned value of the first `width` bytes of `bytes`, least significant first.
pub fn read_le_uint(bytes: &[u8], width: usize) -> (v: u128)
    requires
        width <= 16,
        width <= bytes@.len(),
    ensures
        v as nat == le_value(bytes@.subrange(0, width as int)),
        (v as nat) < pow256(width as nat),
{
    let ghost s = bytes@;
    let mut v: u128 = 0;
    let mut i: usize = width;
    assert(s.subrange(width as int, width as int) =~= Seq::<u8>::empty());
    while i > 0
        invariant
            i <= width <= 16,
            width <= s.len(),
            s == bytes@,
            v as nat == le_value(s.subrange(i as int, width as int)),
        decreases i,
    {
        proof {
            lemma_le_value_bound(s.subrange(i as int, width as int));
            lemma_pow256_monotonic((width - i) as nat, 15);
            lemma_pow256_widths();
            reveal_with_fuel(pow256, 17);
        }
        i = i - 1;
        let b = bytes[i];
        assert(s.subrange(i as int, width as int).drop_first() =~= s.subrange(
            i + 1,
            width as int,
        ));
        v = (b as u128) + v * 256;
    }
    assert(s.subrange(0, width as int).len() == width);
    proof {
        lemma_le_value_bound(s.subrange(0, width as int));
    }
    v
}

/// Reads the unsigned value of the first `width` bytes of `bytes`, most significant first.
pub fn read_be_uint(bytes: &[u8], width: usize) -> (v: u128)
    requires
        width <= 16,
        width <= bytes@.len(),
    ensures
        v as nat == be_value(bytes@.subrange(0, width as int)),
        (v as nat) < pow256(width as nat),
{
    let ghost s = bytes@;
    let mut v: u128 = 0;
    let mut i: usize = 0;
    assert(s.subrange(0, 0).reverse() =~= Seq::<u8>::empty());
    while i < width
        invariant
            i <= width <= 16,
            width <= s.len(),
            s == bytes@,
            v as nat == be_value(s.subrange(0, i as int)),
        decreases width - i,
    {
        proof {
            lemma_le_value_bound(s.subrange(0, i as int).reverse());
            lemma_pow256_monotonic(i as nat, 15);
            reveal_with_fuel(pow256, 17);
        }
        let b = bytes[i];
        assert(s.subrange(0, i + 1).reverse().drop_first() =~= s.subrange(0, i as int).reverse());
        assert(s.subrange(0, i + 1).reverse()[0] == b);
        v = v * 256 + (b as u128);
        i = i + 1;
    }
    proof {
        lemma_le_value_bound(s.subrange(0, width as int).reverse());
    }
    v
}

/// Reads the unsigned value of the first `width` bytes of `bytes` in byte order `order`.
pub fn read_uint(bytes: &[u8], width: usize, order: Endian) -> (v: u128)
    requires
        width <= 16,
        width <= bytes@.len(),
    ensures
        v as nat == value_of(bytes@.subrange(0, width as int), order),
        (v as nat) < pow256(width as nat),
{
    match order {
        Endian::Big => read_be_uint(bytes, width),
        Endian::Little => read_le_uint(bytes, width),
    }
}

/// Writes the `width` low-order bytes of `v` into the front of `buf`, least significant
/// first; the rest of `buf` is left as it was.
pub fn write_le_uint(buf: &mut [u8], v: u128, width: usize)
    requires
        width <= 16,
        width <= old(buf)@.len(),
    ensures
        final(buf)@ =~= le_bytes(v as nat, width as nat) + old(buf)@.subrange(
            width as int,
            old(buf)@.len() as int,
        ),
{
    let ghost target = le_bytes(v as nat, width as nat);
    let mut x: u128 = v;
    let mut i: usize = 0;
    proof {
        lemma_pow256_widths();
    }
    while i < width
        invariant
            i <= width <= 16,
            width <= buf@.len(),
            buf@.len() == old(buf)@.len(),
            target == le_bytes(v as nat, width as nat),
            x as nat == (v as nat) / pow256(i as nat),
            forall|k: int| 0 <= k < i ==> buf@[k] == target[k],
            forall|k: int| width <= k < buf@.len() ==> buf@[k] == old(buf)@[k],
        decreases width - i,
    {
        proof {
            lemma_div_pow256_succ(v as nat, i as nat);
        }
        buf[i] = (x % 256) as u8;
        x = x / 256;
        i = i + 1;
    }
}

/// Writes the `width` low-order bytes of `v` into the front of `buf`, most significant
/// first; the rest of `buf` is left as it was.
pub fn write_be_uint(buf: &mut [u8], v: u128, width: usize)
    requires
        width <= 16,
        width <= old(buf)@.len(),
    ensures
        final(buf)@ =~= be_bytes(v as nat, width as nat) + old(buf)@.subrange(
            width as int,
            old(buf)@.len() as int,
        ),
{
    let ghost target = be_bytes(v as nat, width as nat);
    let mut x: u128 = v;
    let mut i: usize = 0;
    proof {
        lemma_pow256_widths();
    }
    while i < width
        invariant
            i <= width <= 16,
            width <= buf@.len(),
            buf@.len() == old(buf)@.len(),
            target == be_bytes(v as nat, width as nat),
            x as nat == (v as nat) / pow256(i as nat),
            forall|k: int| width - i <= k < width ==> buf@[k] == target[k],
            forall|k: int| width <= k < buf@.len() ==> buf@[k] == old(buf)@[k],
        decreases width - i,
    {
        proof {
            lemma_div_pow256_succ(v as nat, i as nat);
        }
        buf[width - 1 - i] = (x % 256) as u8;
        x = x / 256;
        i = i + 1;
    }
}

/// Writes the `width` low-order bytes of `v` into the front of `buf` in byte order
/// `order`; the rest of `buf` is left as it was.
pub fn write_uint(buf: &mut [u8], v: u128, width: usize, order: Endian)
    requires
        width <= 16,
        width <= old(buf)@.len(),
    ensures
        final(buf)@ =~= bytes_of(v as nat, width as nat, order) + old(buf)@.subrange(
            width as int,
            old(buf)@.len() as int,
        ),
{
    match order {
        Endian::Big => write_be_uint(buf, v, width),
        Endian::Little => write_le_uint(buf, v, width),
    }
}

/// Reverses the order of the `width` low-order bytes of `x`.
pub fn reverse_bytes(x: u128, width: usize) -> (y: u128)
    requires
        width <= 16,
    ensures
        y as nat == swap_bytes(x as nat, width as nat),
        (y as nat) < pow256(width as nat),
{
    let mut buf = [0u8; 16];
    write_le_uint(&mut buf, x, width);
    let y = read_be_uint(&buf, width);
    assert(buf@.subrange(0, width as int) =~= le_bytes(x as nat, width as nat));
    y
}

} // verus!
