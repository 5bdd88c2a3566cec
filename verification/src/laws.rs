//! Properties that relate the crate's reads, writes and conversions to each other.
use vstd::prelude::*;

use crate::codec::Codec;
use crate::decode::decode_unsigned;
use crate::encoding::{
    bytes_of, le_bytes, le_value, lemma_decode_of_encode, lemma_encode_of_decode,
    lemma_le_bytes_of_le_value, lemma_le_value_bound, lemma_le_value_of_le_bytes,
    lemma_pow256_monotonic, lemma_signed_of_unsigned, lemma_unsigned_of_signed, pow256,
    swap_bytes, to_signed, to_unsigned, value_of,
};
use crate::abi::{Abi, Zeroable};
use crate::chunk::Chunk;
use crate::decode::Decode;
use crate::endian::{order_of, BigEndian, Endian, Endianness, LittleEndian};
use crate::error::Error;
use crate::integer::{Integer, I128, I16, I32, I64, I8, U128, U16, U32, U64, U8};
use crate::range::SliceRange;

verus! {

/// Law: reading `n` bytes from a buffer into whose front the `n`-byte encoding of `v`
/// was written gives back `v`, whatever bytes follow and in either byte order.
///
/// This is what the `write_*` and `read_*` methods of
/// [`Endianness`][crate::endian::Endianness] state of the buffer and of the value.
pub proof fn lemma_read_after_write(v: nat, n: nat, order: Endian, rest: Seq<u8>)
    requires
        v < pow256(n),
    ensures
        value_of((bytes_of(v, n, order) + rest).subrange(0, n as int), order) == v,
{
    lemma_decode_of_encode(v, n, order);
    assert((bytes_of(v, n, order) + rest).subrange(0, n as int) =~= bytes_of(v, n, order));
}

/// Law: reading an `n`-byte signed integer from a buffer into whose front the `n`-byte
/// two's complement encoding of `i` was written gives back `i`, for every `i` that fits
/// in `n` bytes, whatever bytes follow and in either byte order.
pub proof fn lemma_read_after_write_signed(i: int, n: nat, order: Endian, rest: Seq<u8>)
    requires
        n > 0,
        -(pow256(n) / 2) <= i < pow256(n) / 2,
    ensures
        to_signed(
            value_of((bytes_of(to_unsigned(i, n), n, order) + rest).subrange(0, n as int), order),
            n,
        ) == i,
{
    lemma_signed_of_unsigned(i, n);
    lemma_read_after_write(to_unsigned(i, n), n, order, rest);
}

/// Law: writing back the value read from the first `n` bytes of a buffer, in the same
/// byte order, leaves the buffer as it was.
pub proof fn lemma_write_after_read(buf: Seq<u8>, n: nat, order: Endian)
    requires
        n <= buf.len(),
    ensures
        bytes_of(value_of(buf.subrange(0, n as int), order), n, order) + buf.subrange(
            n as int,
            buf.len() as int,
        ) == buf,
{
    lemma_encode_of_decode(buf.subrange(0, n as int), order);
    assert(buf.subrange(0, n as int) + buf.subrange(n as int, buf.len() as int) =~= buf);
}

/// Law: writing back the signed value read from the first `n` bytes of a buffer, in
/// the same byte order, leaves the buffer as it was.
pub proof fn lemma_write_after_read_signed(buf: Seq<u8>, n: nat, order: Endian)
    requires
        0 < n <= buf.len(),
    ensures
        bytes_of(
            to_unsigned(to_signed(value_of(buf.subrange(0, n as int), order), n), n),
            n,
            order,
        ) + buf.subrange(n as int, buf.len() as int) == buf,
{
    crate::encoding::lemma_value_of_bound(buf.subrange(0, n as int), order);
    lemma_unsigned_of_signed(value_of(buf.subrange(0, n as int), order), n);
    lemma_write_after_read(buf, n, order);
}

/// Law: reversing the byte order of an `n`-byte value twice gives back the value; so a
/// value stored from big endian reads back unchanged in big endian.
pub proof fn lemma_swap_bytes_involutive(v: nat, n: nat)
    requires
        v < pow256(n),
    ensures
        swap_bytes(v, n) < pow256(n),
        swap_bytes(swap_bytes(v, n), n) == v,
{
    let s = le_bytes(v, n);
    lemma_le_value_bound(s.reverse());
    lemma_le_bytes_of_le_value(s.reverse());
    assert(s.reverse().reverse() =~= s);
    lemma_le_value_of_le_bytes(v, n);
    vstd::arithmetic::div_mod::lemma_small_mod(v, pow256(n));
}

/// Law: decoding with a codec gives what a read in the codec's byte order gives,
/// whenever the bytes are at least `size` long and within the codec's limit; shorter
/// bytes give an out-of-bounds error and longer ones a decode failure.
pub proof fn lemma_decode_is_read_in_codec_order(bytes: Seq<u8>, size: nat, codec: Codec)
    ensures
        size <= bytes.len() <= codec.spec_limit().spec_get() ==> decode_unsigned(
            bytes,
            size,
            codec,
        ) == Ok::<nat, Error>(value_of(bytes.subrange(0, size as int), codec.spec_endian())),
        bytes.len() < size ==> decode_unsigned(bytes, size, codec) == Err::<nat, Error>(
            Error::spec_out_of_bounds(size as usize, bytes.len() as usize),
        ),
        size <= bytes.len() && bytes.len() > codec.spec_limit().spec_get() ==> decode_unsigned(
            bytes,
            size,
            codec,
        ) == Err::<nat, Error>(Error::spec_decode_failed()),
{
}

/// `256^w` is `256^n` times `256^(w - n)`.
proof fn lemma_pow256_split(n: nat, w: nat)
    requires
        n <= w,
    ensures
        pow256(w) == pow256(n) * pow256((w - n) as nat),
    decreases w,
{
    if n == w {
        assert(pow256(0) == 1);
        assert(pow256(w) == pow256(n) * 1);
    } else {
        lemma_pow256_split(n, (w - 1) as nat);
        let whole = pow256(w) as int;
        let low = pow256(n) as int;
        let high = pow256((w - n) as nat) as int;
        let rest = pow256((w - 1 - n) as nat) as int;
        let prev = pow256((w - 1) as nat) as int;
        assert(whole == 256 * prev);
        assert(high == 256 * rest);
        assert(prev == low * rest);
        assert(whole == low * high) by (nonlinear_arith)
            requires
                whole == 256 * prev,
                high == 256 * rest,
                prev == low * rest,
        ;
    }
}

/// Adding a multiple of `256^n` to the two's complement pattern of a negative value
/// leaves its `n` low-order bytes alone: `(x + 256^w) mod 256^n == (x + 256^n) mod 256^n`
/// whenever `-256^n <= x < 0` and `n <= w`.
proof fn lemma_wrap_low_bytes(x: int, n: nat, w: nat)
    requires
        n <= w,
        -pow256(n) <= x < 0,
    ensures
        (x + pow256(w)) % (pow256(n) as int) == x + pow256(n),
{
    lemma_pow256_split(n, w);
    lemma_pow256_monotonic(0, (w - n) as nat);
    let p = pow256(n) as int;
    let k = pow256((w - n) as nat) as int;
    assert(x + pow256(w) == p * (k - 1) + (x + p)) by {
        vstd::arithmetic::mul::lemma_mul_is_distributive_sub(p, k, 1);
    }
    vstd::arithmetic::div_mod::lemma_mod_multiples_vanish(k - 1, x + p, p);
    vstd::arithmetic::div_mod::lemma_small_mod((x + p) as nat, p as nat);
}

/// Law: sign-extending the `n` low-order bytes of the `w`-byte pattern of `i` gives back
/// `i`, for every `i` that fits in `n` bytes: what
/// [`unextend_sign`][crate::byteorder::unextend_sign] keeps of a value,
/// [`extend_sign`][crate::byteorder::extend_sign] restores (and likewise for the 128-bit
/// pair, with `w == 16`).
pub proof fn lemma_extend_after_unextend(i: int, n: nat, w: nat)
    requires
        1 <= n <= w,
        -(pow256(n) / 2) <= i < pow256(n) / 2,
    ensures
        to_signed((to_unsigned(i, w) % pow256(n)) % pow256(n), n) == i,
{
    lemma_pow256_monotonic(1, n);
    lemma_pow256_monotonic(n, w);
    assert(pow256(n) == 256 * pow256((n - 1) as nat));
    let p = pow256(n);
    let u = to_unsigned(i, w) % p;
    if i >= 0 {
        vstd::arithmetic::div_mod::lemma_small_mod(i as nat, p);
    } else {
        lemma_wrap_low_bytes(i, n, w);
    }
    assert(u == (if i >= 0 { i } else { i + p }));
    vstd::arithmetic::div_mod::lemma_small_mod(u, p);
}

/// Law: truncating to `n` bytes the `w`-byte pattern of the sign extension of the `n`
/// low-order bytes of `u` gives back those bytes: what
/// [`extend_sign`][crate::byteorder::extend_sign] makes of a value,
/// [`unextend_sign`][crate::byteorder::unextend_sign] turns back into its low-order
/// bytes (and likewise for the 128-bit pair, with `w == 16`).
pub proof fn lemma_unextend_after_extend(u: nat, n: nat, w: nat)
    requires
        1 <= n <= w,
    ensures
        to_unsigned(to_signed(u % pow256(n), n), w) % pow256(n) == u % pow256(n),
{
    lemma_pow256_monotonic(1, n);
    lemma_pow256_monotonic(n, w);
    assert(pow256(n) == 256 * pow256((n - 1) as nat));
    let p = pow256(n);
    let m = u % p;
    vstd::arithmetic::div_mod::lemma_mod_pos_bound(u as int, p as int);
    if m < p / 2 {
        vstd::arithmetic::div_mod::lemma_small_mod(m, p);
    } else {
        lemma_wrap_low_bytes(m - p, n, w);
    }
}

/// Law: decoding an integer from `bytes` reads its first `size_of` bytes in the byte
/// order of the codec, whatever bytes follow, as long as `bytes` is within the codec's
/// limit; shorter input is out of bounds and longer input fails to decode. Signed
/// integers read the same bytes as two's complement.
pub proof fn lemma_integers_decode_in_codec_order(bytes: Seq<u8>, codec: Codec)
    ensures
        forall|r: crate::error::Result<u8>|
            #[trigger] <u8 as Decode>::spec_decoded(bytes, codec, r) ==> if bytes.len() < 1 {
                r == Err::<u8, Error>(Error::spec_out_of_bounds(1, bytes.len() as usize))
            } else if bytes.len() > codec.spec_limit().spec_get() {
                r == Err::<u8, Error>(Error::spec_decode_failed())
            } else {
                r matches Ok(x) && x as nat == value_of(bytes.subrange(0, 1), codec.spec_endian())
            },
        forall|r: crate::error::Result<u16>|
            #[trigger] <u16 as Decode>::spec_decoded(bytes, codec, r) ==> if bytes.len() < 2 {
                r == Err::<u16, Error>(Error::spec_out_of_bounds(2, bytes.len() as usize))
            } else if bytes.len() > codec.spec_limit().spec_get() {
                r == Err::<u16, Error>(Error::spec_decode_failed())
            } else {
                r matches Ok(x) && x as nat == value_of(bytes.subrange(0, 2), codec.spec_endian())
            },
        forall|r: crate::error::Result<u32>|
            #[trigger] <u32 as Decode>::spec_decoded(bytes, codec, r) ==> if bytes.len() < 4 {
                r == Err::<u32, Error>(Error::spec_out_of_bounds(4, bytes.len() as usize))
            } else if bytes.len() > codec.spec_limit().spec_get() {
                r == Err::<u32, Error>(Error::spec_decode_failed())
            } else {
                r matches Ok(x) && x as nat == value_of(bytes.subrange(0, 4), codec.spec_endian())
            },
        forall|r: crate::error::Result<u64>|
            #[trigger] <u64 as Decode>::spec_decoded(bytes, codec, r) ==> if bytes.len() < 8 {
                r == Err::<u64, Error>(Error::spec_out_of_bounds(8, bytes.len() as usize))
            } else if bytes.len() > codec.spec_limit().spec_get() {
                r == Err::<u64, Error>(Error::spec_decode_failed())
            } else {
                r matches Ok(x) && x as nat == value_of(bytes.subrange(0, 8), codec.spec_endian())
            },
        forall|r: crate::error::Result<u128>|
            #[trigger] <u128 as Decode>::spec_decoded(bytes, codec, r) ==> if bytes.len() < 16 {
                r == Err::<u128, Error>(Error::spec_out_of_bounds(16, bytes.len() as usize))
            } else if bytes.len() > codec.spec_limit().spec_get() {
                r == Err::<u128, Error>(Error::spec_decode_failed())
            } else {
                r matches Ok(x) && x as nat == value_of(bytes.subrange(0, 16), codec.spec_endian())
            },
        forall|r: crate::error::Result<i8>|
            #[trigger] <i8 as Decode>::spec_decoded(bytes, codec, r) ==> if bytes.len() < 1 {
                r == Err::<i8, Error>(Error::spec_out_of_bounds(1, bytes.len() as usize))
            } else if bytes.len() > codec.spec_limit().spec_get() {
                r == Err::<i8, Error>(Error::spec_decode_failed())
            } else {
                r matches Ok(x) && x as int == to_signed(value_of(bytes.subrange(0, 1), codec.spec_endian()), 1)
            },
        forall|r: crate::error::Result<i16>|
            #[trigger] <i16 as Decode>::spec_decoded(bytes, codec, r) ==> if bytes.len() < 2 {
                r == Err::<i16, Error>(Error::spec_out_of_bounds(2, bytes.len() as usize))
            } else if bytes.len() > codec.spec_limit().spec_get() {
                r == Err::<i16, Error>(Error::spec_decode_failed())
            } else {
                r matches Ok(x) && x as int == to_signed(value_of(bytes.subrange(0, 2), codec.spec_endian()), 2)
            },
        forall|r: crate::error::Result<i32>|
            #[trigger] <i32 as Decode>::spec_decoded(bytes, codec, r) ==> if bytes.len() < 4 {
                r == Err::<i32, Error>(Error::spec_out_of_bounds(4, bytes.len() as usize))
            } else if bytes.len() > codec.spec_limit().spec_get() {
                r == Err::<i32, Error>(Error::spec_decode_failed())
            } else {
                r matches Ok(x) && x as int == to_signed(value_of(bytes.subrange(0, 4), codec.spec_endian()), 4)
            },
        forall|r: crate::error::Result<i64>|
            #[trigger] <i64 as Decode>::spec_decoded(bytes, codec, r) ==> if bytes.len() < 8 {
                r == Err::<i64, Error>(Error::spec_out_of_bounds(8, bytes.len() as usize))
            } else if bytes.len() > codec.spec_limit().spec_get() {
                r == Err::<i64, Error>(Error::spec_decode_failed())
            } else {
                r matches Ok(x) && x as int == to_signed(value_of(bytes.subrange(0, 8), codec.spec_endian()), 8)
            },
        forall|r: crate::error::Result<i128>|
            #[trigger] <i128 as Decode>::spec_decoded(bytes, codec, r) ==> if bytes.len() < 16 {
                r == Err::<i128, Error>(Error::spec_out_of_bounds(16, bytes.len() as usize))
            } else if bytes.len() > codec.spec_limit().spec_get() {
                r == Err::<i128, Error>(Error::spec_decode_failed())
            } else {
                r matches Ok(x) && x as int == to_signed(value_of(bytes.subrange(0, 16), codec.spec_endian()), 16)
            },
{
}

/// Law: decoding an array of `u16` decodes each element from its own two bytes, in the
/// codec's byte order, exactly as decoding a single `u16` from the bytes that start at
/// that element does, whenever the bytes hold all the elements and are within the
/// codec's limit.
pub proof fn lemma_u16_array_decodes_each_element<const N: usize>(
    bytes: Seq<u8>,
    codec: Codec,
    r: crate::error::Result<[u16; N]>,
)
    requires
        <[u16; N] as Decode>::spec_decoded(bytes, codec, r),
        2 * N <= bytes.len() <= codec.spec_limit().spec_get(),
    ensures
        r matches Ok(a) && forall|k: int|
            0 <= k < N ==> #[trigger] a@[k] as nat == value_of(
                bytes.subrange(2 * k, 2 * k + 2),
                codec.spec_endian(),
            ) && decode_unsigned(bytes.subrange(2 * k, bytes.len() as int), 2, codec) == Ok::<
                nat,
                Error,
            >(a@[k] as nat),
{
    if let Ok(a) = r {
        assert forall|k: int| 0 <= k < N implies #[trigger] a@[k] as nat == value_of(
            bytes.subrange(2 * k, 2 * k + 2),
            codec.spec_endian(),
        ) && decode_unsigned(bytes.subrange(2 * k, bytes.len() as int), 2, codec) == Ok::<
            nat,
            Error,
        >(a@[k] as nat) by {
            let w = bytes.subrange(2 * k, 2 * k + 2);
            crate::encoding::lemma_value_of_bound(w, codec.spec_endian());
            crate::encoding::lemma_pow256_widths();
            assert(bytes.subrange(2 * k, bytes.len() as int).subrange(0, 2) =~= w);
        }
    }
}

/// Law: the size that a primitive integer declares through [`Abi`] is the number of
/// bytes it occupies in memory, and each integer wrapper declares the size of the
/// integer it wraps; a `[T; N]` declares `N` times the size of `T`, and a chunk its
/// length.
pub proof fn lemma_abi_size_is_memory_size<T: Abi, const N: usize>()
    ensures
        <u8 as Abi>::spec_size() == vstd::layout::size_of::<u8>(),
        <u16 as Abi>::spec_size() == vstd::layout::size_of::<u16>(),
        <u32 as Abi>::spec_size() == vstd::layout::size_of::<u32>(),
        <u64 as Abi>::spec_size() == vstd::layout::size_of::<u64>(),
        <u128 as Abi>::spec_size() == vstd::layout::size_of::<u128>(),
        <i8 as Abi>::spec_size() == vstd::layout::size_of::<i8>(),
        <i16 as Abi>::spec_size() == vstd::layout::size_of::<i16>(),
        <i32 as Abi>::spec_size() == vstd::layout::size_of::<i32>(),
        <i64 as Abi>::spec_size() == vstd::layout::size_of::<i64>(),
        <i128 as Abi>::spec_size() == vstd::layout::size_of::<i128>(),
        <U8 as Abi>::spec_size() == vstd::layout::size_of::<u8>(),
        <U16 as Abi>::spec_size() == vstd::layout::size_of::<u16>(),
        <U32 as Abi>::spec_size() == vstd::layout::size_of::<u32>(),
        <U64 as Abi>::spec_size() == vstd::layout::size_of::<u64>(),
        <U128 as Abi>::spec_size() == vstd::layout::size_of::<u128>(),
        <I8 as Abi>::spec_size() == vstd::layout::size_of::<i8>(),
        <I16 as Abi>::spec_size() == vstd::layout::size_of::<i16>(),
        <I32 as Abi>::spec_size() == vstd::layout::size_of::<i32>(),
        <I64 as Abi>::spec_size() == vstd::layout::size_of::<i64>(),
        <I128 as Abi>::spec_size() == vstd::layout::size_of::<i128>(),
        <[T; N] as Abi>::spec_size() == N * T::spec_size(),
        <Chunk<N> as Abi>::spec_size() == N,
{
    broadcast use vstd::layout::layout_of_primitives;

    assert(vstd::layout::size_of::<u8>() == 1);
}

/// Law: the zero value of every integer type, primitive or wrapper, holds 0.
pub proof fn lemma_zero_is_zero()
    ensures
        <u8 as Zeroable>::spec_zero() == 0,
        <u16 as Zeroable>::spec_zero() == 0,
        <u32 as Zeroable>::spec_zero() == 0,
        <u64 as Zeroable>::spec_zero() == 0,
        <u128 as Zeroable>::spec_zero() == 0,
        <i8 as Zeroable>::spec_zero() == 0,
        <i16 as Zeroable>::spec_zero() == 0,
        <i32 as Zeroable>::spec_zero() == 0,
        <i64 as Zeroable>::spec_zero() == 0,
        <i128 as Zeroable>::spec_zero() == 0,
        <U8 as Zeroable>::spec_zero()@ == 0,
        <U16 as Zeroable>::spec_zero()@ == 0,
        <U32 as Zeroable>::spec_zero()@ == 0,
        <U64 as Zeroable>::spec_zero()@ == 0,
        <U128 as Zeroable>::spec_zero()@ == 0,
        <I8 as Zeroable>::spec_zero()@ == 0,
        <I16 as Zeroable>::spec_zero()@ == 0,
        <I32 as Zeroable>::spec_zero()@ == 0,
        <I64 as Zeroable>::spec_zero()@ == 0,
        <I128 as Zeroable>::spec_zero()@ == 0,
{
    U8::lemma_from_inner_stores(0);
    U16::lemma_from_inner_stores(0);
    U32::lemma_from_inner_stores(0);
    U64::lemma_from_inner_stores(0);
    U128::lemma_from_inner_stores(0);
    I8::lemma_from_inner_stores(0);
    I16::lemma_from_inner_stores(0);
    I32::lemma_from_inner_stores(0);
    I64::lemma_from_inner_stores(0);
    I128::lemma_from_inner_stores(0);
}

/// Law: an [`Integer`] read of a primitive integer gives the integer itself.
pub proof fn lemma_primitive_value_is_itself()
    ensures
        forall|x: u8| #[trigger] x.spec_repr() == x && x.spec_value() == x as int,
        forall|x: u16| #[trigger] x.spec_repr() == x && x.spec_value() == x as int,
        forall|x: u32| #[trigger] x.spec_repr() == x && x.spec_value() == x as int,
        forall|x: u64| #[trigger] x.spec_repr() == x && x.spec_value() == x as int,
        forall|x: u128| #[trigger] x.spec_repr() == x && x.spec_value() == x as int,
        forall|x: i8| #[trigger] x.spec_repr() == x && x.spec_value() == x as int,
        forall|x: i16| #[trigger] x.spec_repr() == x && x.spec_value() == x as int,
        forall|x: i32| #[trigger] x.spec_repr() == x && x.spec_value() == x as int,
        forall|x: i64| #[trigger] x.spec_repr() == x && x.spec_value() == x as int,
        forall|x: i128| #[trigger] x.spec_repr() == x && x.spec_value() == x as int,
{
}

/// Law: the little endian types read the least significant byte first and the big
/// endian types the most significant byte first, through every trait that fixes a byte
/// order: [`Endianness`], [`crate::config::Endian`] and the
/// [`ByteOrder`][crate::endian::ByteOrder] behind
/// [`Deserializer`][crate::endian::Deserializer].
pub proof fn lemma_byte_order_types_read_their_order(s: Seq<u8>)
    ensures
        value_of(s, <LittleEndian as Endianness>::byte_order()) == le_value(s),
        value_of(s, <LittleEndian as crate::config::Endian>::byte_order()) == le_value(s),
        value_of(s, order_of::<LittleEndian>()) == le_value(s),
        value_of(s, <BigEndian as Endianness>::byte_order()) == le_value(s.reverse()),
        value_of(s, <BigEndian as crate::config::Endian>::byte_order()) == le_value(s.reverse()),
        value_of(s, order_of::<BigEndian>()) == le_value(s.reverse()),
{
}

/// Law: each range form selects, in a slice of length `len`, the indices that Rust's
/// slicing with that range selects, and is usable exactly when that slicing would not
/// panic.
pub proof fn lemma_ranges_select_their_indices(
    len: nat,
    full: core::ops::RangeFull,
    r: core::ops::Range<usize>,
    from: core::ops::RangeFrom<usize>,
    to: core::ops::RangeTo<usize>,
    to_incl: core::ops::RangeToInclusive<usize>,
)
    ensures
        full.spec_in_bounds(len) && full.spec_start(len) == 0 && full.spec_end(len) == len,
        r.spec_in_bounds(len) == (r.start <= r.end <= len) && r.spec_start(len) == r.start
            && r.spec_end(len) == r.end,
        from.spec_in_bounds(len) == (from.start <= len) && from.spec_start(len) == from.start
            && from.spec_end(len) == len,
        to.spec_in_bounds(len) == (to.end <= len) && to.spec_start(len) == 0 && to.spec_end(len)
            == to.end,
        to_incl.spec_in_bounds(len) == (to_incl.end < len) && to_incl.spec_start(len) == 0
            && to_incl.spec_end(len) == to_incl.end + 1,
{
}

} // verus!
