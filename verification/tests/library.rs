use abio::aligned::NoPadding;
use abio::byteorder::{extend_sign, extend_sign128, pack_size, pack_size128, unextend_sign};
use abio::chunk::Chunk;
use abio::codec::{MISSING_ENDIAN, MISSING_LIMIT};
use abio::contiguous;
use abio::cursor::BytePos;
use abio::endian::{BigEndian, Endianness, LittleEndian};
use abio::error::{DECODE_FAILED_MESSAGE, ENCODE_FAILED_MESSAGE};
use abio::integer::{I16, I32, U16, U32, U64};
use abio::reader::Parser;
use abio::shims::{first_chunk, split_at_unchecked, split_chunk_at, to_byte_array_unchecked};
use abio::shims::{FromInner, IntoInner};
use abio::source::Slice;
use abio::span::Span;
use abio::{Bytes, Codec, CodecBuilder, Decode, Endian, Error, ErrorKind, Limit, Source};

#[test]
fn little_endian_u32_reads_back_what_was_written() {
    let mut buf = [0u8; 4];
    LittleEndian::write_u32(&mut buf, 1_000_000).unwrap();
    assert_eq!(buf, 1_000_000u32.to_le_bytes());
    assert_eq!(LittleEndian::read_u32(&buf).unwrap(), 1_000_000);
}

#[test]
fn big_endian_i16_reads_back_what_was_written() {
    let mut buf = [0u8; 2];
    BigEndian::write_i16(&mut buf, -5_000).unwrap();
    assert_eq!(buf, (-5_000i16).to_be_bytes());
    assert_eq!(BigEndian::read_i16(&buf).unwrap(), -5_000);
}

#[test]
fn writes_leave_the_tail_of_the_buffer_alone() {
    let mut buf = [0xaau8; 6];
    BigEndian::write_u32(&mut buf, 0x0102_0304).unwrap();
    assert_eq!(buf, [1, 2, 3, 4, 0xaa, 0xaa]);
    LittleEndian::write_u16(&mut buf, 0x0102).unwrap();
    assert_eq!(buf, [2, 1, 3, 4, 0xaa, 0xaa]);
}

#[test]
fn every_width_round_trips_in_both_orders() {
    let mut buf = [0u8; 16];
    LittleEndian::write_u64(&mut buf, 0x0123_4567_89ab_cdef).unwrap();
    assert_eq!(LittleEndian::read_u64(&buf).unwrap(), 0x0123_4567_89ab_cdef);
    BigEndian::write_u128(&mut buf, u128::MAX - 7).unwrap();
    assert_eq!(BigEndian::read_u128(&buf).unwrap(), u128::MAX - 7);
    LittleEndian::write_i64(&mut buf, i64::MIN).unwrap();
    assert_eq!(LittleEndian::read_i64(&buf).unwrap(), i64::MIN);
    BigEndian::write_i128(&mut buf, -1).unwrap();
    assert_eq!(BigEndian::read_i128(&buf).unwrap(), -1);
    LittleEndian::write_i8(&mut buf, -128).unwrap();
    assert_eq!(LittleEndian::read_i8(&buf).unwrap(), -128);
    BigEndian::write_u8(&mut buf, 200).unwrap();
    assert_eq!(BigEndian::read_u8(&buf).unwrap(), 200);
    LittleEndian::write_i32(&mut buf, -123_456).unwrap();
    assert_eq!(LittleEndian::read_i32(&buf).unwrap(), -123_456);
}

#[test]
fn reads_in_each_byte_order_give_exact_values() {
    let bytes = [0x01, 0x02, 0x03, 0x04, 0xff];
    assert_eq!(LittleEndian::read_u32(&bytes).unwrap(), 0x0403_0201);
    assert_eq!(BigEndian::read_u32(&bytes).unwrap(), 0x0102_0304);
    assert_eq!(BigEndian::read_u16(&bytes[3..]).unwrap(), 0x04ff);
    assert_eq!(LittleEndian::read_i16(&bytes[3..]).unwrap(), -252);
}

#[test]
fn short_reads_and_writes_are_out_of_bounds() {
    let bytes = [1u8, 2, 3];
    assert_eq!(LittleEndian::read_u32(&bytes), Err(Error::out_of_bounds(4, 3)));
    let mut buf = [7u8; 3];
    assert_eq!(BigEndian::write_u64(&mut buf, 1), Err(Error::out_of_bounds(8, 3)));
    assert_eq!(buf, [7, 7, 7]);
}

#[test]
fn decode_follows_the_codec_byte_order() {
    let bytes = [0x12, 0x34, 0x56, 0x78];
    let big = Codec::builder().with_big_endian().with_limit(Limit::default()).try_build().unwrap();
    let little = Codec::default();
    assert!(big.is_big_endian());
    assert!(little.is_little_endian());
    assert_eq!(u32::decode(&bytes, big).unwrap(), 0x1234_5678);
    assert_eq!(u32::decode(&bytes, little).unwrap(), 0x7856_3412);
    assert_eq!(u16::decode(&bytes, big).unwrap(), BigEndian::read_u16(&bytes).unwrap());
    assert_eq!(i8::decode(&[0x80], little).unwrap(), -128);
    assert_eq!(<[u16; 2]>::decode(&bytes, big).unwrap(), [0x1234, 0x5678]);
}

#[test]
fn decode_rejects_short_and_oversized_input() {
    let codec = Codec::builder().with_little_endian().with_limit(Limit::new(4)).try_build().unwrap();
    assert_eq!(u32::decode(&[1, 2, 3], codec), Err(Error::out_of_bounds(4, 3)));
    assert_eq!(u16::decode(&[0u8; 5], codec), Err(Error::decode_failed()));
    assert_eq!(u16::decode(&[1, 0, 0, 0], codec), Ok(1));
}

#[test]
fn codec_builder_requires_both_settings() {
    let no_endian = CodecBuilder::new().with_limit(Limit::new(8)).try_build();
    assert_eq!(no_endian, Err(Error::invalid_codec(MISSING_ENDIAN)));
    let no_limit = CodecBuilder::new().with_endian(Endian::Big).try_build();
    assert_eq!(no_limit, Err(Error::invalid_codec(MISSING_LIMIT)));
    let fallback = Codec::default();
    let built = CodecBuilder::new().with_endian(Endian::Big).build(fallback);
    assert!(built.is_big_endian());
    assert_eq!(built.limit().get(), 0x1000);
    let constant = CodecBuilder::new().with_const_limit::<16>().build(fallback);
    assert_eq!(constant.limit().get(), 16);
    assert!(constant.is_little_endian());
}

#[test]
fn error_messages_name_the_failure() {
    assert_eq!(
        Error::out_of_bounds(4, 2).to_string(),
        "Out of bounds error. Required 4 bytes, but buffer size can only hold 2 bytes"
    );
    assert_eq!(
        Error::size_mismatch(16, 103).to_string(),
        "Size mismatch error (Required 16 bytes, got 103"
    );
    assert_eq!(Error::verbose("bad input").to_string(), "[ERROR]: bad input");
    assert_eq!(
        Error::decode_failed().to_string(),
        format!("Decode failed: {}", DECODE_FAILED_MESSAGE)
    );
    assert_eq!(
        Error::encode_failed().to_string(),
        format!("Encode failed: {}", ENCODE_FAILED_MESSAGE)
    );
    assert_eq!(
        Error::invalid_codec(MISSING_LIMIT).to_string(),
        "Invalid codec configuration: byte limit must be set"
    );
    assert_eq!(
        Error::incompatible_types().to_string(),
        "Failed to convert one type to another due to incompatible layouts"
    );
    assert_eq!(
        Error::internal_failure().to_string(),
        "Entered unrecoverable failure state with an unknown or unexpected origin"
    );
    assert_eq!(
        Error::misaligned_access().to_string(),
        "Misaligned memory access caused by misaligned pointer"
    );
    assert_eq!(Error::null_reference().to_string(), "Invalid pointer dereferenced to null");
}

#[test]
fn errors_convert_from_kinds_and_messages() {
    assert_eq!(Error::from(ErrorKind::NullReference).kind(), ErrorKind::NullReference);
    assert_eq!(Error::from("oops").kind(), ErrorKind::Verbose { message: "oops" });
    assert_eq!(ErrorKind::default(), ErrorKind::InternalFailure);
    assert_eq!(Error::new(ErrorKind::IncompatibleTypes), Error::incompatible_types());
}

#[test]
fn integer_wrappers_swap_bytes_for_big_endian() {
    let value = U32::new_be(0x0102_0304);
    assert_eq!(value.get_le(), 0x0403_0201);
    assert_eq!(value.get_be(), 0x0102_0304);
    assert_eq!(value.get(Endian::Big), 0x0102_0304);
    assert_eq!(value.get(Endian::Little), value.get_ne());
    assert_eq!(U16::new(0x1234).to_be_bytes(), [0x12, 0x34]);
    assert_eq!(U16::new(0x1234).to_le_bytes(), [0x34, 0x12]);
    assert_eq!(I16::from_be_bytes([0xff, 0xfe]).get_le(), -2);
    assert_eq!(I32::new(-2).to_le_bytes(), [0xfe, 0xff, 0xff, 0xff]);
    let wide = U64::from_le_bytes([1, 0, 0, 0, 0, 0, 0, 0x80]);
    assert_eq!(wide.get_le(), 0x8000_0000_0000_0001);
    assert_eq!(U64::from_le_bytes(wide.to_le_bytes()), wide);
}

#[test]
fn integer_wrappers_read_from_byte_slices() {
    let bytes = [0x01, 0x02, 0x03];
    assert_eq!(U16::read_aligned(&bytes, Endian::Big).unwrap().get_le(), 0x0102);
    assert_eq!(U16::read_aligned(&bytes[2..], Endian::Big), Err(Error::out_of_bounds(2, 1)));
    let (value, tail) = U16::read_bytes(&bytes).unwrap();
    assert_eq!(value.get_le(), 0x0201);
    assert_eq!(tail, &[0x03][..]);
    assert_eq!(U32::from_bytes(&bytes), Err(Error::size_mismatch(4, 3)));
    assert_eq!(U16::from_bytes(b"MZ").unwrap().get_le(), u16::from_le_bytes(*b"MZ"));
}

#[test]
fn inner_conversions_follow_their_definitions() {
    assert_eq!(U16::from_inner(1).get_le(), 0x0100);
    assert_eq!(U16::new(1).into_inner(), 1);
    assert_eq!(u32::from(U32::new(7)), 7);
    assert_eq!(U32::from(7), U32::new(7));
}

#[test]
fn sign_extension_round_trips() {
    assert_eq!(extend_sign(0xff_ffff, 3), -1);
    assert_eq!(extend_sign(0x7f_ffff, 3), 0x7f_ffff);
    assert_eq!(unextend_sign(-1, 3), 0xff_ffff);
    assert_eq!(extend_sign(unextend_sign(-5, 3), 3), -5);
    assert_eq!(unextend_sign(extend_sign(0xab_cdef, 3), 3), 0xab_cdef);
    assert_eq!(extend_sign128(0x80, 1), -128);
    assert_eq!(extend_sign128(u128::MAX, 16), -1);
}

#[test]
fn pack_size_counts_the_bytes_needed() {
    assert_eq!(pack_size(0), 1);
    assert_eq!(pack_size(0xff), 1);
    assert_eq!(pack_size(0x100), 2);
    assert_eq!(pack_size(0xff_ffff), 3);
    assert_eq!(pack_size(u64::MAX), 8);
    assert_eq!(pack_size128(1u128 << 64), 9);
    assert_eq!(pack_size128(u128::MAX), 16);
}

#[test]
fn chunks_copy_bytes_out_of_slices() {
    let bytes = b"abcdef";
    let chunk = Chunk::<4>::from_bytes(bytes).unwrap();
    assert_eq!(chunk.into_array(), *b"abcd");
    assert_eq!(Chunk::<2>::from_bytes_at(bytes, 4).unwrap().as_bytes(), b"ef");
    assert_eq!(Chunk::<4>::from_bytes_at(bytes, 4), Err(Error::out_of_bounds(8, 6)));
    assert_eq!(Chunk::<8>::from_bytes(bytes), Err(Error::out_of_bounds(8, 6)));
    assert_eq!(Chunk::<3>::try_from(&bytes[..]).unwrap().as_bytes(), b"abc");
    let from_slice: abio::Result<Chunk<2>> = Slice::from_slice(b"xy").into();
    assert_eq!(from_slice.unwrap().as_bytes(), b"xy");
    let first: Option<Chunk<4>> = contiguous::Bytes::new(b"abc").into();
    assert!(first.is_none());
    assert_eq!(Chunk::<2>::from(*b"hi").len(), 2);
}

#[test]
fn chunk_as_str_checks_utf8() {
    let chunk = Chunk::new(*b"abc");
    assert_eq!(chunk.as_str(), Some("abc"));
    let invalid = Chunk::new([0xff, 0xfe]);
    assert_eq!(invalid.as_str(), None);
}

#[test]
fn shims_split_and_copy() {
    let bytes = [1u8, 2, 3, 4, 5];
    let (head, tail) = split_at_unchecked(&bytes, 2);
    assert_eq!(head, &[1, 2][..]);
    assert_eq!(tail, &[3, 4, 5][..]);
    assert_eq!(to_byte_array_unchecked::<2>(&bytes, 3), [4, 5]);
    let (chunk, rest) = split_chunk_at::<2>(&bytes, 1).unwrap();
    assert_eq!(chunk.into_array(), [2, 3]);
    assert_eq!(rest, &[4, 5][..]);
    assert_eq!(split_chunk_at::<4>(&bytes, 2).err(), Some(Error::out_of_bounds(4, 5)));
    assert_eq!(first_chunk::<6>(&bytes), Err(Error::out_of_bounds(6, 5)));
    assert_eq!(abio::util::split_first_chunk::<2>(&bytes).unwrap().1, &[3, 4, 5][..]);
    assert!(abio::util::split_chunk_at::<3>(&bytes, 3).is_none());
}

#[test]
fn sources_read_slices_and_chunks() {
    let bytes: &[u8] = b"0123456789";
    assert_eq!(bytes.read_slice_at(2, 3).unwrap(), b"234");
    assert_eq!(bytes.read_slice_at(8, 3), Err(Error::out_of_bounds(11, 10)));
    assert_eq!(bytes.read_chunk::<2>().unwrap().as_bytes(), b"01");
    let array = *b"abcd";
    assert_eq!(array.read_chunk_at::<2>(2).unwrap().as_bytes(), b"cd");
    assert_eq!(array.source_len(), 4);
    let chunk = Chunk::new(*b"wxyz");
    assert_eq!(chunk.read_slice(5), Err(Error::out_of_bounds(5, 4)));
}

#[test]
fn slices_read_by_count_offset_and_span() {
    let slice = Slice::from_slice(b"hello world");
    assert_eq!(slice.read(5).unwrap().as_slice(), b"hello");
    assert_eq!(slice.read(12), Err(Error::out_of_bounds(12, 11)));
    assert_eq!(slice.read_at(6, 5).unwrap().as_slice(), b"world");
    assert_eq!(Slice::from_slice_at(b"abc", 4), Err(Error::out_of_bounds(4, 3)));
    assert_eq!(Slice::from_slice_at(b"abc", 1).unwrap().as_slice(), b"bc");
    assert_eq!(Slice::new_offset_with_size(b"abc", 1, 3), Err(Error::out_of_bounds(1, 3)));
    assert_eq!(slice.read_spanned(Span::new(0, 11)).unwrap().as_slice(), b"hello world");
    assert_eq!(slice.read_spanned(Span::new(0, 3)), Err(Error::size_mismatch(3, 11)));
    assert_eq!(slice.slice(..), b"hello world");
    assert_eq!(slice.slice(1..3), b"el");
    assert_eq!(Slice::from_inner(b"ab").len(), 2);
}

#[test]
fn borrowed_bytes_read_until_a_predicate() {
    let bytes = Bytes::new(b"key=value");
    assert_eq!(bytes.read_until(|&b| b == b'='), Some(&b"key"[..]));
    assert_eq!(bytes.read_until(|&b| b == b'k'), None);
    assert_eq!(bytes.read_at(4, 5), Some(&b"value"[..]));
    assert_eq!(bytes.read_at(4, 6), None);
    assert!(Bytes::new_offset(b"abc", 4).is_none());
}

#[test]
fn contiguous_bytes_report_errors() {
    let bytes = contiguous::Bytes::new(b"abcdef");
    assert_eq!(bytes.read_at(1, 9), Err(Error::out_of_bounds(9, 6)));
    assert_eq!(bytes.read_until(|&b| b == b'a'), Err(Error::verbose(contiguous::EMPTY_READ_UNTIL)));
    assert_eq!(bytes.with_offset(2).unwrap().as_slice(), b"cd");
    assert_eq!(bytes.with_offset(4).unwrap().as_slice(), b"");
    assert!(bytes.with_offset(7).is_none());
    assert_eq!(bytes.read_spanned(Span::new(0, 0)), Err(Error::size_mismatch(0, 6)));
    assert_eq!(contiguous::Bytes::new_offset(b"abc", 1).unwrap().as_slice(), b"bc");
}

#[test]
fn spans_cover_ranges() {
    let mut span = Span::new(2, 3);
    assert_eq!((span.start(), span.end(), span.len()), (2, 5, 3));
    assert_eq!(span + 4, 6);
    span.add_assign(2);
    assert_eq!((span.start(), span.end()), (4, 7));
    let mut reversed = Span::from(6..1);
    assert!(reversed.is_empty());
    reversed.add_assign(1);
    assert_eq!((reversed.start(), reversed.end()), (7, 7));
    let range: core::ops::Range<usize> = Span::new(1, 2).into();
    assert_eq!(range, 1..3);
    assert_eq!(Span::new(1, 2) + Span::new(3, 4), Span::new(4, 10));
    assert_eq!(Span::span_bytes(b"abcdef", 1, 3).unwrap().as_slice(), b"bcd");
    assert_eq!(Span::span_bytes(b"abc", 1, 3), Err(Error::out_of_bounds(4, 3)));
    assert_eq!(Span::new(2, 2).from_slice(b"abc"), None);
    assert_eq!(Span::new(1, 2).from_slice(b"abc"), Some(Span::new(0, 2)));
}

#[test]
fn parser_reads_values_and_advances() {
    let bytes = [0x01, 0x00, 0x02, 0x00, 0x00, 0x00, 0x09];
    let mut parser = Parser::new(&bytes);
    assert_eq!(parser.read::<u16>(), Some(1));
    assert_eq!(parser.position().get(), 2);
    assert_eq!(parser.read::<u32>(), Some(2));
    assert_eq!(parser.remaining(), 1);
    assert_eq!(parser.read::<u16>(), None);
    assert_eq!(parser.position().get(), 6);
    assert_eq!(parser.chunk(), &[0x09][..]);
    assert!(Parser::new_at_offset(&bytes, 8).is_none());
}

#[test]
fn layout_helpers() {
    assert!(7u32.verify_padding());
    assert!([1u16; 3].verify_padding());
}

#[test]
fn wrappers_dereference_to_what_they_hold() {
    assert_eq!(*Limit::new(9), 9);
    assert_eq!(*U32::new(5), 5);
    assert_eq!(*U16::new_be(1), 0x0100);
    let chunk = Chunk::new(*b"abc");
    assert_eq!(&*chunk, b"abc");
    assert_eq!(chunk.as_ref(), b"abc");
    assert_eq!(&*Slice::from_slice(b"xy"), b"xy");
    assert_eq!(Bytes::new(b"pq").as_ref(), b"pq");
    assert_eq!(&*contiguous::Bytes::new(b"rs"), b"rs");
}

#[test]
fn byte_positions_add_and_subtract() {
    let a = BytePos::new(5);
    let b = BytePos::from(3);
    assert_eq!((a + b).get(), 8);
    assert_eq!((a - b).get(), 2);
    assert_eq!((b - a).get(), 0);
    assert_eq!(a + 10usize, 15);
    assert_eq!(BytePos::new(usize::MAX).saturating_add(1).get(), usize::MAX);
    let mut c = BytePos::new(1);
    c.advance(4);
    assert_eq!(c, BytePos::new(5));
    *c.get_mut() = 9;
    assert_eq!(c.get(), 9);
}

#[test]
fn to_byte_array_reports_short_input() {
    let bytes = [1u8, 2, 3, 4];
    assert_eq!(abio::shims::to_byte_array::<2>(&bytes, 2), Some([3, 4]));
    assert_eq!(abio::shims::to_byte_array::<2>(&bytes, 3), None);
    assert_eq!(abio::util::to_byte_array::<4>(&bytes, 0), Some(bytes));
    assert_eq!(abio::util::to_byte_array::<1>(&bytes, usize::MAX), None);
}

#[test]
fn source_errors_follow_each_source() {
    let bytes: &[u8] = b"abcd";
    assert_eq!(bytes.read_chunk_at::<8>(0), Err(Error::out_of_bounds(8, 4)));
    assert_eq!(bytes.read_chunk_at::<2>(3), Err(Error::size_mismatch(2, 4)));
    assert_eq!(bytes.read_chunk_at::<2>(2).unwrap().as_bytes(), b"cd");
    let chunk = Chunk::new(*b"wxyz");
    assert_eq!(chunk.read_slice_at(3, 2), Err(Error::out_of_bounds(2, 4)));
    assert_eq!(chunk.read_slice_at(1, 2).unwrap(), b"xy");
    let contiguous_bytes = contiguous::Bytes::new(b"abcdef");
    assert_eq!(contiguous_bytes.read_slice_at(5, 2), Err(Error::out_of_bounds(2, 6)));
    assert_eq!(contiguous_bytes.read_chunk_at::<4>(3), Err(Error::out_of_bounds(7, 6)));
    assert_eq!(abio::shims::read_chunk_at::<2>(b"abcd", 2).unwrap().as_bytes(), b"ab");
    assert_eq!(abio::shims::read_chunk_at::<2>(b"abcd", 3), Err(Error::out_of_bounds(2, 4)));
}

#[test]
fn slices_accept_every_range_form() {
    let slice = Slice::from_slice(b"abcdef");
    assert_eq!(slice.slice(2..), b"cdef");
    assert_eq!(slice.slice(..2), b"ab");
    assert_eq!(slice.slice(..=2), b"abc");
    assert_eq!(slice.slice(1..=3), b"bcd");
    assert_eq!(slice.slice(6..), b"");
    let bytes = Bytes::new(b"hello");
    assert_eq!(bytes.slice(1..=1), b"e");
    assert_eq!(contiguous::Bytes::new(b"hello").slice(..=4), b"hello");
}

#[test]
fn errors_convert_from_standard_errors() {
    let short: core::result::Result<[u8; 4], _> = <[u8; 4]>::try_from(&b"ab"[..]);
    assert_eq!(Error::from(short.unwrap_err()).kind(), ErrorKind::IncompatibleTypes);
    let invalid = core::str::from_utf8(&[0xff]).unwrap_err();
    assert_eq!(Error::from(invalid).kind(), ErrorKind::IncompatibleTypes);
    assert_eq!(
        Error::out_of_bounds(4, 2).kind(),
        ErrorKind::OutOfBounds { needed: 4, available: 2 }
    );
}
