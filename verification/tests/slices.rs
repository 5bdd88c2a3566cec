use abio::contiguous;
use abio::source::Slice;
use abio::Bytes;

const SOURCE: &[u8] = b"NtAllocateVirtualMemory\0kernel32.dll\0ntdll.dll\0";

const ABI_SOURCE: &[u8] = b"NtAllocateVirtualAbi\0kernel32.dll\0ntdll.dll\0";

const INPUTS: &[&[u8]] = &[b"libabio.dll", b"kernel32.dll", b"ntdll.dll"];
const STREAM: &[u8] = b"libabio.dllkernel32.dllntdll.dll";

#[test]
fn borrowed_array_from_bytes() {
    let expected = SOURCE.get(0..23);

    let reader = Bytes::new(SOURCE);
    let actual = reader.read(23);
    assert_eq!(expected, actual);
    assert_eq!(actual, Some(&b"NtAllocateVirtualMemory"[..]));
}

#[test]
fn borrowed_reading_subslice_in_middle() {
    let expected = SOURCE.get(13 + 24..SOURCE.len() - 1);
    let reader = Bytes::new_offset(SOURCE, 13 + 24).expect("offset would overflow Bytes instance");
    let actual = reader.read_until(|&b| b == b'\0');

    assert_eq!(actual, expected);
    assert_eq!(actual, Some(&b"ntdll.dll"[..]));
}

#[test]
fn bytes_array_from_bytes() {
    let expected = ABI_SOURCE.get(0..23).unwrap();

    let reader = contiguous::Bytes::new(ABI_SOURCE);
    let actual = reader.read(23).unwrap();
    assert_eq!(expected, actual.slice(..));
    // The first 23 bytes of the source run past the name into the separator and the
    // next entry.
    assert_eq!(Some(actual.as_slice()), Some(&b"NtAllocateVirtualAbi\0ke"[..]));
}

#[test]
fn bytes_reading_subslice_in_middle() {
    let expected = ABI_SOURCE.get(13 + 24..ABI_SOURCE.len() - 1).unwrap();
    let reader = contiguous::Bytes::new_offset(ABI_SOURCE, 13 + 24)
        .expect("offset would overflow Bytes instance");
    let actual = reader.read_until(|&b| b == b'\0').unwrap();

    assert_eq!(actual, expected);
    // Offset 37 lies three bytes into the last entry of this source.
    assert_eq!(actual, &b"ll.dll"[..]);
}

#[test]
fn bytes_reader_methods() {
    let binding = Slice::from_slice(STREAM);
    let actual = binding.read(11).expect("Bytes failed to read from stream");
    assert!(!actual.is_empty());
    assert_eq!(INPUTS[0], actual.slice(..));
    assert_eq!(actual.as_slice(), &b"libabio.dll"[..]);
}
