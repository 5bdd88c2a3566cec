# abio

Endian-aware operations on raw byte slices: reading and writing integers in either
byte order, bounds-checked views over borrowed bytes, fixed-size chunks, and the
codec that decides how values are decoded. No I/O happens anywhere in the crate.

The library in `src/` is verified with Verus. Its contracts are stated over a
mathematical model of bytes (`encoding.rs`: the value of a byte sequence in a byte
order, and the bytes of a value), and `laws.rs` proves how reads, writes and
conversions relate to each other.

`app/` holds the few operations that no contract over byte values can describe:
alignment checks that depend on memory addresses, reinterpretation of memory as
another type, and floating point reads and writes built on the verified integer
ones.
