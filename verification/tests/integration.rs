use core::mem::size_of;

use abio::integer::{U16, U32};
use abio::{Error, Result};

#[derive(Clone, Copy, Debug)]
pub struct Packet {
    header: U32,
    length: U16,
    tag: U16,
    body: [u8; 64],
}

impl Packet {
    pub fn header(&self) -> U32 {
        self.header
    }

    fn read_bytes(bytes: &[u8]) -> Result<(Self, &[u8])> {
        let mut pos = 0;
        let (header, tail) = U32::read_bytes(bytes)?;
        pos += 4;

        let (length, tail) = U16::read_bytes(tail)?;
        pos += 2;

        let (tag, tail) = U16::read_bytes(tail)?;
        pos += 2;

        let position = size_of::<U32>() + size_of::<U16>() + size_of::<U16>();
        assert_eq!(pos, position);
        println!("position: {position}\nLength: {:?}", length);
        let body: [u8; 64] = bytes[position..].try_into().map_err(|err| {
            println!("Cannot convert bytes into array, error: {err:?}");
            Error::size_mismatch(position + length.get_le() as usize - position, position)
        })?;
        println!("{:?} {:?}", body, tail);
        Ok((Self { header, length, tag, body }, tail))
    }
}

#[test]
fn integration_safe_transmute_checks_layout() {
    let header = U32::new(0xff80_08c8);
    let length = U16::new(32);
    let tag = U16::from_bytes(b"MZ").expect("buffer should simply contain MZ, which is valid U16");
    let body = *b"message body is of expected len\x08\x00\x00\x00\x00\x00\x00\x00\x00\x00\x00\x00\x00\x00\x00\x00\x00\x00\x00\x00\x00\x00\x00\x00\x00\x00\x00\x00\x00\x00\x00\x00\x00";
    let packet = Packet { header, length, tag, body };
    println!("{:?}", packet);

    let has_padding = size_of::<Packet>()
        != size_of::<U32>() + size_of::<U16>() + size_of::<U16>() + size_of::<[u8; 64]>();
    assert!(!has_padding);

    assert_eq!(packet.header(), 4286580936.into());

    let mut buf = Vec::new();
    buf.extend_from_slice(&header.to_le_bytes()[..]);
    buf.extend_from_slice(&length.to_le_bytes()[..]);
    buf.extend_from_slice(&tag.to_le_bytes()[..]);
    buf.extend_from_slice(&body[..]);
    println!("{}", buf.len());

    let (packet, _) = Packet::read_bytes(&buf[..]).expect("Packet should be readable from bytes");

    assert!(!packet.body.is_empty());
}
