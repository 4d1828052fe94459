use dalvik::endian::{swap_u32, Endianness};
use dalvik::error::{Error, IoFault};
use dalvik::reader::ByteReader;

const EOF: Error = Error::Io(IoFault::UnexpectedEof);

#[test]
fn u16_in_both_byte_orders() {
    let bytes = [0x12u8, 0x34, 0x56, 0x78];
    let mut reader = ByteReader::new(&bytes);
    assert_eq!(reader.read_u16(Endianness::Little), Ok(0x3412));
    assert_eq!(reader.position(), 2);
    assert_eq!(reader.read_u16(Endianness::Big), Ok(0x5678));
    assert_eq!(reader.position(), 4);
    assert_eq!(reader.remaining(), 0);
}

#[test]
fn u32_in_both_byte_orders() {
    let bytes = [0x12u8, 0x34, 0x56, 0x78, 0x9a, 0xbc, 0xde, 0xf0];
    let mut reader = ByteReader::new(&bytes);
    assert_eq!(reader.read_u32(Endianness::Little), Ok(0x78563412));
    assert_eq!(reader.position(), 4);
    assert_eq!(reader.read_u32(Endianness::Big), Ok(0x9abcdef0));
    assert_eq!(reader.position(), 8);
}

#[test]
fn largest_values_are_read_whole() {
    let bytes = [0xffu8; 6];
    let mut reader = ByteReader::new(&bytes);
    assert_eq!(reader.read_u32(Endianness::Big), Ok(u32::MAX));
    assert_eq!(reader.read_u16(Endianness::Little), Ok(u16::MAX));
}

#[test]
fn byte_orders_differ_by_a_swap() {
    let bytes = [0x01u8, 0x02, 0x03, 0x04];
    let little = ByteReader::new(&bytes).read_u32(Endianness::Little).unwrap();
    let big = ByteReader::new(&bytes).read_u32(Endianness::Big).unwrap();
    assert_eq!(little, 0x04030201);
    assert_eq!(big, 0x01020304);
    assert_eq!(swap_u32(little), big);
    assert_eq!(swap_u32(big), little);
    assert_eq!(swap_u32(0), 0);
    assert_eq!(swap_u32(0xff00_0000), 0x0000_00ff);
    assert_eq!(swap_u32(0x00ff_0000), 0x0000_ff00);
}

#[test]
fn short_read_takes_nothing() {
    let bytes = [1u8, 2, 3];
    let mut reader = ByteReader::new(&bytes);
    assert_eq!(reader.read_u32(Endianness::Little), Err(EOF));
    assert_eq!(reader.position(), 0);
    assert_eq!(reader.remaining(), 3);
    assert_eq!(reader.read_u16(Endianness::Little), Ok(0x0201));
    assert_eq!(reader.read_u16(Endianness::Little), Err(EOF));
    assert_eq!(reader.position(), 2);
    assert_eq!(reader.read_array::<2>(), Err(EOF));
    assert_eq!(reader.skip(2), Err(EOF));
    assert_eq!(reader.position(), 2);
    assert_eq!(reader.read_array::<1>(), Ok([3]));
    assert_eq!(reader.remaining(), 0);
    assert_eq!(reader.read_array::<0>(), Ok([]));
    assert_eq!(reader.skip(0), Ok(()));
}

#[test]
fn arrays_are_read_in_order() {
    let bytes: Vec<u8> = (0u8..30).collect();
    let mut reader = ByteReader::new(&bytes);
    assert_eq!(reader.read_array::<8>(), Ok([0, 1, 2, 3, 4, 5, 6, 7]));
    assert_eq!(reader.position(), 8);
    assert_eq!(reader.skip(2), Ok(()));
    let twenty = reader.read_array::<20>().unwrap();
    assert_eq!(twenty[0], 10);
    assert_eq!(twenty[19], 29);
    assert_eq!(reader.position(), 30);
}

#[test]
fn empty_input_has_nothing_to_read() {
    let mut reader = ByteReader::new(&[]);
    assert_eq!(reader.position(), 0);
    assert_eq!(reader.remaining(), 0);
    assert_eq!(reader.read_u16(Endianness::Big), Err(EOF));
    assert_eq!(reader.read_u32(Endianness::Big), Err(EOF));
}
