use dalvik::error::{Error, HeaderFault, IoFault, OffsetField, OffsetMismatch};
use dalvik::reader::ByteReader;
use dalvik::{Header, ENDIAN_CONSTANT, HEADER_SIZE, REVERSE_ENDIAN_CONSTANT};

const MAGIC: [u8; 8] = [0x64, 0x65, 0x78, 0x0a, 0x30, 0x33, 0x35, 0x00];

fn put_le(buf: &mut [u8], at: usize, value: u32) {
    buf[at..at + 4].copy_from_slice(&value.to_le_bytes());
}

fn put_be(buf: &mut [u8], at: usize, value: u32) {
    buf[at..at + 4].copy_from_slice(&value.to_be_bytes());
}

/// A header with no tables, no link section and an empty data section right behind it.
fn minimal() -> Vec<u8> {
    let mut buf = vec![0u8; 0x70];
    buf[..8].copy_from_slice(&MAGIC);
    put_le(&mut buf, 32, 0x70);
    put_le(&mut buf, 36, 0x70);
    put_le(&mut buf, 40, 0x12345678);
    put_le(&mut buf, 52, 0x70);
    put_le(&mut buf, 108, 0x70);
    buf
}

/// The fields of a header with all six tables, a data section and a link section, in
/// file order from the checksum's successor `file_size` on, the signature left out.
const FULL: [(usize, u32); 19] = [
    (32, 0xc4),
    (36, 0x70),
    (44, 4),
    (48, 0xc0),
    (52, 0xbc),
    (56, 2),
    (60, 0x70),
    (64, 1),
    (68, 0x78),
    (72, 1),
    (76, 0x7c),
    (80, 1),
    (84, 0x88),
    (88, 1),
    (92, 0x90),
    (96, 1),
    (100, 0x98),
    (104, 8),
    (108, 0xb8),
];

fn full_le() -> Vec<u8> {
    let mut buf = vec![0u8; 0x70];
    buf[..8].copy_from_slice(&MAGIC);
    put_le(&mut buf, 8, 0xdeadbeef);
    for i in 0..20 {
        buf[12 + i] = 0xa0 + i as u8;
    }
    put_le(&mut buf, 40, 0x12345678);
    for (at, value) in FULL {
        put_le(&mut buf, at, value);
    }
    buf
}

fn full_be() -> Vec<u8> {
    let mut buf = vec![0u8; 0x70];
    buf[..8].copy_from_slice(&MAGIC);
    put_be(&mut buf, 8, 0xdeadbeef);
    for i in 0..20 {
        buf[12 + i] = 0xa0 + i as u8;
    }
    put_be(&mut buf, 40, 0x12345678);
    for (at, value) in FULL {
        put_be(&mut buf, at, value);
    }
    buf
}

fn decode(buf: &[u8]) -> Result<Header, Error> {
    let mut reader = ByteReader::new(buf);
    Header::from_reader(&mut reader)
}

fn fault(buf: &[u8]) -> Error {
    match decode(buf) {
        Ok(_) => panic!("the header was accepted"),
        Err(e) => e,
    }
}

fn section(field: OffsetField, offset: usize, expected: u64) -> Error {
    Error::MismatchedOffsets(OffsetMismatch::Section { field, offset, expected })
}

#[test]
fn constants_of_the_format() {
    assert_eq!(HEADER_SIZE, 0x70);
    assert_eq!(ENDIAN_CONSTANT, 0x12345678);
    assert_eq!(REVERSE_ENDIAN_CONSTANT, 0x78563412);
    assert_eq!(dalvik::layout::STRING_ID_SIZE, 4);
    assert_eq!(dalvik::layout::TYPE_ID_SIZE, 4);
    assert_eq!(dalvik::layout::PROTOTYPE_ID_SIZE, 12);
    assert_eq!(dalvik::layout::FIELD_ID_SIZE, 8);
    assert_eq!(dalvik::layout::METHOD_ID_SIZE, 8);
    assert_eq!(dalvik::layout::CLASS_DEF_SIZE, 32);
}

#[test]
fn minimal_header_decodes() {
    let buf = minimal();
    let mut reader = ByteReader::new(&buf);
    let header = Header::from_reader(&mut reader).ok().unwrap();
    assert_eq!(reader.position(), 0x70);
    assert_eq!(reader.remaining(), 0);
    assert_eq!(header.get_magic(), &MAGIC);
    assert_eq!(header.get_dex_version(), 35);
    assert_eq!(header.get_checksum(), 0);
    assert_eq!(header.get_signature(), &[0u8; 20]);
    assert_eq!(header.get_file_size(), 0x70);
    assert_eq!(header.get_header_size(), 0x70);
    assert_eq!(header.get_endian_tag(), ENDIAN_CONSTANT);
    assert!(header.is_little_endian());
    assert!(!header.is_big_endian());
    assert_eq!(header.get_link_size(), None);
    assert_eq!(header.get_link_offset(), None);
    assert_eq!(header.get_map_offset(), 0x70);
    assert_eq!(header.get_string_ids_size(), 0);
    assert_eq!(header.get_string_ids_offset(), None);
    assert_eq!(header.get_type_ids_size(), 0);
    assert_eq!(header.get_type_ids_offset(), None);
    assert_eq!(header.get_prototype_ids_size(), 0);
    assert_eq!(header.get_prototype_ids_offset(), None);
    assert_eq!(header.get_field_ids_size(), 0);
    assert_eq!(header.get_field_ids_offset(), None);
    assert_eq!(header.get_method_ids_size(), 0);
    assert_eq!(header.get_method_ids_offset(), None);
    assert_eq!(header.get_class_defs_size(), 0);
    assert_eq!(header.get_class_defs_offset(), None);
    assert_eq!(header.get_data_size(), 0);
    assert_eq!(header.get_data_offset(), 0x70);
    header.recall_valid();
}

#[test]
fn minimal_file_has_the_size_it_declares() {
    let buf = minimal();
    let header = Header::from_file(&buf, 0x70, false).ok().unwrap();
    assert_eq!(header.get_file_size(), 0x70);
    assert_eq!(header.get_string_ids_offset(), None);
    assert_eq!(header.get_class_defs_offset(), None);
}

#[test]
fn full_header_decodes_in_little_endian() {
    let buf = full_le();
    let header = decode(&buf).ok().unwrap();
    assert_eq!(header.get_checksum(), 0xdeadbeef);
    assert_eq!(header.get_signature()[0], 0xa0);
    assert_eq!(header.get_signature()[19], 0xb3);
    assert_eq!(header.get_file_size(), 0xc4);
    assert_eq!(header.get_link_size(), Some(4));
    assert_eq!(header.get_link_offset(), Some(0xc0));
    assert_eq!(header.get_map_offset(), 0xbc);
    assert_eq!(header.get_string_ids_size(), 2);
    assert_eq!(header.get_string_ids_offset(), Some(0x70));
    assert_eq!(header.get_type_ids_size(), 1);
    assert_eq!(header.get_type_ids_offset(), Some(0x78));
    assert_eq!(header.get_prototype_ids_size(), 1);
    assert_eq!(header.get_prototype_ids_offset(), Some(0x7c));
    assert_eq!(header.get_field_ids_size(), 1);
    assert_eq!(header.get_field_ids_offset(), Some(0x88));
    assert_eq!(header.get_method_ids_size(), 1);
    assert_eq!(header.get_method_ids_offset(), Some(0x90));
    assert_eq!(header.get_class_defs_size(), 1);
    assert_eq!(header.get_class_defs_offset(), Some(0x98));
    assert_eq!(header.get_data_size(), 8);
    assert_eq!(header.get_data_offset(), 0xb8);
}

#[test]
fn big_endian_header_gives_the_same_fields() {
    let little = decode(&full_le()).ok().unwrap();
    let big = decode(&full_be()).ok().unwrap();
    assert!(big.is_big_endian());
    assert!(!big.is_little_endian());
    assert_eq!(big.get_endian_tag(), REVERSE_ENDIAN_CONSTANT);
    assert_eq!(big.get_checksum(), little.get_checksum());
    assert_eq!(big.get_signature(), little.get_signature());
    assert_eq!(big.get_file_size(), little.get_file_size());
    assert_eq!(big.get_header_size(), little.get_header_size());
    assert_eq!(big.get_link_size(), little.get_link_size());
    assert_eq!(big.get_link_offset(), little.get_link_offset());
    assert_eq!(big.get_map_offset(), little.get_map_offset());
    assert_eq!(big.get_string_ids_size(), little.get_string_ids_size());
    assert_eq!(big.get_class_defs_offset(), little.get_class_defs_offset());
    assert_eq!(big.get_data_size(), little.get_data_size());
    assert_eq!(big.get_data_offset(), little.get_data_offset());
}

#[test]
fn big_endian_early_fields_are_the_swapped_little_endian_readings() {
    let buf = full_be();
    let header = decode(&buf).ok().unwrap();
    let raw = |at: usize| u32::from_le_bytes([buf[at], buf[at + 1], buf[at + 2], buf[at + 3]]);
    assert_eq!(raw(8), 0xefbeadde);
    assert_eq!(header.get_checksum(), raw(8).swap_bytes());
    assert_eq!(header.get_file_size(), raw(32).swap_bytes() as usize);
    assert_eq!(header.get_header_size(), raw(36).swap_bytes() as usize);
    assert_eq!(dalvik::endian::swap_u32(0x11223344), 0x44332211);
    assert_eq!(dalvik::endian::swap_u32(0x78563412), 0x12345678);
}

#[test]
fn magic_of_version_35_is_valid() {
    assert!(Header::is_magic_valid(&MAGIC));
    assert_eq!(decode(&minimal()).ok().unwrap().get_dex_version(), 35);
}

#[test]
fn version_is_spelled_by_three_digits() {
    let mut buf = minimal();
    buf[4] = b'9';
    buf[5] = b'8';
    buf[6] = b'7';
    assert_eq!(decode(&buf).ok().unwrap().get_dex_version(), 987);
    buf[4] = b'0';
    buf[5] = b'0';
    buf[6] = b'0';
    assert_eq!(decode(&buf).ok().unwrap().get_dex_version(), 0);
}

#[test]
fn non_digit_in_the_version_is_an_invalid_magic() {
    for place in 4..7 {
        for byte in [0x41u8, 0x2f, 0x3a, 0x00, 0xff] {
            let mut magic = MAGIC;
            magic[place] = byte;
            assert!(!Header::is_magic_valid(&magic));
            let mut buf = minimal();
            buf[place] = byte;
            assert_eq!(fault(&buf), Error::InvalidMagic(magic));
        }
    }
}

#[test]
fn other_bytes_of_the_magic_are_fixed() {
    for place in [0usize, 1, 2, 3, 7] {
        let mut magic = MAGIC;
        magic[place] ^= 0x01;
        assert!(!Header::is_magic_valid(&magic));
        let mut buf = minimal();
        buf[place] ^= 0x01;
        assert_eq!(fault(&buf), Error::InvalidMagic(magic));
    }
}

#[test]
fn endian_tag_is_one_of_two() {
    let mut buf = minimal();
    put_le(&mut buf, 40, 0x12345679);
    assert_eq!(fault(&buf), Error::InvalidEndianTag(0x12345679));
    put_le(&mut buf, 40, 0);
    assert_eq!(fault(&buf), Error::InvalidEndianTag(0));
}

#[test]
fn header_size_is_fixed() {
    for size in [0x60u32, 0, 0x6f, 0x71, 0x7000_0000, 0xffff_ffff] {
        let mut buf = minimal();
        put_le(&mut buf, 36, size);
        assert_eq!(fault(&buf), Error::InvalidHeaderSize(size as usize));
        let mut buf = full_le();
        put_le(&mut buf, 36, size);
        assert_eq!(fault(&buf), Error::InvalidHeaderSize(size as usize));
        let mut buf = full_be();
        put_be(&mut buf, 36, size);
        assert_eq!(fault(&buf), Error::InvalidHeaderSize(size as usize));
    }
}

#[test]
fn header_size_is_reported_before_what_follows_it() {
    let mut buf = minimal();
    put_le(&mut buf, 36, 0x60);
    put_le(&mut buf, 32, 3);
    put_le(&mut buf, 52, 0);
    put_le(&mut buf, 60, 5);
    assert_eq!(fault(&buf), Error::InvalidHeaderSize(0x60));
    assert_eq!(fault(&buf[..44]), Error::InvalidHeaderSize(0x60));
}

#[test]
fn header_size_is_reported_behind_a_bad_magic_or_tag() {
    let mut buf = minimal();
    put_le(&mut buf, 36, 0x60);
    buf[5] = 0x41;
    let mut magic = MAGIC;
    magic[5] = 0x41;
    assert_eq!(fault(&buf), Error::InvalidMagic(magic));
    buf[5] = 0x33;
    put_le(&mut buf, 40, 7);
    assert_eq!(fault(&buf), Error::InvalidEndianTag(7));
}

#[test]
fn declared_file_size_holds_a_header() {
    let mut buf = minimal();
    put_le(&mut buf, 32, 0x6f);
    assert_eq!(fault(&buf), Error::InvalidFileSize(0, Some(0x6f)));
    put_le(&mut buf, 32, 0);
    assert_eq!(fault(&buf), Error::InvalidFileSize(0, Some(0)));
}

#[test]
fn link_offset_without_a_link_section() {
    let mut buf = minimal();
    put_le(&mut buf, 48, 0x70);
    assert_eq!(fault(&buf), section(OffsetField::Link, 0x70, 0));
}

#[test]
fn map_offset_is_never_zero() {
    let mut buf = minimal();
    put_le(&mut buf, 52, 0);
    assert_eq!(fault(&buf), Error::MismatchedOffsets(OffsetMismatch::MapZero));
}

#[test]
fn empty_table_has_no_offset() {
    let fields = [
        (60, OffsetField::StringIds),
        (68, OffsetField::TypeIds),
        (76, OffsetField::PrototypeIds),
        (84, OffsetField::FieldIds),
        (92, OffsetField::MethodIds),
        (100, OffsetField::ClassDefs),
    ];
    for (at, field) in fields {
        for offset in [1u32, 0x70, 0xffff_ffff] {
            let mut buf = minimal();
            put_le(&mut buf, at, offset);
            assert_eq!(fault(&buf), section(field, offset as usize, 0));
        }
    }
}

#[test]
fn table_starts_where_the_tables_before_it_end() {
    let fields = [
        (60, OffsetField::StringIds, 0x70u64),
        (68, OffsetField::TypeIds, 0x78),
        (76, OffsetField::PrototypeIds, 0x7c),
        (84, OffsetField::FieldIds, 0x88),
        (92, OffsetField::MethodIds, 0x90),
        (100, OffsetField::ClassDefs, 0x98),
    ];
    for (at, field, expected) in fields {
        for offset in [expected as u32 + 1, expected as u32 - 1, 0] {
            let mut buf = full_le();
            put_le(&mut buf, at, offset);
            assert_eq!(fault(&buf), section(field, offset as usize, expected));
            let mut buf = full_be();
            put_be(&mut buf, at, offset);
            assert_eq!(fault(&buf), section(field, offset as usize, expected));
        }
    }
}

#[test]
fn first_misplaced_table_is_reported() {
    let mut buf = full_le();
    put_le(&mut buf, 68, 0x79);
    put_le(&mut buf, 84, 0x89);
    assert_eq!(fault(&buf), section(OffsetField::TypeIds, 0x79, 0x78));
}

#[test]
fn running_offset_takes_sizes_of_four_billion_entries() {
    let mut buf = minimal();
    put_le(&mut buf, 56, 0xffff_ffff);
    put_le(&mut buf, 60, 0x70);
    put_le(&mut buf, 64, 1);
    put_le(&mut buf, 68, 0x6c);
    assert_eq!(fault(&buf), section(OffsetField::TypeIds, 0x6c, 0x70 + 4 * 0xffff_ffffu64));
}

#[test]
fn data_size_is_a_multiple_of_four() {
    for size in [1u32, 2, 3, 5, 0xffff_ffff] {
        let mut buf = minimal();
        put_le(&mut buf, 104, size);
        assert_eq!(fault(&buf), Error::Header(HeaderFault::UnalignedDataSize(size as usize)));
    }
}

#[test]
fn map_offset_lies_in_the_data_section() {
    let mut buf = full_le();
    put_le(&mut buf, 52, 0xb7);
    assert_eq!(
        fault(&buf),
        Error::MismatchedOffsets(OffsetMismatch::MapOutsideData {
            data_offset: 0xb8,
            data_end: 0xc0,
            map_offset: 0xb7,
        })
    );
    put_le(&mut buf, 52, 0xc1);
    assert_eq!(
        fault(&buf),
        Error::MismatchedOffsets(OffsetMismatch::MapOutsideData {
            data_offset: 0xb8,
            data_end: 0xc0,
            map_offset: 0xc1,
        })
    );
    put_le(&mut buf, 52, 0xb8);
    assert!(decode(&buf).is_ok());
    put_le(&mut buf, 52, 0xc0);
    assert!(decode(&buf).is_ok());
}

#[test]
fn data_end_does_not_wrap() {
    let mut buf = minimal();
    put_le(&mut buf, 104, 0xffff_fffc);
    put_le(&mut buf, 108, 0x70);
    put_le(&mut buf, 52, 0x6c);
    assert_eq!(
        fault(&buf),
        Error::MismatchedOffsets(OffsetMismatch::MapOutsideData {
            data_offset: 0x70,
            data_end: 0x1_0000_006c,
            map_offset: 0x6c,
        })
    );
    put_le(&mut buf, 52, 0x70);
    put_le(&mut buf, 32, 0x6c);
    assert_eq!(fault(&buf), Error::InvalidFileSize(0, Some(0x6c)));
    put_le(&mut buf, 32, 0x70);
    assert_eq!(fault(&buf), Error::Header(HeaderFault::DataNotAtEof));
}

#[test]
fn data_section_ends_at_the_end_of_the_file() {
    let mut buf = minimal();
    put_le(&mut buf, 32, 0x71);
    let e = fault(&buf);
    assert_eq!(e, Error::Header(HeaderFault::DataNotAtEof));
    assert_eq!(
        HeaderFault::DataNotAtEof.message(),
        "`data` section must end at the EOF if there are no links in the file"
    );
    let mut buf = minimal();
    put_le(&mut buf, 32, 0x74);
    put_le(&mut buf, 104, 8);
    assert_eq!(fault(&buf), Error::Header(HeaderFault::DataNotAtEof));
    put_le(&mut buf, 104, 0);
    assert_eq!(fault(&buf), Error::Header(HeaderFault::DataNotAtEof));
    put_le(&mut buf, 104, 4);
    assert!(decode(&buf).is_ok());
}

#[test]
fn link_section_follows_the_data_section() {
    let mut buf = full_le();
    put_le(&mut buf, 48, 0xc1);
    assert_eq!(fault(&buf), section(OffsetField::Link, 0xc1, 0xc0));
    put_le(&mut buf, 48, 0);
    assert_eq!(fault(&buf), section(OffsetField::Link, 0, 0xc0));
}

#[test]
fn link_section_ends_at_the_end_of_the_file() {
    let mut buf = full_le();
    put_le(&mut buf, 44, 5);
    assert_eq!(fault(&buf), Error::Header(HeaderFault::LinkNotAtEof));
    put_le(&mut buf, 44, 3);
    assert_eq!(fault(&buf), Error::Header(HeaderFault::LinkNotAtEof));
    assert_eq!(
        HeaderFault::LinkNotAtEof.message(),
        "`link_data` section must end at the end of file"
    );
}

#[test]
fn data_offset_behind_a_gap_is_accepted() {
    let mut buf = minimal();
    put_le(&mut buf, 32, 0x90);
    put_le(&mut buf, 52, 0x80);
    put_le(&mut buf, 104, 0x10);
    put_le(&mut buf, 108, 0x80);
    let header = decode(&buf).ok().unwrap();
    assert_eq!(header.get_data_offset(), 0x80);
    assert_eq!(header.get_data_size(), 0x10);
}

#[test]
fn short_input_is_an_io_error() {
    let buf = full_le();
    for len in 0..0x70 {
        let mut reader = ByteReader::new(&buf[..len]);
        let r = Header::from_reader(&mut reader);
        assert_eq!(r.err(), Some(Error::Io(IoFault::UnexpectedEof)));
        assert_eq!(reader.position(), 0);
    }
}

#[test]
fn fault_in_front_of_the_end_of_input_is_reported() {
    let mut buf = minimal();
    put_le(&mut buf, 48, 9);
    assert_eq!(fault(&buf[..52]), section(OffsetField::Link, 9, 0));
    assert_eq!(fault(&buf[..51]), Error::Io(IoFault::UnexpectedEof));
}

#[test]
fn reader_is_left_in_place_by_a_fault() {
    let mut buf = vec![0xeeu8; 3];
    buf.extend_from_slice(&minimal());
    put_le(&mut buf, 3 + 52, 0);
    let mut reader = ByteReader::new(&buf);
    reader.skip(3).ok().unwrap();
    assert!(Header::from_reader(&mut reader).is_err());
    assert_eq!(reader.position(), 3);
    assert_eq!(reader.remaining(), 0x70);
}

#[test]
fn header_is_decoded_from_where_the_reader_stands() {
    let mut buf = vec![0xeeu8; 5];
    buf.extend_from_slice(&full_le());
    buf.extend_from_slice(&[1, 2, 3]);
    let mut reader = ByteReader::new(&buf);
    reader.skip(5).ok().unwrap();
    let header = Header::from_reader(&mut reader).ok().unwrap();
    assert_eq!(header.get_file_size(), 0xc4);
    assert_eq!(reader.position(), 5 + 0x70);
    assert_eq!(reader.remaining(), 3);
}

#[test]
fn file_size_one_more_than_actual() {
    // The declared size alone changed: the data section no longer ends at the end of
    // the file, and that is what both decoders report.
    let mut buf = minimal();
    put_le(&mut buf, 32, 0x71);
    assert_eq!(fault(&buf), Error::Header(HeaderFault::DataNotAtEof));
    assert_eq!(
        Header::from_file(&buf, 0x70, false).err(),
        Some(Error::Header(HeaderFault::DataNotAtEof))
    );
    // With the data section moved along, the header holds together, and only the size of
    // the file tells.
    put_le(&mut buf, 52, 0x71);
    put_le(&mut buf, 108, 0x71);
    let header = decode(&buf).ok().unwrap();
    assert_eq!(header.get_file_size(), 0x71);
    assert_eq!(
        Header::from_file(&buf, 0x70, false).err(),
        Some(Error::InvalidFileSize(0x70, Some(0x71)))
    );
    assert!(Header::from_file(&buf, 0x71, false).is_ok());
    assert_eq!(
        Header::from_file(&buf, 0x70, true).err(),
        Some(Error::InvalidFileSize(0x70, Some(0x71)))
    );
}

#[test]
fn file_too_small_for_a_header() {
    let buf = minimal();
    assert_eq!(
        Header::from_file(&buf, 0x6f, false).err(),
        Some(Error::InvalidFileSize(0x6f, None))
    );
    assert_eq!(Header::from_file(&buf, 0, false).err(), Some(Error::InvalidFileSize(0, None)));
    assert_eq!(Header::from_file(&[], 0, true).err(), Some(Error::InvalidFileSize(0, None)));
}

#[test]
fn file_with_a_faulty_header() {
    let mut buf = full_le();
    put_le(&mut buf, 52, 0);
    assert_eq!(
        Header::from_file(&buf, 0xc4, false).err(),
        Some(Error::MismatchedOffsets(OffsetMismatch::MapZero))
    );
    assert_eq!(
        Header::from_file(&buf[..0x20], 0xc4, false).err(),
        Some(Error::Io(IoFault::UnexpectedEof))
    );
}

#[test]
fn file_size_differs_from_the_declared_one() {
    let buf = full_le();
    assert!(Header::from_file(&buf, 0xc4, false).is_ok());
    assert_eq!(
        Header::from_file(&buf, 0xc5, false).err(),
        Some(Error::InvalidFileSize(0xc5, Some(0xc4)))
    );
    assert_eq!(
        Header::from_file(&buf, 0xc3, false).err(),
        Some(Error::InvalidFileSize(0xc3, Some(0xc4)))
    );
}

#[test]
fn decoding_twice_gives_the_same() {
    for buf in [minimal(), full_le(), full_be()] {
        let first = decode(&buf).ok().unwrap();
        let second = decode(&buf).ok().unwrap();
        assert_eq!(first.debug_string(), second.debug_string());
        assert_eq!(first.get_magic(), second.get_magic());
        assert_eq!(first.get_checksum(), second.get_checksum());
        assert_eq!(first.get_signature(), second.get_signature());
        assert_eq!(first.get_file_size(), second.get_file_size());
        assert_eq!(first.get_link_offset(), second.get_link_offset());
        assert_eq!(first.get_class_defs_offset(), second.get_class_defs_offset());
        assert_eq!(first.get_data_offset(), second.get_data_offset());
    }
    let mut broken = full_le();
    put_le(&mut broken, 104, 6);
    assert_eq!(fault(&broken), fault(&broken));
}

#[test]
fn bytes_behind_the_header_do_not_matter() {
    let mut buf = full_le();
    let alone = decode(&buf).ok().unwrap();
    buf.extend_from_slice(&[0xff; 40]);
    let followed = decode(&buf).ok().unwrap();
    assert_eq!(alone.debug_string(), followed.debug_string());
}

/// What every decoded header keeps, read off its accessors.
fn keeps_the_rules(header: &Header) {
    assert!(Header::is_magic_valid(header.get_magic()));
    assert!(header.get_dex_version() <= 999);
    assert_eq!(header.get_header_size(), HEADER_SIZE);
    assert!(header.get_file_size() >= HEADER_SIZE);
    assert!(header.is_little_endian() != header.is_big_endian());
    assert!(
        header.get_endian_tag() == ENDIAN_CONSTANT
            || header.get_endian_tag() == REVERSE_ENDIAN_CONSTANT
    );
    assert!(header.get_map_offset() != 0);
    let mut start = HEADER_SIZE as u64;
    let tables = [
        (header.get_string_ids_size(), header.get_string_ids_offset(), 4u64),
        (header.get_type_ids_size(), header.get_type_ids_offset(), 4),
        (header.get_prototype_ids_size(), header.get_prototype_ids_offset(), 12),
        (header.get_field_ids_size(), header.get_field_ids_offset(), 8),
        (header.get_method_ids_size(), header.get_method_ids_offset(), 8),
        (header.get_class_defs_size(), header.get_class_defs_offset(), 32),
    ];
    for (size, offset, width) in tables {
        if size == 0 {
            assert_eq!(offset, None);
        } else {
            assert_eq!(offset.map(|at| at as u64), Some(start));
        }
        start += size as u64 * width;
    }
    assert_eq!(header.get_data_size() % 4, 0);
    let data_end = header.get_data_offset() as u64 + header.get_data_size() as u64;
    assert!(header.get_data_offset() <= header.get_map_offset());
    assert!(header.get_map_offset() as u64 <= data_end);
    match (header.get_link_size(), header.get_link_offset()) {
        (None, None) => assert_eq!(data_end, header.get_file_size() as u64),
        (Some(size), Some(offset)) => {
            assert!(size > 0);
            assert_eq!(offset as u64, data_end);
            assert_eq!(data_end + size as u64, header.get_file_size() as u64);
        }
        _ => panic!("a link section has both a size and an offset, or neither"),
    }
}

#[test]
fn every_decoded_header_keeps_the_rules() {
    let mut accepted = 0;
    for original in [minimal(), full_le(), full_be()] {
        keeps_the_rules(&decode(&original).ok().unwrap());
        for bit in 0..original.len() * 8 {
            let mut buf = original.clone();
            buf[bit / 8] ^= 1 << (bit % 8);
            if let Ok(header) = decode(&buf) {
                keeps_the_rules(&header);
                accepted += 1;
            }
        }
    }
    // The checksum, the signature and the digits of the version are free, and so is
    // many a bit of the last table's size.
    assert!(accepted >= 3 * (32 + 160));
}
