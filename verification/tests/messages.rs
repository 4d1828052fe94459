use dalvik::error::{Error, HeaderFault, IoFault, OffsetField, OffsetMismatch};
use dalvik::reader::ByteReader;
use dalvik::text::{
    push_byte_list, push_byte_string, push_decimal, push_hex, push_hex_padded, push_hex_prefixed,
    push_hex_word,
};
use dalvik::Header;

fn header_of(words: &[(usize, u32)]) -> Header {
    let mut buf = vec![0u8; 0x70];
    buf[..8].copy_from_slice(&[0x64, 0x65, 0x78, 0x0a, 0x30, 0x33, 0x35, 0x00]);
    for i in 0..20 {
        buf[12 + i] = (i as u8) * 13;
    }
    for &(at, value) in words {
        buf[at..at + 4].copy_from_slice(&value.to_le_bytes());
    }
    let mut reader = ByteReader::new(&buf);
    Header::from_reader(&mut reader).ok().unwrap()
}

/// The header in words, put together by the formatter of the standard library.
fn expected_debug(header: &Header) -> String {
    let section = |name: &str, unit: &str, size: usize, offset: Option<usize>, absent: &str| {
        if size > 0 {
            format!("{}_size: {} {}, {}_offset: {:#x}", name, size, unit, name, offset.unwrap())
        } else {
            String::from(absent)
        }
    };
    format!(
        "Header {{ magic: [ {} ] (version: {}), checksum: {:#x}, SHA-1 signature: {}, \
         file_size: {} bytes, header_size: {} bytes, endian_tag: {:#x} ({} endian), {}, \
         map_offset: {:#x}, {}, {}, {}, {}, {}, {}, data_size: {} bytes, data_offset: \
         {:#x} }}",
        {
            let mut magic_vec = Vec::with_capacity(8);
            for b in header.get_magic() {
                magic_vec.push(format!("{:#02x}", b))
            }
            magic_vec.join(", ")
        },
        header.get_dex_version(),
        header.get_checksum(),
        {
            let mut signature = String::with_capacity(40);
            for b in header.get_signature() {
                signature.push_str(&format!("{:02x}", b))
            }
            signature
        },
        header.get_file_size(),
        header.get_header_size(),
        header.get_endian_tag(),
        if header.is_little_endian() { "little" } else { "big" },
        if header.get_link_size().is_some() {
            format!(
                "link_size: {} bytes, link_offset: {:#x}",
                header.get_link_size().unwrap(),
                header.get_link_offset().unwrap()
            )
        } else {
            String::from("no link section")
        },
        header.get_map_offset(),
        section(
            "string_ids",
            "strings",
            header.get_string_ids_size(),
            header.get_string_ids_offset(),
            "no strings"
        ),
        section(
            "type_ids",
            "types",
            header.get_type_ids_size(),
            header.get_type_ids_offset(),
            "no types"
        ),
        section(
            "prototype_ids",
            "types",
            header.get_prototype_ids_size(),
            header.get_prototype_ids_offset(),
            "no prototypes"
        ),
        section(
            "field_ids",
            "types",
            header.get_field_ids_size(),
            header.get_field_ids_offset(),
            "no fields"
        ),
        section(
            "method_ids",
            "types",
            header.get_method_ids_size(),
            header.get_method_ids_offset(),
            "no methods"
        ),
        section(
            "class_defs",
            "types",
            header.get_class_defs_size(),
            header.get_class_defs_offset(),
            "no classes"
        ),
        header.get_data_size(),
        header.get_data_offset()
    )
}

#[test]
fn minimal_header_in_words() {
    let header =
        header_of(&[(32, 0x70), (36, 0x70), (40, 0x12345678), (52, 0x70), (108, 0x70)]);
    assert_eq!(
        header.debug_string(),
        "Header { magic: [ 0x64, 0x65, 0x78, 0xa, 0x30, 0x33, 0x35, 0x0 ] (version: 35), \
         checksum: 0x0, SHA-1 signature: 000d1a2734414e5b6875828f9ca9b6c3d0ddeaf7, \
         file_size: 112 bytes, header_size: 112 bytes, endian_tag: 0x12345678 (little endian), \
         no link section, map_offset: 0x70, no strings, no types, no prototypes, no fields, \
         no methods, no classes, data_size: 0 bytes, data_offset: 0x70 }"
    );
    assert_eq!(header.debug_string(), expected_debug(&header));
}

#[test]
fn full_header_in_words() {
    let header = header_of(&[
        (8, 0xdeadbeef),
        (32, 0xc4),
        (36, 0x70),
        (40, 0x12345678),
        (44, 4),
        (48, 0xc0),
        (52, 0xbc),
        (56, 2),
        (60, 0x70),
        (64, 1),
        (68, 0x78),
        (72, 1),
        (76, 0x7c),
        (80, 1),
        (84, 0x88),
        (88, 1),
        (92, 0x90),
        (96, 1),
        (100, 0x98),
        (104, 8),
        (108, 0xb8),
    ]);
    assert_eq!(
        header.debug_string(),
        "Header { magic: [ 0x64, 0x65, 0x78, 0xa, 0x30, 0x33, 0x35, 0x0 ] (version: 35), \
         checksum: 0xdeadbeef, SHA-1 signature: 000d1a2734414e5b6875828f9ca9b6c3d0ddeaf7, \
         file_size: 196 bytes, header_size: 112 bytes, endian_tag: 0x12345678 (little endian), \
         link_size: 4 bytes, link_offset: 0xc0, map_offset: 0xbc, \
         string_ids_size: 2 strings, string_ids_offset: 0x70, \
         type_ids_size: 1 types, type_ids_offset: 0x78, \
         prototype_ids_size: 1 types, prototype_ids_offset: 0x7c, \
         field_ids_size: 1 types, field_ids_offset: 0x88, \
         method_ids_size: 1 types, method_ids_offset: 0x90, \
         class_defs_size: 1 types, class_defs_offset: 0x98, \
         data_size: 8 bytes, data_offset: 0xb8 }"
    );
    assert_eq!(header.debug_string(), expected_debug(&header));
}

#[test]
fn big_endian_header_in_words() {
    let mut buf = vec![0u8; 0x70];
    buf[..8].copy_from_slice(&[0x64, 0x65, 0x78, 0x0a, 0x30, 0x33, 0x37, 0x00]);
    let words =
        [(32, 0x1000_0000u32), (36, 0x70), (40, 0x12345678), (52, 0x70), (104, 0x0fff_ff90)];
    for (at, value) in words.into_iter().chain([(108, 0x70)]) {
        buf[at..at + 4].copy_from_slice(&value.to_be_bytes());
    }
    let mut reader = ByteReader::new(&buf);
    let header = Header::from_reader(&mut reader).ok().unwrap();
    let text = header.debug_string();
    assert!(text.contains("(version: 37)"));
    assert!(text.contains("file_size: 268435456 bytes"));
    assert!(text.contains("endian_tag: 0x78563412 (big endian)"));
    assert!(text.contains("data_size: 268435344 bytes, data_offset: 0x70 }"));
    assert_eq!(text, expected_debug(&header));
}

#[test]
fn numbers_in_decimal() {
    for n in [0u64, 1, 9, 10, 11, 99, 100, 112, 4294967295, 10000000000, u64::MAX] {
        let mut out = String::from("n=");
        push_decimal(&mut out, n);
        assert_eq!(out, format!("n={}", n));
    }
}

#[test]
fn numbers_in_hexadecimal() {
    for n in [0u64, 1, 9, 10, 15, 16, 17, 255, 256, 0xabcdef, 0xffff_ffff, 0x1_0000_0000, u64::MAX]
    {
        let mut out = String::from("n=");
        push_hex(&mut out, n);
        assert_eq!(out, format!("n={:x}", n));
        let mut out = String::new();
        push_hex_prefixed(&mut out, n);
        assert_eq!(out, format!("{:#x}", n));
        let mut out = String::new();
        push_hex_word(&mut out, n);
        assert_eq!(out, format!("{:#010x}", n));
        for width in 0..20 {
            let mut out = String::new();
            push_hex_padded(&mut out, n, width);
            assert_eq!(out, format!("{:0width$x}", n, width = width));
        }
    }
    let mut out = String::new();
    push_hex_word(&mut out, 0x70);
    assert_eq!(out, "0x00000070");
}

#[test]
fn bytes_in_hexadecimal() {
    let mut out = String::from("[");
    push_byte_list(&mut out, &[]);
    assert_eq!(out, "[");
    push_byte_list(&mut out, &[0x0a]);
    assert_eq!(out, "[0xa");
    let mut out = String::new();
    push_byte_list(&mut out, &[0, 1, 0x10, 0xff]);
    assert_eq!(out, "0x0, 0x1, 0x10, 0xff");
    let mut out = String::from("sha ");
    push_byte_string(&mut out, &[0, 1, 0x10, 0xff, 0x0a]);
    assert_eq!(out, "sha 000110ff0a");
    push_byte_string(&mut out, &[]);
    assert_eq!(out, "sha 000110ff0a");
}

#[test]
fn names_of_the_offset_fields() {
    assert_eq!(OffsetField::Link.as_str(), "link_offset");
    assert_eq!(OffsetField::StringIds.as_str(), "string_ids_offset");
    assert_eq!(OffsetField::TypeIds.as_str(), "type_ids_offset");
    assert_eq!(OffsetField::PrototypeIds.as_str(), "prototype_ids_offset");
    assert_eq!(OffsetField::FieldIds.as_str(), "field_ids_offset");
    assert_eq!(OffsetField::MethodIds.as_str(), "method_ids_offset");
    assert_eq!(OffsetField::ClassDefs.as_str(), "class_defs_offset");
}

#[test]
fn header_faults_in_words() {
    assert_eq!(
        HeaderFault::UnalignedDataSize(6).message(),
        format!("`data_size` must be a 4-byte multiple, but it was {:#010x}", 6)
    );
    assert_eq!(
        HeaderFault::UnalignedDataSize(0xffff_ffff).message(),
        "`data_size` must be a 4-byte multiple, but it was 0xffffffff"
    );
    assert_eq!(
        HeaderFault::DataNotAtEof.message(),
        "`data` section must end at the EOF if there are no links in the file"
    );
    assert_eq!(
        HeaderFault::LinkNotAtEof.message(),
        "`link_data` section must end at the end of file"
    );
    assert_eq!(
        Error::Header(HeaderFault::DataNotAtEof).message(),
        "invalid dex header: `data` section must end at the EOF if there are no links in the \
         file"
    );
}

#[test]
fn offset_mismatches_in_words() {
    assert_eq!(
        OffsetMismatch::MapZero.message(),
        "`map_offset` was 0x00, and it can never be zero"
    );
    assert_eq!(
        OffsetMismatch::MapOutsideData { data_offset: 0xb8, data_end: 0xc0, map_offset: 0xc1 }
            .message(),
        format!(
            "`map_offset` section must be in the `data` section (between {:#010x} and \
             {:#010x}) but it was at {:#010x}",
            0xb8, 0xc0, 0xc1
        )
    );
    assert_eq!(
        OffsetMismatch::MapOutsideData {
            data_offset: 0x70,
            data_end: 0x1_0000_006c,
            map_offset: 0x6c
        }
        .message(),
        "`map_offset` section must be in the `data` section (between 0x00000070 and \
         0x10000006c) but it was at 0x0000006c"
    );
    assert_eq!(
        OffsetMismatch::Section { field: OffsetField::TypeIds, offset: 0x79, expected: 0x78 }
            .message(),
        "`type_ids_offset` was 0x00000079, and it should be 0x00000078"
    );
    assert_eq!(
        Error::MismatchedOffsets(OffsetMismatch::Section {
            field: OffsetField::Link,
            offset: 9,
            expected: 0
        })
        .message(),
        "mismatched offsets: `link_offset` was 0x00000009, and it should be 0x00000000"
    );
}

#[test]
fn errors_in_words() {
    assert_eq!(
        Error::InvalidMagic([0x64, 0x65, 0x78, 0x0a, 0x41, 0x33, 0x35, 0x00]).message(),
        "invalid dex magic number: [ 0x64, 0x65, 0x78, 0xa, 0x41, 0x33, 0x35, 0x0 ]"
    );
    assert_eq!(
        Error::InvalidEndianTag(0x1234).message(),
        "invalid dex endian tag: 0x00001234"
    );
    assert_eq!(
        Error::InvalidHeaderSize(0x60).message(),
        "invalid dex header size: 96 bytes, and it must be 112 bytes"
    );
    assert_eq!(
        Error::InvalidFileSize(0x6f, None).message(),
        "invalid dex file size: 111 bytes, and a header takes 112 bytes"
    );
    assert_eq!(
        Error::InvalidFileSize(0x70, Some(0x71)).message(),
        "invalid dex file size: 112 bytes, and the header declares 113 bytes"
    );
    assert_eq!(Error::Io(IoFault::UnexpectedEof).message(), "unexpected end of file");
}
