//! The header of a DEX file as a value, and its decoder.

use crate::endian::{lemma_swapped_reading, swap_u32, Endianness};
use crate::error::{Error, HeaderFault, OffsetField, OffsetMismatch};
use crate::layout::{
    byte_order, data_link_fault, endian_tag, field, file_fault, header_fault, header_of,
    lemma_array_of, lemma_faultless_header_is_valid, link_map_fault, magic_of, magic_valid,
    magic_version, preamble_fault, section_text, signature_of, table_fault, HeaderView,
    CHECKSUM_AT, CLASS_DEFS_SIZE_AT, DATA_OFFSET_AT, DATA_SIZE_AT, ENDIAN_CONSTANT, ENDIAN_TAG_AT,
    FIELD_IDS_SIZE_AT, FIELD_ID_SIZE, FILE_SIZE_AT, HEADER_SIZE, HEADER_SIZE_AT, LINK_OFFSET_AT,
    LINK_SIZE_AT, MAP_OFFSET_AT, METHOD_IDS_SIZE_AT, METHOD_ID_SIZE, PROTOTYPE_IDS_SIZE_AT,
    PROTOTYPE_ID_SIZE, REVERSE_ENDIAN_CONSTANT, SIGNATURE_SIZE, STRING_IDS_SIZE_AT, STRING_ID_SIZE,
    TYPE_IDS_SIZE_AT, TYPE_ID_SIZE,
};
use crate::reader::ByteReader;
use crate::text::{push_byte_list, push_byte_string, push_decimal, push_hex_prefixed};
use vstd::pervasive::unreached;
use vstd::prelude::*;
use vstd::string::StringExecFns;

verus! {

/// The header of a DEX file. A value of this type exists only for a header that keeps
/// every rule of the format.
#[derive(Clone, Copy)]
pub struct Header {
    magic: [u8; 8],
    checksum: u32,
    signature: [u8; 20],
    file_size: usize,
    header_size: usize,
    endian_tag: u32,
    link_size: Option<usize>,
    link_offset: Option<usize>,
    map_offset: usize,
    string_ids_size: usize,
    string_ids_offset: Option<usize>,
    type_ids_size: usize,
    type_ids_offset: Option<usize>,
    prototype_ids_size: usize,
    prototype_ids_offset: Option<usize>,
    field_ids_size: usize,
    field_ids_offset: Option<usize>,
    method_ids_size: usize,
    method_ids_offset: Option<usize>,
    class_defs_size: usize,
    class_defs_offset: Option<usize>,
    data_size: usize,
    data_offset: usize,
}

impl View for Header {
    type V = HeaderView;

    closed spec fn view(&self) -> HeaderView {
        HeaderView {
            magic: self.magic@,
            checksum: self.checksum,
            signature: self.signature@,
            file_size: self.file_size,
            header_size: self.header_size,
            endian_tag: self.endian_tag,
            link_size: self.link_size,
            link_offset: self.link_offset,
            map_offset: self.map_offset,
            string_ids_size: self.string_ids_size,
            string_ids_offset: self.string_ids_offset,
            type_ids_size: self.type_ids_size,
            type_ids_offset: self.type_ids_offset,
            prototype_ids_size: self.prototype_ids_size,
            prototype_ids_offset: self.prototype_ids_offset,
            field_ids_size: self.field_ids_size,
            field_ids_offset: self.field_ids_offset,
            method_ids_size: self.method_ids_size,
            method_ids_offset: self.method_ids_offset,
            class_defs_size: self.class_defs_size,
            class_defs_offset: self.class_defs_offset,
            data_size: self.data_size,
            data_offset: self.data_offset,
        }
    }
}

/// The fields up to the endian tag, as decoded.
struct Preamble {
    magic: [u8; 8],
    checksum: u32,
    signature: [u8; 20],
    file_size: u32,
    header_size: u32,
    endian_tag: u32,
    order: Endianness,
}

/// Reads and checks the magic number, the checksum, the signature, the two sizes and
/// the endian tag.
fn decode_preamble(reader: &mut ByteReader<'_>, Ghost(b): Ghost<Seq<u8>>) -> (r: Result<
    Preamble,
    Error,
>)
    requires
        old(reader).rest() == b,
    ensures
        match r {
            Ok(p) => {
                &&& preamble_fault(b) is None
                &&& p.magic@ == magic_of(b)
                &&& p.checksum == field(b, CHECKSUM_AT)
                &&& p.signature@ == signature_of(b)
                &&& p.file_size == field(b, FILE_SIZE_AT)
                &&& p.header_size == field(b, HEADER_SIZE_AT)
                &&& p.endian_tag == endian_tag(b)
                &&& p.order == byte_order(b)
                &&& final(reader).rest() == b.skip(LINK_SIZE_AT as int)
                &&& final(reader).consumed() == old(reader).consumed() + LINK_SIZE_AT
            },
            Err(e) => preamble_fault(b) == Some(e),
        },
{
    let magic = reader.read_array::<8>()?;
    if !Header::is_magic_valid(&magic) {
        proof {
            lemma_array_of::<8>(magic);
        }
        return Err(Error::InvalidMagic(magic));
    }
    let mut checksum = reader.next_word(Endianness::Little, Ghost(b), Ghost(CHECKSUM_AT as int))?;
    assert(reader.rest().len() >= SIGNATURE_SIZE ==> reader.rest().take(SIGNATURE_SIZE as int)
        =~= signature_of(b) && reader.rest().skip(SIGNATURE_SIZE as int) =~= b.skip(
        FILE_SIZE_AT as int,
    ));
    let signature = reader.read_array::<20>()?;
    let mut file_size = reader.next_word(
        Endianness::Little,
        Ghost(b),
        Ghost(FILE_SIZE_AT as int),
    )?;
    let mut header_size = reader.next_word(
        Endianness::Little,
        Ghost(b),
        Ghost(HEADER_SIZE_AT as int),
    )?;
    let endian_tag = reader.next_word(Endianness::Little, Ghost(b), Ghost(ENDIAN_TAG_AT as int))?;

    let order = if endian_tag == REVERSE_ENDIAN_CONSTANT {
        // Both sizes and the checksum were read as little-endian: turn them round.
        proof {
            lemma_swapped_reading(b.skip(CHECKSUM_AT as int));
            lemma_swapped_reading(b.skip(FILE_SIZE_AT as int));
            lemma_swapped_reading(b.skip(HEADER_SIZE_AT as int));
        }
        checksum = swap_u32(checksum);
        file_size = swap_u32(file_size);
        header_size = swap_u32(header_size);
        Endianness::Big
    } else if endian_tag != ENDIAN_CONSTANT {
        return Err(Error::InvalidEndianTag(endian_tag));
    } else {
        Endianness::Little
    };
    if header_size as usize != HEADER_SIZE {
        return Err(Error::InvalidHeaderSize(header_size as usize));
    }
    if (file_size as usize) < HEADER_SIZE {
        return Err(Error::InvalidFileSize(0, Some(file_size as usize)));
    }
    Ok(Preamble { magic, checksum, signature, file_size, header_size, endian_tag, order })
}

/// Reads the size and offset of the link section and the map offset, and checks what
/// can be checked of them before the data section is known.
fn decode_link_map(reader: &mut ByteReader<'_>, order: Endianness, Ghost(b): Ghost<Seq<u8>>) -> (r:
    Result<(u32, u32, u32), Error>)
    requires
        b.len() >= LINK_SIZE_AT,
        old(reader).rest() == b.skip(LINK_SIZE_AT as int),
        order == byte_order(b),
    ensures
        match r {
            Ok(v) => {
                &&& link_map_fault(b) is None
                &&& v.0 == field(b, LINK_SIZE_AT)
                &&& v.1 == field(b, LINK_OFFSET_AT)
                &&& v.2 == field(b, MAP_OFFSET_AT)
                &&& final(reader).rest() == b.skip(STRING_IDS_SIZE_AT as int)
                &&& final(reader).consumed() == old(reader).consumed() + 12
            },
            Err(e) => link_map_fault(b) == Some(e),
        },
{
    let link_size = reader.next_word(order, Ghost(b), Ghost(LINK_SIZE_AT as int))?;
    let link_offset = reader.next_word(order, Ghost(b), Ghost(LINK_OFFSET_AT as int))?;
    if link_size == 0 && link_offset != 0 {
        return Err(
            Error::MismatchedOffsets(
                OffsetMismatch::Section {
                    field: OffsetField::Link,
                    offset: link_offset as usize,
                    expected: 0,
                },
            ),
        );
    }
    let map_offset = reader.next_word(order, Ghost(b), Ghost(MAP_OFFSET_AT as int))?;
    if map_offset == 0 {
        return Err(Error::MismatchedOffsets(OffsetMismatch::MapZero));
    }
    Ok((link_size, link_offset, map_offset))
}

/// Reads the size and offset of one table, which lie `at` bytes into `b`, and checks
/// them against the offset at which the table has to start.
fn decode_table(
    reader: &mut ByteReader<'_>,
    order: Endianness,
    name: OffsetField,
    start: u64,
    Ghost(b): Ghost<Seq<u8>>,
    Ghost(at): Ghost<usize>,
) -> (r: Result<(u32, u32), Error>)
    requires
        at + 8 <= HEADER_SIZE,
        at <= b.len(),
        old(reader).rest() == b.skip(at as int),
        order == byte_order(b),
    ensures
        match r {
            Ok(v) => {
                &&& table_fault(b, at, name, start as int) is None
                &&& v.0 == field(b, at)
                &&& v.1 == field(b, (at + 4) as usize)
                &&& at + 8 <= b.len()
                &&& final(reader).rest() == b.skip(at + 8)
                &&& final(reader).consumed() == old(reader).consumed() + 8
            },
            Err(e) => table_fault(b, at, name, start as int) == Some(e),
        },
{
    let size = reader.next_word(order, Ghost(b), Ghost(at as int))?;
    let offset = reader.next_word(order, Ghost(b), Ghost(at + 4))?;
    if size > 0 && offset as u64 != start {
        return Err(
            Error::MismatchedOffsets(
                OffsetMismatch::Section { field: name, offset: offset as usize, expected: start },
            ),
        );
    }
    if size == 0 && offset != 0 {
        return Err(
            Error::MismatchedOffsets(
                OffsetMismatch::Section { field: name, offset: offset as usize, expected: 0 },
            ),
        );
    }
    Ok((size, offset))
}

/// Reads the size and offset of the data section, and checks the map offset and the
/// link section against them and against the size of the file.
fn decode_data(
    reader: &mut ByteReader<'_>,
    order: Endianness,
    file_size: u32,
    link_size: u32,
    link_offset: u32,
    map_offset: u32,
    Ghost(b): Ghost<Seq<u8>>,
) -> (r: Result<(u32, u32), Error>)
    requires
        b.len() >= DATA_SIZE_AT,
        old(reader).rest() == b.skip(DATA_SIZE_AT as int),
        order == byte_order(b),
        file_size == field(b, FILE_SIZE_AT),
        link_size == field(b, LINK_SIZE_AT),
        link_offset == field(b, LINK_OFFSET_AT),
        map_offset == field(b, MAP_OFFSET_AT),
    ensures
        match r {
            Ok(v) => {
                &&& data_link_fault(b) is None
                &&& v.0 == field(b, DATA_SIZE_AT)
                &&& v.1 == field(b, DATA_OFFSET_AT)
                &&& final(reader).rest() == b.skip(HEADER_SIZE as int)
                &&& final(reader).consumed() == old(reader).consumed() + 8
            },
            Err(e) => data_link_fault(b) == Some(e),
        },
{
    let data_size = reader.next_word(order, Ghost(b), Ghost(DATA_SIZE_AT as int))?;
    if data_size % 4 != 0 {
        return Err(Error::Header(HeaderFault::UnalignedDataSize(data_size as usize)));
    }
    let data_offset = reader.next_word(order, Ghost(b), Ghost(DATA_OFFSET_AT as int))?;
    let data_end: u64 = data_offset as u64 + data_size as u64;
    if map_offset < data_offset || map_offset as u64 > data_end {
        return Err(
            Error::MismatchedOffsets(
                OffsetMismatch::MapOutsideData {
                    data_offset: data_offset as usize,
                    data_end,
                    map_offset: map_offset as usize,
                },
            ),
        );
    }
    if link_size == 0 && data_end != file_size as u64 {
        return Err(Error::Header(HeaderFault::DataNotAtEof));
    }
    if link_size != 0 {
        if link_offset as u64 != data_end {
            return Err(
                Error::MismatchedOffsets(
                    OffsetMismatch::Section {
                        field: OffsetField::Link,
                        offset: link_offset as usize,
                        expected: data_end,
                    },
                ),
            );
        }
        if link_offset as u64 + link_size as u64 != file_size as u64 {
            return Err(Error::Header(HeaderFault::LinkNotAtEof));
        }
    }
    Ok((data_size, data_offset))
}

impl Header {
    #[verifier::type_invariant]
    spec fn well_formed(self) -> bool {
        self@.valid()
    }

    /// Checks if the magic number given is that of a DEX file.
    pub fn is_magic_valid(magic: &[u8; 8]) -> (r: bool)
        ensures
            r == magic_valid(magic@),
    {
        magic[0] == 0x64 && magic[1] == 0x65 && magic[2] == 0x78 && magic[3] == 0x0a && magic[7]
            == 0x00 && magic[4] >= 0x30 && magic[5] >= 0x30 && magic[6] >= 0x30 && magic[4] <= 0x39
            && magic[5] <= 0x39 && magic[6] <= 0x39
    }

    /// Decodes the header that the reader stands at.
    ///
    /// The fields are read and checked in the order in which they lie in the file, and the
    /// first broken rule is reported. On success the reader stands right behind the
    /// header; on failure it is left where it was.
    pub fn from_reader(reader: &mut ByteReader<'_>) -> (r: Result<Header, Error>)
        ensures
            decodes_to(old(reader).rest(), r),
            r is Ok ==> final(reader).rest() == old(reader).rest().skip(HEADER_SIZE as int)
                && final(reader).consumed() == old(reader).consumed() + HEADER_SIZE,
            r is Err ==> *final(reader) == *old(reader),
    {
        let ghost b = reader.rest();
        let mut cursor = *reader;

        let preamble = decode_preamble(&mut cursor, Ghost(b))?;
        let order = preamble.order;
        let (link_size, link_offset, map_offset) = decode_link_map(&mut cursor, order, Ghost(b))?;

        let mut current_offset: u64 = HEADER_SIZE as u64;
        let (string_ids_size, string_ids_offset) = decode_table(
            &mut cursor,
            order,
            OffsetField::StringIds,
            current_offset,
            Ghost(b),
            Ghost(STRING_IDS_SIZE_AT),
        )?;
        current_offset = current_offset + string_ids_size as u64 * STRING_ID_SIZE;
        let (type_ids_size, type_ids_offset) = decode_table(
            &mut cursor,
            order,
            OffsetField::TypeIds,
            current_offset,
            Ghost(b),
            Ghost(TYPE_IDS_SIZE_AT),
        )?;
        current_offset = current_offset + type_ids_size as u64 * TYPE_ID_SIZE;
        let (prototype_ids_size, prototype_ids_offset) = decode_table(
            &mut cursor,
            order,
            OffsetField::PrototypeIds,
            current_offset,
            Ghost(b),
            Ghost(PROTOTYPE_IDS_SIZE_AT),
        )?;
        current_offset = current_offset + prototype_ids_size as u64 * PROTOTYPE_ID_SIZE;
        let (field_ids_size, field_ids_offset) = decode_table(
            &mut cursor,
            order,
            OffsetField::FieldIds,
            current_offset,
            Ghost(b),
            Ghost(FIELD_IDS_SIZE_AT),
        )?;
        current_offset = current_offset + field_ids_size as u64 * FIELD_ID_SIZE;
        let (method_ids_size, method_ids_offset) = decode_table(
            &mut cursor,
            order,
            OffsetField::MethodIds,
            current_offset,
            Ghost(b),
            Ghost(METHOD_IDS_SIZE_AT),
        )?;
        current_offset = current_offset + method_ids_size as u64 * METHOD_ID_SIZE;
        let (class_defs_size, class_defs_offset) = decode_table(
            &mut cursor,
            order,
            OffsetField::ClassDefs,
            current_offset,
            Ghost(b),
            Ghost(CLASS_DEFS_SIZE_AT),
        )?;

        let (data_size, data_offset) = decode_data(
            &mut cursor,
            order,
            preamble.file_size,
            link_size,
            link_offset,
            map_offset,
            Ghost(b),
        )?;

        let header = Header {
            magic: preamble.magic,
            checksum: preamble.checksum,
            signature: preamble.signature,
            file_size: preamble.file_size as usize,
            header_size: preamble.header_size as usize,
            endian_tag: preamble.endian_tag,
            link_size: if link_size == 0 {
                None
            } else {
                Some(link_size as usize)
            },
            link_offset: if link_offset == 0 {
                None
            } else {
                Some(link_offset as usize)
            },
            map_offset: map_offset as usize,
            string_ids_size: string_ids_size as usize,
            string_ids_offset: if string_ids_size > 0 {
                Some(string_ids_offset as usize)
            } else {
                None
            },
            type_ids_size: type_ids_size as usize,
            type_ids_offset: if type_ids_size > 0 {
                Some(type_ids_offset as usize)
            } else {
                None
            },
            prototype_ids_size: prototype_ids_size as usize,
            prototype_ids_offset: if prototype_ids_size > 0 {
                Some(prototype_ids_offset as usize)
            } else {
                None
            },
            field_ids_size: field_ids_size as usize,
            field_ids_offset: if field_ids_size > 0 {
                Some(field_ids_offset as usize)
            } else {
                None
            },
            method_ids_size: method_ids_size as usize,
            method_ids_offset: if method_ids_size > 0 {
                Some(method_ids_offset as usize)
            } else {
                None
            },
            class_defs_size: class_defs_size as usize,
            class_defs_offset: if class_defs_size > 0 {
                Some(class_defs_offset as usize)
            } else {
                None
            },
            data_size: data_size as usize,
            data_offset: data_offset as usize,
        };
        proof {
            lemma_faultless_header_is_valid(b);
        }
        *reader = cursor;
        Ok(header)
    }
}

impl Header {
    /// Decodes the header of a file from the bytes that the file starts with and the
    /// size of the file, and holds the size that the header declares against the latter.
    ///
    /// `verify` asks for the checksum and the signature to be held against the content
    /// as well. This library does not compute either, so a caller may ask for it only
    /// where the file is turned down before that check would be due.
    pub fn from_file(content: &[u8], file_size: u64, verify: bool) -> (r: Result<Header, Error>)
        requires
            verify ==> file_fault(content@, file_size) is Some,
        ensures
            match r {
                Ok(header) => file_fault(content@, file_size) is None && header@ == header_of(
                    content@,
                ),
                Err(e) => file_fault(content@, file_size) == Some(e),
            },
    {
        if file_size < HEADER_SIZE as u64 || file_size > usize::MAX as u64 {
            return Err(Error::InvalidFileSize(file_size, None));
        }
        let mut reader = ByteReader::new(content);
        let header = Header::from_reader(&mut reader)?;
        if file_size as usize != header.file_size {
            return Err(Error::InvalidFileSize(file_size, Some(header.file_size)));
        }
        if verify {
            // The file is in order, so by the precondition nobody asked for this.
            return unreached();
        }
        Ok(header)
    }
}

impl Header {
    /// Every header keeps the rules of the format. A call brings that fact into the
    /// caller's proof; nothing happens when it runs.
    pub fn recall_valid(&self)
        ensures
            self@.valid(),
    {
        proof {
            use_type_invariant(self);
        }
    }

    /// Gets the magic number.
    pub fn get_magic(&self) -> (r: &[u8; 8])
        ensures
            r@ == self@.magic,
    {
        &self.magic
    }

    /// Gets the version of the format that the magic number spells.
    pub fn get_dex_version(&self) -> (r: u16)
        ensures
            r == magic_version(self@.magic),
    {
        proof {
            use_type_invariant(self);
        }
        (self.magic[4] - 0x30) as u16 * 100 + (self.magic[5] - 0x30) as u16 * 10 + (self.magic[6]
            - 0x30) as u16
    }

    /// Gets the SHA-1 signature that the file declares for its content.
    pub fn get_signature(&self) -> (r: &[u8; 20])
        ensures
            r@ == self@.signature,
    {
        &self.signature
    }

    /// Gets whether the integers of the file are little-endian.
    pub fn is_little_endian(&self) -> (r: bool)
        ensures
            r == (self@.endian_tag == ENDIAN_CONSTANT),
    {
        self.endian_tag == ENDIAN_CONSTANT
    }

    /// Gets whether the integers of the file are big-endian: they are where they are not
    /// little-endian.
    pub fn is_big_endian(&self) -> (r: bool)
        ensures
            r == (self@.endian_tag == REVERSE_ENDIAN_CONSTANT),
            r == (self@.endian_tag != ENDIAN_CONSTANT),
    {
        proof {
            use_type_invariant(self);
        }
        self.endian_tag == REVERSE_ENDIAN_CONSTANT
    }

    /// Gets the checksum that the file declares for its content.
    pub fn get_checksum(&self) -> (r: u32)
        ensures
            r == self@.checksum,
    {
        self.checksum
    }

    /// Gets the size of the file, in bytes, as the header declares it.
    pub fn get_file_size(&self) -> (r: usize)
        ensures
            r == self@.file_size,
    {
        self.file_size
    }

    /// Gets the size of the header, in bytes: always `HEADER_SIZE`.
    pub fn get_header_size(&self) -> (r: usize)
        ensures
            r == self@.header_size,
            r == HEADER_SIZE,
    {
        proof {
            use_type_invariant(self);
        }
        self.header_size
    }

    /// Gets the endian tag: `ENDIAN_CONSTANT` or `REVERSE_ENDIAN_CONSTANT`.
    pub fn get_endian_tag(&self) -> (r: u32)
        ensures
            r == self@.endian_tag,
            r == ENDIAN_CONSTANT || r == REVERSE_ENDIAN_CONSTANT,
    {
        proof {
            use_type_invariant(self);
        }
        self.endian_tag
    }

    /// Gets the size of the link section, if the file has one.
    pub fn get_link_size(&self) -> (r: Option<usize>)
        ensures
            r == self@.link_size,
    {
        self.link_size
    }

    /// Gets the offset of the link section, if the file has one.
    pub fn get_link_offset(&self) -> (r: Option<usize>)
        ensures
            r == self@.link_offset,
    {
        self.link_offset
    }

    /// Gets the offset of the map, which lies in the data section.
    pub fn get_map_offset(&self) -> (r: usize)
        ensures
            r == self@.map_offset,
    {
        self.map_offset
    }

    /// Gets the number of string identifiers.
    pub fn get_string_ids_size(&self) -> (r: usize)
        ensures
            r == self@.string_ids_size,
    {
        self.string_ids_size
    }

    /// Gets the offset of the string identifiers, if there are any.
    pub fn get_string_ids_offset(&self) -> (r: Option<usize>)
        ensures
            r == self@.string_ids_offset,
    {
        self.string_ids_offset
    }

    /// Gets the number of type identifiers.
    pub fn get_type_ids_size(&self) -> (r: usize)
        ensures
            r == self@.type_ids_size,
    {
        self.type_ids_size
    }

    /// Gets the offset of the type identifiers, if there are any.
    pub fn get_type_ids_offset(&self) -> (r: Option<usize>)
        ensures
            r == self@.type_ids_offset,
    {
        self.type_ids_offset
    }

    /// Gets the number of prototype identifiers.
    pub fn get_prototype_ids_size(&self) -> (r: usize)
        ensures
            r == self@.prototype_ids_size,
    {
        self.prototype_ids_size
    }

    /// Gets the offset of the prototype identifiers, if there are any.
    pub fn get_prototype_ids_offset(&self) -> (r: Option<usize>)
        ensures
            r == self@.prototype_ids_offset,
    {
        self.prototype_ids_offset
    }

    /// Gets the number of field identifiers.
    pub fn get_field_ids_size(&self) -> (r: usize)
        ensures
            r == self@.field_ids_size,
    {
        self.field_ids_size
    }

    /// Gets the offset of the field identifiers, if there are any.
    pub fn get_field_ids_offset(&self) -> (r: Option<usize>)
        ensures
            r == self@.field_ids_offset,
    {
        self.field_ids_offset
    }

    /// Gets the number of method identifiers.
    pub fn get_method_ids_size(&self) -> (r: usize)
        ensures
            r == self@.method_ids_size,
    {
        self.method_ids_size
    }

    /// Gets the offset of the method identifiers, if there are any.
    pub fn get_method_ids_offset(&self) -> (r: Option<usize>)
        ensures
            r == self@.method_ids_offset,
    {
        self.method_ids_offset
    }

    /// Gets the number of class definitions.
    pub fn get_class_defs_size(&self) -> (r: usize)
        ensures
            r == self@.class_defs_size,
    {
        self.class_defs_size
    }

    /// Gets the offset of the class definitions, if there are any.
    pub fn get_class_defs_offset(&self) -> (r: Option<usize>)
        ensures
            r == self@.class_defs_offset,
    {
        self.class_defs_offset
    }

    /// Gets the size of the data section, in bytes.
    pub fn get_data_size(&self) -> (r: usize)
        ensures
            r == self@.data_size,
    {
        self.data_size
    }

    /// Gets the offset of the data section.
    pub fn get_data_offset(&self) -> (r: usize)
        ensures
            r == self@.data_offset,
    {
        self.data_offset
    }
}


/// A section in words.
fn section_string(name: &str, unit: &str, size: usize, offset: Option<usize>, absent: &str) -> (r:
    String)
    ensures
        r@ == section_text(name@, unit@, size, offset, absent@),
{
    match offset {
        Some(offset) => {
            let mut out = String::from_str(name);
            out.append("_size: ");
            push_decimal(&mut out, size as u64);
            out.append(" ");
            out.append(unit);
            out.append(", ");
            out.append(name);
            out.append("_offset: ");
            push_hex_prefixed(&mut out, offset as u64);
            out
        },
        None => String::from_str(absent),
    }
}

impl Header {
    /// The header in words, field by field, for a person to read.
    pub fn debug_string(&self) -> (r: String)
        ensures
            r@ == self@.debug_text(),
    {
        let link = section_string(
            "link",
            "bytes",
            match self.link_size {
                Some(size) => size,
                None => 0,
            },
            self.link_offset,
            "no link section",
        );
        let strings = section_string(
            "string_ids",
            "strings",
            self.string_ids_size,
            self.string_ids_offset,
            "no strings",
        );
        let types = section_string(
            "type_ids",
            "types",
            self.type_ids_size,
            self.type_ids_offset,
            "no types",
        );
        let prototypes = section_string(
            "prototype_ids",
            "types",
            self.prototype_ids_size,
            self.prototype_ids_offset,
            "no prototypes",
        );
        let fields = section_string(
            "field_ids",
            "types",
            self.field_ids_size,
            self.field_ids_offset,
            "no fields",
        );
        let methods = section_string(
            "method_ids",
            "types",
            self.method_ids_size,
            self.method_ids_offset,
            "no methods",
        );
        let classes = section_string(
            "class_defs",
            "types",
            self.class_defs_size,
            self.class_defs_offset,
            "no classes",
        );

        let mut out = String::from_str("Header { magic: [ ");
        push_byte_list(&mut out, self.magic.as_slice());
        out.append(" ] (version: ");
        push_decimal(&mut out, self.get_dex_version() as u64);
        out.append("), checksum: ");
        push_hex_prefixed(&mut out, self.checksum as u64);
        out.append(", SHA-1 signature: ");
        push_byte_string(&mut out, self.signature.as_slice());
        out.append(", file_size: ");
        push_decimal(&mut out, self.file_size as u64);
        out.append(" bytes, header_size: ");
        push_decimal(&mut out, self.header_size as u64);
        out.append(" bytes, endian_tag: ");
        push_hex_prefixed(&mut out, self.endian_tag as u64);
        out.append(" (");
        out.append(
            if self.is_little_endian() {
                "little"
            } else {
                "big"
            },
        );
        out.append(" endian), ");
        out.append(link.as_str());
        out.append(", map_offset: ");
        push_hex_prefixed(&mut out, self.map_offset as u64);
        out.append(", ");
        out.append(strings.as_str());
        out.append(", ");
        out.append(types.as_str());
        out.append(", ");
        out.append(prototypes.as_str());
        out.append(", ");
        out.append(fields.as_str());
        out.append(", ");
        out.append(methods.as_str());
        out.append(", ");
        out.append(classes.as_str());
        out.append(", data_size: ");
        push_decimal(&mut out, self.data_size as u64);
        out.append(" bytes, data_offset: ");
        push_hex_prefixed(&mut out, self.data_offset as u64);
        out.append(" }");
        out
    }
}


/// Whether `r` is what decoding the header at the start of `b` gives: the header of
/// `b` where nothing is wrong with it, and else the first fault.
pub open spec fn decodes_to(b: Seq<u8>, r: Result<Header, Error>) -> bool {
    match r {
        Ok(header) => header_fault(b) is None && header@ == header_of(b),
        Err(e) => header_fault(b) == Some(e),
    }
}

/// Two headers that hold the same, field for field, are one and the same.
pub proof fn lemma_header_is_what_it_holds(first: Header, second: Header)
    requires
        first@ == second@,
    ensures
        first == second,
{
    assert(first.magic@ == second.magic@);
    assert(first.signature@ == second.signature@);
    assert forall|i: int| 0 <= i < 8 implies first.magic[i] == second.magic[i] by {
        assert(first.magic@[i] == second.magic@[i]);
    }
    assert forall|i: int| 0 <= i < 20 implies first.signature[i] == second.signature[i] by {
        assert(first.signature@[i] == second.signature@[i]);
    }
    assert(first.magic =~= second.magic);
    assert(first.signature =~= second.signature);
}

} // verus!
