//! The layout of the header at the start of a DEX file, and the rules that tie its
//! fields to each other and to the size of the file.

use crate::endian::Endianness;
use crate::error::{Error, HeaderFault, IoFault, OffsetField, OffsetMismatch};
use crate::reader::word;
use crate::text::{byte_list, byte_string, decimal, hex_prefixed};
use vstd::prelude::*;

verus! {

/// The endian tag of a file whose integers are little-endian.
pub const ENDIAN_CONSTANT: u32 = 0x12345678;

/// The endian tag of a file whose integers are big-endian.
pub const REVERSE_ENDIAN_CONSTANT: u32 = 0x78563412;

/// The size of the header, in bytes.
pub const HEADER_SIZE: usize = 0x70;

/// The size of the magic number, in bytes.
pub const MAGIC_SIZE: usize = 8;

/// The size of the signature, in bytes.
pub const SIGNATURE_SIZE: usize = 20;

/// Where the checksum starts, in bytes from the start of the header.
pub const CHECKSUM_AT: usize = 8;

/// Where the signature starts.
pub const SIGNATURE_AT: usize = 12;

/// Where the size of the file starts.
pub const FILE_SIZE_AT: usize = 32;

/// Where the size of the header starts.
pub const HEADER_SIZE_AT: usize = 36;

/// Where the endian tag starts.
pub const ENDIAN_TAG_AT: usize = 40;

/// Where the size of the link section starts.
pub const LINK_SIZE_AT: usize = 44;

/// Where the offset of the link section starts.
pub const LINK_OFFSET_AT: usize = 48;

/// Where the offset of the map starts.
pub const MAP_OFFSET_AT: usize = 52;

/// Where the number of string identifiers starts.
pub const STRING_IDS_SIZE_AT: usize = 56;

/// Where the offset of the string identifiers starts.
pub const STRING_IDS_OFFSET_AT: usize = 60;

/// Where the number of type identifiers starts.
pub const TYPE_IDS_SIZE_AT: usize = 64;

/// Where the offset of the type identifiers starts.
pub const TYPE_IDS_OFFSET_AT: usize = 68;

/// Where the number of prototype identifiers starts.
pub const PROTOTYPE_IDS_SIZE_AT: usize = 72;

/// Where the offset of the prototype identifiers starts.
pub const PROTOTYPE_IDS_OFFSET_AT: usize = 76;

/// Where the number of field identifiers starts.
pub const FIELD_IDS_SIZE_AT: usize = 80;

/// Where the offset of the field identifiers starts.
pub const FIELD_IDS_OFFSET_AT: usize = 84;

/// Where the number of method identifiers starts.
pub const METHOD_IDS_SIZE_AT: usize = 88;

/// Where the offset of the method identifiers starts.
pub const METHOD_IDS_OFFSET_AT: usize = 92;

/// Where the number of class definitions starts.
pub const CLASS_DEFS_SIZE_AT: usize = 96;

/// Where the offset of the class definitions starts.
pub const CLASS_DEFS_OFFSET_AT: usize = 100;

/// Where the size of the data section starts.
pub const DATA_SIZE_AT: usize = 104;

/// Where the offset of the data section starts.
pub const DATA_OFFSET_AT: usize = 108;

/// The size of one entry of the string identifiers table, in bytes.
pub const STRING_ID_SIZE: u64 = 4;

/// The size of one entry of the type identifiers table, in bytes.
pub const TYPE_ID_SIZE: u64 = 4;

/// The size of one entry of the prototype identifiers table, in bytes.
pub const PROTOTYPE_ID_SIZE: u64 = 12;

/// The size of one entry of the field identifiers table, in bytes.
pub const FIELD_ID_SIZE: u64 = 8;

/// The size of one entry of the method identifiers table, in bytes.
pub const METHOD_ID_SIZE: u64 = 8;

/// The size of one class definition, in bytes.
pub const CLASS_DEF_SIZE: u64 = 32;

/// Whether `m` is a DEX magic number: `dex\n`, three decimal digits, NUL.
pub open spec fn magic_valid(m: Seq<u8>) -> bool {
    &&& m.len() == MAGIC_SIZE
    &&& m[0] == 0x64 && m[1] == 0x65 && m[2] == 0x78 && m[3] == 0x0a
    &&& 0x30 <= m[4] <= 0x39
    &&& 0x30 <= m[5] <= 0x39
    &&& 0x30 <= m[6] <= 0x39
    &&& m[7] == 0x00
}

/// The format version that the three digits of the magic number `m` spell.
pub open spec fn magic_version(m: Seq<u8>) -> int {
    (m[4] - 0x30) * 100 + (m[5] - 0x30) * 10 + (m[6] - 0x30)
}

/// The array that holds the bytes of `s`.
pub open spec fn array_of<const N: usize>(s: Seq<u8>) -> [u8; N] {
    choose|a: [u8; N]| a@ == s
}

/// An array is the one that holds its own bytes.
pub proof fn lemma_array_of<const N: usize>(a: [u8; N])
    ensures
        array_of::<N>(a@) == a,
{
    let c = array_of::<N>(a@);
    assert(c@ == a@);
    assert forall|i: int| 0 <= i < N implies c[i] == a[i] by {
        assert(c@[i] == a@[i]);
    }
    assert(c =~= a);
}

/// The endian tag of the header that `b` starts with. On the wire it is always
/// little-endian.
pub open spec fn endian_tag(b: Seq<u8>) -> u32 {
    word(b, ENDIAN_TAG_AT as int, Endianness::Little)
}

/// The byte order that the endian tag of `b` announces for every other integer.
pub open spec fn byte_order(b: Seq<u8>) -> Endianness {
    if endian_tag(b) == REVERSE_ENDIAN_CONSTANT {
        Endianness::Big
    } else {
        Endianness::Little
    }
}

/// The header field that starts `at` bytes into `b`, in the byte order of the file.
pub open spec fn field(b: Seq<u8>, at: usize) -> u32 {
    word(b, at as int, byte_order(b))
}

/// The magic number that `b` starts with.
pub open spec fn magic_of(b: Seq<u8>) -> Seq<u8> {
    b.take(MAGIC_SIZE as int)
}

/// The signature of the header that `b` starts with.
pub open spec fn signature_of(b: Seq<u8>) -> Seq<u8> {
    b.subrange(SIGNATURE_AT as int, SIGNATURE_AT + SIGNATURE_SIZE)
}

/// What a header holds, field by field.
pub struct HeaderView {
    pub magic: Seq<u8>,
    pub checksum: u32,
    pub signature: Seq<u8>,
    pub file_size: usize,
    pub header_size: usize,
    pub endian_tag: u32,
    pub link_size: Option<usize>,
    pub link_offset: Option<usize>,
    pub map_offset: usize,
    pub string_ids_size: usize,
    pub string_ids_offset: Option<usize>,
    pub type_ids_size: usize,
    pub type_ids_offset: Option<usize>,
    pub prototype_ids_size: usize,
    pub prototype_ids_offset: Option<usize>,
    pub field_ids_size: usize,
    pub field_ids_offset: Option<usize>,
    pub method_ids_size: usize,
    pub method_ids_offset: Option<usize>,
    pub class_defs_size: usize,
    pub class_defs_offset: Option<usize>,
    pub data_size: usize,
    pub data_offset: usize,
}

/// `value` where it is not zero, and nothing where it is: a size or an offset of zero
/// stands for a section that the file does not have.
pub open spec fn nonzero(value: u32) -> Option<usize> {
    if value == 0 {
        None
    } else {
        Some(value as usize)
    }
}

/// The offset of a table of `size` entries that the header places at `offset`: absent
/// where the table is empty.
pub open spec fn table_offset(size: u32, offset: u32) -> Option<usize> {
    if size == 0 {
        None
    } else {
        Some(offset as usize)
    }
}

/// Where the string identifiers start: right behind the header.
pub open spec fn string_ids_start(b: Seq<u8>) -> int {
    HEADER_SIZE as int
}

/// Where the type identifiers start: right behind the string identifiers.
pub open spec fn type_ids_start(b: Seq<u8>) -> int {
    string_ids_start(b) + field(b, STRING_IDS_SIZE_AT) * STRING_ID_SIZE
}

/// Where the prototype identifiers start: right behind the type identifiers.
pub open spec fn prototype_ids_start(b: Seq<u8>) -> int {
    type_ids_start(b) + field(b, TYPE_IDS_SIZE_AT) * TYPE_ID_SIZE
}

/// Where the field identifiers start: right behind the prototype identifiers.
pub open spec fn field_ids_start(b: Seq<u8>) -> int {
    prototype_ids_start(b) + field(b, PROTOTYPE_IDS_SIZE_AT) * PROTOTYPE_ID_SIZE
}

/// Where the method identifiers start: right behind the field identifiers.
pub open spec fn method_ids_start(b: Seq<u8>) -> int {
    field_ids_start(b) + field(b, FIELD_IDS_SIZE_AT) * FIELD_ID_SIZE
}

/// Where the class definitions start: right behind the method identifiers.
pub open spec fn class_defs_start(b: Seq<u8>) -> int {
    method_ids_start(b) + field(b, METHOD_IDS_SIZE_AT) * METHOD_ID_SIZE
}

/// Where the class definitions, and with them the six tables, end.
pub open spec fn tables_end(b: Seq<u8>) -> int {
    class_defs_start(b) + field(b, CLASS_DEFS_SIZE_AT) * CLASS_DEF_SIZE
}

/// Where the data section ends.
pub open spec fn data_end(b: Seq<u8>) -> int {
    field(b, DATA_OFFSET_AT) + field(b, DATA_SIZE_AT)
}

/// What is wrong with one table, whose size lies `size_at` bytes into `b` and whose
/// offset lies right behind it: an empty table has offset zero, and any other starts at
/// `start`.
pub open spec fn table_fault(b: Seq<u8>, size_at: usize, name: OffsetField, start: int) -> Option<
    Error,
> {
    let size = field(b, size_at);
    let offset = field(b, (size_at + 4) as usize);
    if b.len() < size_at + 8 {
        Some(Error::Io(IoFault::UnexpectedEof))
    } else if size > 0 && offset != start {
        Some(
            Error::MismatchedOffsets(
                OffsetMismatch::Section {
                    field: name,
                    offset: offset as usize,
                    expected: start as u64,
                },
            ),
        )
    } else if size == 0 && offset != 0 {
        Some(
            Error::MismatchedOffsets(
                OffsetMismatch::Section { field: name, offset: offset as usize, expected: 0 },
            ),
        )
    } else {
        None
    }
}

/// What is wrong with the magic number, the endian tag and the two sizes that `b` starts
/// with.
pub open spec fn preamble_fault(b: Seq<u8>) -> Option<Error> {
    if b.len() < MAGIC_SIZE {
        Some(Error::Io(IoFault::UnexpectedEof))
    } else if !magic_valid(magic_of(b)) {
        Some(Error::InvalidMagic(array_of::<8>(magic_of(b))))
    } else if b.len() < ENDIAN_TAG_AT + 4 {
        Some(Error::Io(IoFault::UnexpectedEof))
    } else if endian_tag(b) != ENDIAN_CONSTANT && endian_tag(b) != REVERSE_ENDIAN_CONSTANT {
        Some(Error::InvalidEndianTag(endian_tag(b)))
    } else if field(b, HEADER_SIZE_AT) != HEADER_SIZE {
        Some(Error::InvalidHeaderSize(field(b, HEADER_SIZE_AT) as usize))
    } else if field(b, FILE_SIZE_AT) < HEADER_SIZE {
        Some(Error::InvalidFileSize(0, Some(field(b, FILE_SIZE_AT) as usize)))
    } else {
        None
    }
}

/// What is wrong with the link offset where there is no link section, and with the map
/// offset where it is zero.
pub open spec fn link_map_fault(b: Seq<u8>) -> Option<Error> {
    if b.len() < LINK_OFFSET_AT + 4 {
        Some(Error::Io(IoFault::UnexpectedEof))
    } else if field(b, LINK_SIZE_AT) == 0 && field(b, LINK_OFFSET_AT) != 0 {
        Some(
            Error::MismatchedOffsets(
                OffsetMismatch::Section {
                    field: OffsetField::Link,
                    offset: field(b, LINK_OFFSET_AT) as usize,
                    expected: 0,
                },
            ),
        )
    } else if b.len() < MAP_OFFSET_AT + 4 {
        Some(Error::Io(IoFault::UnexpectedEof))
    } else if field(b, MAP_OFFSET_AT) == 0 {
        Some(Error::MismatchedOffsets(OffsetMismatch::MapZero))
    } else {
        None
    }
}

/// The first of two faults: `second` counts only where `first` finds nothing.
pub open spec fn first_of(first: Option<Error>, second: Option<Error>) -> Option<Error> {
    if first is Some {
        first
    } else {
        second
    }
}

/// What is wrong with the six tables, the first of them that is at fault deciding.
pub open spec fn tables_fault(b: Seq<u8>) -> Option<Error> {
    first_of(
        table_fault(b, STRING_IDS_SIZE_AT, OffsetField::StringIds, string_ids_start(b)),
        first_of(
            table_fault(b, TYPE_IDS_SIZE_AT, OffsetField::TypeIds, type_ids_start(b)),
            first_of(
                table_fault(
                    b,
                    PROTOTYPE_IDS_SIZE_AT,
                    OffsetField::PrototypeIds,
                    prototype_ids_start(b),
                ),
                first_of(
                    table_fault(b, FIELD_IDS_SIZE_AT, OffsetField::FieldIds, field_ids_start(b)),
                    first_of(
                        table_fault(
                            b,
                            METHOD_IDS_SIZE_AT,
                            OffsetField::MethodIds,
                            method_ids_start(b),
                        ),
                        table_fault(
                            b,
                            CLASS_DEFS_SIZE_AT,
                            OffsetField::ClassDefs,
                            class_defs_start(b),
                        ),
                    ),
                ),
            ),
        ),
    )
}

/// What is wrong with the data section, the map offset's place in it, and the way the
/// data and link sections reach the end of the file.
pub open spec fn data_link_fault(b: Seq<u8>) -> Option<Error> {
    let file_size = field(b, FILE_SIZE_AT);
    let link_size = field(b, LINK_SIZE_AT);
    let link_offset = field(b, LINK_OFFSET_AT);
    let map_offset = field(b, MAP_OFFSET_AT);
    let data_size = field(b, DATA_SIZE_AT);
    let data_offset = field(b, DATA_OFFSET_AT);
    if b.len() < DATA_SIZE_AT + 4 {
        Some(Error::Io(IoFault::UnexpectedEof))
    } else if data_size % 4 != 0 {
        Some(Error::Header(HeaderFault::UnalignedDataSize(data_size as usize)))
    } else if b.len() < DATA_OFFSET_AT + 4 {
        Some(Error::Io(IoFault::UnexpectedEof))
    } else if map_offset < data_offset || map_offset > data_end(b) {
        Some(
            Error::MismatchedOffsets(
                OffsetMismatch::MapOutsideData {
                    data_offset: data_offset as usize,
                    data_end: data_end(b) as u64,
                    map_offset: map_offset as usize,
                },
            ),
        )
    } else if link_size == 0 && data_end(b) != file_size {
        Some(Error::Header(HeaderFault::DataNotAtEof))
    } else if link_size != 0 && link_offset != data_end(b) {
        Some(
            Error::MismatchedOffsets(
                OffsetMismatch::Section {
                    field: OffsetField::Link,
                    offset: link_offset as usize,
                    expected: data_end(b) as u64,
                },
            ),
        )
    } else if link_size != 0 && link_offset + link_size != file_size {
        Some(Error::Header(HeaderFault::LinkNotAtEof))
    } else {
        None
    }
}

/// The first rule, in the order of the fields on the wire, that the header at the start
/// of `b` breaks, if it breaks any. A field that `b` is too short to hold counts as a
/// failed read at that field.
pub open spec fn header_fault(b: Seq<u8>) -> Option<Error> {
    first_of(
        preamble_fault(b),
        first_of(link_map_fault(b), first_of(tables_fault(b), data_link_fault(b))),
    )
}

/// The header that `b` starts with, where `header_fault(b)` finds nothing wrong.
pub open spec fn header_of(b: Seq<u8>) -> HeaderView {
    HeaderView {
        magic: magic_of(b),
        checksum: field(b, CHECKSUM_AT),
        signature: signature_of(b),
        file_size: field(b, FILE_SIZE_AT) as usize,
        header_size: field(b, HEADER_SIZE_AT) as usize,
        endian_tag: endian_tag(b),
        link_size: nonzero(field(b, LINK_SIZE_AT)),
        link_offset: nonzero(field(b, LINK_OFFSET_AT)),
        map_offset: field(b, MAP_OFFSET_AT) as usize,
        string_ids_size: field(b, STRING_IDS_SIZE_AT) as usize,
        string_ids_offset: table_offset(
            field(b, STRING_IDS_SIZE_AT),
            field(b, STRING_IDS_OFFSET_AT),
        ),
        type_ids_size: field(b, TYPE_IDS_SIZE_AT) as usize,
        type_ids_offset: table_offset(
            field(b, TYPE_IDS_SIZE_AT),
            field(b, TYPE_IDS_OFFSET_AT),
        ),
        prototype_ids_size: field(b, PROTOTYPE_IDS_SIZE_AT) as usize,
        prototype_ids_offset: table_offset(
            field(b, PROTOTYPE_IDS_SIZE_AT),
            field(b, PROTOTYPE_IDS_OFFSET_AT),
        ),
        field_ids_size: field(b, FIELD_IDS_SIZE_AT) as usize,
        field_ids_offset: table_offset(
            field(b, FIELD_IDS_SIZE_AT),
            field(b, FIELD_IDS_OFFSET_AT),
        ),
        method_ids_size: field(b, METHOD_IDS_SIZE_AT) as usize,
        method_ids_offset: table_offset(
            field(b, METHOD_IDS_SIZE_AT),
            field(b, METHOD_IDS_OFFSET_AT),
        ),
        class_defs_size: field(b, CLASS_DEFS_SIZE_AT) as usize,
        class_defs_offset: table_offset(
            field(b, CLASS_DEFS_SIZE_AT),
            field(b, CLASS_DEFS_OFFSET_AT),
        ),
        data_size: field(b, DATA_SIZE_AT) as usize,
        data_offset: field(b, DATA_OFFSET_AT) as usize,
    }
}


impl HeaderView {
    /// Where the type identifiers start.
    pub open spec fn type_ids_start(self) -> int {
        HEADER_SIZE + self.string_ids_size * STRING_ID_SIZE
    }

    /// Where the prototype identifiers start.
    pub open spec fn prototype_ids_start(self) -> int {
        self.type_ids_start() + self.type_ids_size * TYPE_ID_SIZE
    }

    /// Where the field identifiers start.
    pub open spec fn field_ids_start(self) -> int {
        self.prototype_ids_start() + self.prototype_ids_size * PROTOTYPE_ID_SIZE
    }

    /// Where the method identifiers start.
    pub open spec fn method_ids_start(self) -> int {
        self.field_ids_start() + self.field_ids_size * FIELD_ID_SIZE
    }

    /// Where the class definitions start.
    pub open spec fn class_defs_start(self) -> int {
        self.method_ids_start() + self.method_ids_size * METHOD_ID_SIZE
    }

    /// Where the class definitions, and with them the six tables, end.
    pub open spec fn tables_end(self) -> int {
        self.class_defs_start() + self.class_defs_size * CLASS_DEF_SIZE
    }

    /// Where the data section ends.
    pub open spec fn data_end(self) -> int {
        self.data_offset + self.data_size
    }

    /// Whether a table of `size` entries that starts at `start` has `offset` as its
    /// offset: none where it is empty, `start` where it is not.
    pub open spec fn table_placed(size: usize, offset: Option<usize>, start: int) -> bool {
        &&& size <= u32::MAX
        &&& size == 0 ==> offset is None
        &&& size > 0 ==> offset == Some(start as usize) && start <= u32::MAX
    }

    /// The rules that every decoded header keeps.
    pub open spec fn valid(self) -> bool {
        &&& magic_valid(self.magic)
        &&& self.signature.len() == SIGNATURE_SIZE
        &&& (self.endian_tag == ENDIAN_CONSTANT || self.endian_tag == REVERSE_ENDIAN_CONSTANT)
        &&& self.header_size == HEADER_SIZE
        &&& HEADER_SIZE <= self.file_size <= u32::MAX
        &&& 0 < self.map_offset <= u32::MAX
        &&& Self::table_placed(self.string_ids_size, self.string_ids_offset, HEADER_SIZE as int)
        &&& Self::table_placed(self.type_ids_size, self.type_ids_offset, self.type_ids_start())
        &&& Self::table_placed(
            self.prototype_ids_size,
            self.prototype_ids_offset,
            self.prototype_ids_start(),
        )
        &&& Self::table_placed(self.field_ids_size, self.field_ids_offset, self.field_ids_start())
        &&& Self::table_placed(
            self.method_ids_size,
            self.method_ids_offset,
            self.method_ids_start(),
        )
        &&& Self::table_placed(
            self.class_defs_size,
            self.class_defs_offset,
            self.class_defs_start(),
        )
        &&& self.data_size <= u32::MAX && self.data_size % 4 == 0
        &&& self.data_offset <= self.map_offset <= self.data_end()
        &&& match self.link_size {
            None => self.link_offset is None && self.data_end() == self.file_size,
            Some(size) => 0 < size && self.link_offset == Some(self.data_end() as usize)
                && self.data_end() + size == self.file_size,
        }
    }
}

/// A header without a fault keeps every rule of `HeaderView::valid`.
pub proof fn lemma_faultless_header_is_valid(b: Seq<u8>)
    requires
        header_fault(b) is None,
    ensures
        b.len() >= HEADER_SIZE,
        header_of(b).valid(),
{
}


/// Why the file of `file_size` bytes whose content starts with `b` is turned down, if it
/// is: for its size alone, for its header, or because the header declares another size
/// than the file has.
pub open spec fn file_fault(b: Seq<u8>, file_size: u64) -> Option<Error> {
    if file_size < HEADER_SIZE || file_size > usize::MAX {
        Some(Error::InvalidFileSize(file_size, None))
    } else if header_fault(b) is Some {
        header_fault(b)
    } else if file_size != field(b, FILE_SIZE_AT) {
        Some(Error::InvalidFileSize(file_size, Some(field(b, FILE_SIZE_AT) as usize)))
    } else {
        None
    }
}

/// A section in words: its size, counted in `unit`, and its offset, or `absent` where
/// the file has no such section.
pub open spec fn section_text(
    name: Seq<char>,
    unit: Seq<char>,
    size: usize,
    offset: Option<usize>,
    absent: Seq<char>,
) -> Seq<char> {
    match offset {
        Some(offset) => name + "_size: "@ + decimal(size as nat) + " "@ + unit + ", "@ + name
            + "_offset: "@ + hex_prefixed(offset as nat),
        None => absent,
    }
}

impl HeaderView {
    /// The byte order of the file in a word.
    pub open spec fn endian_text(self) -> Seq<char> {
        if self.endian_tag == ENDIAN_CONSTANT {
            "little"@
        } else {
            "big"@
        }
    }

    /// The link section in words.
    pub open spec fn link_text(self) -> Seq<char> {
        section_text(
            "link"@,
            "bytes"@,
            match self.link_size {
                Some(size) => size,
                None => 0,
            },
            self.link_offset,
            "no link section"@,
        )
    }

    /// The header in words, field by field.
    pub open spec fn debug_text(self) -> Seq<char> {
        "Header { magic: [ "@ + byte_list(self.magic) + " ] (version: "@ + decimal(
            magic_version(self.magic) as nat,
        ) + "), checksum: "@ + hex_prefixed(self.checksum as nat) + ", SHA-1 signature: "@
            + byte_string(self.signature) + ", file_size: "@ + decimal(self.file_size as nat)
            + " bytes, header_size: "@ + decimal(self.header_size as nat)
            + " bytes, endian_tag: "@ + hex_prefixed(self.endian_tag as nat) + " ("@
            + self.endian_text() + " endian), "@ + self.link_text() + ", map_offset: "@
            + hex_prefixed(self.map_offset as nat) + ", "@ + section_text(
            "string_ids"@,
            "strings"@,
            self.string_ids_size,
            self.string_ids_offset,
            "no strings"@,
        ) + ", "@ + section_text(
            "type_ids"@,
            "types"@,
            self.type_ids_size,
            self.type_ids_offset,
            "no types"@,
        ) + ", "@ + section_text(
            "prototype_ids"@,
            "types"@,
            self.prototype_ids_size,
            self.prototype_ids_offset,
            "no prototypes"@,
        ) + ", "@ + section_text(
            "field_ids"@,
            "types"@,
            self.field_ids_size,
            self.field_ids_offset,
            "no fields"@,
        ) + ", "@ + section_text(
            "method_ids"@,
            "types"@,
            self.method_ids_size,
            self.method_ids_offset,
            "no methods"@,
        ) + ", "@ + section_text(
            "class_defs"@,
            "types"@,
            self.class_defs_size,
            self.class_defs_offset,
            "no classes"@,
        ) + ", data_size: "@ + decimal(self.data_size as nat) + " bytes, data_offset: "@
            + hex_prefixed(self.data_offset as nat) + " }"@
    }
}

} // verus!
