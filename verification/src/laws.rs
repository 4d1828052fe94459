//! What holds of every header and every container, whatever the bytes.

use crate::dex::{
    class_defs_at, dex_fault, dex_of, fields_at, methods_at, prototypes_at, string_ids_at,
    type_ids_at, Dex,
};
use crate::endian::{lemma_swapped_reading, swapped_u32, Endianness};
use crate::error::{Error, HeaderFault, OffsetField, OffsetMismatch};
use crate::header::{decodes_to, lemma_header_is_what_it_holds, Header};
use crate::layout::{
    array_of, byte_order, class_defs_start, data_end, endian_tag, field, field_ids_start,
    file_fault, header_fault, header_of, lemma_faultless_header_is_valid, link_map_fault,
    magic_of, magic_valid, magic_version, method_ids_start, preamble_fault, prototype_ids_start,
    signature_of, string_ids_start, table_fault, tables_fault, type_ids_start, CHECKSUM_AT,
    CLASS_DEFS_SIZE_AT, DATA_OFFSET_AT, DATA_SIZE_AT, ENDIAN_CONSTANT, ENDIAN_TAG_AT,
    FIELD_IDS_SIZE_AT, FILE_SIZE_AT, HEADER_SIZE, HEADER_SIZE_AT, LINK_SIZE_AT, LINK_OFFSET_AT,
    MAP_OFFSET_AT, METHOD_IDS_SIZE_AT, PROTOTYPE_IDS_SIZE_AT, REVERSE_ENDIAN_CONSTANT,
    STRING_IDS_SIZE_AT, TYPE_IDS_SIZE_AT,
};
use crate::reader::word;
use vstd::prelude::*;

verus! {

/// In a file whose endian tag announces big-endian integers, the checksum and the two
/// sizes in front of the tag are the byte-swapped forms of the little-endian readings of
/// their bytes.
pub proof fn lemma_big_endian_turns_early_fields(b: Seq<u8>)
    requires
        b.len() >= ENDIAN_TAG_AT + 4,
        endian_tag(b) == REVERSE_ENDIAN_CONSTANT,
    ensures
        header_of(b).checksum == swapped_u32(word(b, CHECKSUM_AT as int, Endianness::Little)),
        header_of(b).file_size == swapped_u32(word(b, FILE_SIZE_AT as int, Endianness::Little)),
        header_of(b).header_size == swapped_u32(
            word(b, HEADER_SIZE_AT as int, Endianness::Little),
        ),
{
    lemma_swapped_reading(b.skip(CHECKSUM_AT as int));
    lemma_swapped_reading(b.skip(FILE_SIZE_AT as int));
    lemma_swapped_reading(b.skip(HEADER_SIZE_AT as int));
}

/// A byte that is no decimal digit in one of the three places of the version makes the
/// magic number invalid, and the magic number is the first thing that is checked.
pub proof fn lemma_version_takes_digits(b: Seq<u8>, place: int)
    requires
        b.len() >= 8,
        4 <= place < 7,
        b[place] < 0x30 || b[place] > 0x39,
    ensures
        header_fault(b) == Some(Error::InvalidMagic(array_of::<8>(magic_of(b)))),
{
    assert(magic_of(b)[place] == b[place]);
}

/// The version of a header without a fault is the number that the three digits behind
/// `dex\n` spell.
pub proof fn lemma_version_is_spelled_out(b: Seq<u8>)
    requires
        header_fault(b) is None,
    ensures
        0 <= magic_version(header_of(b).magic) <= 999,
        magic_version(header_of(b).magic) == (b[4] - 0x30) * 100 + (b[5] - 0x30) * 10 + (b[6]
            - 0x30),
{
}

/// A header size other than `HEADER_SIZE` is reported as such, whatever follows it,
/// where the magic number and the endian tag in front of it are in order.
pub proof fn lemma_header_size_is_fixed(b: Seq<u8>)
    requires
        b.len() >= ENDIAN_TAG_AT + 4,
        magic_valid(magic_of(b)),
        endian_tag(b) == ENDIAN_CONSTANT || endian_tag(b) == REVERSE_ENDIAN_CONSTANT,
        field(b, HEADER_SIZE_AT) != HEADER_SIZE,
    ensures
        header_fault(b) == Some(Error::InvalidHeaderSize(field(b, HEADER_SIZE_AT) as usize)),
{
}

/// An empty table with an offset other than zero, and a table with entries whose offset
/// is not `start`, are reported under the name of the table's offset field; any other
/// table is in order.
pub proof fn lemma_table_offset_is_checked(
    b: Seq<u8>,
    size_at: usize,
    name: OffsetField,
    start: int,
)
    requires
        b.len() >= size_at + 8,
        size_at + 8 <= HEADER_SIZE,
    ensures
        ({
            let size = field(b, size_at);
            let offset = field(b, (size_at + 4) as usize);
            let fault = table_fault(b, size_at, name, start);
            &&& size == 0 && offset != 0 ==> fault == Some(
                Error::MismatchedOffsets(
                    OffsetMismatch::Section { field: name, offset: offset as usize, expected: 0 },
                ),
            )
            &&& size > 0 && offset != start ==> fault == Some(
                Error::MismatchedOffsets(
                    OffsetMismatch::Section {
                        field: name,
                        offset: offset as usize,
                        expected: start as u64,
                    },
                ),
            )
            &&& (size == 0 && offset == 0) || (size > 0 && offset == start) ==> fault is None
        }),
{
}

/// Where nothing in front of the tables is at fault, the first table at fault, in file
/// order, decides what the header is turned down for.
pub proof fn lemma_first_table_at_fault_decides(b: Seq<u8>)
    requires
        preamble_fault(b) is None,
        link_map_fault(b) is None,
    ensures
        ({
            let strings = table_fault(
                b,
                STRING_IDS_SIZE_AT,
                OffsetField::StringIds,
                string_ids_start(b),
            );
            let types = table_fault(b, TYPE_IDS_SIZE_AT, OffsetField::TypeIds, type_ids_start(b));
            let prototypes = table_fault(
                b,
                PROTOTYPE_IDS_SIZE_AT,
                OffsetField::PrototypeIds,
                prototype_ids_start(b),
            );
            let fields = table_fault(
                b,
                FIELD_IDS_SIZE_AT,
                OffsetField::FieldIds,
                field_ids_start(b),
            );
            let methods = table_fault(
                b,
                METHOD_IDS_SIZE_AT,
                OffsetField::MethodIds,
                method_ids_start(b),
            );
            let classes = table_fault(
                b,
                CLASS_DEFS_SIZE_AT,
                OffsetField::ClassDefs,
                class_defs_start(b),
            );
            &&& strings is Some ==> header_fault(b) == strings
            &&& strings is None && types is Some ==> header_fault(b) == types
            &&& strings is None && types is None && prototypes is Some ==> header_fault(b)
                == prototypes
            &&& strings is None && types is None && prototypes is None && fields is Some
                ==> header_fault(b) == fields
            &&& strings is None && types is None && prototypes is None && fields is None
                && methods is Some ==> header_fault(b) == methods
            &&& strings is None && types is None && prototypes is None && fields is None
                && methods is None && classes is Some ==> header_fault(b) == classes
        }),
{
}

/// A map offset outside the data section makes every header fail, whatever else it
/// holds; and where nothing in front of that check is at fault, it is what is reported.
pub proof fn lemma_map_lies_in_data(b: Seq<u8>)
    requires
        field(b, MAP_OFFSET_AT) < field(b, DATA_OFFSET_AT) || field(b, MAP_OFFSET_AT) > data_end(
            b,
        ),
    ensures
        header_fault(b) is Some,
        b.len() >= HEADER_SIZE && preamble_fault(b) is None && link_map_fault(b) is None
            && tables_fault(b) is None && field(b, DATA_SIZE_AT) % 4 == 0 ==> header_fault(b)
            == Some(
            Error::MismatchedOffsets(
                OffsetMismatch::MapOutsideData {
                    data_offset: field(b, DATA_OFFSET_AT) as usize,
                    data_end: data_end(b) as u64,
                    map_offset: field(b, MAP_OFFSET_AT) as usize,
                },
            ),
        ),
{
}

/// Without a link section the data section ends where the file ends: a header whose
/// data section ends anywhere else fails, and where nothing in front of that check is
/// at fault, this is what is reported.
pub proof fn lemma_data_reaches_end_of_file(b: Seq<u8>)
    requires
        field(b, LINK_SIZE_AT) == 0,
        data_end(b) != field(b, FILE_SIZE_AT),
    ensures
        header_fault(b) is Some,
        b.len() >= HEADER_SIZE && preamble_fault(b) is None && link_map_fault(b) is None
            && tables_fault(b) is None && field(b, DATA_SIZE_AT) % 4 == 0 && field(
            b,
            DATA_OFFSET_AT,
        ) <= field(b, MAP_OFFSET_AT) <= data_end(b) ==> header_fault(b) == Some(
            Error::Header(HeaderFault::DataNotAtEof),
        ),
{
}

/// With a link section, the link section starts where the data section ends and ends
/// where the file ends.
pub proof fn lemma_link_reaches_end_of_file(b: Seq<u8>)
    requires
        header_fault(b) is None,
        field(b, LINK_SIZE_AT) != 0,
    ensures
        field(b, LINK_OFFSET_AT) == data_end(b),
        field(b, LINK_OFFSET_AT) + field(b, LINK_SIZE_AT) == field(b, FILE_SIZE_AT),
{
}

/// What a header is turned down for depends on its first `HEADER_SIZE` bytes alone, and
/// so does the header that is decoded.
pub proof fn lemma_header_reads_its_own_bytes(a: Seq<u8>, b: Seq<u8>)
    requires
        a.len() >= HEADER_SIZE,
        b.len() >= HEADER_SIZE,
        a.take(HEADER_SIZE as int) == b.take(HEADER_SIZE as int),
    ensures
        header_fault(a) == header_fault(b),
        header_of(a) == header_of(b),
{
    assert forall|i: int| 0 <= i < HEADER_SIZE implies a[i] == b[i] by {
        assert(a.take(HEADER_SIZE as int)[i] == a[i]);
        assert(b.take(HEADER_SIZE as int)[i] == b[i]);
    }
    assert(magic_of(a) =~= magic_of(b));
    assert(signature_of(a) =~= signature_of(b));
}

/// A file whose header is in order is turned down where it has another size than the
/// header declares, and for nothing else.
pub proof fn lemma_file_has_its_declared_size(b: Seq<u8>, file_size: u64)
    requires
        HEADER_SIZE <= file_size <= usize::MAX,
        header_fault(b) is None,
    ensures
        file_size != header_of(b).file_size ==> file_fault(b, file_size) == Some(
            Error::InvalidFileSize(file_size, Some(header_of(b).file_size)),
        ),
        file_size == header_of(b).file_size ==> file_fault(b, file_size) is None,
{
}

/// The tables of a container lie one behind the other from the end of the header on,
/// and that is where the header says each of them lies: a table that has entries is
/// the one found at its offset.
pub proof fn lemma_tables_lie_at_their_offsets(b: Seq<u8>)
    requires
        dex_fault(b) is None,
    ensures
        ({
            let header = header_of(b);
            let dex = dex_of(b);
            let order = byte_order(b);
            &&& header.string_ids_offset matches Some(at) ==> dex.strings == string_ids_at(
                b,
                at as int,
                header.string_ids_size as nat,
                order,
            )
            &&& header.type_ids_offset matches Some(at) ==> dex.types == type_ids_at(
                b,
                at as int,
                header.type_ids_size as nat,
                order,
            )
            &&& header.prototype_ids_offset matches Some(at) ==> dex.prototypes == prototypes_at(
                b,
                at as int,
                header.prototype_ids_size as nat,
                order,
            )
            &&& header.field_ids_offset matches Some(at) ==> dex.fields == fields_at(
                b,
                at as int,
                header.field_ids_size as nat,
                order,
            )
            &&& header.method_ids_offset matches Some(at) ==> dex.methods == methods_at(
                b,
                at as int,
                header.method_ids_size as nat,
                order,
            )
            &&& header.class_defs_offset matches Some(at) ==> dex.classes == class_defs_at(
                b,
                at as int,
                header.class_defs_size as nat,
                order,
            )
        }),
{
    lemma_faultless_header_is_valid(b);
}

/// Decoding is a function of the bytes: whatever two decodings of the same bytes give
/// is the same, field for field where it is a header.
pub proof fn lemma_decoding_is_deterministic(
    b: Seq<u8>,
    first: Result<Header, Error>,
    second: Result<Header, Error>,
)
    requires
        decodes_to(b, first),
        decodes_to(b, second),
    ensures
        first == second,
{
    if first is Ok {
        lemma_header_is_what_it_holds(first->Ok_0, second->Ok_0);
    }
}

/// Two containers decoded from the same bytes hold the same header and the same tables.
pub proof fn lemma_container_decoding_is_deterministic(b: Seq<u8>, first: Dex, second: Dex)
    requires
        first@ == dex_of(b),
        second@ == dex_of(b),
    ensures
        first@ == second@,
        first@.header == header_of(b),
{
}

} // verus!
