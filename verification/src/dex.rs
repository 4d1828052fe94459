//! The six identifier tables that follow the header, and the container that holds them
//! together with it.

use crate::endian::Endianness;
use crate::error::{Error, IoFault};
use crate::header::Header;
use crate::layout::{
    byte_order, class_defs_start, field, field_ids_start, file_fault, header_fault, header_of,
    lemma_faultless_header_is_valid, method_ids_start, prototype_ids_start, string_ids_start,
    tables_end, type_ids_start, HeaderView, CLASS_DEFS_SIZE_AT, CLASS_DEF_SIZE,
    FIELD_IDS_SIZE_AT, FIELD_ID_SIZE, HEADER_SIZE, METHOD_IDS_SIZE_AT, METHOD_ID_SIZE,
    PROTOTYPE_IDS_SIZE_AT, PROTOTYPE_ID_SIZE, STRING_IDS_SIZE_AT, STRING_ID_SIZE,
    TYPE_IDS_SIZE_AT, TYPE_ID_SIZE,
};
use crate::reader::{half, word, ByteReader};
use crate::types::{
    ClassDef, ClassDefView, Field, Method, Prototype, PrototypeView, StringId, TypeId,
};
use vstd::prelude::*;

verus! {

/// The string identifier whose record starts `off` bytes into `b`.
pub open spec fn string_id_at(b: Seq<u8>, off: int, order: Endianness) -> StringId {
    StringId { offset: word(b, off, order) }
}

/// The type identifier whose record starts `off` bytes into `b`.
pub open spec fn type_id_at(b: Seq<u8>, off: int, order: Endianness) -> TypeId {
    TypeId { descriptor_id: word(b, off, order) }
}

/// The prototype whose record starts `off` bytes into `b`.
pub open spec fn prototype_at(b: Seq<u8>, off: int, order: Endianness) -> PrototypeView {
    PrototypeView::from_raw(word(b, off, order), word(b, off + 4, order), word(b, off + 8, order))
}

/// The field identifier whose record starts `off` bytes into `b`.
pub open spec fn field_at(b: Seq<u8>, off: int, order: Endianness) -> Field {
    Field {
        class_id: half(b, off, order),
        type_id: half(b, off + 2, order),
        name_id: word(b, off + 4, order),
    }
}

/// The method identifier whose record starts `off` bytes into `b`.
pub open spec fn method_at(b: Seq<u8>, off: int, order: Endianness) -> Method {
    Method {
        class_id: half(b, off, order),
        prototype_id: half(b, off + 2, order),
        name_id: word(b, off + 4, order),
    }
}

/// The class definition whose record starts `off` bytes into `b`.
pub open spec fn class_def_at(b: Seq<u8>, off: int, order: Endianness) -> ClassDefView {
    ClassDefView::from_raw(
        word(b, off, order),
        word(b, off + 4, order),
        word(b, off + 8, order),
        word(b, off + 12, order),
        word(b, off + 16, order),
        word(b, off + 20, order),
        word(b, off + 24, order),
        word(b, off + 28, order),
    )
}

/// The `count` string identifiers that lie one after another from `start` on.
pub open spec fn string_ids_at(b: Seq<u8>, start: int, count: nat, order: Endianness) -> Seq<
    StringId,
> {
    Seq::new(count, |i: int| string_id_at(b, start + i * STRING_ID_SIZE, order))
}

/// The `count` type identifiers that lie one after another from `start` on.
pub open spec fn type_ids_at(b: Seq<u8>, start: int, count: nat, order: Endianness) -> Seq<
    TypeId,
> {
    Seq::new(count, |i: int| type_id_at(b, start + i * TYPE_ID_SIZE, order))
}

/// The `count` prototypes that lie one after another from `start` on.
pub open spec fn prototypes_at(b: Seq<u8>, start: int, count: nat, order: Endianness) -> Seq<
    PrototypeView,
> {
    Seq::new(count, |i: int| prototype_at(b, start + i * PROTOTYPE_ID_SIZE, order))
}

/// The `count` field identifiers that lie one after another from `start` on.
pub open spec fn fields_at(b: Seq<u8>, start: int, count: nat, order: Endianness) -> Seq<Field> {
    Seq::new(count, |i: int| field_at(b, start + i * FIELD_ID_SIZE, order))
}

/// The `count` method identifiers that lie one after another from `start` on.
pub open spec fn methods_at(b: Seq<u8>, start: int, count: nat, order: Endianness) -> Seq<
    Method,
> {
    Seq::new(count, |i: int| method_at(b, start + i * METHOD_ID_SIZE, order))
}

/// The `count` class definitions that lie one after another from `start` on.
pub open spec fn class_defs_at(b: Seq<u8>, start: int, count: nat, order: Endianness) -> Seq<
    ClassDefView,
> {
    Seq::new(count, |i: int| class_def_at(b, start + i * CLASS_DEF_SIZE, order))
}

/// What a container holds: the header and the six tables, each in file order.
pub struct DexView {
    pub header: HeaderView,
    pub strings: Seq<StringId>,
    pub types: Seq<TypeId>,
    pub prototypes: Seq<PrototypeView>,
    pub fields: Seq<Field>,
    pub methods: Seq<Method>,
    pub classes: Seq<ClassDefView>,
}

/// Why the file with content `b` is no container, if it is none: for its header, or
/// because it ends before its six tables do.
pub open spec fn dex_fault(b: Seq<u8>) -> Option<Error> {
    if header_fault(b) is Some {
        header_fault(b)
    } else if b.len() < tables_end(b) {
        Some(Error::Io(IoFault::UnexpectedEof))
    } else {
        None
    }
}

/// The container that the file with content `b` holds, where `dex_fault(b)` finds
/// nothing wrong. Every table has as many entries as the header declares, and lies where
/// the tables before it end.
pub open spec fn dex_of(b: Seq<u8>) -> DexView {
    let order = byte_order(b);
    DexView {
        header: header_of(b),
        strings: string_ids_at(b, string_ids_start(b), field(b, STRING_IDS_SIZE_AT) as nat, order),
        types: type_ids_at(b, type_ids_start(b), field(b, TYPE_IDS_SIZE_AT) as nat, order),
        prototypes: prototypes_at(
            b,
            prototype_ids_start(b),
            field(b, PROTOTYPE_IDS_SIZE_AT) as nat,
            order,
        ),
        fields: fields_at(b, field_ids_start(b), field(b, FIELD_IDS_SIZE_AT) as nat, order),
        methods: methods_at(b, method_ids_start(b), field(b, METHOD_IDS_SIZE_AT) as nat, order),
        classes: class_defs_at(b, class_defs_start(b), field(b, CLASS_DEFS_SIZE_AT) as nat, order),
    }
}

/// Reads `count` string identifiers, the first of which lies `start` bytes into `b`.
fn read_string_ids(
    reader: &mut ByteReader<'_>,
    order: Endianness,
    count: usize,
    Ghost(b): Ghost<Seq<u8>>,
    Ghost(start): Ghost<int>,
) -> (r: Result<Vec<StringId>, Error>)
    requires
        0 <= start <= b.len(),
        old(reader).rest() == b.skip(start),
    ensures
        match r {
            Ok(table) => {
                &&& start + count * STRING_ID_SIZE <= b.len()
                &&& table@ == string_ids_at(b, start, count as nat, order)
                &&& final(reader).rest() == b.skip(start + count * STRING_ID_SIZE)
            },
            Err(e) => b.len() < start + count * STRING_ID_SIZE && e == Error::Io(
                IoFault::UnexpectedEof,
            ),
        },
{
    let mut table: Vec<StringId> = Vec::new();
    let mut i: usize = 0;
    while i < count
        invariant
            i <= count,
            0 <= start + i * STRING_ID_SIZE <= b.len(),
            reader.rest() == b.skip(start + i * STRING_ID_SIZE),
            table@ == string_ids_at(b, start, i as nat, order),
        decreases count - i,
    {
        let ghost at = start + i * STRING_ID_SIZE;
        let offset = reader.next_word(order, Ghost(b), Ghost(at))?;
        table.push(StringId { offset });
        i = i + 1;
        assert(table@ =~= string_ids_at(b, start, i as nat, order));
    }
    Ok(table)
}

/// Reads `count` type identifiers, the first of which lies `start` bytes into `b`.
fn read_type_ids(
    reader: &mut ByteReader<'_>,
    order: Endianness,
    count: usize,
    Ghost(b): Ghost<Seq<u8>>,
    Ghost(start): Ghost<int>,
) -> (r: Result<Vec<TypeId>, Error>)
    requires
        0 <= start <= b.len(),
        old(reader).rest() == b.skip(start),
    ensures
        match r {
            Ok(table) => {
                &&& start + count * TYPE_ID_SIZE <= b.len()
                &&& table@ == type_ids_at(b, start, count as nat, order)
                &&& final(reader).rest() == b.skip(start + count * TYPE_ID_SIZE)
            },
            Err(e) => b.len() < start + count * TYPE_ID_SIZE && e == Error::Io(
                IoFault::UnexpectedEof,
            ),
        },
{
    let mut table: Vec<TypeId> = Vec::new();
    let mut i: usize = 0;
    while i < count
        invariant
            i <= count,
            0 <= start + i * TYPE_ID_SIZE <= b.len(),
            reader.rest() == b.skip(start + i * TYPE_ID_SIZE),
            table@ == type_ids_at(b, start, i as nat, order),
        decreases count - i,
    {
        let ghost at = start + i * TYPE_ID_SIZE;
        let descriptor_id = reader.next_word(order, Ghost(b), Ghost(at))?;
        table.push(TypeId { descriptor_id });
        i = i + 1;
        assert(table@ =~= type_ids_at(b, start, i as nat, order));
    }
    Ok(table)
}

/// The views of the records of a table, in the table's order.
pub open spec fn prototype_views(table: Seq<Prototype>) -> Seq<PrototypeView> {
    Seq::new(table.len(), |i: int| table[i]@)
}

/// The views of the records of a table, in the table's order.
pub open spec fn class_def_views(table: Seq<ClassDef>) -> Seq<ClassDefView> {
    Seq::new(table.len(), |i: int| table[i]@)
}

/// Reads `count` prototypes, the first of which lies `start` bytes into `b`.
fn read_prototypes(
    reader: &mut ByteReader<'_>,
    order: Endianness,
    count: usize,
    Ghost(b): Ghost<Seq<u8>>,
    Ghost(start): Ghost<int>,
) -> (r: Result<Vec<Prototype>, Error>)
    requires
        0 <= start <= b.len(),
        old(reader).rest() == b.skip(start),
    ensures
        match r {
            Ok(table) => {
                &&& start + count * PROTOTYPE_ID_SIZE <= b.len()
                &&& prototype_views(table@) == prototypes_at(b, start, count as nat, order)
                &&& final(reader).rest() == b.skip(start + count * PROTOTYPE_ID_SIZE)
            },
            Err(e) => b.len() < start + count * PROTOTYPE_ID_SIZE && e == Error::Io(
                IoFault::UnexpectedEof,
            ),
        },
{
    let mut table: Vec<Prototype> = Vec::new();
    let mut i: usize = 0;
    while i < count
        invariant
            i <= count,
            0 <= start + i * PROTOTYPE_ID_SIZE <= b.len(),
            reader.rest() == b.skip(start + i * PROTOTYPE_ID_SIZE),
            table@.len() == i,
            prototype_views(table@) == prototypes_at(b, start, i as nat, order),
        decreases count - i,
    {
        let ghost at = start + i * PROTOTYPE_ID_SIZE;
        let ghost before = table@;
        let shorty_id = reader.next_word(order, Ghost(b), Ghost(at))?;
        let return_type_id = reader.next_word(order, Ghost(b), Ghost(at + 4))?;
        let parameters_offset = reader.next_word(order, Ghost(b), Ghost(at + 8))?;
        table.push(Prototype::new(shorty_id, return_type_id, parameters_offset));
        i = i + 1;
        assert forall|k: int| 0 <= k < i implies prototype_views(table@)[k] == prototypes_at(
            b,
            start,
            i as nat,
            order,
        )[k] by {
            if k < i - 1 {
                assert(table@[k] == before[k]);
                assert(prototype_views(before)[k] == prototypes_at(
                    b,
                    start,
                    (i - 1) as nat,
                    order,
                )[k]);
            }
        }
        assert(prototype_views(table@) =~= prototypes_at(b, start, i as nat, order));
    }
    Ok(table)
}

/// Reads `count` field identifiers, the first of which lies `start` bytes into `b`.
fn read_fields(
    reader: &mut ByteReader<'_>,
    order: Endianness,
    count: usize,
    Ghost(b): Ghost<Seq<u8>>,
    Ghost(start): Ghost<int>,
) -> (r: Result<Vec<Field>, Error>)
    requires
        0 <= start <= b.len(),
        old(reader).rest() == b.skip(start),
    ensures
        match r {
            Ok(table) => {
                &&& start + count * FIELD_ID_SIZE <= b.len()
                &&& table@ == fields_at(b, start, count as nat, order)
                &&& final(reader).rest() == b.skip(start + count * FIELD_ID_SIZE)
            },
            Err(e) => b.len() < start + count * FIELD_ID_SIZE && e == Error::Io(
                IoFault::UnexpectedEof,
            ),
        },
{
    let mut table: Vec<Field> = Vec::new();
    let mut i: usize = 0;
    while i < count
        invariant
            i <= count,
            0 <= start + i * FIELD_ID_SIZE <= b.len(),
            reader.rest() == b.skip(start + i * FIELD_ID_SIZE),
            table@ == fields_at(b, start, i as nat, order),
        decreases count - i,
    {
        let ghost at = start + i * FIELD_ID_SIZE;
        let class_id = reader.next_half(order, Ghost(b), Ghost(at))?;
        let type_id = reader.next_half(order, Ghost(b), Ghost(at + 2))?;
        let name_id = reader.next_word(order, Ghost(b), Ghost(at + 4))?;
        table.push(Field { class_id, type_id, name_id });
        i = i + 1;
        assert(table@ =~= fields_at(b, start, i as nat, order));
    }
    Ok(table)
}

/// Reads `count` method identifiers, the first of which lies `start` bytes into `b`.
fn read_methods(
    reader: &mut ByteReader<'_>,
    order: Endianness,
    count: usize,
    Ghost(b): Ghost<Seq<u8>>,
    Ghost(start): Ghost<int>,
) -> (r: Result<Vec<Method>, Error>)
    requires
        0 <= start <= b.len(),
        old(reader).rest() == b.skip(start),
    ensures
        match r {
            Ok(table) => {
                &&& start + count * METHOD_ID_SIZE <= b.len()
                &&& table@ == methods_at(b, start, count as nat, order)
                &&& final(reader).rest() == b.skip(start + count * METHOD_ID_SIZE)
            },
            Err(e) => b.len() < start + count * METHOD_ID_SIZE && e == Error::Io(
                IoFault::UnexpectedEof,
            ),
        },
{
    let mut table: Vec<Method> = Vec::new();
    let mut i: usize = 0;
    while i < count
        invariant
            i <= count,
            0 <= start + i * METHOD_ID_SIZE <= b.len(),
            reader.rest() == b.skip(start + i * METHOD_ID_SIZE),
            table@ == methods_at(b, start, i as nat, order),
        decreases count - i,
    {
        let ghost at = start + i * METHOD_ID_SIZE;
        let class_id = reader.next_half(order, Ghost(b), Ghost(at))?;
        let prototype_id = reader.next_half(order, Ghost(b), Ghost(at + 2))?;
        let name_id = reader.next_word(order, Ghost(b), Ghost(at + 4))?;
        table.push(Method { class_id, prototype_id, name_id });
        i = i + 1;
        assert(table@ =~= methods_at(b, start, i as nat, order));
    }
    Ok(table)
}

/// Reads `count` class definitions, the first of which lies `start` bytes into `b`.
fn read_class_defs(
    reader: &mut ByteReader<'_>,
    order: Endianness,
    count: usize,
    Ghost(b): Ghost<Seq<u8>>,
    Ghost(start): Ghost<int>,
) -> (r: Result<Vec<ClassDef>, Error>)
    requires
        0 <= start <= b.len(),
        old(reader).rest() == b.skip(start),
    ensures
        match r {
            Ok(table) => {
                &&& start + count * CLASS_DEF_SIZE <= b.len()
                &&& class_def_views(table@) == class_defs_at(b, start, count as nat, order)
                &&& final(reader).rest() == b.skip(start + count * CLASS_DEF_SIZE)
            },
            Err(e) => b.len() < start + count * CLASS_DEF_SIZE && e == Error::Io(
                IoFault::UnexpectedEof,
            ),
        },
{
    let mut table: Vec<ClassDef> = Vec::new();
    let mut i: usize = 0;
    while i < count
        invariant
            i <= count,
            0 <= start + i * CLASS_DEF_SIZE <= b.len(),
            reader.rest() == b.skip(start + i * CLASS_DEF_SIZE),
            table@.len() == i,
            class_def_views(table@) == class_defs_at(b, start, i as nat, order),
        decreases count - i,
    {
        let ghost at = start + i * CLASS_DEF_SIZE;
        let ghost before = table@;
        let class_id = reader.next_word(order, Ghost(b), Ghost(at))?;
        let access_flags = reader.next_word(order, Ghost(b), Ghost(at + 4))?;
        let superclass_id = reader.next_word(order, Ghost(b), Ghost(at + 8))?;
        let interfaces_offset = reader.next_word(order, Ghost(b), Ghost(at + 12))?;
        let source_file_id = reader.next_word(order, Ghost(b), Ghost(at + 16))?;
        let annotations_offset = reader.next_word(order, Ghost(b), Ghost(at + 20))?;
        let class_data_offset = reader.next_word(order, Ghost(b), Ghost(at + 24))?;
        let static_values_offset = reader.next_word(order, Ghost(b), Ghost(at + 28))?;
        let class_def = ClassDef::new(
            class_id,
            access_flags,
            superclass_id,
            interfaces_offset,
            source_file_id,
            annotations_offset,
            class_data_offset,
            static_values_offset,
        )?;
        table.push(class_def);
        i = i + 1;
        assert forall|k: int| 0 <= k < i implies class_def_views(table@)[k] == class_defs_at(
            b,
            start,
            i as nat,
            order,
        )[k] by {
            if k < i - 1 {
                assert(table@[k] == before[k]);
                assert(class_def_views(before)[k] == class_defs_at(
                    b,
                    start,
                    (i - 1) as nat,
                    order,
                )[k]);
            }
        }
        assert(class_def_views(table@) =~= class_defs_at(b, start, i as nat, order));
    }
    Ok(table)
}

/// One DEX file, decoded: its header and its six identifier tables. Nothing in it
/// changes once it is built.
pub struct Dex {
    header: Header,
    strings: Vec<StringId>,
    types: Vec<TypeId>,
    prototypes: Vec<Prototype>,
    fields: Vec<Field>,
    methods: Vec<Method>,
    classes: Vec<ClassDef>,
}

impl View for Dex {
    type V = DexView;

    closed spec fn view(&self) -> DexView {
        DexView {
            header: self.header@,
            strings: self.strings@,
            types: self.types@,
            prototypes: prototype_views(self.prototypes@),
            fields: self.fields@,
            methods: self.methods@,
            classes: class_def_views(self.classes@),
        }
    }
}

impl Dex {
    #[verifier::type_invariant]
    spec fn well_formed(self) -> bool {
        self@.consistent()
    }

    /// Decodes the container that the file with the given content holds: the header
    /// first, then the six tables in the order in which they lie behind it.
    ///
    /// With `verify` the header is decoded as that of a file of `content.len()` bytes,
    /// and the checksum and the signature would be held against the content. This
    /// library does not compute either, so a caller may ask for it only where the file
    /// is turned down before that check would be due.
    pub fn new(content: &[u8], verify: bool) -> (r: Result<Dex, Error>)
        requires
            verify ==> file_fault(content@, content@.len() as u64) is Some,
        ensures
            match r {
                Ok(dex) => !verify && dex_fault(content@) is None && dex@ == dex_of(content@),
                Err(e) => if verify {
                    file_fault(content@, content@.len() as u64) == Some(e)
                } else {
                    dex_fault(content@) == Some(e)
                },
            },
    {
        let ghost b = content@;
        let mut reader = ByteReader::new(content);
        let header = if verify {
            let header = Header::from_file(content, content.len() as u64, true)?;
            reader.skip(HEADER_SIZE)?;
            header
        } else {
            Header::from_reader(&mut reader)?
        };
        let order = if header.is_little_endian() {
            Endianness::Little
        } else {
            Endianness::Big
        };
        let strings = read_string_ids(
            &mut reader,
            order,
            header.get_string_ids_size(),
            Ghost(b),
            Ghost(string_ids_start(b)),
        )?;
        let types = read_type_ids(
            &mut reader,
            order,
            header.get_type_ids_size(),
            Ghost(b),
            Ghost(type_ids_start(b)),
        )?;
        let prototypes = read_prototypes(
            &mut reader,
            order,
            header.get_prototype_ids_size(),
            Ghost(b),
            Ghost(prototype_ids_start(b)),
        )?;
        let fields = read_fields(
            &mut reader,
            order,
            header.get_field_ids_size(),
            Ghost(b),
            Ghost(field_ids_start(b)),
        )?;
        let methods = read_methods(
            &mut reader,
            order,
            header.get_method_ids_size(),
            Ghost(b),
            Ghost(method_ids_start(b)),
        )?;
        let classes = read_class_defs(
            &mut reader,
            order,
            header.get_class_defs_size(),
            Ghost(b),
            Ghost(class_defs_start(b)),
        )?;
        proof {
            lemma_faultless_dex_is_consistent(b);
        }
        Ok(Dex { header, strings, types, prototypes, fields, methods, classes })
    }
}


impl DexView {
    /// Every table has as many entries as the header declares for it, and the header
    /// keeps the rules of the format.
    pub open spec fn consistent(self) -> bool {
        &&& self.header.valid()
        &&& self.strings.len() == self.header.string_ids_size
        &&& self.types.len() == self.header.type_ids_size
        &&& self.prototypes.len() == self.header.prototype_ids_size
        &&& self.fields.len() == self.header.field_ids_size
        &&& self.methods.len() == self.header.method_ids_size
        &&& self.classes.len() == self.header.class_defs_size
    }
}

/// The container of a file without a fault has tables of the sizes that its header
/// declares, and the file is long enough to hold them.
pub proof fn lemma_faultless_dex_is_consistent(b: Seq<u8>)
    requires
        dex_fault(b) is None,
    ensures
        dex_of(b).consistent(),
        b.len() >= tables_end(b),
        tables_end(b) == dex_of(b).header.tables_end(),
{
    lemma_faultless_header_is_valid(b);
}

impl Dex {
    /// Every container has tables of the sizes that its header declares. A call brings
    /// that fact into the caller's proof; nothing happens when it runs.
    pub fn recall_consistent(&self)
        ensures
            self@.consistent(),
    {
        proof {
            use_type_invariant(self);
        }
    }

    /// Gets the header.
    pub fn get_header(&self) -> (r: &Header)
        ensures
            r@ == self@.header,
    {
        &self.header
    }

    /// Gets the string identifiers, in file order.
    pub fn get_strings(&self) -> (r: &[StringId])
        ensures
            r@ == self@.strings,
    {
        self.strings.as_slice()
    }

    /// Gets the type identifiers, in file order.
    pub fn get_types(&self) -> (r: &[TypeId])
        ensures
            r@ == self@.types,
    {
        self.types.as_slice()
    }

    /// Gets the prototypes, in file order.
    pub fn get_prototypes(&self) -> (r: &[Prototype])
        ensures
            prototype_views(r@) == self@.prototypes,
    {
        self.prototypes.as_slice()
    }

    /// Gets the field identifiers, in file order.
    pub fn get_fields(&self) -> (r: &[Field])
        ensures
            r@ == self@.fields,
    {
        self.fields.as_slice()
    }

    /// Gets the method identifiers, in file order.
    pub fn get_methods(&self) -> (r: &[Method])
        ensures
            r@ == self@.methods,
    {
        self.methods.as_slice()
    }

    /// Gets the class definitions, in file order.
    pub fn get_classes(&self) -> (r: &[ClassDef])
        ensures
            class_def_views(r@) == self@.classes,
    {
        self.classes.as_slice()
    }
}

} // verus!
