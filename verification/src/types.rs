//! The fixed-width records of the six identifier tables.

use crate::error::Error;
use vstd::prelude::*;

verus! {

/// The value that stands for "no index" where a type or string index may be absent.
pub const NO_INDEX: u32 = 0xffff_ffff;

/// Visible everywhere.
pub const ACC_PUBLIC: u32 = 0x1;

/// Visible only to the defining class.
pub const ACC_PRIVATE: u32 = 0x2;

/// Visible to the package and to subclasses.
pub const ACC_PROTECTED: u32 = 0x4;

/// Not constructed with an outer `this` reference.
pub const ACC_STATIC: u32 = 0x8;

/// Not subclassable.
pub const ACC_FINAL: u32 = 0x10;

/// An interface.
pub const ACC_INTERFACE: u32 = 0x200;

/// Not directly instantiable.
pub const ACC_ABSTRACT: u32 = 0x400;

/// Not directly defined in source code.
pub const ACC_SYNTHETIC: u32 = 0x1000;

/// An annotation class.
pub const ACC_ANNOTATION: u32 = 0x2000;

/// An enumerated type.
pub const ACC_ENUM: u32 = 0x4000;

/// The access flags of a class, bit by bit as the file holds them. Bits without a
/// meaning at this level are kept as they are.
#[derive(Clone, Copy, Debug, PartialEq, Eq, Structural)]
pub struct AccessFlags {
    pub bits: u32,
}

impl AccessFlags {
    /// The flags whose bits are those of `bits`, all of them.
    pub fn from_bits_retain(bits: u32) -> (r: AccessFlags)
        ensures
            r.bits == bits,
    {
        AccessFlags { bits }
    }

    /// The bits of the flags.
    pub fn bits(&self) -> (r: u32)
        ensures
            r == self.bits,
    {
        self.bits
    }

    /// Whether every bit of `mask` is set.
    pub fn contains(&self, mask: u32) -> (r: bool)
        ensures
            r == (self.bits & mask == mask),
    {
        self.bits & mask == mask
    }
}

/// An entry of the string identifiers table.
#[derive(Clone, Copy, Debug, PartialEq, Eq, Structural)]
pub struct StringId {
    /// Where the string's data starts, from the start of the file.
    pub offset: u32,
}

/// An entry of the type identifiers table.
#[derive(Clone, Copy, Debug, PartialEq, Eq, Structural)]
pub struct TypeId {
    /// The index of the type's descriptor in the string identifiers table.
    pub descriptor_id: u32,
}

/// An entry of the field identifiers table.
#[derive(Clone, Copy, Debug, PartialEq, Eq, Structural)]
pub struct Field {
    /// The index of the defining class in the type identifiers table.
    pub class_id: u16,
    /// The index of the field's type in the type identifiers table.
    pub type_id: u16,
    /// The index of the field's name in the string identifiers table.
    pub name_id: u32,
}

/// An entry of the method identifiers table.
#[derive(Clone, Copy, Debug, PartialEq, Eq, Structural)]
pub struct Method {
    /// The index of the defining class in the type identifiers table.
    pub class_id: u16,
    /// The index of the method's prototype in the prototype identifiers table.
    pub prototype_id: u16,
    /// The index of the method's name in the string identifiers table.
    pub name_id: u32,
}

/// An offset as a record holds it: zero where there is nothing to point at.
pub open spec fn offset_of(raw: u32) -> Option<u32> {
    if raw == 0 {
        None
    } else {
        Some(raw)
    }
}

/// An index as a record holds it: `NO_INDEX` where there is nothing to name.
pub open spec fn index_of(raw: u32) -> Option<u32> {
    if raw == NO_INDEX {
        None
    } else {
        Some(raw)
    }
}

/// Reads an offset as a record holds it: zero stands for none.
fn optional_offset(raw: u32) -> (r: Option<u32>)
    ensures
        r == offset_of(raw),
{
    if raw == 0 {
        None
    } else {
        Some(raw)
    }
}

/// Reads an index as a record holds it: `NO_INDEX` stands for none.
fn optional_index(raw: u32) -> (r: Option<u32>)
    ensures
        r == index_of(raw),
{
    if raw == NO_INDEX {
        None
    } else {
        Some(raw)
    }
}

/// What an entry of the prototype identifiers table holds.
pub struct PrototypeView {
    pub shorty_id: u32,
    pub return_type_id: u32,
    pub parameters_offset: Option<u32>,
}

/// An entry of the prototype identifiers table. An offset that is present is never zero.
#[derive(Clone, Copy, Debug, PartialEq, Eq)]
pub struct Prototype {
    shorty_id: u32,
    return_type_id: u32,
    parameters_offset: Option<u32>,
}

impl View for Prototype {
    type V = PrototypeView;

    closed spec fn view(&self) -> PrototypeView {
        PrototypeView {
            shorty_id: self.shorty_id,
            return_type_id: self.return_type_id,
            parameters_offset: self.parameters_offset,
        }
    }
}

impl PrototypeView {
    /// The prototype that a record of these three words stands for.
    pub open spec fn from_raw(shorty_id: u32, return_type_id: u32, parameters_offset: u32) -> Self {
        PrototypeView {
            shorty_id,
            return_type_id,
            parameters_offset: offset_of(parameters_offset),
        }
    }
}

impl Prototype {
    #[verifier::type_invariant]
    spec fn well_formed(self) -> bool {
        self.parameters_offset != Some(0u32)
    }

    /// The prototype that a record of these three words stands for.
    pub fn new(shorty_id: u32, return_type_id: u32, parameters_offset: u32) -> (r: Prototype)
        ensures
            r@ == PrototypeView::from_raw(shorty_id, return_type_id, parameters_offset),
    {
        Prototype {
            shorty_id,
            return_type_id,
            parameters_offset: optional_offset(parameters_offset),
        }
    }

    /// The index, in the string identifiers table, of the short-form descriptor.
    pub fn get_shorty_id(&self) -> (r: u32)
        ensures
            r == self@.shorty_id,
    {
        self.shorty_id
    }

    /// The index, in the type identifiers table, of the return type.
    pub fn get_return_type_id(&self) -> (r: u32)
        ensures
            r == self@.return_type_id,
    {
        self.return_type_id
    }

    /// The offset of the list of parameter types, if the prototype has parameters.
    pub fn get_parameters_offset(&self) -> (r: Option<u32>)
        ensures
            r == self@.parameters_offset,
            r != Some(0u32),
    {
        proof {
            use_type_invariant(self);
        }
        self.parameters_offset
    }
}

/// What a class definition holds.
pub struct ClassDefView {
    pub class_id: u32,
    pub access_flags: AccessFlags,
    pub superclass_id: Option<u32>,
    pub interfaces_offset: Option<u32>,
    pub source_file_id: Option<u32>,
    pub annotations_offset: Option<u32>,
    pub class_data_offset: Option<u32>,
    pub static_values_offset: Option<u32>,
}

impl ClassDefView {
    /// The class definition that a record of these eight words stands for.
    pub open spec fn from_raw(
        class_id: u32,
        access_flags: u32,
        superclass_id: u32,
        interfaces_offset: u32,
        source_file_id: u32,
        annotations_offset: u32,
        class_data_offset: u32,
        static_values_offset: u32,
    ) -> Self {
        ClassDefView {
            class_id,
            access_flags: AccessFlags { bits: access_flags },
            superclass_id: index_of(superclass_id),
            interfaces_offset: offset_of(interfaces_offset),
            source_file_id: index_of(source_file_id),
            annotations_offset: offset_of(annotations_offset),
            class_data_offset: offset_of(class_data_offset),
            static_values_offset: offset_of(static_values_offset),
        }
    }

    /// No index that is present is `NO_INDEX`, and no offset that is present is zero.
    pub open spec fn consistent(self) -> bool {
        &&& self.superclass_id != Some(NO_INDEX)
        &&& self.source_file_id != Some(NO_INDEX)
        &&& self.interfaces_offset != Some(0u32)
        &&& self.annotations_offset != Some(0u32)
        &&& self.class_data_offset != Some(0u32)
        &&& self.static_values_offset != Some(0u32)
    }
}

/// A class definition. An index that is present is never `NO_INDEX`, and an offset that
/// is present is never zero.
#[derive(Clone, Copy, Debug, PartialEq, Eq)]
pub struct ClassDef {
    class_id: u32,
    access_flags: AccessFlags,
    superclass_id: Option<u32>,
    interfaces_offset: Option<u32>,
    source_file_id: Option<u32>,
    annotations_offset: Option<u32>,
    class_data_offset: Option<u32>,
    static_values_offset: Option<u32>,
}

impl View for ClassDef {
    type V = ClassDefView;

    closed spec fn view(&self) -> ClassDefView {
        ClassDefView {
            class_id: self.class_id,
            access_flags: self.access_flags,
            superclass_id: self.superclass_id,
            interfaces_offset: self.interfaces_offset,
            source_file_id: self.source_file_id,
            annotations_offset: self.annotations_offset,
            class_data_offset: self.class_data_offset,
            static_values_offset: self.static_values_offset,
        }
    }
}

impl ClassDef {
    #[verifier::type_invariant]
    spec fn well_formed(self) -> bool {
        self@.consistent()
    }

    /// The class definition that a record of these eight words stands for.
    ///
    /// Every word has one reading: a value that stands for "none" gives an absent
    /// field, any other a present one, and the access flags are kept bit by bit. So no
    /// record is turned down.
    pub fn new(
        class_id: u32,
        access_flags: u32,
        superclass_id: u32,
        interfaces_offset: u32,
        source_file_id: u32,
        annotations_offset: u32,
        class_data_offset: u32,
        static_values_offset: u32,
    ) -> (r: Result<ClassDef, Error>)
        ensures
            r is Ok,
            r->Ok_0@ == ClassDefView::from_raw(
                class_id,
                access_flags,
                superclass_id,
                interfaces_offset,
                source_file_id,
                annotations_offset,
                class_data_offset,
                static_values_offset,
            ),
    {
        Ok(
            ClassDef {
                class_id,
                access_flags: AccessFlags::from_bits_retain(access_flags),
                superclass_id: optional_index(superclass_id),
                interfaces_offset: optional_offset(interfaces_offset),
                source_file_id: optional_index(source_file_id),
                annotations_offset: optional_offset(annotations_offset),
                class_data_offset: optional_offset(class_data_offset),
                static_values_offset: optional_offset(static_values_offset),
            },
        )
    }
}


impl ClassDef {
    /// The index of the class in the type identifiers table.
    pub fn get_class_id(&self) -> (r: u32)
        ensures
            r == self@.class_id,
    {
        self.class_id
    }

    /// The access flags of the class, unknown bits included.
    pub fn get_access_flags(&self) -> (r: AccessFlags)
        ensures
            r == self@.access_flags,
    {
        self.access_flags
    }

    /// The index of the superclass in the type identifiers table, if the class has one.
    pub fn get_superclass_id(&self) -> (r: Option<u32>)
        ensures
            r == self@.superclass_id,
            r != Some(NO_INDEX),
    {
        proof {
            use_type_invariant(self);
        }
        self.superclass_id
    }

    /// The offset of the list of interfaces, if the class has any.
    pub fn get_interfaces_offset(&self) -> (r: Option<u32>)
        ensures
            r == self@.interfaces_offset,
            r != Some(0u32),
    {
        proof {
            use_type_invariant(self);
        }
        self.interfaces_offset
    }

    /// The index of the name of the source file in the string identifiers table, if it is known.
    pub fn get_source_file_id(&self) -> (r: Option<u32>)
        ensures
            r == self@.source_file_id,
            r != Some(NO_INDEX),
    {
        proof {
            use_type_invariant(self);
        }
        self.source_file_id
    }

    /// The offset of the annotations of the class, if it has any.
    pub fn get_annotations_offset(&self) -> (r: Option<u32>)
        ensures
            r == self@.annotations_offset,
            r != Some(0u32),
    {
        proof {
            use_type_invariant(self);
        }
        self.annotations_offset
    }

    /// The offset of the data of the class, if it has any.
    pub fn get_class_data_offset(&self) -> (r: Option<u32>)
        ensures
            r == self@.class_data_offset,
            r != Some(0u32),
    {
        proof {
            use_type_invariant(self);
        }
        self.class_data_offset
    }

    /// The offset of the initial values of the static fields, if there are any.
    pub fn get_static_values_offset(&self) -> (r: Option<u32>)
        ensures
            r == self@.static_values_offset,
            r != Some(0u32),
    {
        proof {
            use_type_invariant(self);
        }
        self.static_values_offset
    }
}

} // verus!
