use vstd::prelude::*;
use crate::engine::bytes::bit_is_set;
use crate::engine::bytes::get_bit_u32;

verus! {

/// Who can see a type.
#[derive(Clone, Copy, Debug, PartialEq, Eq, Structural)]
pub enum TypeVisibility {
    NotPublic,
    Public,
    NestedPublic,
    NestedPrivate,
    NestedFamily,
    NestedAssembly,
    NestedFamANDAssem,
    NestedFamORAssem,
}

impl TypeVisibility {
    /// The number that stands for this value in the flags.
    pub open spec fn spec_value(self) -> u32 {
        match self {
            TypeVisibility::NotPublic => 0x0,
            TypeVisibility::Public => 0x1,
            TypeVisibility::NestedPublic => 0x2,
            TypeVisibility::NestedPrivate => 0x3,
            TypeVisibility::NestedFamily => 0x4,
            TypeVisibility::NestedAssembly => 0x5,
            TypeVisibility::NestedFamANDAssem => 0x6,
            TypeVisibility::NestedFamORAssem => 0x7,
        }
    }

    /// The value that the number `v` stands for, if it stands for one.
    pub open spec fn spec_from_u32(v: u32) -> Option<TypeVisibility> {
        if v == 0x0 {
            Some(TypeVisibility::NotPublic)
        } else if v == 0x1 {
            Some(TypeVisibility::Public)
        } else if v == 0x2 {
            Some(TypeVisibility::NestedPublic)
        } else if v == 0x3 {
            Some(TypeVisibility::NestedPrivate)
        } else if v == 0x4 {
            Some(TypeVisibility::NestedFamily)
        } else if v == 0x5 {
            Some(TypeVisibility::NestedAssembly)
        } else if v == 0x6 {
            Some(TypeVisibility::NestedFamANDAssem)
        } else if v == 0x7 {
            Some(TypeVisibility::NestedFamORAssem)
        } else {
            None
        }
    }

    /// The number that stands for this value in the flags.
    pub fn value(self) -> (r: u32)
        ensures
            r == self.spec_value(),
            TypeVisibility::spec_from_u32(r) == Some(self),
    {
        match self {
            TypeVisibility::NotPublic => 0x0,
            TypeVisibility::Public => 0x1,
            TypeVisibility::NestedPublic => 0x2,
            TypeVisibility::NestedPrivate => 0x3,
            TypeVisibility::NestedFamily => 0x4,
            TypeVisibility::NestedAssembly => 0x5,
            TypeVisibility::NestedFamANDAssem => 0x6,
            TypeVisibility::NestedFamORAssem => 0x7,
        }
    }

    /// The value that the number `v` stands for, if it stands for one.
    pub fn from_u32(v: u32) -> (r: Option<TypeVisibility>)
        ensures
            r == TypeVisibility::spec_from_u32(v),
    {
        match v {
            0x0 => Some(TypeVisibility::NotPublic),
            0x1 => Some(TypeVisibility::Public),
            0x2 => Some(TypeVisibility::NestedPublic),
            0x3 => Some(TypeVisibility::NestedPrivate),
            0x4 => Some(TypeVisibility::NestedFamily),
            0x5 => Some(TypeVisibility::NestedAssembly),
            0x6 => Some(TypeVisibility::NestedFamANDAssem),
            0x7 => Some(TypeVisibility::NestedFamORAssem),
            _ => None,
        }
    }
}

/// How the fields of a type are laid out.
#[derive(Clone, Copy, Debug, PartialEq, Eq, Structural)]
pub enum TypeLayout {
    AutoLayout,
    SequentialLayout,
    ExplicitLayout,
}

impl TypeLayout {
    /// The number that stands for this value in the flags.
    pub open spec fn spec_value(self) -> u32 {
        match self {
            TypeLayout::AutoLayout => 0x0,
            TypeLayout::SequentialLayout => 0x8,
            TypeLayout::ExplicitLayout => 0x10,
        }
    }

    /// The value that the number `v` stands for, if it stands for one.
    pub open spec fn spec_from_u32(v: u32) -> Option<TypeLayout> {
        if v == 0x0 {
            Some(TypeLayout::AutoLayout)
        } else if v == 0x8 {
            Some(TypeLayout::SequentialLayout)
        } else if v == 0x10 {
            Some(TypeLayout::ExplicitLayout)
        } else {
            None
        }
    }

    /// The number that stands for this value in the flags.
    pub fn value(self) -> (r: u32)
        ensures
            r == self.spec_value(),
            TypeLayout::spec_from_u32(r) == Some(self),
    {
        match self {
            TypeLayout::AutoLayout => 0x0,
            TypeLayout::SequentialLayout => 0x8,
            TypeLayout::ExplicitLayout => 0x10,
        }
    }

    /// The value that the number `v` stands for, if it stands for one.
    pub fn from_u32(v: u32) -> (r: Option<TypeLayout>)
        ensures
            r == TypeLayout::spec_from_u32(v),
    {
        match v {
            0x0 => Some(TypeLayout::AutoLayout),
            0x8 => Some(TypeLayout::SequentialLayout),
            0x10 => Some(TypeLayout::ExplicitLayout),
            _ => None,
        }
    }
}

/// Whether a type is a class or an interface.
#[derive(Clone, Copy, Debug, PartialEq, Eq, Structural)]
pub enum TypeSemantics {
    Class,
    Interface,
}

impl TypeSemantics {
    /// The number that stands for this value in the flags.
    pub open spec fn spec_value(self) -> u32 {
        match self {
            TypeSemantics::Class => 0x0,
            TypeSemantics::Interface => 0x20,
        }
    }

    /// The value that the number `v` stands for, if it stands for one.
    pub open spec fn spec_from_u32(v: u32) -> Option<TypeSemantics> {
        if v == 0x0 {
            Some(TypeSemantics::Class)
        } else if v == 0x20 {
            Some(TypeSemantics::Interface)
        } else {
            None
        }
    }

    /// The number that stands for this value in the flags.
    pub fn value(self) -> (r: u32)
        ensures
            r == self.spec_value(),
            TypeSemantics::spec_from_u32(r) == Some(self),
    {
        match self {
            TypeSemantics::Class => 0x0,
            TypeSemantics::Interface => 0x20,
        }
    }

    /// The value that the number `v` stands for, if it stands for one.
    pub fn from_u32(v: u32) -> (r: Option<TypeSemantics>)
        ensures
            r == TypeSemantics::spec_from_u32(v),
    {
        match v {
            0x0 => Some(TypeSemantics::Class),
            0x20 => Some(TypeSemantics::Interface),
            _ => None,
        }
    }
}

/// How strings are handed to native code.
#[derive(Clone, Copy, Debug, PartialEq, Eq, Structural)]
pub enum StringFormat {
    AnsiClass,
    UnicodeClass,
    AutoClass,
    CustomFormatClass,
    CustomFormatMask,
}

impl StringFormat {
    /// The number that stands for this value in the flags.
    pub open spec fn spec_value(self) -> u32 {
        match self {
            StringFormat::AnsiClass => 0x0,
            StringFormat::UnicodeClass => 0x10000,
            StringFormat::AutoClass => 0x20000,
            StringFormat::CustomFormatClass => 0x30000,
            StringFormat::CustomFormatMask => 0xc00000,
        }
    }

    /// The value that the number `v` stands for, if it stands for one.
    pub open spec fn spec_from_u32(v: u32) -> Option<StringFormat> {
        if v == 0x0 {
            Some(StringFormat::AnsiClass)
        } else if v == 0x10000 {
            Some(StringFormat::UnicodeClass)
        } else if v == 0x20000 {
            Some(StringFormat::AutoClass)
        } else if v == 0x30000 {
            Some(StringFormat::CustomFormatClass)
        } else if v == 0xc00000 {
            Some(StringFormat::CustomFormatMask)
        } else {
            None
        }
    }

    /// The number that stands for this value in the flags.
    pub fn value(self) -> (r: u32)
        ensures
            r == self.spec_value(),
            StringFormat::spec_from_u32(r) == Some(self),
    {
        match self {
            StringFormat::AnsiClass => 0x0,
            StringFormat::UnicodeClass => 0x10000,
            StringFormat::AutoClass => 0x20000,
            StringFormat::CustomFormatClass => 0x30000,
            StringFormat::CustomFormatMask => 0xc00000,
        }
    }

    /// The value that the number `v` stands for, if it stands for one.
    pub fn from_u32(v: u32) -> (r: Option<StringFormat>)
        ensures
            r == StringFormat::spec_from_u32(v),
    {
        match v {
            0x0 => Some(StringFormat::AnsiClass),
            0x10000 => Some(StringFormat::UnicodeClass),
            0x20000 => Some(StringFormat::AutoClass),
            0x30000 => Some(StringFormat::CustomFormatClass),
            0xc00000 => Some(StringFormat::CustomFormatMask),
            _ => None,
        }
    }
}

/// The flags of a type definition.
#[derive(Clone, Copy, Debug, PartialEq, Eq, Structural)]
pub struct TypeAttributes(pub u32);

impl TypeAttributes {
    /// Who can see the type.
    pub fn visibility(&self) -> (r: TypeVisibility)
        ensures
            Some(r) == TypeVisibility::spec_from_u32(self.0 & 0x7),
    {
        let raw = self.0;
        assert(raw & 0x7u32 <= 7) by (bit_vector);
        match TypeVisibility::from_u32(self.0 & 0x7) {
            Some(v) => v,
            None => TypeVisibility::NotPublic,
        }
    }

    /// How the fields of the type are laid out. The two layout bits are never both set.
    pub fn layout(&self) -> (r: TypeLayout)
        requires
            TypeLayout::spec_from_u32(self.0 & 0x18) is Some,
        ensures
            Some(r) == TypeLayout::spec_from_u32(self.0 & 0x18),
    {
        match TypeLayout::from_u32(self.0 & 0x18) {
            Some(v) => v,
            None => TypeLayout::AutoLayout,
        }
    }

    /// Whether the type is a class or an interface.
    pub fn semantics(&self) -> (r: TypeSemantics)
        ensures
            Some(r) == TypeSemantics::spec_from_u32(self.0 & 0x20),
    {
        let raw = self.0;
        assert(raw & 0x20u32 == 0 || raw & 0x20u32 == 0x20) by (bit_vector);
        match TypeSemantics::from_u32(self.0 & 0x20) {
            Some(v) => v,
            None => TypeSemantics::Class,
        }
    }

    /// The type is abstract.
    pub fn abstract_(&self) -> (r: bool)
        ensures
            r == bit_is_set(self.0, 7),
    {
        get_bit_u32(self.0, 7)
    }

    /// The type cannot be derived from.
    pub fn sealed(&self) -> (r: bool)
        ensures
            r == bit_is_set(self.0, 8),
    {
        get_bit_u32(self.0, 8)
    }

    /// The name of the type is special.
    pub fn special_name(&self) -> (r: bool)
        ensures
            r == bit_is_set(self.0, 10),
    {
        get_bit_u32(self.0, 10)
    }

    /// The type is imported.
    pub fn import(&self) -> (r: bool)
        ensures
            r == bit_is_set(self.0, 12),
    {
        get_bit_u32(self.0, 12)
    }

    /// The type can be serialized.
    pub fn serializable(&self) -> (r: bool)
        ensures
            r == bit_is_set(self.0, 13),
    {
        get_bit_u32(self.0, 13)
    }

    /// The type is a Windows Runtime type.
    pub fn windows_runtime(&self) -> (r: bool)
        ensures
            r == bit_is_set(self.0, 14),
    {
        get_bit_u32(self.0, 14)
    }

    /// How strings are handed to native code.
    pub fn string_format(&self) -> (r: StringFormat)
        ensures
            Some(r) == StringFormat::spec_from_u32(self.0 & 0x30000),
    {
        let raw = self.0;
        assert(raw & 0x30000u32 == 0 || raw & 0x30000u32 == 0x10000 || raw & 0x30000u32 == 0x20000 || raw & 0x30000u32 == 0x30000) by (bit_vector);
        match StringFormat::from_u32(self.0 & 0x30000) {
            Some(v) => v,
            None => StringFormat::AnsiClass,
        }
    }

    /// The type is initialised before the first access to a static field.
    pub fn before_field_init(&self) -> (r: bool)
        ensures
            r == bit_is_set(self.0, 20),
    {
        get_bit_u32(self.0, 20)
    }

    /// The runtime checks the encoding of the name.
    pub fn rt_special_name(&self) -> (r: bool)
        ensures
            r == bit_is_set(self.0, 11),
    {
        get_bit_u32(self.0, 11)
    }

    /// The type has security attached.
    pub fn has_security(&self) -> (r: bool)
        ensures
            r == bit_is_set(self.0, 18),
    {
        get_bit_u32(self.0, 18)
    }

    /// The type is a forwarder to a type in another assembly.
    pub fn is_type_forwarder(&self) -> (r: bool)
        ensures
            r == bit_is_set(self.0, 21),
    {
        get_bit_u32(self.0, 21)
    }

}

} // verus!
