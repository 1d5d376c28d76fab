use vstd::prelude::*;

verus! {

/// The number of table numbers that the format knows: the highest is 0x2c.
pub const TABLE_SLOTS: usize = 45;

/// The tables of the metadata, each with the number that the format gives it.
#[derive(Clone, Copy, Debug, PartialEq, Eq, Structural)]
pub enum TableId {
    Module,
    TypeRef,
    TypeDef,
    Field,
    MethodDef,
    Param,
    InterfaceImpl,
    MemberRef,
    Constant,
    CustomAttribute,
    FieldMarshal,
    DeclSecurity,
    ClassLayout,
    FieldLayout,
    StandAloneSig,
    EventMap,
    Event,
    PropertyMap,
    Property,
    MethodSemantics,
    MethodImpl,
    ModuleRef,
    TypeSpec,
    ImplMap,
    FieldRVA,
    Assembly,
    AssemblyProcessor,
    AssemblyOS,
    AssemblyRef,
    AssemblyRefProcessor,
    AssemblyRefOS,
    File,
    ExportedType,
    ManifestResource,
    NestedClass,
    GenericParam,
    MethodSpec,
    GenericParamConstraint,
}

impl TableId {
    /// The number of this table in the mask of valid tables.
    pub open spec fn spec_number(self) -> int {
        match self {
            TableId::Module => 0x00,
            TableId::TypeRef => 0x01,
            TableId::TypeDef => 0x02,
            TableId::Field => 0x04,
            TableId::MethodDef => 0x06,
            TableId::Param => 0x08,
            TableId::InterfaceImpl => 0x09,
            TableId::MemberRef => 0x0a,
            TableId::Constant => 0x0b,
            TableId::CustomAttribute => 0x0c,
            TableId::FieldMarshal => 0x0d,
            TableId::DeclSecurity => 0x0e,
            TableId::ClassLayout => 0x0f,
            TableId::FieldLayout => 0x10,
            TableId::StandAloneSig => 0x11,
            TableId::EventMap => 0x12,
            TableId::Event => 0x14,
            TableId::PropertyMap => 0x15,
            TableId::Property => 0x17,
            TableId::MethodSemantics => 0x18,
            TableId::MethodImpl => 0x19,
            TableId::ModuleRef => 0x1a,
            TableId::TypeSpec => 0x1b,
            TableId::ImplMap => 0x1c,
            TableId::FieldRVA => 0x1d,
            TableId::Assembly => 0x20,
            TableId::AssemblyProcessor => 0x21,
            TableId::AssemblyOS => 0x22,
            TableId::AssemblyRef => 0x23,
            TableId::AssemblyRefProcessor => 0x24,
            TableId::AssemblyRefOS => 0x25,
            TableId::File => 0x26,
            TableId::ExportedType => 0x27,
            TableId::ManifestResource => 0x28,
            TableId::NestedClass => 0x29,
            TableId::GenericParam => 0x2a,
            TableId::MethodSpec => 0x2b,
            TableId::GenericParamConstraint => 0x2c,
        }
    }

    /// The table with the number `n`, if the format has one.
    pub open spec fn spec_from_number(n: int) -> Option<TableId> {
        if n == 0x00 {
            Some(TableId::Module)
        } else if n == 0x01 {
            Some(TableId::TypeRef)
        } else if n == 0x02 {
            Some(TableId::TypeDef)
        } else if n == 0x04 {
            Some(TableId::Field)
        } else if n == 0x06 {
            Some(TableId::MethodDef)
        } else if n == 0x08 {
            Some(TableId::Param)
        } else if n == 0x09 {
            Some(TableId::InterfaceImpl)
        } else if n == 0x0a {
            Some(TableId::MemberRef)
        } else if n == 0x0b {
            Some(TableId::Constant)
        } else if n == 0x0c {
            Some(TableId::CustomAttribute)
        } else if n == 0x0d {
            Some(TableId::FieldMarshal)
        } else if n == 0x0e {
            Some(TableId::DeclSecurity)
        } else if n == 0x0f {
            Some(TableId::ClassLayout)
        } else if n == 0x10 {
            Some(TableId::FieldLayout)
        } else if n == 0x11 {
            Some(TableId::StandAloneSig)
        } else if n == 0x12 {
            Some(TableId::EventMap)
        } else if n == 0x14 {
            Some(TableId::Event)
        } else if n == 0x15 {
            Some(TableId::PropertyMap)
        } else if n == 0x17 {
            Some(TableId::Property)
        } else if n == 0x18 {
            Some(TableId::MethodSemantics)
        } else if n == 0x19 {
            Some(TableId::MethodImpl)
        } else if n == 0x1a {
            Some(TableId::ModuleRef)
        } else if n == 0x1b {
            Some(TableId::TypeSpec)
        } else if n == 0x1c {
            Some(TableId::ImplMap)
        } else if n == 0x1d {
            Some(TableId::FieldRVA)
        } else if n == 0x20 {
            Some(TableId::Assembly)
        } else if n == 0x21 {
            Some(TableId::AssemblyProcessor)
        } else if n == 0x22 {
            Some(TableId::AssemblyOS)
        } else if n == 0x23 {
            Some(TableId::AssemblyRef)
        } else if n == 0x24 {
            Some(TableId::AssemblyRefProcessor)
        } else if n == 0x25 {
            Some(TableId::AssemblyRefOS)
        } else if n == 0x26 {
            Some(TableId::File)
        } else if n == 0x27 {
            Some(TableId::ExportedType)
        } else if n == 0x28 {
            Some(TableId::ManifestResource)
        } else if n == 0x29 {
            Some(TableId::NestedClass)
        } else if n == 0x2a {
            Some(TableId::GenericParam)
        } else if n == 0x2b {
            Some(TableId::MethodSpec)
        } else if n == 0x2c {
            Some(TableId::GenericParamConstraint)
        } else {
            None
        }
    }

    pub proof fn lemma_number_round_trip(self)
        ensures
            0 <= self.spec_number() < TABLE_SLOTS,
            TableId::spec_from_number(self.spec_number()) == Some(self),
    {
    }

    /// The number of this table in the mask of valid tables.
    pub fn number(self) -> (r: usize)
        ensures
            r == self.spec_number(),
            r < TABLE_SLOTS,
    {
        match self {
            TableId::Module => 0x00,
            TableId::TypeRef => 0x01,
            TableId::TypeDef => 0x02,
            TableId::Field => 0x04,
            TableId::MethodDef => 0x06,
            TableId::Param => 0x08,
            TableId::InterfaceImpl => 0x09,
            TableId::MemberRef => 0x0a,
            TableId::Constant => 0x0b,
            TableId::CustomAttribute => 0x0c,
            TableId::FieldMarshal => 0x0d,
            TableId::DeclSecurity => 0x0e,
            TableId::ClassLayout => 0x0f,
            TableId::FieldLayout => 0x10,
            TableId::StandAloneSig => 0x11,
            TableId::EventMap => 0x12,
            TableId::Event => 0x14,
            TableId::PropertyMap => 0x15,
            TableId::Property => 0x17,
            TableId::MethodSemantics => 0x18,
            TableId::MethodImpl => 0x19,
            TableId::ModuleRef => 0x1a,
            TableId::TypeSpec => 0x1b,
            TableId::ImplMap => 0x1c,
            TableId::FieldRVA => 0x1d,
            TableId::Assembly => 0x20,
            TableId::AssemblyProcessor => 0x21,
            TableId::AssemblyOS => 0x22,
            TableId::AssemblyRef => 0x23,
            TableId::AssemblyRefProcessor => 0x24,
            TableId::AssemblyRefOS => 0x25,
            TableId::File => 0x26,
            TableId::ExportedType => 0x27,
            TableId::ManifestResource => 0x28,
            TableId::NestedClass => 0x29,
            TableId::GenericParam => 0x2a,
            TableId::MethodSpec => 0x2b,
            TableId::GenericParamConstraint => 0x2c,
        }
    }

    /// The table with the number `n`, if the format has one.
    pub fn from_number(n: usize) -> (r: Option<TableId>)
        ensures
            r == TableId::spec_from_number(n as int),
    {
        match n {
            0x00 => Some(TableId::Module),
            0x01 => Some(TableId::TypeRef),
            0x02 => Some(TableId::TypeDef),
            0x04 => Some(TableId::Field),
            0x06 => Some(TableId::MethodDef),
            0x08 => Some(TableId::Param),
            0x09 => Some(TableId::InterfaceImpl),
            0x0a => Some(TableId::MemberRef),
            0x0b => Some(TableId::Constant),
            0x0c => Some(TableId::CustomAttribute),
            0x0d => Some(TableId::FieldMarshal),
            0x0e => Some(TableId::DeclSecurity),
            0x0f => Some(TableId::ClassLayout),
            0x10 => Some(TableId::FieldLayout),
            0x11 => Some(TableId::StandAloneSig),
            0x12 => Some(TableId::EventMap),
            0x14 => Some(TableId::Event),
            0x15 => Some(TableId::PropertyMap),
            0x17 => Some(TableId::Property),
            0x18 => Some(TableId::MethodSemantics),
            0x19 => Some(TableId::MethodImpl),
            0x1a => Some(TableId::ModuleRef),
            0x1b => Some(TableId::TypeSpec),
            0x1c => Some(TableId::ImplMap),
            0x1d => Some(TableId::FieldRVA),
            0x20 => Some(TableId::Assembly),
            0x21 => Some(TableId::AssemblyProcessor),
            0x22 => Some(TableId::AssemblyOS),
            0x23 => Some(TableId::AssemblyRef),
            0x24 => Some(TableId::AssemblyRefProcessor),
            0x25 => Some(TableId::AssemblyRefOS),
            0x26 => Some(TableId::File),
            0x27 => Some(TableId::ExportedType),
            0x28 => Some(TableId::ManifestResource),
            0x29 => Some(TableId::NestedClass),
            0x2a => Some(TableId::GenericParam),
            0x2b => Some(TableId::MethodSpec),
            0x2c => Some(TableId::GenericParamConstraint),
            _ => None,
        }
    }

    /// The column by which the rows of this table are sorted, for the tables
    /// that are looked up by key.
    pub open spec fn spec_key_column(self) -> Option<int> {
        match self {
            TableId::InterfaceImpl => Some(0),
            TableId::Constant => Some(1),
            TableId::CustomAttribute => Some(0),
            TableId::FieldMarshal => Some(0),
            TableId::DeclSecurity => Some(1),
            TableId::ClassLayout => Some(2),
            TableId::FieldLayout => Some(1),
            TableId::MethodSemantics => Some(2),
            TableId::MethodImpl => Some(0),
            TableId::ImplMap => Some(1),
            TableId::FieldRVA => Some(1),
            TableId::NestedClass => Some(0),
            TableId::GenericParam => Some(2),
            TableId::GenericParamConstraint => Some(0),
            _ => None,
        }
    }

    /// The column by which the rows of this table are sorted, for the tables
    /// that are looked up by key.
    pub fn key_column(self) -> (r: Option<usize>)
        ensures
            r is Some == self.spec_key_column() is Some,
            r matches Some(c) ==> self.spec_key_column() == Some(c as int),
    {
        match self {
            TableId::InterfaceImpl => Some(0),
            TableId::Constant => Some(1),
            TableId::CustomAttribute => Some(0),
            TableId::FieldMarshal => Some(0),
            TableId::DeclSecurity => Some(1),
            TableId::ClassLayout => Some(2),
            TableId::FieldLayout => Some(1),
            TableId::MethodSemantics => Some(2),
            TableId::MethodImpl => Some(0),
            TableId::ImplMap => Some(1),
            TableId::FieldRVA => Some(1),
            TableId::NestedClass => Some(0),
            TableId::GenericParam => Some(2),
            TableId::GenericParamConstraint => Some(0),
            _ => None,
        }
    }
}

/// The kinds of coded index: each packs a tag, which picks one of a fixed
/// set of tables, and a row number into one integer.
#[derive(Clone, Copy, Debug, PartialEq, Eq, Structural)]
pub enum CodedIndexKind {
    TypeDefOrRef,
    HasConstant,
    HasCustomAttribute,
    HasFieldMarshal,
    HasDeclSecurity,
    MemberRefParent,
    HasSemantics,
    MethodDefOrRef,
    MemberForwarded,
    Implementation,
    CustomAttributeType,
    ResolutionScope,
    TypeOrMethodDef,
}

impl CodedIndexKind {
    /// How many low bits of the encoding hold the tag.
    pub open spec fn spec_tag_bits(self) -> int {
        match self {
            CodedIndexKind::TypeDefOrRef => 2,
            CodedIndexKind::HasConstant => 2,
            CodedIndexKind::HasCustomAttribute => 5,
            CodedIndexKind::HasFieldMarshal => 1,
            CodedIndexKind::HasDeclSecurity => 2,
            CodedIndexKind::MemberRefParent => 3,
            CodedIndexKind::HasSemantics => 1,
            CodedIndexKind::MethodDefOrRef => 1,
            CodedIndexKind::MemberForwarded => 1,
            CodedIndexKind::Implementation => 2,
            CodedIndexKind::CustomAttributeType => 3,
            CodedIndexKind::ResolutionScope => 2,
            CodedIndexKind::TypeOrMethodDef => 1,
        }
    }

    /// The table that the tag `tag` picks, if the tag is in use.
    pub open spec fn spec_target(self, tag: int) -> Option<TableId> {
        match self {
            CodedIndexKind::TypeDefOrRef => {
                if tag == 0 {
                    Some(TableId::TypeDef)
                } else if tag == 1 {
                    Some(TableId::TypeRef)
                } else if tag == 2 {
                    Some(TableId::TypeSpec)
                } else {
                    None
                }
            },
            CodedIndexKind::HasConstant => {
                if tag == 0 {
                    Some(TableId::Field)
                } else if tag == 1 {
                    Some(TableId::Param)
                } else if tag == 2 {
                    Some(TableId::Property)
                } else {
                    None
                }
            },
            CodedIndexKind::HasCustomAttribute => {
                if tag == 0 {
                    Some(TableId::MethodDef)
                } else if tag == 1 {
                    Some(TableId::Field)
                } else if tag == 2 {
                    Some(TableId::TypeRef)
                } else if tag == 3 {
                    Some(TableId::TypeDef)
                } else if tag == 4 {
                    Some(TableId::Param)
                } else if tag == 5 {
                    Some(TableId::InterfaceImpl)
                } else if tag == 6 {
                    Some(TableId::MemberRef)
                } else if tag == 7 {
                    Some(TableId::Module)
                } else if tag == 9 {
                    Some(TableId::Property)
                } else if tag == 10 {
                    Some(TableId::Event)
                } else if tag == 11 {
                    Some(TableId::StandAloneSig)
                } else if tag == 12 {
                    Some(TableId::ModuleRef)
                } else if tag == 13 {
                    Some(TableId::TypeSpec)
                } else if tag == 14 {
                    Some(TableId::Assembly)
                } else if tag == 15 {
                    Some(TableId::AssemblyRef)
                } else if tag == 16 {
                    Some(TableId::File)
                } else if tag == 17 {
                    Some(TableId::ExportedType)
                } else if tag == 18 {
                    Some(TableId::ManifestResource)
                } else if tag == 19 {
                    Some(TableId::GenericParam)
                } else if tag == 20 {
                    Some(TableId::GenericParamConstraint)
                } else if tag == 21 {
                    Some(TableId::MethodSpec)
                } else {
                    None
                }
            },
            CodedIndexKind::HasFieldMarshal => {
                if tag == 0 {
                    Some(TableId::Field)
                } else if tag == 1 {
                    Some(TableId::Param)
                } else {
                    None
                }
            },
            CodedIndexKind::HasDeclSecurity => {
                if tag == 0 {
                    Some(TableId::TypeDef)
                } else if tag == 1 {
                    Some(TableId::MethodDef)
                } else if tag == 2 {
                    Some(TableId::Assembly)
                } else {
                    None
                }
            },
            CodedIndexKind::MemberRefParent => {
                if tag == 0 {
                    Some(TableId::TypeDef)
                } else if tag == 1 {
                    Some(TableId::TypeRef)
                } else if tag == 2 {
                    Some(TableId::ModuleRef)
                } else if tag == 3 {
                    Some(TableId::MethodDef)
                } else if tag == 4 {
                    Some(TableId::TypeSpec)
                } else {
                    None
                }
            },
            CodedIndexKind::HasSemantics => {
                if tag == 0 {
                    Some(TableId::Event)
                } else if tag == 1 {
                    Some(TableId::Property)
                } else {
                    None
                }
            },
            CodedIndexKind::MethodDefOrRef => {
                if tag == 0 {
                    Some(TableId::MethodDef)
                } else if tag == 1 {
                    Some(TableId::MemberRef)
                } else {
                    None
                }
            },
            CodedIndexKind::MemberForwarded => {
                if tag == 0 {
                    Some(TableId::Field)
                } else if tag == 1 {
                    Some(TableId::MethodDef)
                } else {
                    None
                }
            },
            CodedIndexKind::Implementation => {
                if tag == 0 {
                    Some(TableId::File)
                } else if tag == 1 {
                    Some(TableId::AssemblyRef)
                } else if tag == 2 {
                    Some(TableId::ExportedType)
                } else {
                    None
                }
            },
            CodedIndexKind::CustomAttributeType => {
                if tag == 2 {
                    Some(TableId::MethodDef)
                } else if tag == 3 {
                    Some(TableId::MemberRef)
                } else {
                    None
                }
            },
            CodedIndexKind::ResolutionScope => {
                if tag == 0 {
                    Some(TableId::Module)
                } else if tag == 1 {
                    Some(TableId::ModuleRef)
                } else if tag == 2 {
                    Some(TableId::AssemblyRef)
                } else if tag == 3 {
                    Some(TableId::TypeRef)
                } else {
                    None
                }
            },
            CodedIndexKind::TypeOrMethodDef => {
                if tag == 0 {
                    Some(TableId::TypeDef)
                } else if tag == 1 {
                    Some(TableId::MethodDef)
                } else {
                    None
                }
            },
        }
    }

    /// The tag that picks the table `table`, if this kind can refer to it.
    pub open spec fn spec_tag_of(self, table: TableId) -> Option<int> {
        match self {
            CodedIndexKind::TypeDefOrRef => match table {
                TableId::TypeDef => Some(0),
                TableId::TypeRef => Some(1),
                TableId::TypeSpec => Some(2),
                _ => None,
            },
            CodedIndexKind::HasConstant => match table {
                TableId::Field => Some(0),
                TableId::Param => Some(1),
                TableId::Property => Some(2),
                _ => None,
            },
            CodedIndexKind::HasCustomAttribute => match table {
                TableId::MethodDef => Some(0),
                TableId::Field => Some(1),
                TableId::TypeRef => Some(2),
                TableId::TypeDef => Some(3),
                TableId::Param => Some(4),
                TableId::InterfaceImpl => Some(5),
                TableId::MemberRef => Some(6),
                TableId::Module => Some(7),
                TableId::Property => Some(9),
                TableId::Event => Some(10),
                TableId::StandAloneSig => Some(11),
                TableId::ModuleRef => Some(12),
                TableId::TypeSpec => Some(13),
                TableId::Assembly => Some(14),
                TableId::AssemblyRef => Some(15),
                TableId::File => Some(16),
                TableId::ExportedType => Some(17),
                TableId::ManifestResource => Some(18),
                TableId::GenericParam => Some(19),
                TableId::GenericParamConstraint => Some(20),
                TableId::MethodSpec => Some(21),
                _ => None,
            },
            CodedIndexKind::HasFieldMarshal => match table {
                TableId::Field => Some(0),
                TableId::Param => Some(1),
                _ => None,
            },
            CodedIndexKind::HasDeclSecurity => match table {
                TableId::TypeDef => Some(0),
                TableId::MethodDef => Some(1),
                TableId::Assembly => Some(2),
                _ => None,
            },
            CodedIndexKind::MemberRefParent => match table {
                TableId::TypeDef => Some(0),
                TableId::TypeRef => Some(1),
                TableId::ModuleRef => Some(2),
                TableId::MethodDef => Some(3),
                TableId::TypeSpec => Some(4),
                _ => None,
            },
            CodedIndexKind::HasSemantics => match table {
                TableId::Event => Some(0),
                TableId::Property => Some(1),
                _ => None,
            },
            CodedIndexKind::MethodDefOrRef => match table {
                TableId::MethodDef => Some(0),
                TableId::MemberRef => Some(1),
                _ => None,
            },
            CodedIndexKind::MemberForwarded => match table {
                TableId::Field => Some(0),
                TableId::MethodDef => Some(1),
                _ => None,
            },
            CodedIndexKind::Implementation => match table {
                TableId::File => Some(0),
                TableId::AssemblyRef => Some(1),
                TableId::ExportedType => Some(2),
                _ => None,
            },
            CodedIndexKind::CustomAttributeType => match table {
                TableId::MethodDef => Some(2),
                TableId::MemberRef => Some(3),
                _ => None,
            },
            CodedIndexKind::ResolutionScope => match table {
                TableId::Module => Some(0),
                TableId::ModuleRef => Some(1),
                TableId::AssemblyRef => Some(2),
                TableId::TypeRef => Some(3),
                _ => None,
            },
            CodedIndexKind::TypeOrMethodDef => match table {
                TableId::TypeDef => Some(0),
                TableId::MethodDef => Some(1),
                _ => None,
            },
        }
    }

    /// The tag of a table is the tag that picks it, and no tag is beyond the tag bits.
    pub proof fn lemma_tags(self, tag: int)
        ensures
            1 <= self.spec_tag_bits() <= 5,
            self.spec_target(tag) matches Some(t) ==> self.spec_tag_of(t) == Some(tag) && 0 <= tag
                < 32,
    {
    }

    pub proof fn lemma_tag_of(self, table: TableId)
        ensures
            self.spec_tag_of(table) matches Some(tag) ==> self.spec_target(tag) == Some(table),
    {
    }

    /// How many low bits of the encoding hold the tag.
    pub fn tag_bits(self) -> (r: u8)
        ensures
            r == self.spec_tag_bits(),
            1 <= r <= 5,
    {
        match self {
            CodedIndexKind::TypeDefOrRef => 2,
            CodedIndexKind::HasConstant => 2,
            CodedIndexKind::HasCustomAttribute => 5,
            CodedIndexKind::HasFieldMarshal => 1,
            CodedIndexKind::HasDeclSecurity => 2,
            CodedIndexKind::MemberRefParent => 3,
            CodedIndexKind::HasSemantics => 1,
            CodedIndexKind::MethodDefOrRef => 1,
            CodedIndexKind::MemberForwarded => 1,
            CodedIndexKind::Implementation => 2,
            CodedIndexKind::CustomAttributeType => 3,
            CodedIndexKind::ResolutionScope => 2,
            CodedIndexKind::TypeOrMethodDef => 1,
        }
    }

    /// The table that the tag `tag` picks, if the tag is in use.
    pub fn target(self, tag: u32) -> (r: Option<TableId>)
        ensures
            r == self.spec_target(tag as int),
    {
        match self {
            CodedIndexKind::TypeDefOrRef => match tag {
                0 => Some(TableId::TypeDef),
                1 => Some(TableId::TypeRef),
                2 => Some(TableId::TypeSpec),
                _ => None,
            },
            CodedIndexKind::HasConstant => match tag {
                0 => Some(TableId::Field),
                1 => Some(TableId::Param),
                2 => Some(TableId::Property),
                _ => None,
            },
            CodedIndexKind::HasCustomAttribute => match tag {
                0 => Some(TableId::MethodDef),
                1 => Some(TableId::Field),
                2 => Some(TableId::TypeRef),
                3 => Some(TableId::TypeDef),
                4 => Some(TableId::Param),
                5 => Some(TableId::InterfaceImpl),
                6 => Some(TableId::MemberRef),
                7 => Some(TableId::Module),
                9 => Some(TableId::Property),
                10 => Some(TableId::Event),
                11 => Some(TableId::StandAloneSig),
                12 => Some(TableId::ModuleRef),
                13 => Some(TableId::TypeSpec),
                14 => Some(TableId::Assembly),
                15 => Some(TableId::AssemblyRef),
                16 => Some(TableId::File),
                17 => Some(TableId::ExportedType),
                18 => Some(TableId::ManifestResource),
                19 => Some(TableId::GenericParam),
                20 => Some(TableId::GenericParamConstraint),
                21 => Some(TableId::MethodSpec),
                _ => None,
            },
            CodedIndexKind::HasFieldMarshal => match tag {
                0 => Some(TableId::Field),
                1 => Some(TableId::Param),
                _ => None,
            },
            CodedIndexKind::HasDeclSecurity => match tag {
                0 => Some(TableId::TypeDef),
                1 => Some(TableId::MethodDef),
                2 => Some(TableId::Assembly),
                _ => None,
            },
            CodedIndexKind::MemberRefParent => match tag {
                0 => Some(TableId::TypeDef),
                1 => Some(TableId::TypeRef),
                2 => Some(TableId::ModuleRef),
                3 => Some(TableId::MethodDef),
                4 => Some(TableId::TypeSpec),
                _ => None,
            },
            CodedIndexKind::HasSemantics => match tag {
                0 => Some(TableId::Event),
                1 => Some(TableId::Property),
                _ => None,
            },
            CodedIndexKind::MethodDefOrRef => match tag {
                0 => Some(TableId::MethodDef),
                1 => Some(TableId::MemberRef),
                _ => None,
            },
            CodedIndexKind::MemberForwarded => match tag {
                0 => Some(TableId::Field),
                1 => Some(TableId::MethodDef),
                _ => None,
            },
            CodedIndexKind::Implementation => match tag {
                0 => Some(TableId::File),
                1 => Some(TableId::AssemblyRef),
                2 => Some(TableId::ExportedType),
                _ => None,
            },
            CodedIndexKind::CustomAttributeType => match tag {
                2 => Some(TableId::MethodDef),
                3 => Some(TableId::MemberRef),
                _ => None,
            },
            CodedIndexKind::ResolutionScope => match tag {
                0 => Some(TableId::Module),
                1 => Some(TableId::ModuleRef),
                2 => Some(TableId::AssemblyRef),
                3 => Some(TableId::TypeRef),
                _ => None,
            },
            CodedIndexKind::TypeOrMethodDef => match tag {
                0 => Some(TableId::TypeDef),
                1 => Some(TableId::MethodDef),
                _ => None,
            },
        }
    }

    /// The tag that picks the table `table`, if this kind can refer to it.
    pub fn tag_of(self, table: TableId) -> (r: Option<u32>)
        ensures
            r is Some == self.spec_tag_of(table) is Some,
            r matches Some(tag) ==> self.spec_tag_of(table) == Some(tag as int),
    {
        match self {
            CodedIndexKind::TypeDefOrRef => match table {
                TableId::TypeDef => Some(0),
                TableId::TypeRef => Some(1),
                TableId::TypeSpec => Some(2),
                _ => None,
            },
            CodedIndexKind::HasConstant => match table {
                TableId::Field => Some(0),
                TableId::Param => Some(1),
                TableId::Property => Some(2),
                _ => None,
            },
            CodedIndexKind::HasCustomAttribute => match table {
                TableId::MethodDef => Some(0),
                TableId::Field => Some(1),
                TableId::TypeRef => Some(2),
                TableId::TypeDef => Some(3),
                TableId::Param => Some(4),
                TableId::InterfaceImpl => Some(5),
                TableId::MemberRef => Some(6),
                TableId::Module => Some(7),
                TableId::Property => Some(9),
                TableId::Event => Some(10),
                TableId::StandAloneSig => Some(11),
                TableId::ModuleRef => Some(12),
                TableId::TypeSpec => Some(13),
                TableId::Assembly => Some(14),
                TableId::AssemblyRef => Some(15),
                TableId::File => Some(16),
                TableId::ExportedType => Some(17),
                TableId::ManifestResource => Some(18),
                TableId::GenericParam => Some(19),
                TableId::GenericParamConstraint => Some(20),
                TableId::MethodSpec => Some(21),
                _ => None,
            },
            CodedIndexKind::HasFieldMarshal => match table {
                TableId::Field => Some(0),
                TableId::Param => Some(1),
                _ => None,
            },
            CodedIndexKind::HasDeclSecurity => match table {
                TableId::TypeDef => Some(0),
                TableId::MethodDef => Some(1),
                TableId::Assembly => Some(2),
                _ => None,
            },
            CodedIndexKind::MemberRefParent => match table {
                TableId::TypeDef => Some(0),
                TableId::TypeRef => Some(1),
                TableId::ModuleRef => Some(2),
                TableId::MethodDef => Some(3),
                TableId::TypeSpec => Some(4),
                _ => None,
            },
            CodedIndexKind::HasSemantics => match table {
                TableId::Event => Some(0),
                TableId::Property => Some(1),
                _ => None,
            },
            CodedIndexKind::MethodDefOrRef => match table {
                TableId::MethodDef => Some(0),
                TableId::MemberRef => Some(1),
                _ => None,
            },
            CodedIndexKind::MemberForwarded => match table {
                TableId::Field => Some(0),
                TableId::MethodDef => Some(1),
                _ => None,
            },
            CodedIndexKind::Implementation => match table {
                TableId::File => Some(0),
                TableId::AssemblyRef => Some(1),
                TableId::ExportedType => Some(2),
                _ => None,
            },
            CodedIndexKind::CustomAttributeType => match table {
                TableId::MethodDef => Some(2),
                TableId::MemberRef => Some(3),
                _ => None,
            },
            CodedIndexKind::ResolutionScope => match table {
                TableId::Module => Some(0),
                TableId::ModuleRef => Some(1),
                TableId::AssemblyRef => Some(2),
                TableId::TypeRef => Some(3),
                _ => None,
            },
            CodedIndexKind::TypeOrMethodDef => match table {
                TableId::TypeDef => Some(0),
                TableId::MethodDef => Some(1),
                _ => None,
            },
        }
    }
}

} // verus!
