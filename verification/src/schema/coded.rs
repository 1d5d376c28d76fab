use vstd::prelude::*;
use crate::engine::columns::coded_index_size;
use crate::engine::columns::spec_coded_index_size;
use crate::engine::columns::DynamicSize;
use crate::engine::database::spec_decode_coded;
use crate::engine::database::spec_encode_coded;
use crate::engine::database::Database;
use crate::engine::database::DatabaseModel;
use crate::engine::database::Row;
use crate::engine::database::TableRow;
use crate::engine::kinds::CodedIndexKind;
use crate::engine::kinds::TableId;
use crate::engine::kinds::TABLE_SLOTS;
use crate::error::DecodeError;
use crate::error::DecodeErrorKind;
use crate::schema::rows::Assembly;
use crate::schema::rows::AssemblyRef;
use crate::schema::rows::Event;
use crate::schema::rows::ExportedType;
use crate::schema::rows::Field;
use crate::schema::rows::File;
use crate::schema::rows::GenericParam;
use crate::schema::rows::GenericParamConstraint;
use crate::schema::rows::InterfaceImpl;
use crate::schema::rows::ManifestResource;
use crate::schema::rows::MemberRef;
use crate::schema::rows::MethodDef;
use crate::schema::rows::MethodSpec;
use crate::schema::rows::Module;
use crate::schema::rows::ModuleRef;
use crate::schema::rows::Param;
use crate::schema::rows::Property;
use crate::schema::rows::StandAloneSig;
use crate::schema::rows::TypeDef;
use crate::schema::rows::TypeRef;
use crate::schema::rows::TypeSpec;

verus! {

/// A reference to a row of one of a fixed set of tables.
pub trait CodedIndex<'db>: Sized {
    /// The kind of coded index that this type decodes.
    spec fn kind() -> CodedIndexKind;

    /// The row that is referred to.
    spec fn row(&self) -> Row<'db>;

    /// The kind of coded index that this type decodes.
    fn coded_kind() -> (r: CodedIndexKind)
        ensures
            r == Self::kind(),
    ;

    /// Takes a row of one of the tables of this kind as a reference to it.
    fn from_row(row: Row<'db>) -> (r: Option<Self>)
        ensures
            r is Some <==> Self::kind().spec_tag_of(row.table()) is Some,
            r matches Some(v) ==> v.row() == row,
    ;

    /// The row that is referred to.
    fn as_row(&self) -> (r: Row<'db>)
        ensures
            r == self.row(),
            r.valid(),
            Self::kind().spec_tag_of(r.table()) is Some,
    ;
}

/// `r` refers to the row `expected` of the image `model`, or to none, or is
/// the failure that stands in their place.
pub open spec fn is_coded<'db, C: CodedIndex<'db>>(
    r: Result<Option<C>, DecodeError>,
    expected: Result<Option<(TableId, int)>, DecodeErrorKind>,
    model: DatabaseModel,
) -> bool {
    match expected {
        Ok(Some((t, i))) => r matches Ok(Some(v)) && v.row().model() == model && v.row().table()
            == t && v.row().index() == i,
        Ok(None) => r matches Ok(None),
        Err(kind) => r matches Err(e) && e == DecodeError(kind),
    }
}

/// As `is_coded`, for a column that must refer to a row: no reference is a
/// failure.
pub open spec fn is_required_coded<'db, C: CodedIndex<'db>>(
    r: Result<C, DecodeError>,
    expected: Result<Option<(TableId, int)>, DecodeErrorKind>,
    model: DatabaseModel,
) -> bool {
    match expected {
        Ok(Some((t, i))) => r matches Ok(v) && v.row().model() == model && v.row().table() == t
            && v.row().index() == i,
        Ok(None) => r matches Err(e) && e == DecodeError(DecodeErrorKind::InvalidRowIndex),
        Err(kind) => r matches Err(e) && e == DecodeError(kind),
    }
}

/// Decodes the coded index `idx`: zero refers to no row; else the tag picks
/// the table and the rest is the number of the row, counted from one.
pub fn decode<'db, C: CodedIndex<'db>>(idx: u32, db: &'db Database<'db>) -> (r: Result<
    Option<C>,
    DecodeError,
>)
    ensures
        is_coded(r, spec_decode_coded(C::kind(), idx, db@), db@),
{
    match Row::decode_coded_index(db, C::coded_kind(), idx) {
        Err(e) => Err(e),
        Ok(None) => Ok(None),
        Ok(Some(row)) => match C::from_row(row) {
            Some(v) => Ok(Some(v)),
            None => Err(DecodeError(DecodeErrorKind::InvalidCodedIndexTag)),
        },
    }
}

/// The row that the coded index in the cell of `row` at column `col` refers to.
pub fn get_coded_index<'db, C: CodedIndex<'db>>(row: &Row<'db>, col: usize) -> (r: Result<
    Option<C>,
    DecodeError,
>)
    requires
        row.dynamic_column(col as int),
    ensures
        is_coded(r, row.coded(col as int, C::kind()), row.model()),
{
    let value = row.get_u32(col);
    decode(value, row.database())
}

/// The row that the coded index in the cell of `row` at column `col` refers
/// to, for a column that must refer to a row.
pub fn get_required_coded_index<'db, C: CodedIndex<'db>>(row: &Row<'db>, col: usize) -> (r: Result<
    C,
    DecodeError,
>)
    requires
        row.dynamic_column(col as int),
    ensures
        is_required_coded(r, row.coded(col as int, C::kind()), row.model()),
{
    match get_coded_index(row, col) {
        Err(e) => Err(e),
        Ok(None) => Err(DecodeError(DecodeErrorKind::InvalidRowIndex)),
        Ok(Some(v)) => Ok(v),
    }
}

/// A type: defined here, referred to, or described by a signature.
#[derive(Clone, Copy)]
pub enum TypeDefOrRef<'db> {
    TypeDef(TypeDef<'db>),
    TypeRef(TypeRef<'db>),
    TypeSpec(TypeSpec<'db>),
}

impl<'db> CodedIndex<'db> for TypeDefOrRef<'db> {
    open spec fn kind() -> CodedIndexKind {
        CodedIndexKind::TypeDefOrRef
    }

    open spec fn row(&self) -> Row<'db> {
        match self {
            TypeDefOrRef::TypeDef(r) => r.row(),
            TypeDefOrRef::TypeRef(r) => r.row(),
            TypeDefOrRef::TypeSpec(r) => r.row(),
        }
    }

    fn coded_kind() -> (r: CodedIndexKind) {
        CodedIndexKind::TypeDefOrRef
    }

    fn from_row(row: Row<'db>) -> (r: Option<Self>) {
        match row.table_id() {
            TableId::TypeDef => Some(TypeDefOrRef::TypeDef(TypeDef::from_row(row))),
            TableId::TypeRef => Some(TypeDefOrRef::TypeRef(TypeRef::from_row(row))),
            TableId::TypeSpec => Some(TypeDefOrRef::TypeSpec(TypeSpec::from_row(row))),
            _ => None,
        }
    }

    fn as_row(&self) -> (r: Row<'db>) {
        match self {
            TypeDefOrRef::TypeDef(r) => r.as_row(),
            TypeDefOrRef::TypeRef(r) => r.as_row(),
            TypeDefOrRef::TypeSpec(r) => r.as_row(),
        }
    }
}

impl<'db> TypeDefOrRef<'db> {
    /// Decodes the coded index `idx` within the image `db`.
    pub fn decode(idx: u32, db: &'db Database<'db>) -> (r: Result<Option<Self>, DecodeError>)
        ensures
            is_coded(r, spec_decode_coded(CodedIndexKind::TypeDefOrRef, idx, db@), db@),
    {
        decode(idx, db)
    }

    /// The width of a column that holds such a coded index, given the row
    /// count of every table.
    pub fn index_size(counts: &Vec<u32>) -> (r: DynamicSize)
        requires
            counts@.len() == TABLE_SLOTS,
        ensures
            r == spec_coded_index_size(CodedIndexKind::TypeDefOrRef, counts@),
    {
        coded_index_size(CodedIndexKind::TypeDefOrRef, counts)
    }

    /// The coded index that refers to the same row as this value.
    pub fn encode(&self) -> (r: u32)
        ensures
            r == spec_encode_coded(
                CodedIndexKind::TypeDefOrRef,
                self.row().table(),
                self.row().index() as u32,
            ),
    {
        self.as_row().encode(CodedIndexKind::TypeDefOrRef)
    }
}

/// A row that can have a constant value.
#[derive(Clone, Copy)]
pub enum HasConstant<'db> {
    Field(Field<'db>),
    Param(Param<'db>),
    Property(Property<'db>),
}

impl<'db> CodedIndex<'db> for HasConstant<'db> {
    open spec fn kind() -> CodedIndexKind {
        CodedIndexKind::HasConstant
    }

    open spec fn row(&self) -> Row<'db> {
        match self {
            HasConstant::Field(r) => r.row(),
            HasConstant::Param(r) => r.row(),
            HasConstant::Property(r) => r.row(),
        }
    }

    fn coded_kind() -> (r: CodedIndexKind) {
        CodedIndexKind::HasConstant
    }

    fn from_row(row: Row<'db>) -> (r: Option<Self>) {
        match row.table_id() {
            TableId::Field => Some(HasConstant::Field(Field::from_row(row))),
            TableId::Param => Some(HasConstant::Param(Param::from_row(row))),
            TableId::Property => Some(HasConstant::Property(Property::from_row(row))),
            _ => None,
        }
    }

    fn as_row(&self) -> (r: Row<'db>) {
        match self {
            HasConstant::Field(r) => r.as_row(),
            HasConstant::Param(r) => r.as_row(),
            HasConstant::Property(r) => r.as_row(),
        }
    }
}

impl<'db> HasConstant<'db> {
    /// Decodes the coded index `idx` within the image `db`.
    pub fn decode(idx: u32, db: &'db Database<'db>) -> (r: Result<Option<Self>, DecodeError>)
        ensures
            is_coded(r, spec_decode_coded(CodedIndexKind::HasConstant, idx, db@), db@),
    {
        decode(idx, db)
    }

    /// The width of a column that holds such a coded index, given the row
    /// count of every table.
    pub fn index_size(counts: &Vec<u32>) -> (r: DynamicSize)
        requires
            counts@.len() == TABLE_SLOTS,
        ensures
            r == spec_coded_index_size(CodedIndexKind::HasConstant, counts@),
    {
        coded_index_size(CodedIndexKind::HasConstant, counts)
    }

    /// The coded index that refers to the same row as this value.
    pub fn encode(&self) -> (r: u32)
        ensures
            r == spec_encode_coded(
                CodedIndexKind::HasConstant,
                self.row().table(),
                self.row().index() as u32,
            ),
    {
        self.as_row().encode(CodedIndexKind::HasConstant)
    }
}

/// A row that a custom attribute can be attached to.
#[derive(Clone, Copy)]
pub enum HasCustomAttribute<'db> {
    MethodDef(MethodDef<'db>),
    Field(Field<'db>),
    TypeRef(TypeRef<'db>),
    TypeDef(TypeDef<'db>),
    Param(Param<'db>),
    InterfaceImpl(InterfaceImpl<'db>),
    MemberRef(MemberRef<'db>),
    Module(Module<'db>),
    Property(Property<'db>),
    Event(Event<'db>),
    StandAloneSig(StandAloneSig<'db>),
    ModuleRef(ModuleRef<'db>),
    TypeSpec(TypeSpec<'db>),
    Assembly(Assembly<'db>),
    AssemblyRef(AssemblyRef<'db>),
    File(File<'db>),
    ExportedType(ExportedType<'db>),
    ManifestResource(ManifestResource<'db>),
    GenericParam(GenericParam<'db>),
    GenericParamConstraint(GenericParamConstraint<'db>),
    MethodSpec(MethodSpec<'db>),
}

impl<'db> CodedIndex<'db> for HasCustomAttribute<'db> {
    open spec fn kind() -> CodedIndexKind {
        CodedIndexKind::HasCustomAttribute
    }

    open spec fn row(&self) -> Row<'db> {
        match self {
            HasCustomAttribute::MethodDef(r) => r.row(),
            HasCustomAttribute::Field(r) => r.row(),
            HasCustomAttribute::TypeRef(r) => r.row(),
            HasCustomAttribute::TypeDef(r) => r.row(),
            HasCustomAttribute::Param(r) => r.row(),
            HasCustomAttribute::InterfaceImpl(r) => r.row(),
            HasCustomAttribute::MemberRef(r) => r.row(),
            HasCustomAttribute::Module(r) => r.row(),
            HasCustomAttribute::Property(r) => r.row(),
            HasCustomAttribute::Event(r) => r.row(),
            HasCustomAttribute::StandAloneSig(r) => r.row(),
            HasCustomAttribute::ModuleRef(r) => r.row(),
            HasCustomAttribute::TypeSpec(r) => r.row(),
            HasCustomAttribute::Assembly(r) => r.row(),
            HasCustomAttribute::AssemblyRef(r) => r.row(),
            HasCustomAttribute::File(r) => r.row(),
            HasCustomAttribute::ExportedType(r) => r.row(),
            HasCustomAttribute::ManifestResource(r) => r.row(),
            HasCustomAttribute::GenericParam(r) => r.row(),
            HasCustomAttribute::GenericParamConstraint(r) => r.row(),
            HasCustomAttribute::MethodSpec(r) => r.row(),
        }
    }

    fn coded_kind() -> (r: CodedIndexKind) {
        CodedIndexKind::HasCustomAttribute
    }

    fn from_row(row: Row<'db>) -> (r: Option<Self>) {
        match row.table_id() {
            TableId::MethodDef => Some(HasCustomAttribute::MethodDef(MethodDef::from_row(row))),
            TableId::Field => Some(HasCustomAttribute::Field(Field::from_row(row))),
            TableId::TypeRef => Some(HasCustomAttribute::TypeRef(TypeRef::from_row(row))),
            TableId::TypeDef => Some(HasCustomAttribute::TypeDef(TypeDef::from_row(row))),
            TableId::Param => Some(HasCustomAttribute::Param(Param::from_row(row))),
            TableId::InterfaceImpl => Some(HasCustomAttribute::InterfaceImpl(InterfaceImpl::from_row(row))),
            TableId::MemberRef => Some(HasCustomAttribute::MemberRef(MemberRef::from_row(row))),
            TableId::Module => Some(HasCustomAttribute::Module(Module::from_row(row))),
            TableId::Property => Some(HasCustomAttribute::Property(Property::from_row(row))),
            TableId::Event => Some(HasCustomAttribute::Event(Event::from_row(row))),
            TableId::StandAloneSig => Some(HasCustomAttribute::StandAloneSig(StandAloneSig::from_row(row))),
            TableId::ModuleRef => Some(HasCustomAttribute::ModuleRef(ModuleRef::from_row(row))),
            TableId::TypeSpec => Some(HasCustomAttribute::TypeSpec(TypeSpec::from_row(row))),
            TableId::Assembly => Some(HasCustomAttribute::Assembly(Assembly::from_row(row))),
            TableId::AssemblyRef => Some(HasCustomAttribute::AssemblyRef(AssemblyRef::from_row(row))),
            TableId::File => Some(HasCustomAttribute::File(File::from_row(row))),
            TableId::ExportedType => Some(HasCustomAttribute::ExportedType(ExportedType::from_row(row))),
            TableId::ManifestResource => Some(HasCustomAttribute::ManifestResource(ManifestResource::from_row(row))),
            TableId::GenericParam => Some(HasCustomAttribute::GenericParam(GenericParam::from_row(row))),
            TableId::GenericParamConstraint => Some(HasCustomAttribute::GenericParamConstraint(GenericParamConstraint::from_row(row))),
            TableId::MethodSpec => Some(HasCustomAttribute::MethodSpec(MethodSpec::from_row(row))),
            _ => None,
        }
    }

    fn as_row(&self) -> (r: Row<'db>) {
        match self {
            HasCustomAttribute::MethodDef(r) => r.as_row(),
            HasCustomAttribute::Field(r) => r.as_row(),
            HasCustomAttribute::TypeRef(r) => r.as_row(),
            HasCustomAttribute::TypeDef(r) => r.as_row(),
            HasCustomAttribute::Param(r) => r.as_row(),
            HasCustomAttribute::InterfaceImpl(r) => r.as_row(),
            HasCustomAttribute::MemberRef(r) => r.as_row(),
            HasCustomAttribute::Module(r) => r.as_row(),
            HasCustomAttribute::Property(r) => r.as_row(),
            HasCustomAttribute::Event(r) => r.as_row(),
            HasCustomAttribute::StandAloneSig(r) => r.as_row(),
            HasCustomAttribute::ModuleRef(r) => r.as_row(),
            HasCustomAttribute::TypeSpec(r) => r.as_row(),
            HasCustomAttribute::Assembly(r) => r.as_row(),
            HasCustomAttribute::AssemblyRef(r) => r.as_row(),
            HasCustomAttribute::File(r) => r.as_row(),
            HasCustomAttribute::ExportedType(r) => r.as_row(),
            HasCustomAttribute::ManifestResource(r) => r.as_row(),
            HasCustomAttribute::GenericParam(r) => r.as_row(),
            HasCustomAttribute::GenericParamConstraint(r) => r.as_row(),
            HasCustomAttribute::MethodSpec(r) => r.as_row(),
        }
    }
}

impl<'db> HasCustomAttribute<'db> {
    /// Decodes the coded index `idx` within the image `db`.
    pub fn decode(idx: u32, db: &'db Database<'db>) -> (r: Result<Option<Self>, DecodeError>)
        ensures
            is_coded(r, spec_decode_coded(CodedIndexKind::HasCustomAttribute, idx, db@), db@),
    {
        decode(idx, db)
    }

    /// The width of a column that holds such a coded index, given the row
    /// count of every table.
    pub fn index_size(counts: &Vec<u32>) -> (r: DynamicSize)
        requires
            counts@.len() == TABLE_SLOTS,
        ensures
            r == spec_coded_index_size(CodedIndexKind::HasCustomAttribute, counts@),
    {
        coded_index_size(CodedIndexKind::HasCustomAttribute, counts)
    }

    /// The coded index that refers to the same row as this value.
    pub fn encode(&self) -> (r: u32)
        ensures
            r == spec_encode_coded(
                CodedIndexKind::HasCustomAttribute,
                self.row().table(),
                self.row().index() as u32,
            ),
    {
        self.as_row().encode(CodedIndexKind::HasCustomAttribute)
    }
}

/// A row that can have marshalling information.
#[derive(Clone, Copy)]
pub enum HasFieldMarshal<'db> {
    Field(Field<'db>),
    Param(Param<'db>),
}

impl<'db> CodedIndex<'db> for HasFieldMarshal<'db> {
    open spec fn kind() -> CodedIndexKind {
        CodedIndexKind::HasFieldMarshal
    }

    open spec fn row(&self) -> Row<'db> {
        match self {
            HasFieldMarshal::Field(r) => r.row(),
            HasFieldMarshal::Param(r) => r.row(),
        }
    }

    fn coded_kind() -> (r: CodedIndexKind) {
        CodedIndexKind::HasFieldMarshal
    }

    fn from_row(row: Row<'db>) -> (r: Option<Self>) {
        match row.table_id() {
            TableId::Field => Some(HasFieldMarshal::Field(Field::from_row(row))),
            TableId::Param => Some(HasFieldMarshal::Param(Param::from_row(row))),
            _ => None,
        }
    }

    fn as_row(&self) -> (r: Row<'db>) {
        match self {
            HasFieldMarshal::Field(r) => r.as_row(),
            HasFieldMarshal::Param(r) => r.as_row(),
        }
    }
}

impl<'db> HasFieldMarshal<'db> {
    /// Decodes the coded index `idx` within the image `db`.
    pub fn decode(idx: u32, db: &'db Database<'db>) -> (r: Result<Option<Self>, DecodeError>)
        ensures
            is_coded(r, spec_decode_coded(CodedIndexKind::HasFieldMarshal, idx, db@), db@),
    {
        decode(idx, db)
    }

    /// The width of a column that holds such a coded index, given the row
    /// count of every table.
    pub fn index_size(counts: &Vec<u32>) -> (r: DynamicSize)
        requires
            counts@.len() == TABLE_SLOTS,
        ensures
            r == spec_coded_index_size(CodedIndexKind::HasFieldMarshal, counts@),
    {
        coded_index_size(CodedIndexKind::HasFieldMarshal, counts)
    }

    /// The coded index that refers to the same row as this value.
    pub fn encode(&self) -> (r: u32)
        ensures
            r == spec_encode_coded(
                CodedIndexKind::HasFieldMarshal,
                self.row().table(),
                self.row().index() as u32,
            ),
    {
        self.as_row().encode(CodedIndexKind::HasFieldMarshal)
    }
}

/// A row that security can be attached to.
#[derive(Clone, Copy)]
pub enum HasDeclSecurity<'db> {
    TypeDef(TypeDef<'db>),
    MethodDef(MethodDef<'db>),
    Assembly(Assembly<'db>),
}

impl<'db> CodedIndex<'db> for HasDeclSecurity<'db> {
    open spec fn kind() -> CodedIndexKind {
        CodedIndexKind::HasDeclSecurity
    }

    open spec fn row(&self) -> Row<'db> {
        match self {
            HasDeclSecurity::TypeDef(r) => r.row(),
            HasDeclSecurity::MethodDef(r) => r.row(),
            HasDeclSecurity::Assembly(r) => r.row(),
        }
    }

    fn coded_kind() -> (r: CodedIndexKind) {
        CodedIndexKind::HasDeclSecurity
    }

    fn from_row(row: Row<'db>) -> (r: Option<Self>) {
        match row.table_id() {
            TableId::TypeDef => Some(HasDeclSecurity::TypeDef(TypeDef::from_row(row))),
            TableId::MethodDef => Some(HasDeclSecurity::MethodDef(MethodDef::from_row(row))),
            TableId::Assembly => Some(HasDeclSecurity::Assembly(Assembly::from_row(row))),
            _ => None,
        }
    }

    fn as_row(&self) -> (r: Row<'db>) {
        match self {
            HasDeclSecurity::TypeDef(r) => r.as_row(),
            HasDeclSecurity::MethodDef(r) => r.as_row(),
            HasDeclSecurity::Assembly(r) => r.as_row(),
        }
    }
}

impl<'db> HasDeclSecurity<'db> {
    /// Decodes the coded index `idx` within the image `db`.
    pub fn decode(idx: u32, db: &'db Database<'db>) -> (r: Result<Option<Self>, DecodeError>)
        ensures
            is_coded(r, spec_decode_coded(CodedIndexKind::HasDeclSecurity, idx, db@), db@),
    {
        decode(idx, db)
    }

    /// The width of a column that holds such a coded index, given the row
    /// count of every table.
    pub fn index_size(counts: &Vec<u32>) -> (r: DynamicSize)
        requires
            counts@.len() == TABLE_SLOTS,
        ensures
            r == spec_coded_index_size(CodedIndexKind::HasDeclSecurity, counts@),
    {
        coded_index_size(CodedIndexKind::HasDeclSecurity, counts)
    }

    /// The coded index that refers to the same row as this value.
    pub fn encode(&self) -> (r: u32)
        ensures
            r == spec_encode_coded(
                CodedIndexKind::HasDeclSecurity,
                self.row().table(),
                self.row().index() as u32,
            ),
    {
        self.as_row().encode(CodedIndexKind::HasDeclSecurity)
    }
}

/// What a member reference belongs to.
#[derive(Clone, Copy)]
pub enum MemberRefParent<'db> {
    TypeDef(TypeDef<'db>),
    TypeRef(TypeRef<'db>),
    ModuleRef(ModuleRef<'db>),
    MethodDef(MethodDef<'db>),
    TypeSpec(TypeSpec<'db>),
}

impl<'db> CodedIndex<'db> for MemberRefParent<'db> {
    open spec fn kind() -> CodedIndexKind {
        CodedIndexKind::MemberRefParent
    }

    open spec fn row(&self) -> Row<'db> {
        match self {
            MemberRefParent::TypeDef(r) => r.row(),
            MemberRefParent::TypeRef(r) => r.row(),
            MemberRefParent::ModuleRef(r) => r.row(),
            MemberRefParent::MethodDef(r) => r.row(),
            MemberRefParent::TypeSpec(r) => r.row(),
        }
    }

    fn coded_kind() -> (r: CodedIndexKind) {
        CodedIndexKind::MemberRefParent
    }

    fn from_row(row: Row<'db>) -> (r: Option<Self>) {
        match row.table_id() {
            TableId::TypeDef => Some(MemberRefParent::TypeDef(TypeDef::from_row(row))),
            TableId::TypeRef => Some(MemberRefParent::TypeRef(TypeRef::from_row(row))),
            TableId::ModuleRef => Some(MemberRefParent::ModuleRef(ModuleRef::from_row(row))),
            TableId::MethodDef => Some(MemberRefParent::MethodDef(MethodDef::from_row(row))),
            TableId::TypeSpec => Some(MemberRefParent::TypeSpec(TypeSpec::from_row(row))),
            _ => None,
        }
    }

    fn as_row(&self) -> (r: Row<'db>) {
        match self {
            MemberRefParent::TypeDef(r) => r.as_row(),
            MemberRefParent::TypeRef(r) => r.as_row(),
            MemberRefParent::ModuleRef(r) => r.as_row(),
            MemberRefParent::MethodDef(r) => r.as_row(),
            MemberRefParent::TypeSpec(r) => r.as_row(),
        }
    }
}

impl<'db> MemberRefParent<'db> {
    /// Decodes the coded index `idx` within the image `db`.
    pub fn decode(idx: u32, db: &'db Database<'db>) -> (r: Result<Option<Self>, DecodeError>)
        ensures
            is_coded(r, spec_decode_coded(CodedIndexKind::MemberRefParent, idx, db@), db@),
    {
        decode(idx, db)
    }

    /// The width of a column that holds such a coded index, given the row
    /// count of every table.
    pub fn index_size(counts: &Vec<u32>) -> (r: DynamicSize)
        requires
            counts@.len() == TABLE_SLOTS,
        ensures
            r == spec_coded_index_size(CodedIndexKind::MemberRefParent, counts@),
    {
        coded_index_size(CodedIndexKind::MemberRefParent, counts)
    }

    /// The coded index that refers to the same row as this value.
    pub fn encode(&self) -> (r: u32)
        ensures
            r == spec_encode_coded(
                CodedIndexKind::MemberRefParent,
                self.row().table(),
                self.row().index() as u32,
            ),
    {
        self.as_row().encode(CodedIndexKind::MemberRefParent)
    }
}

/// An event or a property.
#[derive(Clone, Copy)]
pub enum HasSemantics<'db> {
    Event(Event<'db>),
    Property(Property<'db>),
}

impl<'db> CodedIndex<'db> for HasSemantics<'db> {
    open spec fn kind() -> CodedIndexKind {
        CodedIndexKind::HasSemantics
    }

    open spec fn row(&self) -> Row<'db> {
        match self {
            HasSemantics::Event(r) => r.row(),
            HasSemantics::Property(r) => r.row(),
        }
    }

    fn coded_kind() -> (r: CodedIndexKind) {
        CodedIndexKind::HasSemantics
    }

    fn from_row(row: Row<'db>) -> (r: Option<Self>) {
        match row.table_id() {
            TableId::Event => Some(HasSemantics::Event(Event::from_row(row))),
            TableId::Property => Some(HasSemantics::Property(Property::from_row(row))),
            _ => None,
        }
    }

    fn as_row(&self) -> (r: Row<'db>) {
        match self {
            HasSemantics::Event(r) => r.as_row(),
            HasSemantics::Property(r) => r.as_row(),
        }
    }
}

impl<'db> HasSemantics<'db> {
    /// Decodes the coded index `idx` within the image `db`.
    pub fn decode(idx: u32, db: &'db Database<'db>) -> (r: Result<Option<Self>, DecodeError>)
        ensures
            is_coded(r, spec_decode_coded(CodedIndexKind::HasSemantics, idx, db@), db@),
    {
        decode(idx, db)
    }

    /// The width of a column that holds such a coded index, given the row
    /// count of every table.
    pub fn index_size(counts: &Vec<u32>) -> (r: DynamicSize)
        requires
            counts@.len() == TABLE_SLOTS,
        ensures
            r == spec_coded_index_size(CodedIndexKind::HasSemantics, counts@),
    {
        coded_index_size(CodedIndexKind::HasSemantics, counts)
    }

    /// The coded index that refers to the same row as this value.
    pub fn encode(&self) -> (r: u32)
        ensures
            r == spec_encode_coded(
                CodedIndexKind::HasSemantics,
                self.row().table(),
                self.row().index() as u32,
            ),
    {
        self.as_row().encode(CodedIndexKind::HasSemantics)
    }
}

/// A method: defined here or referred to.
#[derive(Clone, Copy)]
pub enum MethodDefOrRef<'db> {
    MethodDef(MethodDef<'db>),
    MemberRef(MemberRef<'db>),
}

impl<'db> CodedIndex<'db> for MethodDefOrRef<'db> {
    open spec fn kind() -> CodedIndexKind {
        CodedIndexKind::MethodDefOrRef
    }

    open spec fn row(&self) -> Row<'db> {
        match self {
            MethodDefOrRef::MethodDef(r) => r.row(),
            MethodDefOrRef::MemberRef(r) => r.row(),
        }
    }

    fn coded_kind() -> (r: CodedIndexKind) {
        CodedIndexKind::MethodDefOrRef
    }

    fn from_row(row: Row<'db>) -> (r: Option<Self>) {
        match row.table_id() {
            TableId::MethodDef => Some(MethodDefOrRef::MethodDef(MethodDef::from_row(row))),
            TableId::MemberRef => Some(MethodDefOrRef::MemberRef(MemberRef::from_row(row))),
            _ => None,
        }
    }

    fn as_row(&self) -> (r: Row<'db>) {
        match self {
            MethodDefOrRef::MethodDef(r) => r.as_row(),
            MethodDefOrRef::MemberRef(r) => r.as_row(),
        }
    }
}

impl<'db> MethodDefOrRef<'db> {
    /// Decodes the coded index `idx` within the image `db`.
    pub fn decode(idx: u32, db: &'db Database<'db>) -> (r: Result<Option<Self>, DecodeError>)
        ensures
            is_coded(r, spec_decode_coded(CodedIndexKind::MethodDefOrRef, idx, db@), db@),
    {
        decode(idx, db)
    }

    /// The width of a column that holds such a coded index, given the row
    /// count of every table.
    pub fn index_size(counts: &Vec<u32>) -> (r: DynamicSize)
        requires
            counts@.len() == TABLE_SLOTS,
        ensures
            r == spec_coded_index_size(CodedIndexKind::MethodDefOrRef, counts@),
    {
        coded_index_size(CodedIndexKind::MethodDefOrRef, counts)
    }

    /// The coded index that refers to the same row as this value.
    pub fn encode(&self) -> (r: u32)
        ensures
            r == spec_encode_coded(
                CodedIndexKind::MethodDefOrRef,
                self.row().table(),
                self.row().index() as u32,
            ),
    {
        self.as_row().encode(CodedIndexKind::MethodDefOrRef)
    }
}

/// A field or a method that is forwarded to native code.
#[derive(Clone, Copy)]
pub enum MemberForwarded<'db> {
    Field(Field<'db>),
    MethodDef(MethodDef<'db>),
}

impl<'db> CodedIndex<'db> for MemberForwarded<'db> {
    open spec fn kind() -> CodedIndexKind {
        CodedIndexKind::MemberForwarded
    }

    open spec fn row(&self) -> Row<'db> {
        match self {
            MemberForwarded::Field(r) => r.row(),
            MemberForwarded::MethodDef(r) => r.row(),
        }
    }

    fn coded_kind() -> (r: CodedIndexKind) {
        CodedIndexKind::MemberForwarded
    }

    fn from_row(row: Row<'db>) -> (r: Option<Self>) {
        match row.table_id() {
            TableId::Field => Some(MemberForwarded::Field(Field::from_row(row))),
            TableId::MethodDef => Some(MemberForwarded::MethodDef(MethodDef::from_row(row))),
            _ => None,
        }
    }

    fn as_row(&self) -> (r: Row<'db>) {
        match self {
            MemberForwarded::Field(r) => r.as_row(),
            MemberForwarded::MethodDef(r) => r.as_row(),
        }
    }
}

impl<'db> MemberForwarded<'db> {
    /// Decodes the coded index `idx` within the image `db`.
    pub fn decode(idx: u32, db: &'db Database<'db>) -> (r: Result<Option<Self>, DecodeError>)
        ensures
            is_coded(r, spec_decode_coded(CodedIndexKind::MemberForwarded, idx, db@), db@),
    {
        decode(idx, db)
    }

    /// The width of a column that holds such a coded index, given the row
    /// count of every table.
    pub fn index_size(counts: &Vec<u32>) -> (r: DynamicSize)
        requires
            counts@.len() == TABLE_SLOTS,
        ensures
            r == spec_coded_index_size(CodedIndexKind::MemberForwarded, counts@),
    {
        coded_index_size(CodedIndexKind::MemberForwarded, counts)
    }

    /// The coded index that refers to the same row as this value.
    pub fn encode(&self) -> (r: u32)
        ensures
            r == spec_encode_coded(
                CodedIndexKind::MemberForwarded,
                self.row().table(),
                self.row().index() as u32,
            ),
    {
        self.as_row().encode(CodedIndexKind::MemberForwarded)
    }
}

/// Where an exported type or a resource is to be found.
#[derive(Clone, Copy)]
pub enum Implementation<'db> {
    File(File<'db>),
    AssemblyRef(AssemblyRef<'db>),
    ExportedType(ExportedType<'db>),
}

impl<'db> CodedIndex<'db> for Implementation<'db> {
    open spec fn kind() -> CodedIndexKind {
        CodedIndexKind::Implementation
    }

    open spec fn row(&self) -> Row<'db> {
        match self {
            Implementation::File(r) => r.row(),
            Implementation::AssemblyRef(r) => r.row(),
            Implementation::ExportedType(r) => r.row(),
        }
    }

    fn coded_kind() -> (r: CodedIndexKind) {
        CodedIndexKind::Implementation
    }

    fn from_row(row: Row<'db>) -> (r: Option<Self>) {
        match row.table_id() {
            TableId::File => Some(Implementation::File(File::from_row(row))),
            TableId::AssemblyRef => Some(Implementation::AssemblyRef(AssemblyRef::from_row(row))),
            TableId::ExportedType => Some(Implementation::ExportedType(ExportedType::from_row(row))),
            _ => None,
        }
    }

    fn as_row(&self) -> (r: Row<'db>) {
        match self {
            Implementation::File(r) => r.as_row(),
            Implementation::AssemblyRef(r) => r.as_row(),
            Implementation::ExportedType(r) => r.as_row(),
        }
    }
}

impl<'db> Implementation<'db> {
    /// Decodes the coded index `idx` within the image `db`.
    pub fn decode(idx: u32, db: &'db Database<'db>) -> (r: Result<Option<Self>, DecodeError>)
        ensures
            is_coded(r, spec_decode_coded(CodedIndexKind::Implementation, idx, db@), db@),
    {
        decode(idx, db)
    }

    /// The width of a column that holds such a coded index, given the row
    /// count of every table.
    pub fn index_size(counts: &Vec<u32>) -> (r: DynamicSize)
        requires
            counts@.len() == TABLE_SLOTS,
        ensures
            r == spec_coded_index_size(CodedIndexKind::Implementation, counts@),
    {
        coded_index_size(CodedIndexKind::Implementation, counts)
    }

    /// The coded index that refers to the same row as this value.
    pub fn encode(&self) -> (r: u32)
        ensures
            r == spec_encode_coded(
                CodedIndexKind::Implementation,
                self.row().table(),
                self.row().index() as u32,
            ),
    {
        self.as_row().encode(CodedIndexKind::Implementation)
    }
}

/// The constructor of a custom attribute.
#[derive(Clone, Copy)]
pub enum CustomAttributeType<'db> {
    MethodDef(MethodDef<'db>),
    MemberRef(MemberRef<'db>),
}

impl<'db> CodedIndex<'db> for CustomAttributeType<'db> {
    open spec fn kind() -> CodedIndexKind {
        CodedIndexKind::CustomAttributeType
    }

    open spec fn row(&self) -> Row<'db> {
        match self {
            CustomAttributeType::MethodDef(r) => r.row(),
            CustomAttributeType::MemberRef(r) => r.row(),
        }
    }

    fn coded_kind() -> (r: CodedIndexKind) {
        CodedIndexKind::CustomAttributeType
    }

    fn from_row(row: Row<'db>) -> (r: Option<Self>) {
        match row.table_id() {
            TableId::MethodDef => Some(CustomAttributeType::MethodDef(MethodDef::from_row(row))),
            TableId::MemberRef => Some(CustomAttributeType::MemberRef(MemberRef::from_row(row))),
            _ => None,
        }
    }

    fn as_row(&self) -> (r: Row<'db>) {
        match self {
            CustomAttributeType::MethodDef(r) => r.as_row(),
            CustomAttributeType::MemberRef(r) => r.as_row(),
        }
    }
}

impl<'db> CustomAttributeType<'db> {
    /// Decodes the coded index `idx` within the image `db`.
    pub fn decode(idx: u32, db: &'db Database<'db>) -> (r: Result<Option<Self>, DecodeError>)
        ensures
            is_coded(r, spec_decode_coded(CodedIndexKind::CustomAttributeType, idx, db@), db@),
    {
        decode(idx, db)
    }

    /// The width of a column that holds such a coded index, given the row
    /// count of every table.
    pub fn index_size(counts: &Vec<u32>) -> (r: DynamicSize)
        requires
            counts@.len() == TABLE_SLOTS,
        ensures
            r == spec_coded_index_size(CodedIndexKind::CustomAttributeType, counts@),
    {
        coded_index_size(CodedIndexKind::CustomAttributeType, counts)
    }

    /// The coded index that refers to the same row as this value.
    pub fn encode(&self) -> (r: u32)
        ensures
            r == spec_encode_coded(
                CodedIndexKind::CustomAttributeType,
                self.row().table(),
                self.row().index() as u32,
            ),
    {
        self.as_row().encode(CodedIndexKind::CustomAttributeType)
    }
}

/// Where a referred type is to be found.
#[derive(Clone, Copy)]
pub enum ResolutionScope<'db> {
    Module(Module<'db>),
    ModuleRef(ModuleRef<'db>),
    AssemblyRef(AssemblyRef<'db>),
    TypeRef(TypeRef<'db>),
}

impl<'db> CodedIndex<'db> for ResolutionScope<'db> {
    open spec fn kind() -> CodedIndexKind {
        CodedIndexKind::ResolutionScope
    }

    open spec fn row(&self) -> Row<'db> {
        match self {
            ResolutionScope::Module(r) => r.row(),
            ResolutionScope::ModuleRef(r) => r.row(),
            ResolutionScope::AssemblyRef(r) => r.row(),
            ResolutionScope::TypeRef(r) => r.row(),
        }
    }

    fn coded_kind() -> (r: CodedIndexKind) {
        CodedIndexKind::ResolutionScope
    }

    fn from_row(row: Row<'db>) -> (r: Option<Self>) {
        match row.table_id() {
            TableId::Module => Some(ResolutionScope::Module(Module::from_row(row))),
            TableId::ModuleRef => Some(ResolutionScope::ModuleRef(ModuleRef::from_row(row))),
            TableId::AssemblyRef => Some(ResolutionScope::AssemblyRef(AssemblyRef::from_row(row))),
            TableId::TypeRef => Some(ResolutionScope::TypeRef(TypeRef::from_row(row))),
            _ => None,
        }
    }

    fn as_row(&self) -> (r: Row<'db>) {
        match self {
            ResolutionScope::Module(r) => r.as_row(),
            ResolutionScope::ModuleRef(r) => r.as_row(),
            ResolutionScope::AssemblyRef(r) => r.as_row(),
            ResolutionScope::TypeRef(r) => r.as_row(),
        }
    }
}

impl<'db> ResolutionScope<'db> {
    /// Decodes the coded index `idx` within the image `db`.
    pub fn decode(idx: u32, db: &'db Database<'db>) -> (r: Result<Option<Self>, DecodeError>)
        ensures
            is_coded(r, spec_decode_coded(CodedIndexKind::ResolutionScope, idx, db@), db@),
    {
        decode(idx, db)
    }

    /// The width of a column that holds such a coded index, given the row
    /// count of every table.
    pub fn index_size(counts: &Vec<u32>) -> (r: DynamicSize)
        requires
            counts@.len() == TABLE_SLOTS,
        ensures
            r == spec_coded_index_size(CodedIndexKind::ResolutionScope, counts@),
    {
        coded_index_size(CodedIndexKind::ResolutionScope, counts)
    }

    /// The coded index that refers to the same row as this value.
    pub fn encode(&self) -> (r: u32)
        ensures
            r == spec_encode_coded(
                CodedIndexKind::ResolutionScope,
                self.row().table(),
                self.row().index() as u32,
            ),
    {
        self.as_row().encode(CodedIndexKind::ResolutionScope)
    }
}

/// A type or a method that has generic parameters.
#[derive(Clone, Copy)]
pub enum TypeOrMethodDef<'db> {
    TypeDef(TypeDef<'db>),
    MethodDef(MethodDef<'db>),
}

impl<'db> CodedIndex<'db> for TypeOrMethodDef<'db> {
    open spec fn kind() -> CodedIndexKind {
        CodedIndexKind::TypeOrMethodDef
    }

    open spec fn row(&self) -> Row<'db> {
        match self {
            TypeOrMethodDef::TypeDef(r) => r.row(),
            TypeOrMethodDef::MethodDef(r) => r.row(),
        }
    }

    fn coded_kind() -> (r: CodedIndexKind) {
        CodedIndexKind::TypeOrMethodDef
    }

    fn from_row(row: Row<'db>) -> (r: Option<Self>) {
        match row.table_id() {
            TableId::TypeDef => Some(TypeOrMethodDef::TypeDef(TypeDef::from_row(row))),
            TableId::MethodDef => Some(TypeOrMethodDef::MethodDef(MethodDef::from_row(row))),
            _ => None,
        }
    }

    fn as_row(&self) -> (r: Row<'db>) {
        match self {
            TypeOrMethodDef::TypeDef(r) => r.as_row(),
            TypeOrMethodDef::MethodDef(r) => r.as_row(),
        }
    }
}

impl<'db> TypeOrMethodDef<'db> {
    /// Decodes the coded index `idx` within the image `db`.
    pub fn decode(idx: u32, db: &'db Database<'db>) -> (r: Result<Option<Self>, DecodeError>)
        ensures
            is_coded(r, spec_decode_coded(CodedIndexKind::TypeOrMethodDef, idx, db@), db@),
    {
        decode(idx, db)
    }

    /// The width of a column that holds such a coded index, given the row
    /// count of every table.
    pub fn index_size(counts: &Vec<u32>) -> (r: DynamicSize)
        requires
            counts@.len() == TABLE_SLOTS,
        ensures
            r == spec_coded_index_size(CodedIndexKind::TypeOrMethodDef, counts@),
    {
        coded_index_size(CodedIndexKind::TypeOrMethodDef, counts)
    }

    /// The coded index that refers to the same row as this value.
    pub fn encode(&self) -> (r: u32)
        ensures
            r == spec_encode_coded(
                CodedIndexKind::TypeOrMethodDef,
                self.row().table(),
                self.row().index() as u32,
            ),
    {
        self.as_row().encode(CodedIndexKind::TypeOrMethodDef)
    }
}

} // verus!
