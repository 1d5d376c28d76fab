use vstd::prelude::*;
use crate::engine::database::is_blob;
use crate::engine::database::is_key_list;
use crate::engine::database::is_list;
use crate::engine::database::is_row;
use crate::engine::database::is_string;
use crate::engine::database::key_range;
use crate::engine::database::spec_encode_coded;
use crate::engine::database::Row;
use crate::engine::database::TableRow;
use crate::engine::database::TableRowIterator;
use crate::engine::kinds::CodedIndexKind;
use crate::engine::kinds::TableId;
use crate::error::DecodeError;
use crate::error::DecodeErrorKind;
use crate::schema::coded::get_coded_index;
use crate::schema::coded::get_required_coded_index;
use crate::schema::coded::is_coded;
use crate::schema::coded::is_required_coded;
use crate::schema::coded::CustomAttributeType;
use crate::schema::coded::HasConstant;
use crate::schema::coded::HasCustomAttribute;
use crate::schema::coded::HasDeclSecurity;
use crate::schema::coded::HasFieldMarshal;
use crate::schema::coded::HasSemantics;
use crate::schema::coded::Implementation;
use crate::schema::coded::MemberForwarded;
use crate::schema::coded::MemberRefParent;
use crate::schema::coded::MethodDefOrRef;
use crate::schema::coded::ResolutionScope;
use crate::schema::coded::TypeDefOrRef;
use crate::schema::coded::TypeOrMethodDef;
use crate::schema::flags::AssemblyAttributes;
use crate::schema::flags::EventAttributes;
use crate::schema::flags::FieldAttributes;
use crate::schema::flags::GenericParamAttributes;
use crate::schema::flags::MethodAttributes;
use crate::schema::flags::MethodImplAttributes;
use crate::schema::flags::MethodSemanticsAttributes;
use crate::schema::flags::ParamAttributes;
use crate::schema::flags::PropertyAttributes;
use crate::schema::flags::TypeAttributes;

verus! {

/// `r` is the row of the table of `R` whose number, counted from one, is
/// `cell`; a number that names no row is a failure.
pub open spec fn is_target<'db, R: TableRow<'db>>(
    r: Result<R, DecodeError>,
    cell: int,
    model: crate::engine::database::DatabaseModel,
) -> bool {
    if 1 <= cell <= model.row_count(R::kind()) {
        r matches Ok(row) && is_row(row, model, cell - 1)
    } else {
        r matches Err(e) && e == DecodeError(DecodeErrorKind::InvalidRowIndex)
    }
}

/// `r` is the one row of the table of `R` with the key `key`, or none where
/// no row has it; more than one such row is a failure.
pub open spec fn is_single<'db, R: TableRow<'db>>(
    r: Result<Option<R>, DecodeError>,
    key: u32,
    model: crate::engine::database::DatabaseModel,
) -> bool {
    exists|first: int, last: int| #[trigger]
        key_range(model, R::kind(), key, first, last) && match r {
            Ok(None) => first == last,
            Ok(Some(row)) => last == first + 1 && is_row(row, model, first),
            Err(e) => last > first + 1 && e == DecodeError(DecodeErrorKind::AmbiguousKey),
        }
}

/// A row of the table `Assembly`.
#[derive(Clone, Copy)]
pub struct Assembly<'db>(Row<'db>);

impl<'db> TableRow<'db> for Assembly<'db> {
    open spec fn kind() -> TableId {
        TableId::Assembly
    }

    closed spec fn row(&self) -> Row<'db> {
        self.0
    }

    fn table_id() -> (r: TableId) {
        TableId::Assembly
    }

    fn from_row(row: Row<'db>) -> (r: Self) {
        Assembly(row)
    }

    fn get_index(&self) -> (r: u32) {
        self.0.get_index()
    }

    fn as_row(&self) -> (r: Row<'db>) {
        proof {
            use_type_invariant(self);
        }
        let r = self.0;
        let _ = r.get_index();
        r
    }
}

impl<'db> Assembly<'db> {
    #[verifier::type_invariant]
    spec fn inv(self) -> bool {
        self.0.table() == TableId::Assembly
    }

    /// The hash algorithm.
    pub fn hash_alg_id(&self) -> (r: Result<u32, DecodeError>)
        ensures
            r matches Ok(v) && v == self.row().cell(0),
    {
        proof {
            use_type_invariant(self);
        }
        Ok(self.0.get_u32(0))
    }

    /// The version: major, minor, build and revision, 16 bits each from the lowest up.
    pub fn version(&self) -> (r: Result<u64, DecodeError>)
        ensures
            r matches Ok(v) && v == self.row().cell(1),
    {
        proof {
            use_type_invariant(self);
        }
        Ok(self.0.get_value(1))
    }

    /// The flags of the assembly: the low 16 bits of the column.
    pub fn flags(&self) -> (r: Result<AssemblyAttributes, DecodeError>)
        ensures
            r matches Ok(f) && f.0 == self.row().cell(2) % 0x1_0000,
    {
        proof {
            use_type_invariant(self);
        }
        Ok(AssemblyAttributes((self.0.get_u32(2) % 0x1_0000) as u16))
    }

    /// The public key.
    pub fn public_key(&self) -> (r: Result<Option<&'db [u8]>, DecodeError>)
        ensures
            is_blob(r, self.row().blob(3)),
    {
        proof {
            use_type_invariant(self);
        }
        self.0.get_blob(3)
    }

    /// The name of the assembly.
    pub fn name(&self) -> (r: Result<&'db str, DecodeError>)
        ensures
            is_string(r, self.row().string(4)),
    {
        proof {
            use_type_invariant(self);
        }
        self.0.get_string(4)
    }

    /// The culture of the assembly.
    pub fn culture(&self) -> (r: Result<&'db str, DecodeError>)
        ensures
            is_string(r, self.row().string(5)),
    {
        proof {
            use_type_invariant(self);
        }
        self.0.get_string(5)
    }

    /// The custom attributes that are attached to the row.
    pub fn custom_attributes(&self) -> (r: Result<TableRowIterator<'db, CustomAttribute<'db>>, DecodeError>)
        ensures
            is_key_list(
                r,
                spec_encode_coded(
                    CodedIndexKind::HasCustomAttribute,
                    TableId::Assembly,
                    self.row().index() as u32,
                ),
                self.row().model(),
            ),
    {
        proof {
            use_type_invariant(self);
        }
        self.0.get_list_by_key(self.0.encode(CodedIndexKind::HasCustomAttribute))
    }

}

/// A row of the table `AssemblyOS`.
#[derive(Clone, Copy)]
pub struct AssemblyOS<'db>(Row<'db>);

impl<'db> TableRow<'db> for AssemblyOS<'db> {
    open spec fn kind() -> TableId {
        TableId::AssemblyOS
    }

    closed spec fn row(&self) -> Row<'db> {
        self.0
    }

    fn table_id() -> (r: TableId) {
        TableId::AssemblyOS
    }

    fn from_row(row: Row<'db>) -> (r: Self) {
        AssemblyOS(row)
    }

    fn get_index(&self) -> (r: u32) {
        self.0.get_index()
    }

    fn as_row(&self) -> (r: Row<'db>) {
        proof {
            use_type_invariant(self);
        }
        let r = self.0;
        let _ = r.get_index();
        r
    }
}

impl<'db> AssemblyOS<'db> {
    #[verifier::type_invariant]
    spec fn inv(self) -> bool {
        self.0.table() == TableId::AssemblyOS
    }

    /// The platform.
    pub fn os_platform_id(&self) -> (r: Result<u32, DecodeError>)
        ensures
            r matches Ok(v) && v == self.row().cell(0),
    {
        proof {
            use_type_invariant(self);
        }
        Ok(self.0.get_u32(0))
    }

    /// The major version.
    pub fn os_major_version(&self) -> (r: Result<u32, DecodeError>)
        ensures
            r matches Ok(v) && v == self.row().cell(1),
    {
        proof {
            use_type_invariant(self);
        }
        Ok(self.0.get_u32(1))
    }

    /// The minor version.
    pub fn os_minor_version(&self) -> (r: Result<u32, DecodeError>)
        ensures
            r matches Ok(v) && v == self.row().cell(2),
    {
        proof {
            use_type_invariant(self);
        }
        Ok(self.0.get_u32(2))
    }

}

/// A row of the table `AssemblyProcessor`.
#[derive(Clone, Copy)]
pub struct AssemblyProcessor<'db>(Row<'db>);

impl<'db> TableRow<'db> for AssemblyProcessor<'db> {
    open spec fn kind() -> TableId {
        TableId::AssemblyProcessor
    }

    closed spec fn row(&self) -> Row<'db> {
        self.0
    }

    fn table_id() -> (r: TableId) {
        TableId::AssemblyProcessor
    }

    fn from_row(row: Row<'db>) -> (r: Self) {
        AssemblyProcessor(row)
    }

    fn get_index(&self) -> (r: u32) {
        self.0.get_index()
    }

    fn as_row(&self) -> (r: Row<'db>) {
        proof {
            use_type_invariant(self);
        }
        let r = self.0;
        let _ = r.get_index();
        r
    }
}

impl<'db> AssemblyProcessor<'db> {
    #[verifier::type_invariant]
    spec fn inv(self) -> bool {
        self.0.table() == TableId::AssemblyProcessor
    }

    /// The processor.
    pub fn processor(&self) -> (r: Result<u32, DecodeError>)
        ensures
            r matches Ok(v) && v == self.row().cell(0),
    {
        proof {
            use_type_invariant(self);
        }
        Ok(self.0.get_u32(0))
    }

}

/// A row of the table `AssemblyRef`.
#[derive(Clone, Copy)]
pub struct AssemblyRef<'db>(Row<'db>);

impl<'db> TableRow<'db> for AssemblyRef<'db> {
    open spec fn kind() -> TableId {
        TableId::AssemblyRef
    }

    closed spec fn row(&self) -> Row<'db> {
        self.0
    }

    fn table_id() -> (r: TableId) {
        TableId::AssemblyRef
    }

    fn from_row(row: Row<'db>) -> (r: Self) {
        AssemblyRef(row)
    }

    fn get_index(&self) -> (r: u32) {
        self.0.get_index()
    }

    fn as_row(&self) -> (r: Row<'db>) {
        proof {
            use_type_invariant(self);
        }
        let r = self.0;
        let _ = r.get_index();
        r
    }
}

impl<'db> AssemblyRef<'db> {
    #[verifier::type_invariant]
    spec fn inv(self) -> bool {
        self.0.table() == TableId::AssemblyRef
    }

    /// The version: major, minor, build and revision, 16 bits each from the lowest up.
    pub fn version(&self) -> (r: Result<u64, DecodeError>)
        ensures
            r matches Ok(v) && v == self.row().cell(0),
    {
        proof {
            use_type_invariant(self);
        }
        Ok(self.0.get_value(0))
    }

    /// The flags of the assembly: the low 16 bits of the column.
    pub fn flags(&self) -> (r: Result<AssemblyAttributes, DecodeError>)
        ensures
            r matches Ok(f) && f.0 == self.row().cell(1) % 0x1_0000,
    {
        proof {
            use_type_invariant(self);
        }
        Ok(AssemblyAttributes((self.0.get_u32(1) % 0x1_0000) as u16))
    }

    /// The public key or its token.
    pub fn public_key_or_token(&self) -> (r: Result<Option<&'db [u8]>, DecodeError>)
        ensures
            is_blob(r, self.row().blob(2)),
    {
        proof {
            use_type_invariant(self);
        }
        self.0.get_blob(2)
    }

    /// The name of the assembly.
    pub fn name(&self) -> (r: Result<&'db str, DecodeError>)
        ensures
            is_string(r, self.row().string(3)),
    {
        proof {
            use_type_invariant(self);
        }
        self.0.get_string(3)
    }

    /// The culture of the assembly.
    pub fn culture(&self) -> (r: Result<&'db str, DecodeError>)
        ensures
            is_string(r, self.row().string(4)),
    {
        proof {
            use_type_invariant(self);
        }
        self.0.get_string(4)
    }

    /// The hash of the assembly.
    pub fn hash_value(&self) -> (r: Result<Option<&'db [u8]>, DecodeError>)
        ensures
            is_blob(r, self.row().blob(5)),
    {
        proof {
            use_type_invariant(self);
        }
        self.0.get_blob(5)
    }

    /// The custom attributes that are attached to the row.
    pub fn custom_attributes(&self) -> (r: Result<TableRowIterator<'db, CustomAttribute<'db>>, DecodeError>)
        ensures
            is_key_list(
                r,
                spec_encode_coded(
                    CodedIndexKind::HasCustomAttribute,
                    TableId::AssemblyRef,
                    self.row().index() as u32,
                ),
                self.row().model(),
            ),
    {
        proof {
            use_type_invariant(self);
        }
        self.0.get_list_by_key(self.0.encode(CodedIndexKind::HasCustomAttribute))
    }

}

/// A row of the table `AssemblyRefOS`.
#[derive(Clone, Copy)]
pub struct AssemblyRefOS<'db>(Row<'db>);

impl<'db> TableRow<'db> for AssemblyRefOS<'db> {
    open spec fn kind() -> TableId {
        TableId::AssemblyRefOS
    }

    closed spec fn row(&self) -> Row<'db> {
        self.0
    }

    fn table_id() -> (r: TableId) {
        TableId::AssemblyRefOS
    }

    fn from_row(row: Row<'db>) -> (r: Self) {
        AssemblyRefOS(row)
    }

    fn get_index(&self) -> (r: u32) {
        self.0.get_index()
    }

    fn as_row(&self) -> (r: Row<'db>) {
        proof {
            use_type_invariant(self);
        }
        let r = self.0;
        let _ = r.get_index();
        r
    }
}

impl<'db> AssemblyRefOS<'db> {
    #[verifier::type_invariant]
    spec fn inv(self) -> bool {
        self.0.table() == TableId::AssemblyRefOS
    }

    /// The platform.
    pub fn os_platform_id(&self) -> (r: Result<u32, DecodeError>)
        ensures
            r matches Ok(v) && v == self.row().cell(0),
    {
        proof {
            use_type_invariant(self);
        }
        Ok(self.0.get_u32(0))
    }

    /// The major version.
    pub fn os_major_version(&self) -> (r: Result<u32, DecodeError>)
        ensures
            r matches Ok(v) && v == self.row().cell(1),
    {
        proof {
            use_type_invariant(self);
        }
        Ok(self.0.get_u32(1))
    }

    /// The minor version.
    pub fn os_minor_version(&self) -> (r: Result<u32, DecodeError>)
        ensures
            r matches Ok(v) && v == self.row().cell(2),
    {
        proof {
            use_type_invariant(self);
        }
        Ok(self.0.get_u32(2))
    }

    /// The assembly.
    pub fn assembly_ref(&self) -> (r: Result<AssemblyRef<'db>, DecodeError>)
        ensures
            is_target(r, self.row().cell(3), self.row().model()),
    {
        proof {
            use_type_invariant(self);
        }
        self.0.get_target_row(3)
    }

}

/// A row of the table `AssemblyRefProcessor`.
#[derive(Clone, Copy)]
pub struct AssemblyRefProcessor<'db>(Row<'db>);

impl<'db> TableRow<'db> for AssemblyRefProcessor<'db> {
    open spec fn kind() -> TableId {
        TableId::AssemblyRefProcessor
    }

    closed spec fn row(&self) -> Row<'db> {
        self.0
    }

    fn table_id() -> (r: TableId) {
        TableId::AssemblyRefProcessor
    }

    fn from_row(row: Row<'db>) -> (r: Self) {
        AssemblyRefProcessor(row)
    }

    fn get_index(&self) -> (r: u32) {
        self.0.get_index()
    }

    fn as_row(&self) -> (r: Row<'db>) {
        proof {
            use_type_invariant(self);
        }
        let r = self.0;
        let _ = r.get_index();
        r
    }
}

impl<'db> AssemblyRefProcessor<'db> {
    #[verifier::type_invariant]
    spec fn inv(self) -> bool {
        self.0.table() == TableId::AssemblyRefProcessor
    }

    /// The processor.
    pub fn processor(&self) -> (r: Result<u32, DecodeError>)
        ensures
            r matches Ok(v) && v == self.row().cell(0),
    {
        proof {
            use_type_invariant(self);
        }
        Ok(self.0.get_u32(0))
    }

    /// The assembly.
    pub fn assembly_ref(&self) -> (r: Result<AssemblyRef<'db>, DecodeError>)
        ensures
            is_target(r, self.row().cell(1), self.row().model()),
    {
        proof {
            use_type_invariant(self);
        }
        self.0.get_target_row(1)
    }

}

/// A row of the table `ClassLayout`.
#[derive(Clone, Copy)]
pub struct ClassLayout<'db>(Row<'db>);

impl<'db> TableRow<'db> for ClassLayout<'db> {
    open spec fn kind() -> TableId {
        TableId::ClassLayout
    }

    closed spec fn row(&self) -> Row<'db> {
        self.0
    }

    fn table_id() -> (r: TableId) {
        TableId::ClassLayout
    }

    fn from_row(row: Row<'db>) -> (r: Self) {
        ClassLayout(row)
    }

    fn get_index(&self) -> (r: u32) {
        self.0.get_index()
    }

    fn as_row(&self) -> (r: Row<'db>) {
        proof {
            use_type_invariant(self);
        }
        let r = self.0;
        let _ = r.get_index();
        r
    }
}

impl<'db> ClassLayout<'db> {
    #[verifier::type_invariant]
    spec fn inv(self) -> bool {
        self.0.table() == TableId::ClassLayout
    }

    /// The packing size.
    pub fn packing_size(&self) -> (r: Result<u16, DecodeError>)
        ensures
            r matches Ok(v) && v == self.row().cell(0),
    {
        proof {
            use_type_invariant(self);
        }
        Ok(self.0.get_u16(0))
    }

    /// The size of the class.
    pub fn class_size(&self) -> (r: Result<u32, DecodeError>)
        ensures
            r matches Ok(v) && v == self.row().cell(1),
    {
        proof {
            use_type_invariant(self);
        }
        Ok(self.0.get_u32(1))
    }

    /// The type that is laid out.
    pub fn parent(&self) -> (r: Result<TypeDef<'db>, DecodeError>)
        ensures
            is_target(r, self.row().cell(2), self.row().model()),
    {
        proof {
            use_type_invariant(self);
        }
        self.0.get_target_row(2)
    }

}

/// A row of the table `Constant`.
#[derive(Clone, Copy)]
pub struct Constant<'db>(Row<'db>);

impl<'db> TableRow<'db> for Constant<'db> {
    open spec fn kind() -> TableId {
        TableId::Constant
    }

    closed spec fn row(&self) -> Row<'db> {
        self.0
    }

    fn table_id() -> (r: TableId) {
        TableId::Constant
    }

    fn from_row(row: Row<'db>) -> (r: Self) {
        Constant(row)
    }

    fn get_index(&self) -> (r: u32) {
        self.0.get_index()
    }

    fn as_row(&self) -> (r: Row<'db>) {
        proof {
            use_type_invariant(self);
        }
        let r = self.0;
        let _ = r.get_index();
        r
    }
}

impl<'db> Constant<'db> {
    #[verifier::type_invariant]
    spec fn inv(self) -> bool {
        self.0.table() == TableId::Constant
    }

    /// The field, parameter or property that has the value.
    pub fn parent(&self) -> (r: Result<Option<HasConstant<'db>>, DecodeError>)
        ensures
            is_coded(r, self.row().coded(1, CodedIndexKind::HasConstant), self.row().model()),
    {
        proof {
            use_type_invariant(self);
        }
        get_coded_index(&self.0, 1)
    }

}

/// A row of the table `CustomAttribute`.
#[derive(Clone, Copy)]
pub struct CustomAttribute<'db>(Row<'db>);

impl<'db> TableRow<'db> for CustomAttribute<'db> {
    open spec fn kind() -> TableId {
        TableId::CustomAttribute
    }

    closed spec fn row(&self) -> Row<'db> {
        self.0
    }

    fn table_id() -> (r: TableId) {
        TableId::CustomAttribute
    }

    fn from_row(row: Row<'db>) -> (r: Self) {
        CustomAttribute(row)
    }

    fn get_index(&self) -> (r: u32) {
        self.0.get_index()
    }

    fn as_row(&self) -> (r: Row<'db>) {
        proof {
            use_type_invariant(self);
        }
        let r = self.0;
        let _ = r.get_index();
        r
    }
}

impl<'db> CustomAttribute<'db> {
    #[verifier::type_invariant]
    spec fn inv(self) -> bool {
        self.0.table() == TableId::CustomAttribute
    }

    /// The row that the attribute is attached to.
    pub fn parent(&self) -> (r: Result<HasCustomAttribute<'db>, DecodeError>)
        ensures
            is_required_coded(
                r,
                self.row().coded(0, CodedIndexKind::HasCustomAttribute),
                self.row().model(),
            ),
    {
        proof {
            use_type_invariant(self);
        }
        get_required_coded_index(&self.0, 0)
    }

    /// The constructor of the attribute.
    pub fn type_(&self) -> (r: Result<CustomAttributeType<'db>, DecodeError>)
        ensures
            is_required_coded(
                r,
                self.row().coded(1, CodedIndexKind::CustomAttributeType),
                self.row().model(),
            ),
    {
        proof {
            use_type_invariant(self);
        }
        get_required_coded_index(&self.0, 1)
    }

}

/// A row of the table `DeclSecurity`.
#[derive(Clone, Copy)]
pub struct DeclSecurity<'db>(Row<'db>);

impl<'db> TableRow<'db> for DeclSecurity<'db> {
    open spec fn kind() -> TableId {
        TableId::DeclSecurity
    }

    closed spec fn row(&self) -> Row<'db> {
        self.0
    }

    fn table_id() -> (r: TableId) {
        TableId::DeclSecurity
    }

    fn from_row(row: Row<'db>) -> (r: Self) {
        DeclSecurity(row)
    }

    fn get_index(&self) -> (r: u32) {
        self.0.get_index()
    }

    fn as_row(&self) -> (r: Row<'db>) {
        proof {
            use_type_invariant(self);
        }
        let r = self.0;
        let _ = r.get_index();
        r
    }
}

impl<'db> DeclSecurity<'db> {
    #[verifier::type_invariant]
    spec fn inv(self) -> bool {
        self.0.table() == TableId::DeclSecurity
    }

    /// The security action.
    pub fn action(&self) -> (r: Result<u16, DecodeError>)
        ensures
            r matches Ok(v) && v == self.row().cell(0),
    {
        proof {
            use_type_invariant(self);
        }
        Ok(self.0.get_u16(0))
    }

    /// The row that the security is attached to.
    pub fn parent(&self) -> (r: Result<Option<HasDeclSecurity<'db>>, DecodeError>)
        ensures
            is_coded(r, self.row().coded(1, CodedIndexKind::HasDeclSecurity), self.row().model()),
    {
        proof {
            use_type_invariant(self);
        }
        get_coded_index(&self.0, 1)
    }

    /// The permission set.
    pub fn permission_set(&self) -> (r: Result<Option<&'db [u8]>, DecodeError>)
        ensures
            is_blob(r, self.row().blob(2)),
    {
        proof {
            use_type_invariant(self);
        }
        self.0.get_blob(2)
    }

}

/// A row of the table `Event`.
#[derive(Clone, Copy)]
pub struct Event<'db>(Row<'db>);

impl<'db> TableRow<'db> for Event<'db> {
    open spec fn kind() -> TableId {
        TableId::Event
    }

    closed spec fn row(&self) -> Row<'db> {
        self.0
    }

    fn table_id() -> (r: TableId) {
        TableId::Event
    }

    fn from_row(row: Row<'db>) -> (r: Self) {
        Event(row)
    }

    fn get_index(&self) -> (r: u32) {
        self.0.get_index()
    }

    fn as_row(&self) -> (r: Row<'db>) {
        proof {
            use_type_invariant(self);
        }
        let r = self.0;
        let _ = r.get_index();
        r
    }
}

impl<'db> Event<'db> {
    #[verifier::type_invariant]
    spec fn inv(self) -> bool {
        self.0.table() == TableId::Event
    }

    /// The flags of the event.
    pub fn event_flags(&self) -> (r: Result<EventAttributes, DecodeError>)
        ensures
            r matches Ok(f) && f.0 == self.row().cell(0),
    {
        proof {
            use_type_invariant(self);
        }
        Ok(EventAttributes(self.0.get_u16(0)))
    }

    /// The name of the event.
    pub fn name(&self) -> (r: Result<&'db str, DecodeError>)
        ensures
            is_string(r, self.row().string(1)),
    {
        proof {
            use_type_invariant(self);
        }
        self.0.get_string(1)
    }

    /// The type of the event.
    pub fn event_type(&self) -> (r: Result<Option<TypeDefOrRef<'db>>, DecodeError>)
        ensures
            is_coded(r, self.row().coded(2, CodedIndexKind::TypeDefOrRef), self.row().model()),
    {
        proof {
            use_type_invariant(self);
        }
        get_coded_index(&self.0, 2)
    }

    /// The custom attributes that are attached to the row.
    pub fn custom_attributes(&self) -> (r: Result<TableRowIterator<'db, CustomAttribute<'db>>, DecodeError>)
        ensures
            is_key_list(
                r,
                spec_encode_coded(
                    CodedIndexKind::HasCustomAttribute,
                    TableId::Event,
                    self.row().index() as u32,
                ),
                self.row().model(),
            ),
    {
        proof {
            use_type_invariant(self);
        }
        self.0.get_list_by_key(self.0.encode(CodedIndexKind::HasCustomAttribute))
    }

}

/// A row of the table `EventMap`.
#[derive(Clone, Copy)]
pub struct EventMap<'db>(Row<'db>);

impl<'db> TableRow<'db> for EventMap<'db> {
    open spec fn kind() -> TableId {
        TableId::EventMap
    }

    closed spec fn row(&self) -> Row<'db> {
        self.0
    }

    fn table_id() -> (r: TableId) {
        TableId::EventMap
    }

    fn from_row(row: Row<'db>) -> (r: Self) {
        EventMap(row)
    }

    fn get_index(&self) -> (r: u32) {
        self.0.get_index()
    }

    fn as_row(&self) -> (r: Row<'db>) {
        proof {
            use_type_invariant(self);
        }
        let r = self.0;
        let _ = r.get_index();
        r
    }
}

impl<'db> EventMap<'db> {
    #[verifier::type_invariant]
    spec fn inv(self) -> bool {
        self.0.table() == TableId::EventMap
    }

    /// The type that has the events.
    pub fn parent(&self) -> (r: Result<TypeDef<'db>, DecodeError>)
        ensures
            is_target(r, self.row().cell(0), self.row().model()),
    {
        proof {
            use_type_invariant(self);
        }
        self.0.get_target_row(0)
    }

    /// The events of the type.
    pub fn event_list(&self) -> (r: Result<TableRowIterator<'db, Event<'db>>, DecodeError>)
        ensures
            is_list(r, self.row().list(1, TableId::Event), self.row().model()),
    {
        proof {
            use_type_invariant(self);
        }
        self.0.get_list(1)
    }

}

/// A row of the table `ExportedType`.
#[derive(Clone, Copy)]
pub struct ExportedType<'db>(Row<'db>);

impl<'db> TableRow<'db> for ExportedType<'db> {
    open spec fn kind() -> TableId {
        TableId::ExportedType
    }

    closed spec fn row(&self) -> Row<'db> {
        self.0
    }

    fn table_id() -> (r: TableId) {
        TableId::ExportedType
    }

    fn from_row(row: Row<'db>) -> (r: Self) {
        ExportedType(row)
    }

    fn get_index(&self) -> (r: u32) {
        self.0.get_index()
    }

    fn as_row(&self) -> (r: Row<'db>) {
        proof {
            use_type_invariant(self);
        }
        let r = self.0;
        let _ = r.get_index();
        r
    }
}

impl<'db> ExportedType<'db> {
    #[verifier::type_invariant]
    spec fn inv(self) -> bool {
        self.0.table() == TableId::ExportedType
    }

    /// The flags of the type.
    pub fn flags(&self) -> (r: Result<u32, DecodeError>)
        ensures
            r matches Ok(v) && v == self.row().cell(0),
    {
        proof {
            use_type_invariant(self);
        }
        Ok(self.0.get_u32(0))
    }

    /// A hint at the row of the type in its own module.
    pub fn type_def_id(&self) -> (r: Result<u32, DecodeError>)
        ensures
            r matches Ok(v) && v == self.row().cell(1),
    {
        proof {
            use_type_invariant(self);
        }
        Ok(self.0.get_u32(1))
    }

    /// The name of the type.
    pub fn name(&self) -> (r: Result<&'db str, DecodeError>)
        ensures
            is_string(r, self.row().string(2)),
    {
        proof {
            use_type_invariant(self);
        }
        self.0.get_string(2)
    }

    /// The namespace of the type.
    pub fn type_namespace(&self) -> (r: Result<&'db str, DecodeError>)
        ensures
            is_string(r, self.row().string(3)),
    {
        proof {
            use_type_invariant(self);
        }
        self.0.get_string(3)
    }

    /// Where the type is to be found.
    pub fn implementation(&self) -> (r: Result<Option<Implementation<'db>>, DecodeError>)
        ensures
            is_coded(r, self.row().coded(4, CodedIndexKind::Implementation), self.row().model()),
    {
        proof {
            use_type_invariant(self);
        }
        get_coded_index(&self.0, 4)
    }

    /// The custom attributes that are attached to the row.
    pub fn custom_attributes(&self) -> (r: Result<TableRowIterator<'db, CustomAttribute<'db>>, DecodeError>)
        ensures
            is_key_list(
                r,
                spec_encode_coded(
                    CodedIndexKind::HasCustomAttribute,
                    TableId::ExportedType,
                    self.row().index() as u32,
                ),
                self.row().model(),
            ),
    {
        proof {
            use_type_invariant(self);
        }
        self.0.get_list_by_key(self.0.encode(CodedIndexKind::HasCustomAttribute))
    }

}

/// A row of the table `Field`.
#[derive(Clone, Copy)]
pub struct Field<'db>(Row<'db>);

impl<'db> TableRow<'db> for Field<'db> {
    open spec fn kind() -> TableId {
        TableId::Field
    }

    closed spec fn row(&self) -> Row<'db> {
        self.0
    }

    fn table_id() -> (r: TableId) {
        TableId::Field
    }

    fn from_row(row: Row<'db>) -> (r: Self) {
        Field(row)
    }

    fn get_index(&self) -> (r: u32) {
        self.0.get_index()
    }

    fn as_row(&self) -> (r: Row<'db>) {
        proof {
            use_type_invariant(self);
        }
        let r = self.0;
        let _ = r.get_index();
        r
    }
}

impl<'db> Field<'db> {
    #[verifier::type_invariant]
    spec fn inv(self) -> bool {
        self.0.table() == TableId::Field
    }

    /// The flags of the field.
    pub fn flags(&self) -> (r: Result<FieldAttributes, DecodeError>)
        ensures
            r matches Ok(f) && f.0 == self.row().cell(0),
    {
        proof {
            use_type_invariant(self);
        }
        Ok(FieldAttributes(self.0.get_u16(0)))
    }

    /// The name of the field.
    pub fn name(&self) -> (r: Result<&'db str, DecodeError>)
        ensures
            is_string(r, self.row().string(1)),
    {
        proof {
            use_type_invariant(self);
        }
        self.0.get_string(1)
    }

    /// The constant value of the field, if it has one.
    pub fn constant(&self) -> (r: Result<Option<Constant<'db>>, DecodeError>)
        ensures
            is_single(
                r,
                spec_encode_coded(
                    CodedIndexKind::HasConstant,
                    TableId::Field,
                    self.row().index() as u32,
                ),
                self.row().model(),
            ),
    {
        proof {
            use_type_invariant(self);
        }
        self.0.get_single_by_key(self.0.encode(CodedIndexKind::HasConstant))
    }

    /// The custom attributes that are attached to the row.
    pub fn custom_attributes(&self) -> (r: Result<TableRowIterator<'db, CustomAttribute<'db>>, DecodeError>)
        ensures
            is_key_list(
                r,
                spec_encode_coded(
                    CodedIndexKind::HasCustomAttribute,
                    TableId::Field,
                    self.row().index() as u32,
                ),
                self.row().model(),
            ),
    {
        proof {
            use_type_invariant(self);
        }
        self.0.get_list_by_key(self.0.encode(CodedIndexKind::HasCustomAttribute))
    }

}

/// A row of the table `FieldLayout`.
#[derive(Clone, Copy)]
pub struct FieldLayout<'db>(Row<'db>);

impl<'db> TableRow<'db> for FieldLayout<'db> {
    open spec fn kind() -> TableId {
        TableId::FieldLayout
    }

    closed spec fn row(&self) -> Row<'db> {
        self.0
    }

    fn table_id() -> (r: TableId) {
        TableId::FieldLayout
    }

    fn from_row(row: Row<'db>) -> (r: Self) {
        FieldLayout(row)
    }

    fn get_index(&self) -> (r: u32) {
        self.0.get_index()
    }

    fn as_row(&self) -> (r: Row<'db>) {
        proof {
            use_type_invariant(self);
        }
        let r = self.0;
        let _ = r.get_index();
        r
    }
}

impl<'db> FieldLayout<'db> {
    #[verifier::type_invariant]
    spec fn inv(self) -> bool {
        self.0.table() == TableId::FieldLayout
    }

    /// The offset of the field within its type.
    pub fn offset(&self) -> (r: Result<u32, DecodeError>)
        ensures
            r matches Ok(v) && v == self.row().cell(0),
    {
        proof {
            use_type_invariant(self);
        }
        Ok(self.0.get_u32(0))
    }

    /// The field.
    pub fn field(&self) -> (r: Result<Field<'db>, DecodeError>)
        ensures
            is_target(r, self.row().cell(1), self.row().model()),
    {
        proof {
            use_type_invariant(self);
        }
        self.0.get_target_row(1)
    }

}

/// A row of the table `FieldMarshal`.
#[derive(Clone, Copy)]
pub struct FieldMarshal<'db>(Row<'db>);

impl<'db> TableRow<'db> for FieldMarshal<'db> {
    open spec fn kind() -> TableId {
        TableId::FieldMarshal
    }

    closed spec fn row(&self) -> Row<'db> {
        self.0
    }

    fn table_id() -> (r: TableId) {
        TableId::FieldMarshal
    }

    fn from_row(row: Row<'db>) -> (r: Self) {
        FieldMarshal(row)
    }

    fn get_index(&self) -> (r: u32) {
        self.0.get_index()
    }

    fn as_row(&self) -> (r: Row<'db>) {
        proof {
            use_type_invariant(self);
        }
        let r = self.0;
        let _ = r.get_index();
        r
    }
}

impl<'db> FieldMarshal<'db> {
    #[verifier::type_invariant]
    spec fn inv(self) -> bool {
        self.0.table() == TableId::FieldMarshal
    }

    /// The field or parameter.
    pub fn parent(&self) -> (r: Result<Option<HasFieldMarshal<'db>>, DecodeError>)
        ensures
            is_coded(r, self.row().coded(0, CodedIndexKind::HasFieldMarshal), self.row().model()),
    {
        proof {
            use_type_invariant(self);
        }
        get_coded_index(&self.0, 0)
    }

    /// How the value is marshalled.
    pub fn native_type(&self) -> (r: Result<Option<&'db [u8]>, DecodeError>)
        ensures
            is_blob(r, self.row().blob(1)),
    {
        proof {
            use_type_invariant(self);
        }
        self.0.get_blob(1)
    }

}

/// A row of the table `FieldRVA`.
#[derive(Clone, Copy)]
pub struct FieldRVA<'db>(Row<'db>);

impl<'db> TableRow<'db> for FieldRVA<'db> {
    open spec fn kind() -> TableId {
        TableId::FieldRVA
    }

    closed spec fn row(&self) -> Row<'db> {
        self.0
    }

    fn table_id() -> (r: TableId) {
        TableId::FieldRVA
    }

    fn from_row(row: Row<'db>) -> (r: Self) {
        FieldRVA(row)
    }

    fn get_index(&self) -> (r: u32) {
        self.0.get_index()
    }

    fn as_row(&self) -> (r: Row<'db>) {
        proof {
            use_type_invariant(self);
        }
        let r = self.0;
        let _ = r.get_index();
        r
    }
}

impl<'db> FieldRVA<'db> {
    #[verifier::type_invariant]
    spec fn inv(self) -> bool {
        self.0.table() == TableId::FieldRVA
    }

    /// The address of the initial value within the image.
    pub fn rva(&self) -> (r: Result<u32, DecodeError>)
        ensures
            r matches Ok(v) && v == self.row().cell(0),
    {
        proof {
            use_type_invariant(self);
        }
        Ok(self.0.get_u32(0))
    }

    /// The field.
    pub fn field(&self) -> (r: Result<Field<'db>, DecodeError>)
        ensures
            is_target(r, self.row().cell(1), self.row().model()),
    {
        proof {
            use_type_invariant(self);
        }
        self.0.get_target_row(1)
    }

}

/// A row of the table `File`.
#[derive(Clone, Copy)]
pub struct File<'db>(Row<'db>);

impl<'db> TableRow<'db> for File<'db> {
    open spec fn kind() -> TableId {
        TableId::File
    }

    closed spec fn row(&self) -> Row<'db> {
        self.0
    }

    fn table_id() -> (r: TableId) {
        TableId::File
    }

    fn from_row(row: Row<'db>) -> (r: Self) {
        File(row)
    }

    fn get_index(&self) -> (r: u32) {
        self.0.get_index()
    }

    fn as_row(&self) -> (r: Row<'db>) {
        proof {
            use_type_invariant(self);
        }
        let r = self.0;
        let _ = r.get_index();
        r
    }
}

impl<'db> File<'db> {
    #[verifier::type_invariant]
    spec fn inv(self) -> bool {
        self.0.table() == TableId::File
    }

    /// The flags of the file.
    pub fn flags(&self) -> (r: Result<u32, DecodeError>)
        ensures
            r matches Ok(v) && v == self.row().cell(0),
    {
        proof {
            use_type_invariant(self);
        }
        Ok(self.0.get_u32(0))
    }

    /// The name of the file.
    pub fn name(&self) -> (r: Result<&'db str, DecodeError>)
        ensures
            is_string(r, self.row().string(1)),
    {
        proof {
            use_type_invariant(self);
        }
        self.0.get_string(1)
    }

    /// The hash of the file.
    pub fn hash_value(&self) -> (r: Result<Option<&'db [u8]>, DecodeError>)
        ensures
            is_blob(r, self.row().blob(2)),
    {
        proof {
            use_type_invariant(self);
        }
        self.0.get_blob(2)
    }

    /// The custom attributes that are attached to the row.
    pub fn custom_attributes(&self) -> (r: Result<TableRowIterator<'db, CustomAttribute<'db>>, DecodeError>)
        ensures
            is_key_list(
                r,
                spec_encode_coded(
                    CodedIndexKind::HasCustomAttribute,
                    TableId::File,
                    self.row().index() as u32,
                ),
                self.row().model(),
            ),
    {
        proof {
            use_type_invariant(self);
        }
        self.0.get_list_by_key(self.0.encode(CodedIndexKind::HasCustomAttribute))
    }

}

/// A row of the table `GenericParam`.
#[derive(Clone, Copy)]
pub struct GenericParam<'db>(Row<'db>);

impl<'db> TableRow<'db> for GenericParam<'db> {
    open spec fn kind() -> TableId {
        TableId::GenericParam
    }

    closed spec fn row(&self) -> Row<'db> {
        self.0
    }

    fn table_id() -> (r: TableId) {
        TableId::GenericParam
    }

    fn from_row(row: Row<'db>) -> (r: Self) {
        GenericParam(row)
    }

    fn get_index(&self) -> (r: u32) {
        self.0.get_index()
    }

    fn as_row(&self) -> (r: Row<'db>) {
        proof {
            use_type_invariant(self);
        }
        let r = self.0;
        let _ = r.get_index();
        r
    }
}

impl<'db> GenericParam<'db> {
    #[verifier::type_invariant]
    spec fn inv(self) -> bool {
        self.0.table() == TableId::GenericParam
    }

    /// The position of the parameter.
    pub fn number(&self) -> (r: Result<u16, DecodeError>)
        ensures
            r matches Ok(v) && v == self.row().cell(0),
    {
        proof {
            use_type_invariant(self);
        }
        Ok(self.0.get_u16(0))
    }

    /// The flags of the parameter.
    pub fn flags(&self) -> (r: Result<GenericParamAttributes, DecodeError>)
        ensures
            r matches Ok(f) && f.0 == self.row().cell(1),
    {
        proof {
            use_type_invariant(self);
        }
        Ok(GenericParamAttributes(self.0.get_u16(1)))
    }

    /// The type or method that has the parameter.
    pub fn owner(&self) -> (r: Result<Option<TypeOrMethodDef<'db>>, DecodeError>)
        ensures
            is_coded(r, self.row().coded(2, CodedIndexKind::TypeOrMethodDef), self.row().model()),
    {
        proof {
            use_type_invariant(self);
        }
        get_coded_index(&self.0, 2)
    }

    /// The name of the parameter.
    pub fn name(&self) -> (r: Result<&'db str, DecodeError>)
        ensures
            is_string(r, self.row().string(3)),
    {
        proof {
            use_type_invariant(self);
        }
        self.0.get_string(3)
    }

    /// The constraints on the parameter.
    pub fn constraints(&self) -> (r: Result<TableRowIterator<'db, GenericParamConstraint<'db>>, DecodeError>)
        ensures
            is_key_list(r, (self.row().index() + 1) as u32, self.row().model()),
    {
        proof {
            use_type_invariant(self);
        }
        let key = self.0.get_index() + 1;
        self.0.get_list_by_key(key)
    }

    /// The custom attributes that are attached to the row.
    pub fn custom_attributes(&self) -> (r: Result<TableRowIterator<'db, CustomAttribute<'db>>, DecodeError>)
        ensures
            is_key_list(
                r,
                spec_encode_coded(
                    CodedIndexKind::HasCustomAttribute,
                    TableId::GenericParam,
                    self.row().index() as u32,
                ),
                self.row().model(),
            ),
    {
        proof {
            use_type_invariant(self);
        }
        self.0.get_list_by_key(self.0.encode(CodedIndexKind::HasCustomAttribute))
    }

}

/// A row of the table `GenericParamConstraint`.
#[derive(Clone, Copy)]
pub struct GenericParamConstraint<'db>(Row<'db>);

impl<'db> TableRow<'db> for GenericParamConstraint<'db> {
    open spec fn kind() -> TableId {
        TableId::GenericParamConstraint
    }

    closed spec fn row(&self) -> Row<'db> {
        self.0
    }

    fn table_id() -> (r: TableId) {
        TableId::GenericParamConstraint
    }

    fn from_row(row: Row<'db>) -> (r: Self) {
        GenericParamConstraint(row)
    }

    fn get_index(&self) -> (r: u32) {
        self.0.get_index()
    }

    fn as_row(&self) -> (r: Row<'db>) {
        proof {
            use_type_invariant(self);
        }
        let r = self.0;
        let _ = r.get_index();
        r
    }
}

impl<'db> GenericParamConstraint<'db> {
    #[verifier::type_invariant]
    spec fn inv(self) -> bool {
        self.0.table() == TableId::GenericParamConstraint
    }

    /// The parameter that is constrained.
    pub fn owner(&self) -> (r: Result<GenericParam<'db>, DecodeError>)
        ensures
            is_target(r, self.row().cell(0), self.row().model()),
    {
        proof {
            use_type_invariant(self);
        }
        self.0.get_target_row(0)
    }

    /// The type that the parameter must derive from or implement.
    pub fn constraint(&self) -> (r: Result<Option<TypeDefOrRef<'db>>, DecodeError>)
        ensures
            is_coded(r, self.row().coded(1, CodedIndexKind::TypeDefOrRef), self.row().model()),
    {
        proof {
            use_type_invariant(self);
        }
        get_coded_index(&self.0, 1)
    }

    /// The custom attributes that are attached to the row.
    pub fn custom_attributes(&self) -> (r: Result<TableRowIterator<'db, CustomAttribute<'db>>, DecodeError>)
        ensures
            is_key_list(
                r,
                spec_encode_coded(
                    CodedIndexKind::HasCustomAttribute,
                    TableId::GenericParamConstraint,
                    self.row().index() as u32,
                ),
                self.row().model(),
            ),
    {
        proof {
            use_type_invariant(self);
        }
        self.0.get_list_by_key(self.0.encode(CodedIndexKind::HasCustomAttribute))
    }

}

/// A row of the table `ImplMap`.
#[derive(Clone, Copy)]
pub struct ImplMap<'db>(Row<'db>);

impl<'db> TableRow<'db> for ImplMap<'db> {
    open spec fn kind() -> TableId {
        TableId::ImplMap
    }

    closed spec fn row(&self) -> Row<'db> {
        self.0
    }

    fn table_id() -> (r: TableId) {
        TableId::ImplMap
    }

    fn from_row(row: Row<'db>) -> (r: Self) {
        ImplMap(row)
    }

    fn get_index(&self) -> (r: u32) {
        self.0.get_index()
    }

    fn as_row(&self) -> (r: Row<'db>) {
        proof {
            use_type_invariant(self);
        }
        let r = self.0;
        let _ = r.get_index();
        r
    }
}

impl<'db> ImplMap<'db> {
    #[verifier::type_invariant]
    spec fn inv(self) -> bool {
        self.0.table() == TableId::ImplMap
    }

    /// The flags of the mapping.
    pub fn mapping_flags(&self) -> (r: Result<u16, DecodeError>)
        ensures
            r matches Ok(v) && v == self.row().cell(0),
    {
        proof {
            use_type_invariant(self);
        }
        Ok(self.0.get_u16(0))
    }

    /// The field or method that is forwarded.
    pub fn member_forwarded(&self) -> (r: Result<Option<MemberForwarded<'db>>, DecodeError>)
        ensures
            is_coded(r, self.row().coded(1, CodedIndexKind::MemberForwarded), self.row().model()),
    {
        proof {
            use_type_invariant(self);
        }
        get_coded_index(&self.0, 1)
    }

    /// The name under which the member is imported.
    pub fn import_name(&self) -> (r: Result<&'db str, DecodeError>)
        ensures
            is_string(r, self.row().string(2)),
    {
        proof {
            use_type_invariant(self);
        }
        self.0.get_string(2)
    }

    /// The module from which the member is imported.
    pub fn import_scope(&self) -> (r: Result<ModuleRef<'db>, DecodeError>)
        ensures
            is_target(r, self.row().cell(3), self.row().model()),
    {
        proof {
            use_type_invariant(self);
        }
        self.0.get_target_row(3)
    }

}

/// A row of the table `InterfaceImpl`.
#[derive(Clone, Copy)]
pub struct InterfaceImpl<'db>(Row<'db>);

impl<'db> TableRow<'db> for InterfaceImpl<'db> {
    open spec fn kind() -> TableId {
        TableId::InterfaceImpl
    }

    closed spec fn row(&self) -> Row<'db> {
        self.0
    }

    fn table_id() -> (r: TableId) {
        TableId::InterfaceImpl
    }

    fn from_row(row: Row<'db>) -> (r: Self) {
        InterfaceImpl(row)
    }

    fn get_index(&self) -> (r: u32) {
        self.0.get_index()
    }

    fn as_row(&self) -> (r: Row<'db>) {
        proof {
            use_type_invariant(self);
        }
        let r = self.0;
        let _ = r.get_index();
        r
    }
}

impl<'db> InterfaceImpl<'db> {
    #[verifier::type_invariant]
    spec fn inv(self) -> bool {
        self.0.table() == TableId::InterfaceImpl
    }

    /// The type that implements the interface.
    pub fn class(&self) -> (r: Result<TypeDef<'db>, DecodeError>)
        ensures
            is_target(r, self.row().cell(0), self.row().model()),
    {
        proof {
            use_type_invariant(self);
        }
        self.0.get_target_row(0)
    }

    /// The interface.
    pub fn interface(&self) -> (r: Result<Option<TypeDefOrRef<'db>>, DecodeError>)
        ensures
            is_coded(r, self.row().coded(1, CodedIndexKind::TypeDefOrRef), self.row().model()),
    {
        proof {
            use_type_invariant(self);
        }
        get_coded_index(&self.0, 1)
    }

    /// The custom attributes that are attached to the row.
    pub fn custom_attributes(&self) -> (r: Result<TableRowIterator<'db, CustomAttribute<'db>>, DecodeError>)
        ensures
            is_key_list(
                r,
                spec_encode_coded(
                    CodedIndexKind::HasCustomAttribute,
                    TableId::InterfaceImpl,
                    self.row().index() as u32,
                ),
                self.row().model(),
            ),
    {
        proof {
            use_type_invariant(self);
        }
        self.0.get_list_by_key(self.0.encode(CodedIndexKind::HasCustomAttribute))
    }

}

/// A row of the table `ManifestResource`.
#[derive(Clone, Copy)]
pub struct ManifestResource<'db>(Row<'db>);

impl<'db> TableRow<'db> for ManifestResource<'db> {
    open spec fn kind() -> TableId {
        TableId::ManifestResource
    }

    closed spec fn row(&self) -> Row<'db> {
        self.0
    }

    fn table_id() -> (r: TableId) {
        TableId::ManifestResource
    }

    fn from_row(row: Row<'db>) -> (r: Self) {
        ManifestResource(row)
    }

    fn get_index(&self) -> (r: u32) {
        self.0.get_index()
    }

    fn as_row(&self) -> (r: Row<'db>) {
        proof {
            use_type_invariant(self);
        }
        let r = self.0;
        let _ = r.get_index();
        r
    }
}

impl<'db> ManifestResource<'db> {
    #[verifier::type_invariant]
    spec fn inv(self) -> bool {
        self.0.table() == TableId::ManifestResource
    }

    /// The offset of the resource.
    pub fn offset(&self) -> (r: Result<u32, DecodeError>)
        ensures
            r matches Ok(v) && v == self.row().cell(0),
    {
        proof {
            use_type_invariant(self);
        }
        Ok(self.0.get_u32(0))
    }

    /// The flags of the resource.
    pub fn flags(&self) -> (r: Result<u32, DecodeError>)
        ensures
            r matches Ok(v) && v == self.row().cell(1),
    {
        proof {
            use_type_invariant(self);
        }
        Ok(self.0.get_u32(1))
    }

    /// The name of the resource.
    pub fn name(&self) -> (r: Result<&'db str, DecodeError>)
        ensures
            is_string(r, self.row().string(2)),
    {
        proof {
            use_type_invariant(self);
        }
        self.0.get_string(2)
    }

    /// Where the resource is to be found.
    pub fn implementation(&self) -> (r: Result<Option<Implementation<'db>>, DecodeError>)
        ensures
            is_coded(r, self.row().coded(3, CodedIndexKind::Implementation), self.row().model()),
    {
        proof {
            use_type_invariant(self);
        }
        get_coded_index(&self.0, 3)
    }

    /// The custom attributes that are attached to the row.
    pub fn custom_attributes(&self) -> (r: Result<TableRowIterator<'db, CustomAttribute<'db>>, DecodeError>)
        ensures
            is_key_list(
                r,
                spec_encode_coded(
                    CodedIndexKind::HasCustomAttribute,
                    TableId::ManifestResource,
                    self.row().index() as u32,
                ),
                self.row().model(),
            ),
    {
        proof {
            use_type_invariant(self);
        }
        self.0.get_list_by_key(self.0.encode(CodedIndexKind::HasCustomAttribute))
    }

}

/// A row of the table `MemberRef`.
#[derive(Clone, Copy)]
pub struct MemberRef<'db>(Row<'db>);

impl<'db> TableRow<'db> for MemberRef<'db> {
    open spec fn kind() -> TableId {
        TableId::MemberRef
    }

    closed spec fn row(&self) -> Row<'db> {
        self.0
    }

    fn table_id() -> (r: TableId) {
        TableId::MemberRef
    }

    fn from_row(row: Row<'db>) -> (r: Self) {
        MemberRef(row)
    }

    fn get_index(&self) -> (r: u32) {
        self.0.get_index()
    }

    fn as_row(&self) -> (r: Row<'db>) {
        proof {
            use_type_invariant(self);
        }
        let r = self.0;
        let _ = r.get_index();
        r
    }
}

impl<'db> MemberRef<'db> {
    #[verifier::type_invariant]
    spec fn inv(self) -> bool {
        self.0.table() == TableId::MemberRef
    }

    /// The type or module that the member belongs to.
    pub fn class(&self) -> (r: Result<MemberRefParent<'db>, DecodeError>)
        ensures
            is_required_coded(
                r,
                self.row().coded(0, CodedIndexKind::MemberRefParent),
                self.row().model(),
            ),
    {
        proof {
            use_type_invariant(self);
        }
        get_required_coded_index(&self.0, 0)
    }

    /// The name of the member.
    pub fn name(&self) -> (r: Result<&'db str, DecodeError>)
        ensures
            is_string(r, self.row().string(1)),
    {
        proof {
            use_type_invariant(self);
        }
        self.0.get_string(1)
    }

    /// The custom attributes that are attached to the row.
    pub fn custom_attributes(&self) -> (r: Result<TableRowIterator<'db, CustomAttribute<'db>>, DecodeError>)
        ensures
            is_key_list(
                r,
                spec_encode_coded(
                    CodedIndexKind::HasCustomAttribute,
                    TableId::MemberRef,
                    self.row().index() as u32,
                ),
                self.row().model(),
            ),
    {
        proof {
            use_type_invariant(self);
        }
        self.0.get_list_by_key(self.0.encode(CodedIndexKind::HasCustomAttribute))
    }

}

/// A row of the table `MethodDef`.
#[derive(Clone, Copy)]
pub struct MethodDef<'db>(Row<'db>);

impl<'db> TableRow<'db> for MethodDef<'db> {
    open spec fn kind() -> TableId {
        TableId::MethodDef
    }

    closed spec fn row(&self) -> Row<'db> {
        self.0
    }

    fn table_id() -> (r: TableId) {
        TableId::MethodDef
    }

    fn from_row(row: Row<'db>) -> (r: Self) {
        MethodDef(row)
    }

    fn get_index(&self) -> (r: u32) {
        self.0.get_index()
    }

    fn as_row(&self) -> (r: Row<'db>) {
        proof {
            use_type_invariant(self);
        }
        let r = self.0;
        let _ = r.get_index();
        r
    }
}

impl<'db> MethodDef<'db> {
    #[verifier::type_invariant]
    spec fn inv(self) -> bool {
        self.0.table() == TableId::MethodDef
    }

    /// The address of the body within the image.
    pub fn rva(&self) -> (r: Result<u32, DecodeError>)
        ensures
            r matches Ok(v) && v == self.row().cell(0),
    {
        proof {
            use_type_invariant(self);
        }
        Ok(self.0.get_u32(0))
    }

    /// The flags of the implementation.
    pub fn impl_flags(&self) -> (r: Result<MethodImplAttributes, DecodeError>)
        ensures
            r matches Ok(f) && f.0 == self.row().cell(1),
    {
        proof {
            use_type_invariant(self);
        }
        Ok(MethodImplAttributes(self.0.get_u16(1)))
    }

    /// The flags of the method.
    pub fn flags(&self) -> (r: Result<MethodAttributes, DecodeError>)
        ensures
            r matches Ok(f) && f.0 == self.row().cell(2),
    {
        proof {
            use_type_invariant(self);
        }
        Ok(MethodAttributes(self.0.get_u16(2)))
    }

    /// The name of the method.
    pub fn name(&self) -> (r: Result<&'db str, DecodeError>)
        ensures
            is_string(r, self.row().string(3)),
    {
        proof {
            use_type_invariant(self);
        }
        self.0.get_string(3)
    }

    /// The parameters of the method.
    pub fn param_list(&self) -> (r: Result<TableRowIterator<'db, Param<'db>>, DecodeError>)
        ensures
            is_list(r, self.row().list(5, TableId::Param), self.row().model()),
    {
        proof {
            use_type_invariant(self);
        }
        self.0.get_list(5)
    }

    /// The generic parameters of the method.
    pub fn generic_params(&self) -> (r: Result<TableRowIterator<'db, GenericParam<'db>>, DecodeError>)
        ensures
            is_key_list(
                r,
                spec_encode_coded(
                    CodedIndexKind::TypeOrMethodDef,
                    TableId::MethodDef,
                    self.row().index() as u32,
                ),
                self.row().model(),
            ),
    {
        proof {
            use_type_invariant(self);
        }
        self.0.get_list_by_key(self.0.encode(CodedIndexKind::TypeOrMethodDef))
    }

    /// The custom attributes that are attached to the row.
    pub fn custom_attributes(&self) -> (r: Result<TableRowIterator<'db, CustomAttribute<'db>>, DecodeError>)
        ensures
            is_key_list(
                r,
                spec_encode_coded(
                    CodedIndexKind::HasCustomAttribute,
                    TableId::MethodDef,
                    self.row().index() as u32,
                ),
                self.row().model(),
            ),
    {
        proof {
            use_type_invariant(self);
        }
        self.0.get_list_by_key(self.0.encode(CodedIndexKind::HasCustomAttribute))
    }

}

/// A row of the table `MethodImpl`.
#[derive(Clone, Copy)]
pub struct MethodImpl<'db>(Row<'db>);

impl<'db> TableRow<'db> for MethodImpl<'db> {
    open spec fn kind() -> TableId {
        TableId::MethodImpl
    }

    closed spec fn row(&self) -> Row<'db> {
        self.0
    }

    fn table_id() -> (r: TableId) {
        TableId::MethodImpl
    }

    fn from_row(row: Row<'db>) -> (r: Self) {
        MethodImpl(row)
    }

    fn get_index(&self) -> (r: u32) {
        self.0.get_index()
    }

    fn as_row(&self) -> (r: Row<'db>) {
        proof {
            use_type_invariant(self);
        }
        let r = self.0;
        let _ = r.get_index();
        r
    }
}

impl<'db> MethodImpl<'db> {
    #[verifier::type_invariant]
    spec fn inv(self) -> bool {
        self.0.table() == TableId::MethodImpl
    }

    /// The type that holds the implementation.
    pub fn class(&self) -> (r: Result<TypeDef<'db>, DecodeError>)
        ensures
            is_target(r, self.row().cell(0), self.row().model()),
    {
        proof {
            use_type_invariant(self);
        }
        self.0.get_target_row(0)
    }

    /// The method that implements.
    pub fn method_body(&self) -> (r: Result<Option<MethodDefOrRef<'db>>, DecodeError>)
        ensures
            is_coded(r, self.row().coded(1, CodedIndexKind::MethodDefOrRef), self.row().model()),
    {
        proof {
            use_type_invariant(self);
        }
        get_coded_index(&self.0, 1)
    }

    /// The method that is implemented.
    pub fn method_declaration(&self) -> (r: Result<Option<MethodDefOrRef<'db>>, DecodeError>)
        ensures
            is_coded(r, self.row().coded(2, CodedIndexKind::MethodDefOrRef), self.row().model()),
    {
        proof {
            use_type_invariant(self);
        }
        get_coded_index(&self.0, 2)
    }

}

/// A row of the table `MethodSemantics`.
#[derive(Clone, Copy)]
pub struct MethodSemantics<'db>(Row<'db>);

impl<'db> TableRow<'db> for MethodSemantics<'db> {
    open spec fn kind() -> TableId {
        TableId::MethodSemantics
    }

    closed spec fn row(&self) -> Row<'db> {
        self.0
    }

    fn table_id() -> (r: TableId) {
        TableId::MethodSemantics
    }

    fn from_row(row: Row<'db>) -> (r: Self) {
        MethodSemantics(row)
    }

    fn get_index(&self) -> (r: u32) {
        self.0.get_index()
    }

    fn as_row(&self) -> (r: Row<'db>) {
        proof {
            use_type_invariant(self);
        }
        let r = self.0;
        let _ = r.get_index();
        r
    }
}

impl<'db> MethodSemantics<'db> {
    #[verifier::type_invariant]
    spec fn inv(self) -> bool {
        self.0.table() == TableId::MethodSemantics
    }

    /// What the method is to the property or event.
    pub fn semantics(&self) -> (r: Result<MethodSemanticsAttributes, DecodeError>)
        ensures
            r matches Ok(f) && f.0 == self.row().cell(0),
    {
        proof {
            use_type_invariant(self);
        }
        Ok(MethodSemanticsAttributes(self.0.get_u16(0)))
    }

    /// The method.
    pub fn method(&self) -> (r: Result<MethodDef<'db>, DecodeError>)
        ensures
            is_target(r, self.row().cell(1), self.row().model()),
    {
        proof {
            use_type_invariant(self);
        }
        self.0.get_target_row(1)
    }

    /// The property or event.
    pub fn association(&self) -> (r: Result<Option<HasSemantics<'db>>, DecodeError>)
        ensures
            is_coded(r, self.row().coded(2, CodedIndexKind::HasSemantics), self.row().model()),
    {
        proof {
            use_type_invariant(self);
        }
        get_coded_index(&self.0, 2)
    }

}

/// A row of the table `MethodSpec`.
#[derive(Clone, Copy)]
pub struct MethodSpec<'db>(Row<'db>);

impl<'db> TableRow<'db> for MethodSpec<'db> {
    open spec fn kind() -> TableId {
        TableId::MethodSpec
    }

    closed spec fn row(&self) -> Row<'db> {
        self.0
    }

    fn table_id() -> (r: TableId) {
        TableId::MethodSpec
    }

    fn from_row(row: Row<'db>) -> (r: Self) {
        MethodSpec(row)
    }

    fn get_index(&self) -> (r: u32) {
        self.0.get_index()
    }

    fn as_row(&self) -> (r: Row<'db>) {
        proof {
            use_type_invariant(self);
        }
        let r = self.0;
        let _ = r.get_index();
        r
    }
}

impl<'db> MethodSpec<'db> {
    #[verifier::type_invariant]
    spec fn inv(self) -> bool {
        self.0.table() == TableId::MethodSpec
    }

    /// The generic method.
    pub fn method(&self) -> (r: Result<Option<MethodDefOrRef<'db>>, DecodeError>)
        ensures
            is_coded(r, self.row().coded(0, CodedIndexKind::MethodDefOrRef), self.row().model()),
    {
        proof {
            use_type_invariant(self);
        }
        get_coded_index(&self.0, 0)
    }

    /// The bytes of the signature of the instantiation.
    pub fn instantiation(&self) -> (r: Result<Option<&'db [u8]>, DecodeError>)
        ensures
            is_blob(r, self.row().blob(1)),
    {
        proof {
            use_type_invariant(self);
        }
        self.0.get_blob(1)
    }

    /// The custom attributes that are attached to the row.
    pub fn custom_attributes(&self) -> (r: Result<TableRowIterator<'db, CustomAttribute<'db>>, DecodeError>)
        ensures
            is_key_list(
                r,
                spec_encode_coded(
                    CodedIndexKind::HasCustomAttribute,
                    TableId::MethodSpec,
                    self.row().index() as u32,
                ),
                self.row().model(),
            ),
    {
        proof {
            use_type_invariant(self);
        }
        self.0.get_list_by_key(self.0.encode(CodedIndexKind::HasCustomAttribute))
    }

}

/// A row of the table `Module`.
#[derive(Clone, Copy)]
pub struct Module<'db>(Row<'db>);

impl<'db> TableRow<'db> for Module<'db> {
    open spec fn kind() -> TableId {
        TableId::Module
    }

    closed spec fn row(&self) -> Row<'db> {
        self.0
    }

    fn table_id() -> (r: TableId) {
        TableId::Module
    }

    fn from_row(row: Row<'db>) -> (r: Self) {
        Module(row)
    }

    fn get_index(&self) -> (r: u32) {
        self.0.get_index()
    }

    fn as_row(&self) -> (r: Row<'db>) {
        proof {
            use_type_invariant(self);
        }
        let r = self.0;
        let _ = r.get_index();
        r
    }
}

impl<'db> Module<'db> {
    #[verifier::type_invariant]
    spec fn inv(self) -> bool {
        self.0.table() == TableId::Module
    }

    /// The generation, which is reserved.
    pub fn generation(&self) -> (r: Result<u16, DecodeError>)
        ensures
            r matches Ok(v) && v == self.row().cell(0),
    {
        proof {
            use_type_invariant(self);
        }
        Ok(self.0.get_u16(0))
    }

    /// The name of the module.
    pub fn name(&self) -> (r: Result<&'db str, DecodeError>)
        ensures
            is_string(r, self.row().string(1)),
    {
        proof {
            use_type_invariant(self);
        }
        self.0.get_string(1)
    }

    /// The number of the GUID that tells versions of the module apart.
    pub fn mvid(&self) -> (r: Result<u32, DecodeError>)
        ensures
            r matches Ok(v) && v == self.row().cell(2),
    {
        proof {
            use_type_invariant(self);
        }
        Ok(self.0.get_u32(2))
    }

    /// A reserved GUID number.
    pub fn enc_id(&self) -> (r: Result<u32, DecodeError>)
        ensures
            r matches Ok(v) && v == self.row().cell(3),
    {
        proof {
            use_type_invariant(self);
        }
        Ok(self.0.get_u32(3))
    }

    /// A reserved GUID number.
    pub fn enc_base_id(&self) -> (r: Result<u32, DecodeError>)
        ensures
            r matches Ok(v) && v == self.row().cell(4),
    {
        proof {
            use_type_invariant(self);
        }
        Ok(self.0.get_u32(4))
    }

    /// The custom attributes that are attached to the row.
    pub fn custom_attributes(&self) -> (r: Result<TableRowIterator<'db, CustomAttribute<'db>>, DecodeError>)
        ensures
            is_key_list(
                r,
                spec_encode_coded(
                    CodedIndexKind::HasCustomAttribute,
                    TableId::Module,
                    self.row().index() as u32,
                ),
                self.row().model(),
            ),
    {
        proof {
            use_type_invariant(self);
        }
        self.0.get_list_by_key(self.0.encode(CodedIndexKind::HasCustomAttribute))
    }

}

/// A row of the table `ModuleRef`.
#[derive(Clone, Copy)]
pub struct ModuleRef<'db>(Row<'db>);

impl<'db> TableRow<'db> for ModuleRef<'db> {
    open spec fn kind() -> TableId {
        TableId::ModuleRef
    }

    closed spec fn row(&self) -> Row<'db> {
        self.0
    }

    fn table_id() -> (r: TableId) {
        TableId::ModuleRef
    }

    fn from_row(row: Row<'db>) -> (r: Self) {
        ModuleRef(row)
    }

    fn get_index(&self) -> (r: u32) {
        self.0.get_index()
    }

    fn as_row(&self) -> (r: Row<'db>) {
        proof {
            use_type_invariant(self);
        }
        let r = self.0;
        let _ = r.get_index();
        r
    }
}

impl<'db> ModuleRef<'db> {
    #[verifier::type_invariant]
    spec fn inv(self) -> bool {
        self.0.table() == TableId::ModuleRef
    }

    /// The name of the module.
    pub fn name(&self) -> (r: Result<&'db str, DecodeError>)
        ensures
            is_string(r, self.row().string(0)),
    {
        proof {
            use_type_invariant(self);
        }
        self.0.get_string(0)
    }

    /// The custom attributes that are attached to the row.
    pub fn custom_attributes(&self) -> (r: Result<TableRowIterator<'db, CustomAttribute<'db>>, DecodeError>)
        ensures
            is_key_list(
                r,
                spec_encode_coded(
                    CodedIndexKind::HasCustomAttribute,
                    TableId::ModuleRef,
                    self.row().index() as u32,
                ),
                self.row().model(),
            ),
    {
        proof {
            use_type_invariant(self);
        }
        self.0.get_list_by_key(self.0.encode(CodedIndexKind::HasCustomAttribute))
    }

}

/// A row of the table `NestedClass`.
#[derive(Clone, Copy)]
pub struct NestedClass<'db>(Row<'db>);

impl<'db> TableRow<'db> for NestedClass<'db> {
    open spec fn kind() -> TableId {
        TableId::NestedClass
    }

    closed spec fn row(&self) -> Row<'db> {
        self.0
    }

    fn table_id() -> (r: TableId) {
        TableId::NestedClass
    }

    fn from_row(row: Row<'db>) -> (r: Self) {
        NestedClass(row)
    }

    fn get_index(&self) -> (r: u32) {
        self.0.get_index()
    }

    fn as_row(&self) -> (r: Row<'db>) {
        proof {
            use_type_invariant(self);
        }
        let r = self.0;
        let _ = r.get_index();
        r
    }
}

impl<'db> NestedClass<'db> {
    #[verifier::type_invariant]
    spec fn inv(self) -> bool {
        self.0.table() == TableId::NestedClass
    }

    /// The nested type.
    pub fn nested_class(&self) -> (r: Result<TypeDef<'db>, DecodeError>)
        ensures
            is_target(r, self.row().cell(0), self.row().model()),
    {
        proof {
            use_type_invariant(self);
        }
        self.0.get_target_row(0)
    }

    /// The type that encloses it.
    pub fn enclosing_class(&self) -> (r: Result<TypeDef<'db>, DecodeError>)
        ensures
            is_target(r, self.row().cell(1), self.row().model()),
    {
        proof {
            use_type_invariant(self);
        }
        self.0.get_target_row(1)
    }

}

/// A row of the table `Param`.
#[derive(Clone, Copy)]
pub struct Param<'db>(Row<'db>);

impl<'db> TableRow<'db> for Param<'db> {
    open spec fn kind() -> TableId {
        TableId::Param
    }

    closed spec fn row(&self) -> Row<'db> {
        self.0
    }

    fn table_id() -> (r: TableId) {
        TableId::Param
    }

    fn from_row(row: Row<'db>) -> (r: Self) {
        Param(row)
    }

    fn get_index(&self) -> (r: u32) {
        self.0.get_index()
    }

    fn as_row(&self) -> (r: Row<'db>) {
        proof {
            use_type_invariant(self);
        }
        let r = self.0;
        let _ = r.get_index();
        r
    }
}

impl<'db> Param<'db> {
    #[verifier::type_invariant]
    spec fn inv(self) -> bool {
        self.0.table() == TableId::Param
    }

    /// The flags of the parameter.
    pub fn flags(&self) -> (r: Result<ParamAttributes, DecodeError>)
        ensures
            r matches Ok(f) && f.0 == self.row().cell(0),
    {
        proof {
            use_type_invariant(self);
        }
        Ok(ParamAttributes(self.0.get_u16(0)))
    }

    /// The position of the parameter; zero stands for the return value.
    pub fn sequence(&self) -> (r: Result<u16, DecodeError>)
        ensures
            r matches Ok(v) && v == self.row().cell(1),
    {
        proof {
            use_type_invariant(self);
        }
        Ok(self.0.get_u16(1))
    }

    /// The name of the parameter.
    pub fn name(&self) -> (r: Result<&'db str, DecodeError>)
        ensures
            is_string(r, self.row().string(2)),
    {
        proof {
            use_type_invariant(self);
        }
        self.0.get_string(2)
    }

    /// The default value of the parameter, if it has one.
    pub fn constant(&self) -> (r: Result<Option<Constant<'db>>, DecodeError>)
        ensures
            is_single(
                r,
                spec_encode_coded(
                    CodedIndexKind::HasConstant,
                    TableId::Param,
                    self.row().index() as u32,
                ),
                self.row().model(),
            ),
    {
        proof {
            use_type_invariant(self);
        }
        self.0.get_single_by_key(self.0.encode(CodedIndexKind::HasConstant))
    }

    /// The custom attributes that are attached to the row.
    pub fn custom_attributes(&self) -> (r: Result<TableRowIterator<'db, CustomAttribute<'db>>, DecodeError>)
        ensures
            is_key_list(
                r,
                spec_encode_coded(
                    CodedIndexKind::HasCustomAttribute,
                    TableId::Param,
                    self.row().index() as u32,
                ),
                self.row().model(),
            ),
    {
        proof {
            use_type_invariant(self);
        }
        self.0.get_list_by_key(self.0.encode(CodedIndexKind::HasCustomAttribute))
    }

}

/// A row of the table `Property`.
#[derive(Clone, Copy)]
pub struct Property<'db>(Row<'db>);

impl<'db> TableRow<'db> for Property<'db> {
    open spec fn kind() -> TableId {
        TableId::Property
    }

    closed spec fn row(&self) -> Row<'db> {
        self.0
    }

    fn table_id() -> (r: TableId) {
        TableId::Property
    }

    fn from_row(row: Row<'db>) -> (r: Self) {
        Property(row)
    }

    fn get_index(&self) -> (r: u32) {
        self.0.get_index()
    }

    fn as_row(&self) -> (r: Row<'db>) {
        proof {
            use_type_invariant(self);
        }
        let r = self.0;
        let _ = r.get_index();
        r
    }
}

impl<'db> Property<'db> {
    #[verifier::type_invariant]
    spec fn inv(self) -> bool {
        self.0.table() == TableId::Property
    }

    /// The flags of the property.
    pub fn flags(&self) -> (r: Result<PropertyAttributes, DecodeError>)
        ensures
            r matches Ok(f) && f.0 == self.row().cell(0),
    {
        proof {
            use_type_invariant(self);
        }
        Ok(PropertyAttributes(self.0.get_u16(0)))
    }

    /// The name of the property.
    pub fn name(&self) -> (r: Result<&'db str, DecodeError>)
        ensures
            is_string(r, self.row().string(1)),
    {
        proof {
            use_type_invariant(self);
        }
        self.0.get_string(1)
    }

    /// The bytes of the signature of the property.
    pub fn type_(&self) -> (r: Result<Option<&'db [u8]>, DecodeError>)
        ensures
            is_blob(r, self.row().blob(2)),
    {
        proof {
            use_type_invariant(self);
        }
        self.0.get_blob(2)
    }

    /// The default value of the property, if it has one.
    pub fn constant(&self) -> (r: Result<Option<Constant<'db>>, DecodeError>)
        ensures
            is_single(
                r,
                spec_encode_coded(
                    CodedIndexKind::HasConstant,
                    TableId::Property,
                    self.row().index() as u32,
                ),
                self.row().model(),
            ),
    {
        proof {
            use_type_invariant(self);
        }
        self.0.get_single_by_key(self.0.encode(CodedIndexKind::HasConstant))
    }

    /// The custom attributes that are attached to the row.
    pub fn custom_attributes(&self) -> (r: Result<TableRowIterator<'db, CustomAttribute<'db>>, DecodeError>)
        ensures
            is_key_list(
                r,
                spec_encode_coded(
                    CodedIndexKind::HasCustomAttribute,
                    TableId::Property,
                    self.row().index() as u32,
                ),
                self.row().model(),
            ),
    {
        proof {
            use_type_invariant(self);
        }
        self.0.get_list_by_key(self.0.encode(CodedIndexKind::HasCustomAttribute))
    }

}

/// A row of the table `PropertyMap`.
#[derive(Clone, Copy)]
pub struct PropertyMap<'db>(Row<'db>);

impl<'db> TableRow<'db> for PropertyMap<'db> {
    open spec fn kind() -> TableId {
        TableId::PropertyMap
    }

    closed spec fn row(&self) -> Row<'db> {
        self.0
    }

    fn table_id() -> (r: TableId) {
        TableId::PropertyMap
    }

    fn from_row(row: Row<'db>) -> (r: Self) {
        PropertyMap(row)
    }

    fn get_index(&self) -> (r: u32) {
        self.0.get_index()
    }

    fn as_row(&self) -> (r: Row<'db>) {
        proof {
            use_type_invariant(self);
        }
        let r = self.0;
        let _ = r.get_index();
        r
    }
}

impl<'db> PropertyMap<'db> {
    #[verifier::type_invariant]
    spec fn inv(self) -> bool {
        self.0.table() == TableId::PropertyMap
    }

    /// The type that has the properties.
    pub fn parent(&self) -> (r: Result<TypeDef<'db>, DecodeError>)
        ensures
            is_target(r, self.row().cell(0), self.row().model()),
    {
        proof {
            use_type_invariant(self);
        }
        self.0.get_target_row(0)
    }

    /// The properties of the type.
    pub fn property_list(&self) -> (r: Result<TableRowIterator<'db, Property<'db>>, DecodeError>)
        ensures
            is_list(r, self.row().list(1, TableId::Property), self.row().model()),
    {
        proof {
            use_type_invariant(self);
        }
        self.0.get_list(1)
    }

}

/// A row of the table `StandAloneSig`.
#[derive(Clone, Copy)]
pub struct StandAloneSig<'db>(Row<'db>);

impl<'db> TableRow<'db> for StandAloneSig<'db> {
    open spec fn kind() -> TableId {
        TableId::StandAloneSig
    }

    closed spec fn row(&self) -> Row<'db> {
        self.0
    }

    fn table_id() -> (r: TableId) {
        TableId::StandAloneSig
    }

    fn from_row(row: Row<'db>) -> (r: Self) {
        StandAloneSig(row)
    }

    fn get_index(&self) -> (r: u32) {
        self.0.get_index()
    }

    fn as_row(&self) -> (r: Row<'db>) {
        proof {
            use_type_invariant(self);
        }
        let r = self.0;
        let _ = r.get_index();
        r
    }
}

impl<'db> StandAloneSig<'db> {
    #[verifier::type_invariant]
    spec fn inv(self) -> bool {
        self.0.table() == TableId::StandAloneSig
    }

    /// The bytes of the signature.
    pub fn signature(&self) -> (r: Result<Option<&'db [u8]>, DecodeError>)
        ensures
            is_blob(r, self.row().blob(0)),
    {
        proof {
            use_type_invariant(self);
        }
        self.0.get_blob(0)
    }

    /// The custom attributes that are attached to the row.
    pub fn custom_attributes(&self) -> (r: Result<TableRowIterator<'db, CustomAttribute<'db>>, DecodeError>)
        ensures
            is_key_list(
                r,
                spec_encode_coded(
                    CodedIndexKind::HasCustomAttribute,
                    TableId::StandAloneSig,
                    self.row().index() as u32,
                ),
                self.row().model(),
            ),
    {
        proof {
            use_type_invariant(self);
        }
        self.0.get_list_by_key(self.0.encode(CodedIndexKind::HasCustomAttribute))
    }

}

/// A row of the table `TypeDef`.
#[derive(Clone, Copy)]
pub struct TypeDef<'db>(Row<'db>);

impl<'db> TableRow<'db> for TypeDef<'db> {
    open spec fn kind() -> TableId {
        TableId::TypeDef
    }

    closed spec fn row(&self) -> Row<'db> {
        self.0
    }

    fn table_id() -> (r: TableId) {
        TableId::TypeDef
    }

    fn from_row(row: Row<'db>) -> (r: Self) {
        TypeDef(row)
    }

    fn get_index(&self) -> (r: u32) {
        self.0.get_index()
    }

    fn as_row(&self) -> (r: Row<'db>) {
        proof {
            use_type_invariant(self);
        }
        let r = self.0;
        let _ = r.get_index();
        r
    }
}

impl<'db> TypeDef<'db> {
    #[verifier::type_invariant]
    spec fn inv(self) -> bool {
        self.0.table() == TableId::TypeDef
    }

    /// The flags of the type.
    pub fn flags(&self) -> (r: Result<TypeAttributes, DecodeError>)
        ensures
            r matches Ok(f) && f.0 == self.row().cell(0),
    {
        proof {
            use_type_invariant(self);
        }
        Ok(TypeAttributes(self.0.get_u32(0)))
    }

    /// The name of the type.
    pub fn name(&self) -> (r: Result<&'db str, DecodeError>)
        ensures
            is_string(r, self.row().string(1)),
    {
        proof {
            use_type_invariant(self);
        }
        self.0.get_string(1)
    }

    /// The namespace of the type.
    pub fn type_namespace(&self) -> (r: Result<&'db str, DecodeError>)
        ensures
            is_string(r, self.row().string(2)),
    {
        proof {
            use_type_invariant(self);
        }
        self.0.get_string(2)
    }

    /// The type that this type extends.
    pub fn extends(&self) -> (r: Result<Option<TypeDefOrRef<'db>>, DecodeError>)
        ensures
            is_coded(r, self.row().coded(3, CodedIndexKind::TypeDefOrRef), self.row().model()),
    {
        proof {
            use_type_invariant(self);
        }
        get_coded_index(&self.0, 3)
    }

    /// The fields of the type.
    pub fn field_list(&self) -> (r: Result<TableRowIterator<'db, Field<'db>>, DecodeError>)
        ensures
            is_list(r, self.row().list(4, TableId::Field), self.row().model()),
    {
        proof {
            use_type_invariant(self);
        }
        self.0.get_list(4)
    }

    /// The methods of the type.
    pub fn method_list(&self) -> (r: Result<TableRowIterator<'db, MethodDef<'db>>, DecodeError>)
        ensures
            is_list(r, self.row().list(5, TableId::MethodDef), self.row().model()),
    {
        proof {
            use_type_invariant(self);
        }
        self.0.get_list(5)
    }

    /// The interfaces that the type implements.
    pub fn interface_impls(&self) -> (r: Result<TableRowIterator<'db, InterfaceImpl<'db>>, DecodeError>)
        ensures
            is_key_list(r, (self.row().index() + 1) as u32, self.row().model()),
    {
        proof {
            use_type_invariant(self);
        }
        let key = self.0.get_index() + 1;
        self.0.get_list_by_key(key)
    }

    /// The generic parameters of the type.
    pub fn generic_params(&self) -> (r: Result<TableRowIterator<'db, GenericParam<'db>>, DecodeError>)
        ensures
            is_key_list(
                r,
                spec_encode_coded(
                    CodedIndexKind::TypeOrMethodDef,
                    TableId::TypeDef,
                    self.row().index() as u32,
                ),
                self.row().model(),
            ),
    {
        proof {
            use_type_invariant(self);
        }
        self.0.get_list_by_key(self.0.encode(CodedIndexKind::TypeOrMethodDef))
    }

    /// The custom attributes that are attached to the row.
    pub fn custom_attributes(&self) -> (r: Result<TableRowIterator<'db, CustomAttribute<'db>>, DecodeError>)
        ensures
            is_key_list(
                r,
                spec_encode_coded(
                    CodedIndexKind::HasCustomAttribute,
                    TableId::TypeDef,
                    self.row().index() as u32,
                ),
                self.row().model(),
            ),
    {
        proof {
            use_type_invariant(self);
        }
        self.0.get_list_by_key(self.0.encode(CodedIndexKind::HasCustomAttribute))
    }

}

/// A row of the table `TypeRef`.
#[derive(Clone, Copy)]
pub struct TypeRef<'db>(Row<'db>);

impl<'db> TableRow<'db> for TypeRef<'db> {
    open spec fn kind() -> TableId {
        TableId::TypeRef
    }

    closed spec fn row(&self) -> Row<'db> {
        self.0
    }

    fn table_id() -> (r: TableId) {
        TableId::TypeRef
    }

    fn from_row(row: Row<'db>) -> (r: Self) {
        TypeRef(row)
    }

    fn get_index(&self) -> (r: u32) {
        self.0.get_index()
    }

    fn as_row(&self) -> (r: Row<'db>) {
        proof {
            use_type_invariant(self);
        }
        let r = self.0;
        let _ = r.get_index();
        r
    }
}

impl<'db> TypeRef<'db> {
    #[verifier::type_invariant]
    spec fn inv(self) -> bool {
        self.0.table() == TableId::TypeRef
    }

    /// Where the type is to be found.
    pub fn resolution_scope(&self) -> (r: Result<Option<ResolutionScope<'db>>, DecodeError>)
        ensures
            is_coded(r, self.row().coded(0, CodedIndexKind::ResolutionScope), self.row().model()),
    {
        proof {
            use_type_invariant(self);
        }
        get_coded_index(&self.0, 0)
    }

    /// The name of the type.
    pub fn name(&self) -> (r: Result<&'db str, DecodeError>)
        ensures
            is_string(r, self.row().string(1)),
    {
        proof {
            use_type_invariant(self);
        }
        self.0.get_string(1)
    }

    /// The namespace of the type.
    pub fn type_namespace(&self) -> (r: Result<&'db str, DecodeError>)
        ensures
            is_string(r, self.row().string(2)),
    {
        proof {
            use_type_invariant(self);
        }
        self.0.get_string(2)
    }

    /// The custom attributes that are attached to the row.
    pub fn custom_attributes(&self) -> (r: Result<TableRowIterator<'db, CustomAttribute<'db>>, DecodeError>)
        ensures
            is_key_list(
                r,
                spec_encode_coded(
                    CodedIndexKind::HasCustomAttribute,
                    TableId::TypeRef,
                    self.row().index() as u32,
                ),
                self.row().model(),
            ),
    {
        proof {
            use_type_invariant(self);
        }
        self.0.get_list_by_key(self.0.encode(CodedIndexKind::HasCustomAttribute))
    }

}

/// A row of the table `TypeSpec`.
#[derive(Clone, Copy)]
pub struct TypeSpec<'db>(Row<'db>);

impl<'db> TableRow<'db> for TypeSpec<'db> {
    open spec fn kind() -> TableId {
        TableId::TypeSpec
    }

    closed spec fn row(&self) -> Row<'db> {
        self.0
    }

    fn table_id() -> (r: TableId) {
        TableId::TypeSpec
    }

    fn from_row(row: Row<'db>) -> (r: Self) {
        TypeSpec(row)
    }

    fn get_index(&self) -> (r: u32) {
        self.0.get_index()
    }

    fn as_row(&self) -> (r: Row<'db>) {
        proof {
            use_type_invariant(self);
        }
        let r = self.0;
        let _ = r.get_index();
        r
    }
}

impl<'db> TypeSpec<'db> {
    #[verifier::type_invariant]
    spec fn inv(self) -> bool {
        self.0.table() == TableId::TypeSpec
    }

    /// The custom attributes that are attached to the row.
    pub fn custom_attributes(&self) -> (r: Result<TableRowIterator<'db, CustomAttribute<'db>>, DecodeError>)
        ensures
            is_key_list(
                r,
                spec_encode_coded(
                    CodedIndexKind::HasCustomAttribute,
                    TableId::TypeSpec,
                    self.row().index() as u32,
                ),
                self.row().model(),
            ),
    {
        proof {
            use_type_invariant(self);
        }
        self.0.get_list_by_key(self.0.encode(CodedIndexKind::HasCustomAttribute))
    }

}

} // verus!
