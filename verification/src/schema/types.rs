use vstd::prelude::*;
use vstd::string::StringSliceAdditionalSpecFns;
use crate::engine::bytes::bit_is_set;
use crate::engine::database::is_row;
use crate::engine::database::spec_list_range;
use crate::engine::database::Database;
use crate::engine::database::DatabaseModel;
use crate::schema::rows::Assembly;
use crate::engine::database::TableRow;
use crate::engine::kinds::CodedIndexKind;
use crate::engine::kinds::TableId;
use crate::error::DecodeError;
use crate::error::DecodeErrorKind;
use crate::schema::coded::CodedIndex;
use crate::schema::coded::TypeDefOrRef;
use crate::schema::rows::Field;
use crate::schema::rows::MemberRef;
use crate::schema::rows::MethodDef;
use crate::schema::rows::TypeDef;
use crate::schema::rows::TypeRef;
use crate::schema::rows::TypeSpec;
use crate::schema::signatures::spec_field_sig;
use crate::schema::signatures::spec_method_def_sig;
use crate::schema::signatures::spec_type_spec_sig;
use crate::schema::signatures::FieldSig;
use crate::schema::signatures::FieldSigModel;
use crate::schema::signatures::MethodDefSig;
use crate::schema::signatures::PrimitiveType;
use crate::schema::signatures::Type;
use crate::schema::signatures::TypeModel;
use crate::schema::signatures::TypeSpecSig;

verus! {

/// What kind of type a type definition is.
#[derive(Clone, Copy, Debug, PartialEq, Eq, Structural)]
pub enum TypeCategory {
    Interface,
    Class,
    Enum,
    Struct,
    Delegate,
}

/// Whether two runs of bytes are the same.
pub fn bytes_eq(x: &[u8], y: &[u8]) -> (r: bool)
    ensures
        r == (x@ == y@),
{
    if x.len() != y.len() {
        return false;
    }
    let mut i: usize = 0;
    while i < x.len()
        invariant
            i <= x@.len(),
            x@.len() == y@.len(),
            forall|j: int| 0 <= j < i ==> x@[j] == y@[j],
        decreases x@.len() - i,
    {
        if x[i] != y[i] {
            return false;
        }
        i += 1;
    }
    assert(x@ =~= y@);
    true
}

/// Whether two strings are the same.
pub fn str_eq(a: &str, b: &str) -> (r: bool)
    ensures
        r == (a@ == b@),
        r == (a.spec_bytes() == b.spec_bytes()),
{
    proof {
        vstd::utf8::encode_utf8_decode_utf8(a@);
        vstd::utf8::encode_utf8_decode_utf8(b@);
    }
    bytes_eq(a.as_bytes(), b.as_bytes())
}

/// The bytes of the name and of the namespace that a row of a type
/// definition or a type reference names: namespace first. A namespace that
/// cannot be read counts as empty; a name that cannot be read is a failure.
pub open spec fn spec_name_pair(model: DatabaseModel, table: TableId, index: int) -> Result<
    (Seq<u8>, Seq<u8>),
    DecodeErrorKind,
> {
    match model.string(table, index, 1) {
        Err(kind) => Err(kind),
        Ok(name) => match model.string(table, index, 2) {
            Err(_) => Ok((Seq::empty(), name)),
            Ok(namespace) => Ok((namespace, name)),
        },
    }
}

/// The name pair of the type that a coded index refers to; a type
/// specification has none.
pub open spec fn spec_type_name_pair(model: DatabaseModel, table: TableId, index: int) -> Result<
    (Seq<u8>, Seq<u8>),
    DecodeErrorKind,
> {
    if table == TableId::TypeSpec {
        Err(DecodeErrorKind::TypeSpecHasNoName)
    } else {
        spec_name_pair(model, table, index)
    }
}

/// `r` is the pair of strings `expected`, or the failure in its place.
pub open spec fn is_name_pair(
    r: Result<(&str, &str), DecodeError>,
    expected: Result<(Seq<u8>, Seq<u8>), DecodeErrorKind>,
) -> bool {
    match expected {
        Ok((namespace, name)) => r matches Ok((a, b)) && a.spec_bytes() == namespace
            && b.spec_bytes() == name,
        Err(kind) => r matches Err(e) && e == DecodeError(kind),
    }
}

/// The empty string.
fn empty_str() -> (r: &'static str)
    ensures
        r@.len() == 0,
        r.spec_bytes() == Seq::<u8>::empty(),
{
    let r = "";
    proof {
        reveal_strlit("");
        assert(r@ =~= Seq::<char>::empty());
        assert(vstd::utf8::encode_utf8(r@) =~= Seq::<u8>::empty());
    }
    r
}

impl<'db> TypeDef<'db> {
    /// The namespace and the name of the type.
    pub fn namespace_name_pair(&self) -> (r: Result<(&'db str, &'db str), DecodeError>)
        ensures
            is_name_pair(
                r,
                spec_name_pair(self.row().model(), TableId::TypeDef, self.row().index()),
            ),
    {
        let row = self.as_row();
        let name = match row.get_string(1) {
            Err(e) => {
                return Err(e);
            },
            Ok(name) => name,
        };
        match row.get_string(2) {
            Err(_) => Ok((empty_str(), name)),
            Ok(namespace) => Ok((namespace, name)),
        }
    }
}

impl<'db> TypeRef<'db> {
    /// The namespace and the name of the type.
    pub fn namespace_name_pair(&self) -> (r: Result<(&'db str, &'db str), DecodeError>)
        ensures
            is_name_pair(
                r,
                spec_name_pair(self.row().model(), TableId::TypeRef, self.row().index()),
            ),
    {
        let row = self.as_row();
        let name = match row.get_string(1) {
            Err(e) => {
                return Err(e);
            },
            Ok(name) => name,
        };
        match row.get_string(2) {
            Err(_) => Ok((empty_str(), name)),
            Ok(namespace) => Ok((namespace, name)),
        }
    }
}

impl<'db> TypeDefOrRef<'db> {
    /// The namespace and the name of the type. A type specification has none.
    pub fn namespace_name_pair(&self) -> (r: Result<(&'db str, &'db str), DecodeError>)
        ensures
            is_name_pair(
                r,
                spec_type_name_pair(self.row().model(), self.row().table(), self.row().index()),
            ),
    {
        match self {
            TypeDefOrRef::TypeDef(d) => {
                let _ = d.as_row();
                d.namespace_name_pair()
            },
            TypeDefOrRef::TypeRef(t) => {
                let _ = t.as_row();
                t.namespace_name_pair()
            },
            TypeDefOrRef::TypeSpec(s) => {
                let _ = s.as_row();
                Err(DecodeError(DecodeErrorKind::TypeSpecHasNoName))
            },
        }
    }
}

/// The blob `blob`, which must be there.
pub open spec fn spec_required_blob(blob: Result<Option<Seq<u8>>, DecodeErrorKind>) -> Result<
    Seq<u8>,
    DecodeErrorKind,
> {
    match blob {
        Err(kind) => Err(kind),
        Ok(None) => Err(DecodeErrorKind::MissingBlob),
        Ok(Some(bytes)) => Ok(bytes),
    }
}

/// The signature of the field `index`.
pub open spec fn spec_field_signature(model: DatabaseModel, index: int) -> Result<
    FieldSigModel,
    DecodeErrorKind,
> {
    match spec_required_blob(model.blob(TableId::Field, index, 2)) {
        Err(kind) => Err(kind),
        Ok(bytes) => spec_field_sig(bytes, model),
    }
}

impl<'db> Field<'db> {
    /// The signature of the field, decoded from its blob.
    pub fn signature(&self) -> (r: Result<FieldSig<'db>, DecodeError>)
        ensures
            match spec_field_signature(self.row().model(), self.row().index()) {
                Ok(sig) => r matches Ok(v) && v.model() == sig,
                Err(kind) => r matches Err(e) && e == DecodeError(kind),
            },
    {
        let row = self.as_row();
        match row.get_blob(2) {
            Err(e) => Err(e),
            Ok(None) => Err(DecodeError(DecodeErrorKind::MissingBlob)),
            Ok(Some(bytes)) => FieldSig::parse(bytes, row.database()),
        }
    }
}

impl<'db> MethodDef<'db> {
    /// The signature of the method, decoded from its blob.
    pub fn signature(&self) -> (r: Result<MethodDefSig<'db>, DecodeError>)
        ensures
            match spec_required_blob(self.row().blob(4)) {
                Err(kind) => r matches Err(e) && e == DecodeError(kind),
                Ok(bytes) => match spec_method_def_sig(bytes, self.row().model()) {
                    Ok(sig) => r matches Ok(v) && v.model() == sig,
                    Err(kind) => r matches Err(e) && e == DecodeError(kind),
                },
            },
    {
        let row = self.as_row();
        match row.get_blob(4) {
            Err(e) => Err(e),
            Ok(None) => Err(DecodeError(DecodeErrorKind::MissingBlob)),
            Ok(Some(bytes)) => MethodDefSig::parse(bytes, row.database()),
        }
    }
}

/// The signature of a member reference: that of a method or that of a field.
pub enum MemberRefSig<'db> {
    Method(MethodDefSig<'db>),
    Field(FieldSig<'db>),
}

impl<'db> MemberRef<'db> {
    /// The signature of the member, decoded from its blob as that of a
    /// field where the blob starts with the mark of a field, else as that of
    /// a method.
    pub fn signature(&self) -> (r: Result<MemberRefSig<'db>, DecodeError>)
        ensures
            match spec_required_blob(self.row().blob(2)) {
                Err(kind) => r matches Err(e) && e == DecodeError(kind),
                Ok(bytes) => if bytes.len() > 0 && bytes[0] == 0x06 {
                    match spec_field_sig(bytes, self.row().model()) {
                        Ok(sig) => r matches Ok(MemberRefSig::Field(v)) && v.model() == sig,
                        Err(kind) => r matches Err(e) && e == DecodeError(kind),
                    }
                } else {
                    match spec_method_def_sig(bytes, self.row().model()) {
                        Ok(sig) => r matches Ok(MemberRefSig::Method(v)) && v.model() == sig,
                        Err(kind) => r matches Err(e) && e == DecodeError(kind),
                    }
                },
            },
    {
        let row = self.as_row();
        match row.get_blob(2) {
            Err(e) => Err(e),
            Ok(None) => Err(DecodeError(DecodeErrorKind::MissingBlob)),
            Ok(Some(bytes)) => {
                if bytes.len() > 0 && bytes[0] == 0x06 {
                    match FieldSig::parse(bytes, row.database()) {
                        Ok(sig) => Ok(MemberRefSig::Field(sig)),
                        Err(e) => Err(e),
                    }
                } else {
                    match MethodDefSig::parse(bytes, row.database()) {
                        Ok(sig) => Ok(MemberRefSig::Method(sig)),
                        Err(e) => Err(e),
                    }
                }
            },
        }
    }

    /// The signature of the member, which must be a method.
    pub fn method_signature(&self) -> (r: Result<MethodDefSig<'db>, DecodeError>)
        ensures
            match spec_required_blob(self.row().blob(2)) {
                Err(kind) => r matches Err(e) && e == DecodeError(kind),
                Ok(bytes) => if bytes.len() > 0 && bytes[0] == 0x06 {
                    match spec_field_sig(bytes, self.row().model()) {
                        Ok(sig) => r matches Err(e) && e == DecodeError(
                            DecodeErrorKind::InvalidSignature,
                        ),
                        Err(kind) => r matches Err(e) && e == DecodeError(kind),
                    }
                } else {
                    match spec_method_def_sig(bytes, self.row().model()) {
                        Ok(sig) => r matches Ok(v) && v.model() == sig,
                        Err(kind) => r matches Err(e) && e == DecodeError(kind),
                    }
                },
            },
    {
        match self.signature() {
            Err(e) => Err(e),
            Ok(MemberRefSig::Method(sig)) => Ok(sig),
            Ok(MemberRefSig::Field(_)) => Err(DecodeError(DecodeErrorKind::InvalidSignature)),
        }
    }
}

impl<'db> TypeSpec<'db> {
    /// The signature of the type specification, decoded from its blob.
    pub fn signature(&self) -> (r: Result<TypeSpecSig<'db>, DecodeError>)
        ensures
            match spec_required_blob(self.row().blob(0)) {
                Err(kind) => r matches Err(e) && e == DecodeError(kind),
                Ok(bytes) => match spec_type_spec_sig(bytes, self.row().model()) {
                    Ok(sig) => r matches Ok(v) && v.model() == sig,
                    Err(kind) => r matches Err(e) && e == DecodeError(kind),
                },
            },
    {
        let row = self.as_row();
        match row.get_blob(0) {
            Err(e) => Err(e),
            Ok(None) => Err(DecodeError(DecodeErrorKind::MissingBlob)),
            Ok(Some(bytes)) => TypeSpecSig::parse(bytes, row.database()),
        }
    }
}

/// The name pair of the type that the type definition `index` extends, or
/// none where it extends nothing.
pub open spec fn spec_extends_pair(model: DatabaseModel, index: int) -> Result<
    Option<(Seq<u8>, Seq<u8>)>,
    DecodeErrorKind,
> {
    match crate::engine::database::spec_decode_coded(
        CodedIndexKind::TypeDefOrRef,
        model.cell(TableId::TypeDef, index, 3) as u32,
        model,
    ) {
        Err(kind) => Err(kind),
        Ok(None) => Ok(None),
        Ok(Some((t, i))) => match spec_type_name_pair(model, t, i) {
            Err(kind) => Err(kind),
            Ok(pair) => Ok(Some(pair)),
        },
    }
}

/// Whether the flags `flags` of a type definition say that it is an interface.
pub open spec fn spec_is_interface(flags: u32) -> bool {
    flags & 0x20 == 0x20
}

/// What kind of type the type definition `index` is: an interface by its
/// flags; else an enum, a struct or a delegate where it extends
/// `System.Enum`, `System.ValueType` or `System.MulticastDelegate`; else a
/// class.
pub open spec fn spec_type_category(model: DatabaseModel, index: int) -> Result<
    TypeCategory,
    DecodeErrorKind,
> {
    if spec_is_interface(model.cell(TableId::TypeDef, index, 0) as u32) {
        Ok(TypeCategory::Interface)
    } else {
        match spec_extends_pair(model, index) {
            Err(kind) => Err(kind),
            Ok(None) => Ok(TypeCategory::Class),
            Ok(Some((namespace, name))) => if namespace != "System".spec_bytes() {
                Ok(TypeCategory::Class)
            } else if name == "Enum".spec_bytes() {
                Ok(TypeCategory::Enum)
            } else if name == "ValueType".spec_bytes() {
                Ok(TypeCategory::Struct)
            } else if name == "MulticastDelegate".spec_bytes() {
                Ok(TypeCategory::Delegate)
            } else {
                Ok(TypeCategory::Class)
            },
        }
    }
}

/// Whether the type definition `index` extends `System.Enum`.
pub open spec fn spec_is_enum(model: DatabaseModel, index: int) -> bool {
    spec_extends_pair(model, index) == Ok::<Option<(Seq<u8>, Seq<u8>)>, DecodeErrorKind>(
        Some(("System".spec_bytes(), "Enum".spec_bytes())),
    )
}

/// Whether the field with the flags `flags` is an instance field: neither
/// literal nor static.
pub open spec fn spec_is_instance_field(flags: u32) -> bool {
    !bit_is_set(flags, 6) && !bit_is_set(flags, 4)
}

/// The primitive type of the field `index`; a field of any other type is a
/// failure.
#[verifier::opaque]
pub open spec fn spec_enum_field_type(model: DatabaseModel, index: int) -> Result<
    PrimitiveType,
    DecodeErrorKind,
> {
    match spec_field_signature(model, index) {
        Err(kind) => Err(kind),
        Ok(sig) => match sig.typ {
            TypeModel::Primitive(p) => Ok(p),
            _ => Err(DecodeErrorKind::InvalidEnumType),
        },
    }
}

/// Scans the fields `[i, last)` for instance fields, after `found` was
/// found: a second instance field is a failure.
pub open spec fn spec_enum_scan(
    model: DatabaseModel,
    i: int,
    last: int,
    found: Option<PrimitiveType>,
) -> Result<Option<PrimitiveType>, DecodeErrorKind>
    decreases last - i,
{
    if i >= last {
        Ok(found)
    } else if !spec_is_instance_field(model.cell(TableId::Field, i, 0) as u32) {
        spec_enum_scan(model, i + 1, last, found)
    } else if found is Some {
        Err(DecodeErrorKind::InvalidEnumType)
    } else {
        match spec_enum_field_type(model, i) {
            Err(kind) => Err(kind),
            Ok(p) => spec_enum_scan(model, i + 1, last, Some(p)),
        }
    }
}

/// The type beneath the enum that the type definition `index` is: the
/// primitive type of its one instance field.
pub open spec fn spec_enum_underlying_type(model: DatabaseModel, index: int) -> Result<
    PrimitiveType,
    DecodeErrorKind,
> {
    match spec_list_range(model, TableId::TypeDef, index, 4, TableId::Field) {
        Err(kind) => Err(kind),
        Ok((first, last)) => match spec_enum_scan(model, first, last, None) {
            Err(kind) => Err(kind),
            Ok(None) => Err(DecodeErrorKind::InvalidEnumType),
            Ok(Some(p)) => Ok(p),
        },
    }
}

impl<'db> Field<'db> {
    /// The primitive type of the field, as the type beneath an enum. A
    /// field whose type is not primitive is a failure.
    pub fn enum_base_type(&self) -> (r: Result<PrimitiveType, DecodeError>)
        ensures
            match spec_enum_field_type(self.row().model(), self.row().index()) {
                Ok(p) => r == Ok::<PrimitiveType, DecodeError>(p),
                Err(kind) => r == Err::<PrimitiveType, DecodeError>(DecodeError(kind)),
            },
    {
        reveal(spec_enum_field_type);
        let _ = self.as_row();
        let sig = match self.signature() {
            Err(e) => {
                return Err(e);
            },
            Ok(sig) => sig,
        };
        match sig.type_() {
            Type::Primitive(p) => Ok(*p),
            _ => Err(DecodeError(DecodeErrorKind::InvalidEnumType)),
        }
    }
}

impl<'db> TypeDef<'db> {
    /// Whether the type is an interface.
    pub fn is_interface(&self) -> (r: bool)
        ensures
            r == spec_is_interface(self.row().cell(0) as u32),
    {
        let flags = self.as_row().get_u32(0);
        flags & 0x20 == 0x20
    }

    /// Whether the type extends `System.Enum`. A type whose base cannot be
    /// read is no enum.
    pub fn is_enum(&self) -> (r: bool)
        ensures
            r == spec_is_enum(self.row().model(), self.row().index()),
    {
        let _ = self.as_row();
        match self.extends() {
            Err(_) => false,
            Ok(None) => false,
            Ok(Some(t)) => match t.namespace_name_pair() {
                Err(_) => false,
                Ok((namespace, name)) => str_eq(namespace, "System") && str_eq(name, "Enum"),
            },
        }
    }

    /// What kind of type this is.
    pub fn type_category(&self) -> (r: Result<TypeCategory, DecodeError>)
        ensures
            match spec_type_category(self.row().model(), self.row().index()) {
                Ok(c) => r == Ok::<TypeCategory, DecodeError>(c),
                Err(kind) => r == Err::<TypeCategory, DecodeError>(DecodeError(kind)),
            },
    {
        let _ = self.as_row();
        if self.is_interface() {
            return Ok(TypeCategory::Interface);
        }
        match self.extends() {
            Err(e) => Err(e),
            Ok(None) => Ok(TypeCategory::Class),
            Ok(Some(t)) => match t.namespace_name_pair() {
                Err(e) => Err(e),
                Ok((namespace, name)) => {
                    if !str_eq(namespace, "System") {
                        Ok(TypeCategory::Class)
                    } else if str_eq(name, "Enum") {
                        Ok(TypeCategory::Enum)
                    } else if str_eq(name, "ValueType") {
                        Ok(TypeCategory::Struct)
                    } else if str_eq(name, "MulticastDelegate") {
                        Ok(TypeCategory::Delegate)
                    } else {
                        Ok(TypeCategory::Class)
                    }
                },
            },
        }
    }

    /// The type beneath an enum: the primitive type of the one field that
    /// is neither static nor literal. No such field, or more than one, is a
    /// failure, and so is a field of another type.
    pub fn enum_get_underlying_type(&self) -> (r: Result<PrimitiveType, DecodeError>)
        ensures
            match spec_enum_underlying_type(self.row().model(), self.row().index()) {
                Ok(p) => r == Ok::<PrimitiveType, DecodeError>(p),
                Err(kind) => r == Err::<PrimitiveType, DecodeError>(DecodeError(kind)),
            },
    {
        let _ = self.as_row();
        let mut fields = match self.field_list() {
            Err(e) => {
                return Err(e);
            },
            Ok(fields) => fields,
        };
        let ghost model = self.row().model();
        let ghost first = fields.start();
        let ghost last = fields.end();
        let mut result: Option<PrimitiveType> = None;
        let count = fields.count();
        let mut n: usize = 0;
        while n < count
            invariant
                n <= count,
                count == last - first,
                fields.model() == model,
                fields.start() == first + n,
                fields.end() == last,
                spec_enum_underlying_type(self.row().model(), self.row().index())
                    == match spec_enum_scan(model, first, last, None) {
                    Err(kind) => Err::<PrimitiveType, DecodeErrorKind>(kind),
                    Ok(None) => Err(DecodeErrorKind::InvalidEnumType),
                    Ok(Some(p)) => Ok(p),
                },
                spec_enum_scan(model, first, last, None) == spec_enum_scan(
                    model,
                    first + n,
                    last,
                    result,
                ),
            decreases count - n,
        {
            let field = match fields.next() {
                None => {
                    return Err(DecodeError(DecodeErrorKind::InvalidEnumType));
                },
                Some(field) => field,
            };
            let _ = field.as_row();
            let flags = match field.flags() {
                Err(e) => {
                    return Err(e);
                },
                Ok(flags) => flags,
            };
            if !flags.literal() && !flags.static_() {
                if result.is_some() {
                    return Err(DecodeError(DecodeErrorKind::InvalidEnumType));
                }
                match field.enum_base_type() {
                    Err(e) => {
                        return Err(e);
                    },
                    Ok(p) => {
                        result = Some(p);
                    },
                }
            }
            n += 1;
        }
        match result {
            Some(p) => Ok(p),
            None => Err(DecodeError(DecodeErrorKind::InvalidEnumType)),
        }
    }
}

impl<'db> Database<'db> {
    /// The assembly that the image holds: the first row of the assembly
    /// table, where the table has a row.
    pub fn get_assembly(&'db self) -> (r: Option<Assembly<'db>>)
        ensures
            self@.row_count(TableId::Assembly) > 0 ==> (r matches Some(a) && is_row(a, self@, 0)),
            self@.row_count(TableId::Assembly) == 0 ==> r is None,
    {
        match self.table::<Assembly>().get_row(0) {
            Ok(row) => Some(row),
            Err(_) => None,
        }
    }

    /// The name of the assembly that the image holds, where it holds one
    /// whose name can be read.
    pub fn assembly_name(&'db self) -> (r: Option<&'db str>)
        ensures
            self@.row_count(TableId::Assembly) == 0 ==> r is None,
            self@.row_count(TableId::Assembly) > 0 ==> match self@.string(TableId::Assembly, 0, 4) {
                Ok(bytes) => r matches Some(s) && s.spec_bytes() == bytes,
                Err(_) => r is None,
            },
    {
        match self.get_assembly() {
            None => None,
            Some(assembly) => match assembly.name() {
                Ok(name) => Some(name),
                Err(_) => None,
            },
        }
    }
}

} // verus!
