use vstd::prelude::*;
use vstd::slice::slice_subrange;
use crate::engine::compressed::read_compressed;
use crate::engine::compressed::spec_uncompress;
use crate::engine::database::spec_decode_coded;
use crate::engine::database::Database;
use crate::engine::database::DatabaseModel;
use crate::engine::kinds::CodedIndexKind;
use crate::engine::kinds::TableId;
use crate::error::DecodeError;
use crate::error::DecodeErrorKind;
use crate::schema::coded::CodedIndex;
use crate::schema::coded::decode;
use crate::schema::coded::TypeDefOrRef;
use crate::engine::database::Row;

verus! {

pub const CALLCONV_VARARG: u8 = 0x05;

pub const CALLCONV_FIELD: u8 = 0x06;

pub const CALLCONV_PROPERTY: u8 = 0x08;

pub const CALLCONV_GENERIC: u8 = 0x10;

pub const CALLCONV_HASTHIS: u8 = 0x20;

pub const CALLCONV_EXPLICITTHIS: u8 = 0x40;

pub const ELEMENT_TYPE_VOID: u8 = 0x01;

pub const ELEMENT_TYPE_BOOLEAN: u8 = 0x02;

pub const ELEMENT_TYPE_CHAR: u8 = 0x03;

pub const ELEMENT_TYPE_I1: u8 = 0x04;

pub const ELEMENT_TYPE_U1: u8 = 0x05;

pub const ELEMENT_TYPE_I2: u8 = 0x06;

pub const ELEMENT_TYPE_U2: u8 = 0x07;

pub const ELEMENT_TYPE_I4: u8 = 0x08;

pub const ELEMENT_TYPE_U4: u8 = 0x09;

pub const ELEMENT_TYPE_I8: u8 = 0x0a;

pub const ELEMENT_TYPE_U8: u8 = 0x0b;

pub const ELEMENT_TYPE_R4: u8 = 0x0c;

pub const ELEMENT_TYPE_R8: u8 = 0x0d;

pub const ELEMENT_TYPE_STRING: u8 = 0x0e;

pub const ELEMENT_TYPE_PTR: u8 = 0x0f;

pub const ELEMENT_TYPE_BYREF: u8 = 0x10;

pub const ELEMENT_TYPE_VALUETYPE: u8 = 0x11;

pub const ELEMENT_TYPE_CLASS: u8 = 0x12;

pub const ELEMENT_TYPE_VAR: u8 = 0x13;

pub const ELEMENT_TYPE_ARRAY: u8 = 0x14;

pub const ELEMENT_TYPE_GENERICINST: u8 = 0x15;

pub const ELEMENT_TYPE_TYPEDBYREF: u8 = 0x16;

pub const ELEMENT_TYPE_I: u8 = 0x18;

pub const ELEMENT_TYPE_U: u8 = 0x19;

pub const ELEMENT_TYPE_FNPTR: u8 = 0x1b;

pub const ELEMENT_TYPE_OBJECT: u8 = 0x1c;

pub const ELEMENT_TYPE_SZARRAY: u8 = 0x1d;

pub const ELEMENT_TYPE_MVAR: u8 = 0x1e;

pub const ELEMENT_TYPE_CMOD_OPT: u8 = 0x1f;

pub const ELEMENT_TYPE_CMOD_REQD: u8 = 0x20;

/// Takes a compressed unsigned integer from the front of `cursor`. Where
/// there is none, `cursor` stays as it is.
pub fn uncompress_unsigned<'a>(cursor: &mut &'a [u8]) -> (r: Result<u32, DecodeError>)
    ensures
        match spec_uncompress(old(cursor)@, 0) {
            Ok((v, w)) => r == Ok::<u32, DecodeError>(v) && final(cursor)@ == old(cursor)@.subrange(
                w,
                old(cursor)@.len() as int,
            ),
            Err(kind) => r == Err::<u32, DecodeError>(DecodeError(kind)) && *final(cursor) == *old(
                cursor,
            ),
        },
{
    let data: &'a [u8] = *cursor;
    match read_compressed(data, 0) {
        Ok((value, next)) => {
            *cursor = slice_subrange(data, next, data.len());
            Ok(value)
        },
        Err(e) => Err(e),
    }
}

/// Whether a type is a class or a value type.
#[derive(Clone, Copy, Debug, PartialEq, Eq, Structural)]
pub enum TypeTag {
    Class,
    ValueType,
}

/// Whether a generic variable belongs to a type or to a method.
#[derive(Clone, Copy, Debug, PartialEq, Eq, Structural)]
pub enum GenericVarScope {
    Type,
    Method,
}

/// The primitive types.
#[derive(Clone, Copy, Debug, PartialEq, Eq, Structural)]
pub enum PrimitiveType {
    Boolean,
    Char,
    I1,
    U1,
    I2,
    U2,
    I4,
    U4,
    I8,
    U8,
    R4,
    R8,
    I,
    U,
}

/// Whether a custom modifier may be ignored.
#[derive(Clone, Copy, Debug, PartialEq, Eq, Structural)]
pub enum CustomModTag {
    Optional,
    Required,
}

/// A row by its image, its table and its number.
pub struct RowId {
    pub model: DatabaseModel,
    pub table: TableId,
    pub index: int,
}

/// What a custom modifier is.
pub struct CustomModModel {
    pub tag: CustomModTag,
    pub target: RowId,
}

/// What a type in a signature is.
pub enum TypeModel {
    Primitive(PrimitiveType),
    /// An array of one dimension from zero: its element type and the custom
    /// modifiers before it.
    Array(Box<TypeModel>, Seq<CustomModModel>),
    /// A class or value type, with its generic arguments where it is an
    /// instantiation.
    Ref(TypeTag, RowId, Option<Seq<TypeModel>>),
    GenericVar(GenericVarScope, u32),
    Object,
    String,
}

/// What the return type of a method is.
pub enum RetKindModel {
    Void,
    Type(TypeModel),
    TypeByRef(TypeModel),
    TypedReference,
}

/// What the type of a parameter is.
pub enum ParamKindModel {
    Type(TypeModel),
    TypeByRef(TypeModel),
    TypedReference,
}

/// What a return type with its custom modifiers is.
pub struct RetTypeModel {
    pub cmod: Seq<CustomModModel>,
    pub kind: RetKindModel,
}

/// What a parameter with its custom modifiers is.
pub struct ParamModel {
    pub cmod: Seq<CustomModModel>,
    pub kind: ParamKindModel,
}

/// What the signature of a method is.
pub struct MethodDefSigModel {
    pub initial_byte: u8,
    pub generic_param_count: u32,
    pub ret_type: RetTypeModel,
    pub params: Seq<ParamModel>,
}

/// What the signature of a field is.
pub struct FieldSigModel {
    pub typ: TypeModel,
    pub cmod: Seq<CustomModModel>,
}

/// What the signature of a type specification is.
pub enum TypeSpecSigModel {
    GenericInst(TypeTag, RowId, Seq<TypeModel>),
}

/// The primitive type that the element type `e` stands for.
pub open spec fn spec_primitive(e: u8) -> Option<PrimitiveType> {
    if e == ELEMENT_TYPE_BOOLEAN {
        Some(PrimitiveType::Boolean)
    } else if e == ELEMENT_TYPE_CHAR {
        Some(PrimitiveType::Char)
    } else if e == ELEMENT_TYPE_I1 {
        Some(PrimitiveType::I1)
    } else if e == ELEMENT_TYPE_U1 {
        Some(PrimitiveType::U1)
    } else if e == ELEMENT_TYPE_I2 {
        Some(PrimitiveType::I2)
    } else if e == ELEMENT_TYPE_U2 {
        Some(PrimitiveType::U2)
    } else if e == ELEMENT_TYPE_I4 {
        Some(PrimitiveType::I4)
    } else if e == ELEMENT_TYPE_U4 {
        Some(PrimitiveType::U4)
    } else if e == ELEMENT_TYPE_I8 {
        Some(PrimitiveType::I8)
    } else if e == ELEMENT_TYPE_U8 {
        Some(PrimitiveType::U8)
    } else if e == ELEMENT_TYPE_R4 {
        Some(PrimitiveType::R4)
    } else if e == ELEMENT_TYPE_R8 {
        Some(PrimitiveType::R8)
    } else if e == ELEMENT_TYPE_I {
        Some(PrimitiveType::I)
    } else if e == ELEMENT_TYPE_U {
        Some(PrimitiveType::U)
    } else {
        None
    }
}

/// The primitive type that the element type `e` stands for.
pub fn primitive(e: u8) -> (r: Option<PrimitiveType>)
    ensures
        r == spec_primitive(e),
{
    match e {
        0x02 => Some(PrimitiveType::Boolean),
        0x03 => Some(PrimitiveType::Char),
        0x04 => Some(PrimitiveType::I1),
        0x05 => Some(PrimitiveType::U1),
        0x06 => Some(PrimitiveType::I2),
        0x07 => Some(PrimitiveType::U2),
        0x08 => Some(PrimitiveType::I4),
        0x09 => Some(PrimitiveType::U4),
        0x0a => Some(PrimitiveType::I8),
        0x0b => Some(PrimitiveType::U8),
        0x0c => Some(PrimitiveType::R4),
        0x0d => Some(PrimitiveType::R8),
        0x18 => Some(PrimitiveType::I),
        0x19 => Some(PrimitiveType::U),
        _ => None,
    }
}

/// The element type at `pos`: the low byte of a compressed unsigned
/// integer, and the position after it.
pub open spec fn spec_element(s: Seq<u8>, pos: int) -> Result<(u8, int), DecodeErrorKind> {
    match spec_uncompress(s, pos) {
        Err(kind) => Err(kind),
        Ok((v, w)) => Ok(((v % 0x100) as u8, pos + w)),
    }
}

/// The compressed unsigned integer at `pos` and the position after it.
pub open spec fn spec_number(s: Seq<u8>, pos: int) -> Result<(u32, int), DecodeErrorKind> {
    match spec_uncompress(s, pos) {
        Err(kind) => Err(kind),
        Ok((v, w)) => Ok((v, pos + w)),
    }
}

/// The type that the coded index at `pos` refers to; it must refer to one.
pub open spec fn spec_type_ref(s: Seq<u8>, pos: int, model: DatabaseModel) -> Result<
    (RowId, int),
    DecodeErrorKind,
> {
    match spec_uncompress(s, pos) {
        Err(kind) => Err(kind),
        Ok((v, w)) => match spec_decode_coded(CodedIndexKind::TypeDefOrRef, v, model) {
            Err(kind) => Err(kind),
            Ok(None) => Err(DecodeErrorKind::InvalidSignature),
            Ok(Some((t, i))) => Ok((RowId { model: model, table: t, index: i }, pos + w)),
        },
    }
}

/// The custom modifiers from `pos` on, after the modifiers `done`: each is
/// an element type that marks it as required or optional, then a type. The
/// first element that is no such mark ends them and is not taken.
pub open spec fn spec_custom_mods(
    s: Seq<u8>,
    pos: int,
    model: DatabaseModel,
    done: Seq<CustomModModel>,
) -> Result<(Seq<CustomModModel>, int), DecodeErrorKind>
    decreases s.len() - pos,
{
    match spec_element(s, pos) {
        Err(kind) => Err(kind),
        Ok((e, next)) => if e == ELEMENT_TYPE_CMOD_OPT || e == ELEMENT_TYPE_CMOD_REQD {
            match spec_type_ref(s, next, model) {
                Err(kind) => Err(kind),
                Ok((target, after)) => if pos < next <= after <= s.len() {
                    spec_custom_mods(
                        s,
                        after,
                        model,
                        done.push(
                            CustomModModel {
                                tag: if e == ELEMENT_TYPE_CMOD_OPT {
                                    CustomModTag::Optional
                                } else {
                                    CustomModTag::Required
                                },
                                target: target,
                            },
                        ),
                    )
                } else {
                    Err(DecodeErrorKind::UnexpectedEof)
                },
            }
        } else {
            Ok((done, pos))
        },
    }
}

/// The type at `pos` and the position after it.
pub open spec fn spec_type(s: Seq<u8>, pos: int, model: DatabaseModel) -> Result<
    (TypeModel, int),
    DecodeErrorKind,
>
    decreases s.len() - pos, 0int,
{
    match spec_element(s, pos) {
        Err(kind) => Err(kind),
        Ok((e, next)) => if !(pos < next <= s.len()) {
            Err(DecodeErrorKind::UnexpectedEof)
        } else if spec_primitive(e) is Some {
            Ok((TypeModel::Primitive(spec_primitive(e).unwrap()), next))
        } else if e == ELEMENT_TYPE_ARRAY || e == ELEMENT_TYPE_FNPTR || e == ELEMENT_TYPE_PTR {
            Err(DecodeErrorKind::UnsupportedSignature)
        } else if e == ELEMENT_TYPE_CLASS || e == ELEMENT_TYPE_VALUETYPE {
            match spec_type_ref(s, next, model) {
                Err(kind) => Err(kind),
                Ok((target, after)) => Ok(
                    (
                        TypeModel::Ref(
                            if e == ELEMENT_TYPE_CLASS {
                                TypeTag::Class
                            } else {
                                TypeTag::ValueType
                            },
                            target,
                            None,
                        ),
                        after,
                    ),
                ),
            }
        } else if e == ELEMENT_TYPE_GENERICINST {
            match spec_generic_inst(s, next, model) {
                Err(kind) => Err(kind),
                Ok((tag, target, args, after)) => Ok(
                    (TypeModel::Ref(tag, target, Some(args)), after),
                ),
            }
        } else if e == ELEMENT_TYPE_MVAR || e == ELEMENT_TYPE_VAR {
            match spec_number(s, next) {
                Err(kind) => Err(kind),
                Ok((n, after)) => Ok(
                    (
                        TypeModel::GenericVar(
                            if e == ELEMENT_TYPE_MVAR {
                                GenericVarScope::Method
                            } else {
                                GenericVarScope::Type
                            },
                            n,
                        ),
                        after,
                    ),
                ),
            }
        } else if e == ELEMENT_TYPE_OBJECT {
            Ok((TypeModel::Object, next))
        } else if e == ELEMENT_TYPE_STRING {
            Ok((TypeModel::String, next))
        } else if e == ELEMENT_TYPE_SZARRAY {
            match spec_custom_mods(s, next, model, Seq::empty()) {
                Err(kind) => Err(kind),
                Ok((cmod, after)) => if !(next <= after <= s.len()) {
                    Err(DecodeErrorKind::UnexpectedEof)
                } else {
                    match spec_type(s, after, model) {
                        Err(kind) => Err(kind),
                        Ok((elem, end)) => Ok((TypeModel::Array(Box::new(elem), cmod), end)),
                    }
                },
            }
        } else {
            Err(DecodeErrorKind::InvalidSignature)
        },
    }
}

/// The instantiation of a generic type at `pos`, after its element type:
/// class or value type, the generic type, the number of arguments, and the
/// arguments.
pub open spec fn spec_generic_inst(s: Seq<u8>, pos: int, model: DatabaseModel) -> Result<
    (TypeTag, RowId, Seq<TypeModel>, int),
    DecodeErrorKind,
>
    decreases s.len() - pos, 0int,
{
    match spec_element(s, pos) {
        Err(kind) => Err(kind),
        Ok((e, next)) => if e != ELEMENT_TYPE_CLASS && e != ELEMENT_TYPE_VALUETYPE {
            Err(DecodeErrorKind::InvalidSignature)
        } else {
            match spec_type_ref(s, next, model) {
                Err(kind) => Err(kind),
                Ok((target, after)) => match spec_number(s, after) {
                    Err(kind) => Err(kind),
                    Ok((count, start)) => if !(pos < start <= s.len()) {
                        Err(DecodeErrorKind::UnexpectedEof)
                    } else {
                        match spec_types(s, start, model, count as int, Seq::empty()) {
                            Err(kind) => Err(kind),
                            Ok((args, end)) => Ok(
                                (
                                    if e == ELEMENT_TYPE_CLASS {
                                        TypeTag::Class
                                    } else {
                                        TypeTag::ValueType
                                    },
                                    target,
                                    args,
                                    end,
                                ),
                            ),
                        }
                    },
                },
            }
        },
    }
}

/// `count` types from `pos` on, after the types `done`.
pub open spec fn spec_types(
    s: Seq<u8>,
    pos: int,
    model: DatabaseModel,
    count: int,
    done: Seq<TypeModel>,
) -> Result<(Seq<TypeModel>, int), DecodeErrorKind>
    decreases s.len() - pos, count,
{
    if count <= 0 {
        Ok((done, pos))
    } else {
        match spec_type(s, pos, model) {
            Err(kind) => Err(kind),
            Ok((t, next)) => if !(pos <= next <= s.len()) {
                Err(DecodeErrorKind::UnexpectedEof)
            } else {
                spec_types(s, next, model, count - 1, done.push(t))
            },
        }
    }
}


/// The return type, with its custom modifiers, at `pos`.
#[verifier::opaque]
pub open spec fn spec_ret_type(s: Seq<u8>, pos: int, model: DatabaseModel) -> Result<
    (RetTypeModel, int),
    DecodeErrorKind,
> {
    match spec_custom_mods(s, pos, model, Seq::empty()) {
        Err(kind) => Err(kind),
        Ok((cmod, start)) => match spec_element(s, start) {
            Err(kind) => Err(kind),
            Ok((e, next)) => if e == ELEMENT_TYPE_VOID {
                Ok((RetTypeModel { cmod: cmod, kind: RetKindModel::Void }, next))
            } else if e == ELEMENT_TYPE_TYPEDBYREF {
                Ok((RetTypeModel { cmod: cmod, kind: RetKindModel::TypedReference }, next))
            } else if e == ELEMENT_TYPE_BYREF {
                match spec_type(s, next, model) {
                    Err(kind) => Err(kind),
                    Ok((t, end)) => Ok(
                        (RetTypeModel { cmod: cmod, kind: RetKindModel::TypeByRef(t) }, end),
                    ),
                }
            } else {
                match spec_type(s, start, model) {
                    Err(kind) => Err(kind),
                    Ok((t, end)) => Ok(
                        (RetTypeModel { cmod: cmod, kind: RetKindModel::Type(t) }, end),
                    ),
                }
            },
        },
    }
}

/// The parameter, with its custom modifiers, at `pos`.
#[verifier::opaque]
pub open spec fn spec_param(s: Seq<u8>, pos: int, model: DatabaseModel) -> Result<
    (ParamModel, int),
    DecodeErrorKind,
> {
    match spec_custom_mods(s, pos, model, Seq::empty()) {
        Err(kind) => Err(kind),
        Ok((cmod, start)) => match spec_element(s, start) {
            Err(kind) => Err(kind),
            Ok((e, next)) => if e == ELEMENT_TYPE_TYPEDBYREF {
                Ok((ParamModel { cmod: cmod, kind: ParamKindModel::TypedReference }, next))
            } else if e == ELEMENT_TYPE_BYREF {
                match spec_type(s, next, model) {
                    Err(kind) => Err(kind),
                    Ok((t, end)) => Ok(
                        (ParamModel { cmod: cmod, kind: ParamKindModel::TypeByRef(t) }, end),
                    ),
                }
            } else {
                match spec_type(s, start, model) {
                    Err(kind) => Err(kind),
                    Ok((t, end)) => Ok(
                        (ParamModel { cmod: cmod, kind: ParamKindModel::Type(t) }, end),
                    ),
                }
            },
        },
    }
}

/// `count` parameters from `pos` on, after the parameters `done`.
pub open spec fn spec_params(
    s: Seq<u8>,
    pos: int,
    model: DatabaseModel,
    count: int,
    done: Seq<ParamModel>,
) -> Result<(Seq<ParamModel>, int), DecodeErrorKind>
    decreases count,
{
    if count <= 0 {
        Ok((done, pos))
    } else {
        match spec_param(s, pos, model) {
            Err(kind) => Err(kind),
            Ok((p, next)) => spec_params(s, next, model, count - 1, done.push(p)),
        }
    }
}

/// The signature of a method that the blob `s` holds: the byte of the
/// calling convention; the number of generic parameters, where the
/// convention is generic; the number of parameters; the return type; and the
/// parameters.
#[verifier::opaque]
pub open spec fn spec_method_def_sig(s: Seq<u8>, model: DatabaseModel) -> Result<
    MethodDefSigModel,
    DecodeErrorKind,
> {
    if s.len() < 1 {
        Err(DecodeErrorKind::UnexpectedEof)
    } else {
        let generic = if s[0] & CALLCONV_GENERIC != 0 {
            spec_number(s, 1)
        } else {
            Ok((0u32, 1int))
        };
        match generic {
            Err(kind) => Err(kind),
            Ok((generic_param_count, after)) => match spec_number(s, after) {
                Err(kind) => Err(kind),
                Ok((param_count, start)) => match spec_ret_type(s, start, model) {
                    Err(kind) => Err(kind),
                    Ok((ret_type, next)) => match spec_params(
                        s,
                        next,
                        model,
                        param_count as int,
                        Seq::empty(),
                    ) {
                        Err(kind) => Err(kind),
                        Ok((params, end)) => Ok(
                            MethodDefSigModel {
                                initial_byte: s[0],
                                generic_param_count: generic_param_count,
                                ret_type: ret_type,
                                params: params,
                            },
                        ),
                    },
                },
            },
        }
    }
}

/// The signature of a field that the blob `s` holds: the mark of a field,
/// custom modifiers, and a type.
#[verifier::opaque]
pub open spec fn spec_field_sig(s: Seq<u8>, model: DatabaseModel) -> Result<
    FieldSigModel,
    DecodeErrorKind,
> {
    match spec_number(s, 0) {
        Err(kind) => Err(kind),
        Ok((conv, start)) => if conv != CALLCONV_FIELD {
            Err(DecodeErrorKind::InvalidSignature)
        } else {
            match spec_custom_mods(s, start, model, Seq::empty()) {
                Err(kind) => Err(kind),
                Ok((cmod, next)) => match spec_type(s, next, model) {
                    Err(kind) => Err(kind),
                    Ok((t, end)) => Ok(FieldSigModel { typ: t, cmod: cmod }),
                },
            }
        },
    }
}

/// The signature of a type specification that the blob `s` holds. Only the
/// instantiation of a generic type is decoded.
#[verifier::opaque]
pub open spec fn spec_type_spec_sig(s: Seq<u8>, model: DatabaseModel) -> Result<
    TypeSpecSigModel,
    DecodeErrorKind,
> {
    match spec_element(s, 0) {
        Err(kind) => Err(kind),
        Ok((e, next)) => if e == ELEMENT_TYPE_PTR || e == ELEMENT_TYPE_FNPTR || e
            == ELEMENT_TYPE_ARRAY || e == ELEMENT_TYPE_SZARRAY {
            Err(DecodeErrorKind::UnsupportedSignature)
        } else if e == ELEMENT_TYPE_GENERICINST {
            match spec_generic_inst(s, next, model) {
                Err(kind) => Err(kind),
                Ok((tag, target, args, end)) => Ok(TypeSpecSigModel::GenericInst(tag, target, args)),
            }
        } else {
            Err(DecodeErrorKind::InvalidSignature)
        },
    }
}

/// The image, the table and the number of `row`.
pub open spec fn row_id(row: Row) -> RowId {
    RowId { model: row.model(), table: row.table(), index: row.index() }
}

/// A custom modifier: a type that qualifies the type that follows it.
#[derive(Clone, Copy)]
pub struct CustomMod<'db> {
    pub m_tag: CustomModTag,
    pub m_type: TypeDefOrRef<'db>,
}

/// An array of one dimension from zero.
pub struct Array<'db> {
    pub m_type: Box<Type<'db>>,
    pub m_cmod: Vec<CustomMod<'db>>,
}

/// A type in a signature.
pub enum Type<'db> {
    Primitive(PrimitiveType),
    Array(Array<'db>),
    /// A class or value type, with its generic arguments where it is an
    /// instantiation.
    Ref(TypeTag, TypeDefOrRef<'db>, Option<Vec<Type<'db>>>),
    GenericVar(GenericVarScope, u32),
    Object,
    String,
}

/// The return type of a method.
pub enum RetTypeKind<'db> {
    Void,
    Type(Type<'db>),
    TypeByRef(Type<'db>),
    TypedReference,
}

/// A return type with its custom modifiers.
pub struct RetType<'db> {
    pub m_cmod: Vec<CustomMod<'db>>,
    pub m_kind: RetTypeKind<'db>,
}

/// The type of a parameter.
pub enum ParamKind<'db> {
    Type(Type<'db>),
    TypeByRef(Type<'db>),
    TypedReference,
}

/// A parameter with its custom modifiers.
pub struct ParamSig<'db> {
    pub m_cmod: Vec<CustomMod<'db>>,
    pub m_kind: ParamKind<'db>,
}

/// The signature of a method.
pub struct MethodDefSig<'db> {
    pub m_initial_byte: u8,
    pub m_generic_param_count: u32,
    pub m_ret_type: RetType<'db>,
    pub m_params: Vec<ParamSig<'db>>,
}

/// The signature of a field.
pub struct FieldSig<'db> {
    pub m_type: Type<'db>,
    pub m_cmod: Vec<CustomMod<'db>>,
}

/// The signature of a type specification.
pub enum TypeSpecSig<'db> {
    GenericInst(TypeTag, TypeDefOrRef<'db>, Vec<Type<'db>>),
}

/// What the custom modifiers `v` are.
pub open spec fn cmods_model(v: Seq<CustomMod>) -> Seq<CustomModModel> {
    Seq::new(v.len(), |i: int| v[i].model())
}

/// What the parameters `v` are.
pub open spec fn params_model(v: Seq<ParamSig>) -> Seq<ParamModel> {
    Seq::new(v.len(), |i: int| v[i].model())
}

impl<'db> CustomMod<'db> {
    pub open spec fn model(&self) -> CustomModModel {
        CustomModModel { tag: self.m_tag, target: row_id(self.m_type.row()) }
    }

    /// Whether the modifier may be ignored.
    pub fn tag(&self) -> (r: CustomModTag)
        ensures
            r == self.m_tag,
    {
        self.m_tag
    }

    /// The type that modifies.
    pub fn type_(&self) -> (r: &TypeDefOrRef<'db>)
        ensures
            *r == self.m_type,
    {
        &self.m_type
    }
}

impl<'db> Type<'db> {
    pub open spec fn model(&self) -> TypeModel
        decreases self,
    {
        match self {
            Type::Primitive(p) => TypeModel::Primitive(*p),
            Type::Array(a) => TypeModel::Array(Box::new(a.m_type.model()), cmods_model(a.m_cmod@)),
            Type::Ref(tag, target, None) => TypeModel::Ref(*tag, row_id(target.row()), None),
            Type::Ref(tag, target, Some(args)) => TypeModel::Ref(
                *tag,
                row_id(target.row()),
                Some(
                    Seq::new(
                        args@.len(),
                        |i: int|
                            if 0 <= i < args@.len() {
                                args@[i].model()
                            } else {
                                TypeModel::Object
                            },
                    ),
                ),
            ),
            Type::GenericVar(scope, n) => TypeModel::GenericVar(*scope, *n),
            Type::Object => TypeModel::Object,
            Type::String => TypeModel::String,
        }
    }
}

/// What the types `v` are.
pub open spec fn types_model(v: Seq<Type>) -> Seq<TypeModel> {
    Seq::new(v.len(), |i: int| if 0 <= i < v.len() {
        v[i].model()
    } else {
        TypeModel::Object
    })
}

impl<'db> Array<'db> {
    pub open spec fn model(&self) -> TypeModel {
        TypeModel::Array(Box::new(self.m_type.model()), cmods_model(self.m_cmod@))
    }

    /// The type of the elements.
    pub fn elem_type(&self) -> (r: &Type<'db>)
        ensures
            *r == *self.m_type,
    {
        &*self.m_type
    }

    /// The custom modifiers before the element type.
    pub fn custom_mod(&self) -> (r: &[CustomMod<'db>])
        ensures
            r@ == self.m_cmod@,
    {
        self.m_cmod.as_slice()
    }
}

impl<'db> RetTypeKind<'db> {
    pub open spec fn model(&self) -> RetKindModel {
        match self {
            RetTypeKind::Void => RetKindModel::Void,
            RetTypeKind::Type(t) => RetKindModel::Type(t.model()),
            RetTypeKind::TypeByRef(t) => RetKindModel::TypeByRef(t.model()),
            RetTypeKind::TypedReference => RetKindModel::TypedReference,
        }
    }
}

impl<'db> ParamKind<'db> {
    pub open spec fn model(&self) -> ParamKindModel {
        match self {
            ParamKind::Type(t) => ParamKindModel::Type(t.model()),
            ParamKind::TypeByRef(t) => ParamKindModel::TypeByRef(t.model()),
            ParamKind::TypedReference => ParamKindModel::TypedReference,
        }
    }
}

impl<'db> RetType<'db> {
    pub open spec fn model(&self) -> RetTypeModel {
        RetTypeModel { cmod: cmods_model(self.m_cmod@), kind: self.m_kind.model() }
    }

    /// The custom modifiers before the type.
    pub fn custom_mod(&self) -> (r: &[CustomMod<'db>])
        ensures
            r@ == self.m_cmod@,
    {
        self.m_cmod.as_slice()
    }

    /// The type itself.
    pub fn kind(&self) -> (r: &RetTypeKind<'db>)
        ensures
            *r == self.m_kind,
    {
        &self.m_kind
    }
}

impl<'db> ParamSig<'db> {
    pub open spec fn model(&self) -> ParamModel {
        ParamModel { cmod: cmods_model(self.m_cmod@), kind: self.m_kind.model() }
    }

    /// The custom modifiers before the type.
    pub fn custom_mod(&self) -> (r: &[CustomMod<'db>])
        ensures
            r@ == self.m_cmod@,
    {
        self.m_cmod.as_slice()
    }

    /// The type itself.
    pub fn kind(&self) -> (r: &ParamKind<'db>)
        ensures
            *r == self.m_kind,
    {
        &self.m_kind
    }
}

impl<'db> MethodDefSig<'db> {
    pub open spec fn model(&self) -> MethodDefSigModel {
        MethodDefSigModel {
            initial_byte: self.m_initial_byte,
            generic_param_count: self.m_generic_param_count,
            ret_type: self.m_ret_type.model(),
            params: params_model(self.m_params@),
        }
    }

    /// Whether the method takes a `this` pointer.
    pub fn has_this(&self) -> (r: bool)
        ensures
            r == (self.m_initial_byte & CALLCONV_HASTHIS != 0),
    {
        self.m_initial_byte & CALLCONV_HASTHIS != 0
    }

    /// Whether the `this` pointer is among the parameters.
    pub fn explicit_this(&self) -> (r: bool)
        ensures
            r == (self.m_initial_byte & CALLCONV_EXPLICITTHIS != 0),
    {
        self.m_initial_byte & CALLCONV_EXPLICITTHIS != 0
    }

    /// Whether the method has generic parameters.
    pub fn is_generic(&self) -> (r: bool)
        ensures
            r == (self.m_generic_param_count != 0),
    {
        self.m_generic_param_count != 0
    }

    /// Whether the calling convention shares a bit with that of a variable
    /// argument list.
    pub fn is_vararg(&self) -> (r: bool)
        ensures
            r == (self.m_initial_byte & CALLCONV_VARARG != 0),
    {
        self.m_initial_byte & CALLCONV_VARARG != 0
    }

    /// The number of generic parameters.
    pub fn generic_param_count(&self) -> (r: u32)
        ensures
            r == self.m_generic_param_count,
    {
        self.m_generic_param_count
    }

    /// The return type.
    pub fn return_type(&self) -> (r: &RetType<'db>)
        ensures
            *r == self.m_ret_type,
    {
        &self.m_ret_type
    }

    /// The parameters, in order.
    pub fn params(&self) -> (r: &[ParamSig<'db>])
        ensures
            r@ == self.m_params@,
    {
        self.m_params.as_slice()
    }
}

impl<'db> FieldSig<'db> {
    pub open spec fn model(&self) -> FieldSigModel {
        FieldSigModel { typ: self.m_type.model(), cmod: cmods_model(self.m_cmod@) }
    }

    /// The type of the field.
    pub fn type_(&self) -> (r: &Type<'db>)
        ensures
            *r == self.m_type,
    {
        &self.m_type
    }

    /// The custom modifiers before the type.
    pub fn custom_mod(&self) -> (r: &[CustomMod<'db>])
        ensures
            r@ == self.m_cmod@,
    {
        self.m_cmod.as_slice()
    }
}

impl<'db> TypeSpecSig<'db> {
    pub open spec fn model(&self) -> TypeSpecSigModel {
        match self {
            TypeSpecSig::GenericInst(tag, target, args) => TypeSpecSigModel::GenericInst(
                *tag,
                row_id(target.row()),
                types_model(args@),
            ),
        }
    }
}

/// Reads the element type at `pos`.
pub fn parse_element(data: &[u8], pos: usize) -> (r: Result<(u8, usize), DecodeError>)
    ensures
        match spec_element(data@, pos as int) {
            Ok((e, next)) => r matches Ok((v, p)) && v == e && p == next && pos < next
                <= data@.len(),
            Err(kind) => r matches Err(e) && e == DecodeError(kind),
        },
{
    match read_compressed(data, pos) {
        Err(e) => Err(e),
        Ok((v, next)) => Ok(((v % 0x100) as u8, next)),
    }
}

/// Reads the compressed unsigned integer at `pos`.
pub fn parse_number(data: &[u8], pos: usize) -> (r: Result<(u32, usize), DecodeError>)
    ensures
        match spec_number(data@, pos as int) {
            Ok((v, next)) => r matches Ok((n, p)) && n == v && p == next && pos < next
                <= data@.len(),
            Err(kind) => r matches Err(e) && e == DecodeError(kind),
        },
{
    read_compressed(data, pos)
}

/// Reads the coded index of a type at `pos`.
pub fn parse_type_ref<'db>(data: &[u8], pos: usize, db: &'db Database<'db>) -> (r: Result<
    (TypeDefOrRef<'db>, usize),
    DecodeError,
>)
    ensures
        match spec_type_ref(data@, pos as int, db@) {
            Ok((id, next)) => r matches Ok((t, p)) && row_id(t.row()) == id && t.row().model()
                == db@ && p == next && pos < next <= data@.len(),
            Err(kind) => r matches Err(e) && e == DecodeError(kind),
        },
{
    match read_compressed(data, pos) {
        Err(e) => Err(e),
        Ok((v, next)) => match TypeDefOrRef::decode(v, db) {
            Err(e) => Err(e),
            Ok(None) => Err(DecodeError(DecodeErrorKind::InvalidSignature)),
            Ok(Some(t)) => Ok((t, next)),
        },
    }
}

/// Adding a modifier at the end adds what it is at the end.
pub proof fn lemma_cmods_push(v: Seq<CustomMod>, x: CustomMod)
    ensures
        cmods_model(v.push(x)) == cmods_model(v).push(x.model()),
{
    assert(cmods_model(v.push(x)) =~= cmods_model(v).push(x.model()));
}

/// Adding a type at the end adds what it is at the end.
pub proof fn lemma_types_push(v: Seq<Type>, x: Type)
    ensures
        types_model(v.push(x)) == types_model(v).push(x.model()),
{
    assert(types_model(v.push(x)) =~= types_model(v).push(x.model()));
}

/// Adding a parameter at the end adds what it is at the end.
pub proof fn lemma_params_push(v: Seq<ParamSig>, x: ParamSig)
    ensures
        params_model(v.push(x)) == params_model(v).push(x.model()),
{
    assert(params_model(v.push(x)) =~= params_model(v).push(x.model()));
}

impl<'db> CustomMod<'db> {
    /// Reads the custom modifiers from `pos` on; gives them and the
    /// position of the first element that is none.
    pub fn parse(data: &[u8], pos: usize, db: &'db Database<'db>) -> (r: Result<
        (Vec<CustomMod<'db>>, usize),
        DecodeError,
    >)
        ensures
            match spec_custom_mods(data@, pos as int, db@, Seq::empty()) {
                Ok((mods, next)) => r matches Ok((v, p)) && cmods_model(v@) == mods && p == next
                    && pos <= next <= data@.len(),
                Err(kind) => r matches Err(e) && e == DecodeError(kind),
            },
    {
        let mut result: Vec<CustomMod<'db>> = Vec::new();
        let mut p = pos;
        assert(cmods_model(result@) =~= Seq::empty());
        loop
            invariant
                pos <= p,
                spec_custom_mods(data@, pos as int, db@, Seq::empty()) == spec_custom_mods(
                    data@,
                    p as int,
                    db@,
                    cmods_model(result@),
                ),
            decreases data@.len() - p,
        {
            let (e, next) = match parse_element(data, p) {
                Err(e) => {
                    return Err(e);
                },
                Ok(found) => found,
            };
            if e == ELEMENT_TYPE_CMOD_OPT || e == ELEMENT_TYPE_CMOD_REQD {
                let (target, after) = match parse_type_ref(data, next, db) {
                    Err(e) => {
                        return Err(e);
                    },
                    Ok(found) => found,
                };
                let tag = if e == ELEMENT_TYPE_CMOD_OPT {
                    CustomModTag::Optional
                } else {
                    CustomModTag::Required
                };
                let item = CustomMod { m_tag: tag, m_type: target };
                proof {
                    lemma_cmods_push(result@, item);
                }
                result.push(item);
                p = after;
            } else {
                return Ok((result, p));
            }
        }
    }
}

impl<'db> Type<'db> {
    /// Reads the type at `pos`; gives it and the position after it.
    pub fn parse(data: &[u8], pos: usize, db: &'db Database<'db>) -> (r: Result<
        (Type<'db>, usize),
        DecodeError,
    >)
        ensures
            match spec_type(data@, pos as int, db@) {
                Ok((t, next)) => r matches Ok((v, p)) && v.model() == t && p == next && pos < next
                    <= data@.len(),
                Err(kind) => r matches Err(e) && e == DecodeError(kind),
            },
        decreases data@.len() - pos, 0int,
    {
        let (e, next) = match parse_element(data, pos) {
            Err(e) => {
                return Err(e);
            },
            Ok(found) => found,
        };
        match primitive(e) {
            Some(p) => {
                return Ok((Type::Primitive(p), next));
            },
            None => {},
        }
        if e == ELEMENT_TYPE_ARRAY || e == ELEMENT_TYPE_FNPTR || e == ELEMENT_TYPE_PTR {
            Err(DecodeError(DecodeErrorKind::UnsupportedSignature))
        } else if e == ELEMENT_TYPE_CLASS || e == ELEMENT_TYPE_VALUETYPE {
            match parse_type_ref(data, next, db) {
                Err(e) => Err(e),
                Ok((target, after)) => {
                    let tag = if e == ELEMENT_TYPE_CLASS {
                        TypeTag::Class
                    } else {
                        TypeTag::ValueType
                    };
                    Ok((Type::Ref(tag, target, None), after))
                },
            }
        } else if e == ELEMENT_TYPE_GENERICINST {
            match parse_generic_inst(data, next, db) {
                Err(e) => Err(e),
                Ok((tag, target, args, after)) => {
                    let t = Type::Ref(tag, target, Some(args));
                    assert(t.model() =~= TypeModel::Ref(
                        tag,
                        row_id(target.row()),
                        Some(types_model(args@)),
                    )) by {
                        assert(t.model()->Ref_2.unwrap() =~= types_model(args@));
                    }
                    Ok((t, after))
                },
            }
        } else if e == ELEMENT_TYPE_MVAR || e == ELEMENT_TYPE_VAR {
            match parse_number(data, next) {
                Err(e) => Err(e),
                Ok((n, after)) => {
                    let scope = if e == ELEMENT_TYPE_MVAR {
                        GenericVarScope::Method
                    } else {
                        GenericVarScope::Type
                    };
                    Ok((Type::GenericVar(scope, n), after))
                },
            }
        } else if e == ELEMENT_TYPE_OBJECT {
            Ok((Type::Object, next))
        } else if e == ELEMENT_TYPE_STRING {
            Ok((Type::String, next))
        } else if e == ELEMENT_TYPE_SZARRAY {
            match Array::parse_szarray(data, next, db) {
                Err(e) => Err(e),
                Ok((a, after)) => Ok((Type::Array(a), after)),
            }
        } else {
            Err(DecodeError(DecodeErrorKind::InvalidSignature))
        }
    }
}

impl<'db> Array<'db> {
    /// Reads an array after its element type: custom modifiers, then the
    /// type of the elements.
    pub fn parse_szarray(data: &[u8], pos: usize, db: &'db Database<'db>) -> (r: Result<
        (Array<'db>, usize),
        DecodeError,
    >)
        ensures
            match spec_custom_mods(data@, pos as int, db@, Seq::empty()) {
                Err(kind) => r matches Err(e) && e == DecodeError(kind),
                Ok((cmod, after)) => pos <= after <= data@.len() && match spec_type(
                    data@,
                    after,
                    db@,
                ) {
                    Err(kind) => r matches Err(e) && e == DecodeError(kind),
                    Ok((elem, end)) => r matches Ok((a, p)) && a.model() == TypeModel::Array(
                        Box::new(elem),
                        cmod,
                    ) && p == end && pos < end <= data@.len(),
                },
            },
        decreases data@.len() - pos, 1int,
    {
        let (cmod, after) = match CustomMod::parse(data, pos, db) {
            Err(e) => {
                return Err(e);
            },
            Ok(found) => found,
        };
        match Type::parse(data, after, db) {
            Err(e) => Err(e),
            Ok((elem, end)) => Ok((Array { m_type: Box::new(elem), m_cmod: cmod }, end)),
        }
    }
}

/// Reads the instantiation of a generic type after its element type.
pub fn parse_generic_inst<'db>(data: &[u8], pos: usize, db: &'db Database<'db>) -> (r: Result<
    (TypeTag, TypeDefOrRef<'db>, Vec<Type<'db>>, usize),
    DecodeError,
>)
    ensures
        match spec_generic_inst(data@, pos as int, db@) {
            Ok((tag, target, args, next)) => r matches Ok((t, v, a, p)) && t == tag && row_id(
                v.row(),
            ) == target && types_model(a@) == args && p == next && pos < next <= data@.len(),
            Err(kind) => r matches Err(e) && e == DecodeError(kind),
        },
    decreases data@.len() - pos, 0int,
{
    let (e, next) = match parse_element(data, pos) {
        Err(e) => {
            return Err(e);
        },
        Ok(found) => found,
    };
    let tag = if e == ELEMENT_TYPE_CLASS {
        TypeTag::Class
    } else if e == ELEMENT_TYPE_VALUETYPE {
        TypeTag::ValueType
    } else {
        return Err(DecodeError(DecodeErrorKind::InvalidSignature));
    };
    let (target, after) = match parse_type_ref(data, next, db) {
        Err(e) => {
            return Err(e);
        },
        Ok(found) => found,
    };
    let (count, start) = match parse_number(data, after) {
        Err(e) => {
            return Err(e);
        },
        Ok(found) => found,
    };
    let mut args: Vec<Type<'db>> = Vec::new();
    let mut p = start;
    let mut i: u32 = 0;
    assert(types_model(args@) =~= Seq::empty());
    while i < count
        invariant
            i <= count,
            pos < start <= p <= data@.len(),
            spec_generic_inst(data@, pos as int, db@) == match spec_types(
                data@,
                start as int,
                db@,
                count as int,
                Seq::empty(),
            ) {
                Err(kind) => Err::<(TypeTag, RowId, Seq<TypeModel>, int), DecodeErrorKind>(kind),
                Ok((found, end)) => Ok((tag, row_id(target.row()), found, end)),
            },
            spec_types(data@, start as int, db@, count as int, Seq::empty()) == spec_types(
                data@,
                p as int,
                db@,
                count - i,
                types_model(args@),
            ),
        decreases count - i,
    {
        let (t, next) = match Type::parse(data, p, db) {
            Err(e) => {
                return Err(e);
            },
            Ok(found) => found,
        };
        proof {
            lemma_types_push(args@, t);
        }
        args.push(t);
        p = next;
        i += 1;
    }
    assert(spec_types(data@, p as int, db@, 0, types_model(args@)) == Ok::<
        (Seq<TypeModel>, int),
        DecodeErrorKind,
    >((types_model(args@), p as int)));
    Ok((tag, target, args, p))
}

impl<'db> RetType<'db> {
    /// Reads the return type at `pos`.
    pub fn parse(data: &[u8], pos: usize, db: &'db Database<'db>) -> (r: Result<
        (RetType<'db>, usize),
        DecodeError,
    >)
        ensures
            match spec_ret_type(data@, pos as int, db@) {
                Ok((t, next)) => r matches Ok((v, p)) && v.model() == t && p == next && pos < next
                    <= data@.len(),
                Err(kind) => r matches Err(e) && e == DecodeError(kind),
            },
    {
        reveal(spec_ret_type);
        let (cmod, start) = match CustomMod::parse(data, pos, db) {
            Err(e) => {
                return Err(e);
            },
            Ok(found) => found,
        };
        let (e, next) = match parse_element(data, start) {
            Err(e) => {
                return Err(e);
            },
            Ok(found) => found,
        };
        if e == ELEMENT_TYPE_VOID {
            Ok((RetType { m_cmod: cmod, m_kind: RetTypeKind::Void }, next))
        } else if e == ELEMENT_TYPE_TYPEDBYREF {
            Ok((RetType { m_cmod: cmod, m_kind: RetTypeKind::TypedReference }, next))
        } else if e == ELEMENT_TYPE_BYREF {
            match Type::parse(data, next, db) {
                Err(e) => Err(e),
                Ok((t, end)) => Ok((RetType { m_cmod: cmod, m_kind: RetTypeKind::TypeByRef(t) }, end)),
            }
        } else {
            match Type::parse(data, start, db) {
                Err(e) => Err(e),
                Ok((t, end)) => Ok((RetType { m_cmod: cmod, m_kind: RetTypeKind::Type(t) }, end)),
            }
        }
    }
}

impl<'db> ParamSig<'db> {
    /// Reads the parameter at `pos`.
    pub fn parse(data: &[u8], pos: usize, db: &'db Database<'db>) -> (r: Result<
        (ParamSig<'db>, usize),
        DecodeError,
    >)
        ensures
            match spec_param(data@, pos as int, db@) {
                Ok((t, next)) => r matches Ok((v, p)) && v.model() == t && p == next && pos < next
                    <= data@.len(),
                Err(kind) => r matches Err(e) && e == DecodeError(kind),
            },
    {
        reveal(spec_param);
        let (cmod, start) = match CustomMod::parse(data, pos, db) {
            Err(e) => {
                return Err(e);
            },
            Ok(found) => found,
        };
        let (e, next) = match parse_element(data, start) {
            Err(e) => {
                return Err(e);
            },
            Ok(found) => found,
        };
        if e == ELEMENT_TYPE_TYPEDBYREF {
            Ok((ParamSig { m_cmod: cmod, m_kind: ParamKind::TypedReference }, next))
        } else if e == ELEMENT_TYPE_BYREF {
            match Type::parse(data, next, db) {
                Err(e) => Err(e),
                Ok((t, end)) => Ok((ParamSig { m_cmod: cmod, m_kind: ParamKind::TypeByRef(t) }, end)),
            }
        } else {
            match Type::parse(data, start, db) {
                Err(e) => Err(e),
                Ok((t, end)) => Ok((ParamSig { m_cmod: cmod, m_kind: ParamKind::Type(t) }, end)),
            }
        }
    }
}

impl<'db> MethodDefSig<'db> {
    /// Decodes the signature of a method from the blob `data`.
    pub fn parse(data: &[u8], db: &'db Database<'db>) -> (r: Result<MethodDefSig<'db>, DecodeError>)
        ensures
            match spec_method_def_sig(data@, db@) {
                Ok(sig) => r matches Ok(v) && v.model() == sig,
                Err(kind) => r matches Err(e) && e == DecodeError(kind),
            },
    {
        reveal(spec_method_def_sig);
        if data.len() < 1 {
            return Err(DecodeError(DecodeErrorKind::UnexpectedEof));
        }
        let initial_byte = data[0];
        let (generic_param_count, after) = if initial_byte & CALLCONV_GENERIC != 0 {
            match parse_number(data, 1) {
                Err(e) => {
                    return Err(e);
                },
                Ok(found) => found,
            }
        } else {
            (0, 1)
        };
        let (param_count, start) = match parse_number(data, after) {
            Err(e) => {
                return Err(e);
            },
            Ok(found) => found,
        };
        let (ret_type, first) = match RetType::parse(data, start, db) {
            Err(e) => {
                return Err(e);
            },
            Ok(found) => found,
        };
        let mut params: Vec<ParamSig<'db>> = Vec::new();
        let mut p = first;
        let mut i: u32 = 0;
        assert(params_model(params@) =~= Seq::empty());
        while i < param_count
            invariant
                i <= param_count,
                p <= data@.len(),
                spec_method_def_sig(data@, db@) == match spec_params(
                    data@,
                    first as int,
                    db@,
                    param_count as int,
                    Seq::empty(),
                ) {
                    Err(kind) => Err::<MethodDefSigModel, DecodeErrorKind>(kind),
                    Ok((found, end)) => Ok(
                        MethodDefSigModel {
                            initial_byte: initial_byte,
                            generic_param_count: generic_param_count,
                            ret_type: ret_type.model(),
                            params: found,
                        },
                    ),
                },
                spec_params(data@, first as int, db@, param_count as int, Seq::empty())
                    == spec_params(data@, p as int, db@, param_count - i, params_model(params@)),
            decreases param_count - i,
        {
            let (param, next) = match ParamSig::parse(data, p, db) {
                Err(e) => {
                    return Err(e);
                },
                Ok(found) => found,
            };
            proof {
                lemma_params_push(params@, param);
            }
            params.push(param);
            p = next;
            i += 1;
        }
        Ok(
            MethodDefSig {
                m_initial_byte: initial_byte,
                m_generic_param_count: generic_param_count,
                m_ret_type: ret_type,
                m_params: params,
            },
        )
    }
}

impl<'db> FieldSig<'db> {
    /// Decodes the signature of a field from the blob `data`.
    pub fn parse(data: &[u8], db: &'db Database<'db>) -> (r: Result<FieldSig<'db>, DecodeError>)
        ensures
            match spec_field_sig(data@, db@) {
                Ok(sig) => r matches Ok(v) && v.model() == sig,
                Err(kind) => r matches Err(e) && e == DecodeError(kind),
            },
    {
        reveal(spec_field_sig);
        let (conv, start) = match parse_number(data, 0) {
            Err(e) => {
                return Err(e);
            },
            Ok(found) => found,
        };
        if conv != CALLCONV_FIELD as u32 {
            return Err(DecodeError(DecodeErrorKind::InvalidSignature));
        }
        let (cmod, next) = match CustomMod::parse(data, start, db) {
            Err(e) => {
                return Err(e);
            },
            Ok(found) => found,
        };
        match Type::parse(data, next, db) {
            Err(e) => Err(e),
            Ok((t, end)) => Ok(FieldSig { m_type: t, m_cmod: cmod }),
        }
    }
}

impl<'db> TypeSpecSig<'db> {
    /// Decodes the signature of a type specification from the blob `data`.
    pub fn parse(data: &[u8], db: &'db Database<'db>) -> (r: Result<TypeSpecSig<'db>, DecodeError>)
        ensures
            match spec_type_spec_sig(data@, db@) {
                Ok(sig) => r matches Ok(v) && v.model() == sig,
                Err(kind) => r matches Err(e) && e == DecodeError(kind),
            },
    {
        reveal(spec_type_spec_sig);
        let (e, next) = match parse_element(data, 0) {
            Err(e) => {
                return Err(e);
            },
            Ok(found) => found,
        };
        if e == ELEMENT_TYPE_PTR || e == ELEMENT_TYPE_FNPTR || e == ELEMENT_TYPE_ARRAY || e
            == ELEMENT_TYPE_SZARRAY {
            Err(DecodeError(DecodeErrorKind::UnsupportedSignature))
        } else if e == ELEMENT_TYPE_GENERICINST {
            match parse_generic_inst(data, next, db) {
                Err(e) => Err(e),
                Ok((tag, target, args, end)) => Ok(TypeSpecSig::GenericInst(tag, target, args)),
            }
        } else {
            Err(DecodeError(DecodeErrorKind::InvalidSignature))
        }
    }
}

} // verus!
