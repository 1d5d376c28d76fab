use vstd::prelude::*;
use vstd::slice::slice_subrange;
use vstd::string::StringSliceAdditionalSpecFns;
use crate::cache::Cache;
use crate::cache::CacheModel;
use crate::engine::bytes::read_u16_at;
use crate::engine::bytes::read_u32_at;
use crate::engine::bytes::spec_u16_le;
use crate::engine::bytes::spec_u32_le;
use crate::engine::compressed::read_compressed;
use crate::engine::compressed::spec_uncompress;
use crate::engine::database::DatabaseModel;
use crate::engine::database::TableRow;
use crate::engine::tables::utf8_str;
use crate::engine::kinds::TableId;
use crate::error::DecodeError;
use crate::error::DecodeErrorKind;
use crate::schema::coded::CodedIndex;
use crate::schema::coded::TypeDefOrRef;
use crate::schema::constants::spec_primitive_value;
use crate::schema::constants::PrimitiveValue;
use crate::schema::rows::TypeDef;
use crate::schema::signatures::params_model;
use crate::schema::signatures::MethodDefSig;
use crate::schema::signatures::ParamKindModel;
use crate::schema::signatures::ParamModel;
use crate::schema::signatures::TypeModel;
use crate::schema::signatures::ParamKind;
use crate::schema::signatures::ParamSig;
use crate::schema::signatures::PrimitiveType;
use crate::schema::signatures::Type;
use crate::schema::signatures::TypeTag;
use crate::schema::types::spec_enum_underlying_type;
use crate::schema::types::spec_is_enum;
use crate::schema::types::spec_type_name_pair;

verus! {

pub const ARG_FIELD: u8 = 0x53;

pub const ARG_PROPERTY: u8 = 0x54;

pub const ARG_SYSTEM_TYPE: u8 = 0x50;

pub const ARG_ENUM: u8 = 0x55;

pub const ARG_SZARRAY: u8 = 0x1d;

pub const ARG_STRING: u8 = 0x0e;

/// The string at `pos`: the byte 0xFF for no string, else a compressed
/// length and that many bytes of UTF-8.
pub open spec fn spec_ser_string(s: Seq<u8>, pos: int) -> Result<
    (Option<Seq<u8>>, int),
    DecodeErrorKind,
> {
    if pos < 0 || pos >= s.len() {
        Err(DecodeErrorKind::UnexpectedEof)
    } else if s[pos] == 0xFF {
        Ok((None, pos + 1))
    } else {
        match spec_uncompress(s, pos) {
            Err(kind) => Err(kind),
            Ok((n, w)) => if s.len() < pos + w + n {
                Err(DecodeErrorKind::UnexpectedEof)
            } else if !vstd::utf8::valid_utf8(s.subrange(pos + w, pos + w + n)) {
                Err(DecodeErrorKind::InvalidUtf8)
            } else {
                Ok((Some(s.subrange(pos + w, pos + w + n)), pos + w + n))
            },
        }
    }
}

/// Reads the string at `pos`; gives it and the position after it.
pub fn read_ser_string<'a>(data: &'a [u8], pos: usize) -> (r: Result<
    (Option<&'a str>, usize),
    DecodeError,
>)
    ensures
        match spec_ser_string(data@, pos as int) {
            Ok((Some(bytes), next)) => r matches Ok((Some(s), p)) && s.spec_bytes() == bytes && p
                == next && pos < next <= data@.len(),
            Ok((None, next)) => r matches Ok((None, p)) && p == next && pos < next <= data@.len(),
            Err(kind) => r matches Err(e) && e == DecodeError(kind),
        },
{
    let len = data.len();
    if pos >= len {
        return Err(DecodeError(DecodeErrorKind::UnexpectedEof));
    }
    if data[pos] == 0xFF {
        return Ok((None, pos + 1));
    }
    match read_compressed(data, pos) {
        Err(e) => Err(e),
        Ok((n, start)) => {
            if ((len - start) as u64) < n as u64 {
                return Err(DecodeError(DecodeErrorKind::UnexpectedEof));
            }
            let end = start + n as usize;
            match utf8_str(slice_subrange(data, start, end)) {
                None => Err(DecodeError(DecodeErrorKind::InvalidUtf8)),
                Some(s) => Ok((Some(s), end)),
            }
        },
    }
}

/// The position of the last dot of `s` before `end`, if there is one.
pub open spec fn spec_last_dot(s: Seq<u8>, end: int) -> Option<int>
    decreases end,
{
    if end <= 0 {
        None
    } else if s[end - 1] == 0x2E {
        Some(end - 1)
    } else {
        spec_last_dot(s, end - 1)
    }
}

/// The namespace and the name that the full name `s` holds: what stands
/// before the last dot and what stands after it. A name without a dot has
/// the empty namespace.
pub open spec fn spec_split_name(s: Seq<u8>) -> (Seq<u8>, Seq<u8>) {
    match spec_last_dot(s, s.len() as int) {
        None => (Seq::empty(), s),
        Some(dot) => (s.subrange(0, dot), s.subrange(dot + 1, s.len() as int)),
    }
}

/// Splits the full name `full` into its namespace and its name.
pub fn split_name<'a>(full: &'a [u8]) -> (r: (&'a [u8], &'a [u8]))
    ensures
        (r.0@, r.1@) == spec_split_name(full@),
{
    let len = full.len();
    let mut end = len;
    while end > 0
        invariant
            end <= len,
            len == full@.len(),
            spec_last_dot(full@, len as int) == spec_last_dot(full@, end as int),
        decreases end,
    {
        if full[end - 1] == 0x2E {
            return (slice_subrange(full, 0, end - 1), slice_subrange(full, end, len));
        }
        end -= 1;
    }
    let empty = slice_subrange(full, 0, 0);
    assert(empty@ =~= Seq::<u8>::empty());
    (empty, full)
}

/// What kind of value an argument has.
pub enum FieldOrPropType<'db> {
    Primitive(PrimitiveType),
    String,
    SystemType,
    Enum(TypeDef<'db>),
}

/// What kind of value an argument has, as plain values: an enum is the
/// image that defines it and the number of its row.
pub enum FieldOrPropModel {
    Primitive(PrimitiveType),
    String,
    SystemType,
    Enum(DatabaseModel, int),
}

/// Whether an argument is one value or an array of values, and of what kind.
pub enum ElemKind<'db> {
    Elem(FieldOrPropType<'db>),
    Array(FieldOrPropType<'db>),
}

/// A value of an argument.
pub enum Elem<'db> {
    Primitive(PrimitiveValue),
    String(Option<&'db str>),
    /// The name of a type.
    SystemType(&'db str),
    /// A value of an enum: the enum and the value beneath it.
    EnumValue(TypeDef<'db>, PrimitiveValue),
}

/// What a value of an argument is.
pub enum ElemModel {
    Primitive(PrimitiveValue),
    String(Option<Seq<u8>>),
    SystemType(Seq<u8>),
    EnumValue(DatabaseModel, int, PrimitiveValue),
}

/// An argument: one value, or an array of values.
pub enum FixedArg<'db> {
    Elem(Elem<'db>),
    Array(Vec<Elem<'db>>),
}

/// What an argument is.
pub enum FixedArgModel {
    Elem(ElemModel),
    Array(Seq<ElemModel>),
}

/// The name of a named argument: that of a field or that of a property.
#[derive(Clone, Copy, Debug)]
pub enum NamedArgName<'db> {
    Field(&'db str),
    Property(&'db str),
}

/// A named argument.
pub struct NamedArg<'db> {
    pub name: NamedArgName<'db>,
    pub value: FixedArg<'db>,
}

/// What a named argument is.
pub struct NamedArgModel {
    pub is_property: bool,
    pub name: Seq<u8>,
    pub value: FixedArgModel,
}

/// The value of a custom attribute: the arguments of its constructor and
/// its named arguments.
pub struct CustomAttributeSig<'db> {
    pub m_fixed: Vec<FixedArg<'db>>,
    pub m_named: Vec<NamedArg<'db>>,
}

/// What the value of a custom attribute is.
pub struct CustomAttributeSigModel {
    pub fixed: Seq<FixedArgModel>,
    pub named: Seq<NamedArgModel>,
}

impl<'db> FieldOrPropType<'db> {
    pub open spec fn model(&self) -> FieldOrPropModel {
        match self {
            FieldOrPropType::Primitive(p) => FieldOrPropModel::Primitive(*p),
            FieldOrPropType::String => FieldOrPropModel::String,
            FieldOrPropType::SystemType => FieldOrPropModel::SystemType,
            FieldOrPropType::Enum(t) => FieldOrPropModel::Enum(t.row().model(), t.row().index()),
        }
    }
}

impl<'db> Elem<'db> {
    pub open spec fn model(&self) -> ElemModel {
        match self {
            Elem::Primitive(v) => ElemModel::Primitive(*v),
            Elem::String(Some(s)) => ElemModel::String(Some(s.spec_bytes())),
            Elem::String(None) => ElemModel::String(None),
            Elem::SystemType(s) => ElemModel::SystemType(s.spec_bytes()),
            Elem::EnumValue(t, v) => ElemModel::EnumValue(t.row().model(), t.row().index(), *v),
        }
    }
}

/// What the values `v` are.
pub open spec fn elems_model(v: Seq<Elem>) -> Seq<ElemModel> {
    Seq::new(v.len(), |i: int| v[i].model())
}

impl<'db> FixedArg<'db> {
    pub open spec fn model(&self) -> FixedArgModel {
        match self {
            FixedArg::Elem(e) => FixedArgModel::Elem(e.model()),
            FixedArg::Array(v) => FixedArgModel::Array(elems_model(v@)),
        }
    }
}

/// What the arguments `v` are.
pub open spec fn fixed_args_model(v: Seq<FixedArg>) -> Seq<FixedArgModel> {
    Seq::new(v.len(), |i: int| v[i].model())
}

impl<'db> NamedArg<'db> {
    pub open spec fn model(&self) -> NamedArgModel {
        match self.name {
            NamedArgName::Field(s) => NamedArgModel {
                is_property: false,
                name: s.spec_bytes(),
                value: self.value.model(),
            },
            NamedArgName::Property(s) => NamedArgModel {
                is_property: true,
                name: s.spec_bytes(),
                value: self.value.model(),
            },
        }
    }
}

/// What the named arguments `v` are.
pub open spec fn named_args_model(v: Seq<NamedArg>) -> Seq<NamedArgModel> {
    Seq::new(v.len(), |i: int| v[i].model())
}

impl<'db> CustomAttributeSig<'db> {
    pub open spec fn model(&self) -> CustomAttributeSigModel {
        CustomAttributeSigModel {
            fixed: fixed_args_model(self.m_fixed@),
            named: named_args_model(self.m_named@),
        }
    }

    /// The arguments of the constructor, in order.
    pub fn fixed_args(&self) -> (r: &[FixedArg<'db>])
        ensures
            r@ == self.m_fixed@,
    {
        self.m_fixed.as_slice()
    }

    /// The named arguments, in order.
    pub fn named_args(&self) -> (r: &[NamedArg<'db>])
        ensures
            r@ == self.m_named@,
    {
        self.m_named.as_slice()
    }
}

impl<'db> Default for CustomAttributeSig<'db> {
    /// A value without arguments.
    fn default() -> (r: Self)
        ensures
            r.m_fixed@.len() == 0,
            r.m_named@.len() == 0,
    {
        CustomAttributeSig { m_fixed: Vec::new(), m_named: Vec::new() }
    }
}

/// The enum with the namespace `namespace` and the name `name` that the
/// cache knows: the image that defines it and the number of its row.
pub open spec fn spec_resolve_enum(cache: CacheModel, namespace: Seq<u8>, name: Seq<u8>) -> Result<
    FieldOrPropModel,
    DecodeErrorKind,
> {
    match cache.find(namespace, name) {
        None => Err(DecodeErrorKind::UnresolvedEnumType),
        Some(e) => if spec_is_enum(cache.databases[e.db], e.row) {
            Ok(FieldOrPropModel::Enum(cache.databases[e.db], e.row))
        } else {
            Err(DecodeErrorKind::InvalidCustomAttributeType)
        },
    }
}

/// The kind of value that the byte at `pos` names, and the position after
/// it: a primitive type, a string, the name of a type, or an enum, whose
/// full name follows and which the cache must know.
pub open spec fn spec_field_or_prop_type(s: Seq<u8>, pos: int, cache: CacheModel) -> Result<
    (FieldOrPropModel, int),
    DecodeErrorKind,
> {
    if pos < 0 || pos >= s.len() {
        Err(DecodeErrorKind::UnexpectedEof)
    } else if 0x02 <= s[pos] <= 0x0d {
        Ok(
            (
                FieldOrPropModel::Primitive(
                    crate::schema::signatures::spec_primitive(s[pos]).unwrap(),
                ),
                pos + 1,
            ),
        )
    } else if s[pos] == ARG_STRING {
        Ok((FieldOrPropModel::String, pos + 1))
    } else if s[pos] == ARG_SYSTEM_TYPE {
        Ok((FieldOrPropModel::SystemType, pos + 1))
    } else if s[pos] == ARG_ENUM {
        match spec_ser_string(s, pos + 1) {
            Err(kind) => Err(kind),
            Ok((None, next)) => Err(DecodeErrorKind::InvalidNamedArgument),
            Ok((Some(full), next)) => match spec_resolve_enum(
                cache,
                spec_split_name(full).0,
                spec_split_name(full).1,
            ) {
                Err(kind) => Err(kind),
                Ok(t) => Ok((t, next)),
            },
        }
    } else {
        Err(DecodeErrorKind::InvalidCustomAttributeType)
    }
}

/// The enum that a reference to a value type stands for: a type definition
/// stands for itself, and a type reference for the type that the cache
/// knows under its names.
pub open spec fn spec_resolve_type(
    model: DatabaseModel,
    table: TableId,
    index: int,
    pair: (Seq<u8>, Seq<u8>),
    cache: CacheModel,
) -> Result<FieldOrPropModel, DecodeErrorKind> {
    if table == TableId::TypeDef {
        if spec_is_enum(model, index) {
            Ok(FieldOrPropModel::Enum(model, index))
        } else {
            Err(DecodeErrorKind::InvalidCustomAttributeType)
        }
    } else {
        spec_resolve_enum(cache, pair.0, pair.1)
    }
}

/// The kind of value that a parameter of the type `typ` takes.
pub open spec fn spec_fixed_arg_type(typ: TypeModel, cache: CacheModel) -> Result<
    FieldOrPropModel,
    DecodeErrorKind,
> {
    match typ {
        TypeModel::Primitive(p) => if p is I || p is U {
            Err(DecodeErrorKind::InvalidCustomAttributeType)
        } else {
            Ok(FieldOrPropModel::Primitive(p))
        },
        TypeModel::String => Ok(FieldOrPropModel::String),
        TypeModel::Ref(tag, target, None) => match spec_type_name_pair(
            target.model,
            target.table,
            target.index,
        ) {
            Err(kind) => Err(kind),
            Ok(pair) => if pair.0 == "System".spec_bytes() && pair.1 == "Type".spec_bytes() {
                Ok(FieldOrPropModel::SystemType)
            } else if tag == TypeTag::ValueType {
                spec_resolve_type(target.model, target.table, target.index, pair, cache)
            } else {
                Err(DecodeErrorKind::UnsupportedSignature)
            },
        },
        _ => Err(DecodeErrorKind::UnsupportedSignature),
    }
}

/// Whether a parameter of the type `typ` takes an array, and the kind of
/// its values.
pub open spec fn spec_elem_kind(typ: TypeModel, cache: CacheModel) -> Result<
    (bool, FieldOrPropModel),
    DecodeErrorKind,
> {
    match typ {
        TypeModel::Array(elem, _) => match spec_fixed_arg_type(*elem, cache) {
            Err(kind) => Err(kind),
            Ok(t) => Ok((true, t)),
        },
        _ => match spec_fixed_arg_type(typ, cache) {
            Err(kind) => Err(kind),
            Ok(t) => Ok((false, t)),
        },
    }
}

/// The value of kind `kind` at `pos`, and the position after it.
pub open spec fn spec_elem(kind: FieldOrPropModel, s: Seq<u8>, pos: int) -> Result<
    (ElemModel, int),
    DecodeErrorKind,
> {
    match kind {
        FieldOrPropModel::Primitive(p) => match spec_primitive_value(p, s, pos) {
            Err(kind) => Err(kind),
            Ok((v, next)) => Ok((ElemModel::Primitive(v), next)),
        },
        FieldOrPropModel::String => match spec_ser_string(s, pos) {
            Err(kind) => Err(kind),
            Ok((v, next)) => Ok((ElemModel::String(v), next)),
        },
        FieldOrPropModel::SystemType => match spec_ser_string(s, pos) {
            Err(kind) => Err(kind),
            Ok((None, next)) => Err(DecodeErrorKind::InvalidCustomAttributeType),
            Ok((Some(v), next)) => Ok((ElemModel::SystemType(v), next)),
        },
        FieldOrPropModel::Enum(model, row) => match spec_enum_underlying_type(model, row) {
            Err(kind) => Err(kind),
            Ok(p) => match spec_primitive_value(p, s, pos) {
                Err(kind) => Err(kind),
                Ok((v, next)) => Ok((ElemModel::EnumValue(model, row, v), next)),
            },
        },
    }
}

/// `count` values of kind `kind` from `pos` on, after the values `done`.
pub open spec fn spec_elems(
    kind: FieldOrPropModel,
    s: Seq<u8>,
    pos: int,
    count: int,
    done: Seq<ElemModel>,
) -> Result<(Seq<ElemModel>, int), DecodeErrorKind>
    decreases count,
{
    if count <= 0 {
        Ok((done, pos))
    } else {
        match spec_elem(kind, s, pos) {
            Err(kind) => Err(kind),
            Ok((e, next)) => spec_elems(kind, s, next, count - 1, done.push(e)),
        }
    }
}

/// The argument at `pos`: one value, or, for an array, a 32-bit count and
/// that many values. The count 0xFFFFFFFF stands for no array and gives an
/// array without values.
pub open spec fn spec_fixed_arg(is_array: bool, kind: FieldOrPropModel, s: Seq<u8>, pos: int)
    -> Result<(FixedArgModel, int), DecodeErrorKind> {
    if !is_array {
        match spec_elem(kind, s, pos) {
            Err(kind) => Err(kind),
            Ok((e, next)) => Ok((FixedArgModel::Elem(e), next)),
        }
    } else if pos < 0 || s.len() < pos + 4 {
        Err(DecodeErrorKind::UnexpectedEof)
    } else if spec_u32_le(s, pos) == 0xFFFF_FFFF {
        Ok((FixedArgModel::Array(Seq::empty()), pos + 4))
    } else {
        match spec_elems(kind, s, pos + 4, spec_u32_le(s, pos), Seq::empty()) {
            Err(kind) => Err(kind),
            Ok((v, next)) => Ok((FixedArgModel::Array(v), next)),
        }
    }
}

/// Whether the named argument at `pos` holds an array, the kind of its
/// values, and the position after the kind.
pub open spec fn spec_named_kind(s: Seq<u8>, pos: int, cache: CacheModel) -> Result<
    (bool, FieldOrPropModel, int),
    DecodeErrorKind,
> {
    if pos < 0 || pos >= s.len() {
        Err(DecodeErrorKind::UnexpectedEof)
    } else if s[pos] == ARG_SZARRAY {
        match spec_field_or_prop_type(s, pos + 1, cache) {
            Err(kind) => Err(kind),
            Ok((t, next)) => Ok((true, t, next)),
        }
    } else {
        match spec_field_or_prop_type(s, pos, cache) {
            Err(kind) => Err(kind),
            Ok((t, next)) => Ok((false, t, next)),
        }
    }
}

/// The named argument at `pos`: the mark of a field or of a property, the
/// kind of the value, the name, and the value.
#[verifier::opaque]
pub open spec fn spec_named_arg(s: Seq<u8>, pos: int, cache: CacheModel) -> Result<
    (NamedArgModel, int),
    DecodeErrorKind,
> {
    if pos < 0 || pos >= s.len() {
        Err(DecodeErrorKind::UnexpectedEof)
    } else if s[pos] != ARG_FIELD && s[pos] != ARG_PROPERTY {
        Err(DecodeErrorKind::InvalidNamedArgument)
    } else {
        match spec_named_kind(s, pos + 1, cache) {
            Err(kind) => Err(kind),
            Ok((is_array, t, after)) => match spec_ser_string(s, after) {
                Err(kind) => Err(kind),
                Ok((None, next)) => Err(DecodeErrorKind::InvalidNamedArgument),
                Ok((Some(name), next)) => match spec_fixed_arg(is_array, t, s, next) {
                    Err(kind) => Err(kind),
                    Ok((value, end)) => Ok(
                        (
                            NamedArgModel {
                                is_property: s[pos] == ARG_PROPERTY,
                                name: name,
                                value: value,
                            },
                            end,
                        ),
                    ),
                },
            },
        }
    }
}

/// The argument of the parameter `param` at `pos`.
#[verifier::opaque]
pub open spec fn spec_param_arg(param: ParamModel, s: Seq<u8>, pos: int, cache: CacheModel)
    -> Result<(FixedArgModel, int), DecodeErrorKind> {
    match param.kind {
        ParamKindModel::Type(t) => match spec_elem_kind(t, cache) {
            Err(kind) => Err(kind),
            Ok((is_array, kind)) => spec_fixed_arg(is_array, kind, s, pos),
        },
        _ => Err(DecodeErrorKind::InvalidCustomAttributeType),
    }
}

/// The arguments of the parameters of `params` from the parameter `i` on,
/// read from `pos` on, after the arguments `done`.
pub open spec fn spec_param_args(
    params: Seq<ParamModel>,
    i: int,
    s: Seq<u8>,
    pos: int,
    cache: CacheModel,
    done: Seq<FixedArgModel>,
) -> Result<(Seq<FixedArgModel>, int), DecodeErrorKind>
    decreases params.len() - i,
{
    if i < 0 || i >= params.len() {
        Ok((done, pos))
    } else {
        match spec_param_arg(params[i], s, pos, cache) {
            Err(kind) => Err(kind),
            Ok((arg, next)) => spec_param_args(params, i + 1, s, next, cache, done.push(arg)),
        }
    }
}

/// `count` named arguments from `pos` on, after the arguments `done`.
pub open spec fn spec_named_args(
    s: Seq<u8>,
    pos: int,
    cache: CacheModel,
    count: int,
    done: Seq<NamedArgModel>,
) -> Result<(Seq<NamedArgModel>, int), DecodeErrorKind>
    decreases count,
{
    if count <= 0 {
        Ok((done, pos))
    } else {
        match spec_named_arg(s, pos, cache) {
            Err(kind) => Err(kind),
            Ok((arg, next)) => spec_named_args(s, next, cache, count - 1, done.push(arg)),
        }
    }
}

/// The value of a custom attribute that the blob `s` holds, for a
/// constructor with the parameters `params`: the prolog 0x0001, one
/// argument for each parameter, a 16-bit count of named arguments, and the
/// named arguments.
pub open spec fn spec_custom_attribute(s: Seq<u8>, params: Seq<ParamModel>, cache: CacheModel)
    -> Result<CustomAttributeSigModel, DecodeErrorKind> {
    if s.len() < 2 {
        Err(DecodeErrorKind::UnexpectedEof)
    } else if spec_u16_le(s, 0) != 0x0001 {
        Err(DecodeErrorKind::InvalidCustomAttributeProlog)
    } else {
        match spec_param_args(params, 0, s, 2, cache, Seq::empty()) {
            Err(kind) => Err(kind),
            Ok((fixed, next)) => if next < 0 || s.len() < next + 2 {
                Err(DecodeErrorKind::UnexpectedEof)
            } else {
                match spec_named_args(
                    s,
                    next + 2,
                    cache,
                    spec_u16_le(s, next),
                    Seq::empty(),
                ) {
                    Err(kind) => Err(kind),
                    Ok((named, end)) => Ok(CustomAttributeSigModel { fixed: fixed, named: named }),
                }
            },
        }
    }
}

/// Looks the enum with the names `namespace` and `name` up in the cache.
pub fn resolve_enum<'db, 'c>(cache: &'db Cache<'c>, namespace: &[u8], name: &[u8]) -> (r: Result<
    FieldOrPropType<'db>,
    DecodeError,
>)
    requires
        cache.wf(),
    ensures
        match spec_resolve_enum(cache@, namespace@, name@) {
            Ok(t) => r matches Ok(v) && v.model() == t,
            Err(kind) => r matches Err(e) && e == DecodeError(kind),
        },
{
    match cache.find_bytes(namespace, name) {
        None => Err(DecodeError(DecodeErrorKind::UnresolvedEnumType)),
        Some(t) => {
            if t.is_enum() {
                Ok(FieldOrPropType::Enum(t))
            } else {
                Err(DecodeError(DecodeErrorKind::InvalidCustomAttributeType))
            }
        },
    }
}

impl<'db> FieldOrPropType<'db> {
    /// The kind of value that a parameter of the type `typ` takes.
    pub fn from_fixed_arg_type<'c>(typ: &Type<'db>, cache: &'db Cache<'c>) -> (r: Result<
        FieldOrPropType<'db>,
        DecodeError,
    >)
        requires
            cache.wf(),
        ensures
            match spec_fixed_arg_type(typ.model(), cache@) {
                Ok(t) => r matches Ok(v) && v.model() == t,
                Err(kind) => r matches Err(e) && e == DecodeError(kind),
            },
    {
        match typ {
            Type::Primitive(p) => match p {
                PrimitiveType::I | PrimitiveType::U => Err(
                    DecodeError(DecodeErrorKind::InvalidCustomAttributeType),
                ),
                _ => Ok(FieldOrPropType::Primitive(*p)),
            },
            Type::String => Ok(FieldOrPropType::String),
            Type::Ref(tag, target, None) => {
                let _ = target.as_row();
                let (namespace, name) = match target.namespace_name_pair() {
                    Err(e) => {
                        return Err(e);
                    },
                    Ok(pair) => pair,
                };
                if crate::schema::types::str_eq(namespace, "System") && crate::schema::types::str_eq(
                    name,
                    "Type",
                ) {
                    return Ok(FieldOrPropType::SystemType);
                }
                match tag {
                    TypeTag::ValueType => match target {
                        TypeDefOrRef::TypeDef(d) => {
                            let _ = d.as_row();
                            if d.is_enum() {
                                Ok(FieldOrPropType::Enum(*d))
                            } else {
                                Err(DecodeError(DecodeErrorKind::InvalidCustomAttributeType))
                            }
                        },
                        TypeDefOrRef::TypeRef(t) => {
                            let _ = t.as_row();
                            resolve_enum(cache, namespace.as_bytes(), name.as_bytes())
                        },
                        TypeDefOrRef::TypeSpec(t) => {
                            let _ = t.as_row();
                            resolve_enum(cache, namespace.as_bytes(), name.as_bytes())
                        },
                    },
                    TypeTag::Class => Err(DecodeError(DecodeErrorKind::UnsupportedSignature)),
                }
            },
            _ => Err(DecodeError(DecodeErrorKind::UnsupportedSignature)),
        }
    }

    /// Reads the kind of value that the byte at `pos` names.
    pub fn parse<'c>(data: &[u8], pos: usize, cache: &'db Cache<'c>) -> (r: Result<
        (FieldOrPropType<'db>, usize),
        DecodeError,
    >)
        requires
            cache.wf(),
        ensures
            match spec_field_or_prop_type(data@, pos as int, cache@) {
                Ok((t, next)) => r matches Ok((v, p)) && v.model() == t && p == next && pos < next
                    <= data@.len(),
                Err(kind) => r matches Err(e) && e == DecodeError(kind),
            },
    {
        if pos >= data.len() {
            return Err(DecodeError(DecodeErrorKind::UnexpectedEof));
        }
        let b = data[pos];
        if 0x02 <= b && b <= 0x0d {
            match crate::schema::signatures::primitive(b) {
                Some(p) => Ok((FieldOrPropType::Primitive(p), pos + 1)),
                None => Err(DecodeError(DecodeErrorKind::InvalidCustomAttributeType)),
            }
        } else if b == ARG_STRING {
            Ok((FieldOrPropType::String, pos + 1))
        } else if b == ARG_SYSTEM_TYPE {
            Ok((FieldOrPropType::SystemType, pos + 1))
        } else if b == ARG_ENUM {
            match read_ser_string(data, pos + 1) {
                Err(e) => Err(e),
                Ok((None, _)) => Err(DecodeError(DecodeErrorKind::InvalidNamedArgument)),
                Ok((Some(full), next)) => {
                    let (namespace, name) = split_name(full.as_bytes());
                    match resolve_enum(cache, namespace, name) {
                        Err(e) => Err(e),
                        Ok(t) => Ok((t, next)),
                    }
                },
            }
        } else {
            Err(DecodeError(DecodeErrorKind::InvalidCustomAttributeType))
        }
    }

    /// Reads a value of this kind at `pos`.
    pub fn parse_value(&self, data: &'db [u8], pos: usize) -> (r: Result<
        (Elem<'db>, usize),
        DecodeError,
    >)
        ensures
            match spec_elem(self.model(), data@, pos as int) {
                Ok((e, next)) => r matches Ok((v, p)) && v.model() == e && p == next && pos < next
                    <= data@.len(),
                Err(kind) => r matches Err(e) && e == DecodeError(kind),
            },
    {
        match self {
            FieldOrPropType::Primitive(p) => match p.parse_value(data, pos) {
                Err(e) => Err(e),
                Ok((v, next)) => Ok((Elem::Primitive(v), next)),
            },
            FieldOrPropType::String => match read_ser_string(data, pos) {
                Err(e) => Err(e),
                Ok((v, next)) => Ok((Elem::String(v), next)),
            },
            FieldOrPropType::SystemType => match read_ser_string(data, pos) {
                Err(e) => Err(e),
                Ok((None, _)) => Err(DecodeError(DecodeErrorKind::InvalidCustomAttributeType)),
                Ok((Some(v), next)) => Ok((Elem::SystemType(v), next)),
            },
            FieldOrPropType::Enum(t) => {
                let _ = t.as_row();
                match t.enum_get_underlying_type() {
                    Err(e) => Err(e),
                    Ok(p) => match p.parse_value(data, pos) {
                        Err(e) => Err(e),
                        Ok((v, next)) => Ok((Elem::EnumValue(*t, v), next)),
                    },
                }
            },
        }
    }
}

impl<'db> ElemKind<'db> {
    /// Whether this is an array.
    pub open spec fn is_array(&self) -> bool {
        self is Array
    }

    /// The kind of the values.
    pub open spec fn kind(&self) -> FieldOrPropModel {
        match self {
            ElemKind::Elem(t) => t.model(),
            ElemKind::Array(t) => t.model(),
        }
    }

    /// Whether a parameter of the type `typ` takes an array, and the kind
    /// of its values.
    pub fn from_fixed_arg_type<'c>(typ: &Type<'db>, cache: &'db Cache<'c>) -> (r: Result<
        ElemKind<'db>,
        DecodeError,
    >)
        requires
            cache.wf(),
        ensures
            match spec_elem_kind(typ.model(), cache@) {
                Ok((is_array, t)) => r matches Ok(v) && v.is_array() == is_array && v.kind() == t,
                Err(kind) => r matches Err(e) && e == DecodeError(kind),
            },
    {
        match typ {
            Type::Array(a) => match FieldOrPropType::from_fixed_arg_type(a.elem_type(), cache) {
                Err(e) => Err(e),
                Ok(t) => Ok(ElemKind::Array(t)),
            },
            _ => match FieldOrPropType::from_fixed_arg_type(typ, cache) {
                Err(e) => Err(e),
                Ok(t) => Ok(ElemKind::Elem(t)),
            },
        }
    }

    /// Reads whether the named argument at `pos` holds an array, and the
    /// kind of its values.
    pub fn parse<'c>(data: &[u8], pos: usize, cache: &'db Cache<'c>) -> (r: Result<
        (ElemKind<'db>, usize),
        DecodeError,
    >)
        requires
            cache.wf(),
        ensures
            match spec_named_kind(data@, pos as int, cache@) {
                Ok((is_array, t, next)) => r matches Ok((v, p)) && v.is_array() == is_array
                    && v.kind() == t && p == next && pos < next <= data@.len(),
                Err(kind) => r matches Err(e) && e == DecodeError(kind),
            },
    {
        if pos >= data.len() {
            return Err(DecodeError(DecodeErrorKind::UnexpectedEof));
        }
        if data[pos] == ARG_SZARRAY {
            match FieldOrPropType::parse(data, pos + 1, cache) {
                Err(e) => Err(e),
                Ok((t, next)) => Ok((ElemKind::Array(t), next)),
            }
        } else {
            match FieldOrPropType::parse(data, pos, cache) {
                Err(e) => Err(e),
                Ok((t, next)) => Ok((ElemKind::Elem(t), next)),
            }
        }
    }
}

/// Adding a value at the end adds what it is at the end.
pub proof fn lemma_elems_push(v: Seq<Elem>, x: Elem)
    ensures
        elems_model(v.push(x)) == elems_model(v).push(x.model()),
{
    assert(elems_model(v.push(x)) =~= elems_model(v).push(x.model()));
}

/// Adding an argument at the end adds what it is at the end.
pub proof fn lemma_fixed_args_push(v: Seq<FixedArg>, x: FixedArg)
    ensures
        fixed_args_model(v.push(x)) == fixed_args_model(v).push(x.model()),
{
    assert(fixed_args_model(v.push(x)) =~= fixed_args_model(v).push(x.model()));
}

/// Adding a named argument at the end adds what it is at the end.
pub proof fn lemma_named_args_push(v: Seq<NamedArg>, x: NamedArg)
    ensures
        named_args_model(v.push(x)) == named_args_model(v).push(x.model()),
{
    assert(named_args_model(v.push(x)) =~= named_args_model(v).push(x.model()));
}

impl<'db> FixedArg<'db> {
    /// Reads the argument of kind `kind` at `pos`.
    pub fn parse(data: &'db [u8], pos: usize, kind: &ElemKind<'db>) -> (r: Result<
        (FixedArg<'db>, usize),
        DecodeError,
    >)
        ensures
            match spec_fixed_arg(kind.is_array(), kind.kind(), data@, pos as int) {
                Ok((a, next)) => r matches Ok((v, p)) && v.model() == a && p == next && pos < next
                    <= data@.len(),
                Err(kind) => r matches Err(e) && e == DecodeError(kind),
            },
    {
        match kind {
            ElemKind::Elem(t) => match t.parse_value(data, pos) {
                Err(e) => Err(e),
                Ok((v, next)) => Ok((FixedArg::Elem(v), next)),
            },
            ElemKind::Array(t) => {
                let len = data.len();
                if pos > len || len - pos < 4 {
                    return Err(DecodeError(DecodeErrorKind::UnexpectedEof));
                }
                let count = read_u32_at(data, pos).unwrap();
                let mut elems: Vec<Elem<'db>> = Vec::new();
                assert(elems_model(elems@) =~= Seq::empty());
                if count == 0xFFFF_FFFF {
                    return Ok((FixedArg::Array(elems), pos + 4));
                }
                let start = pos + 4;
                let mut p = start;
                let mut i: u32 = 0;
                while i < count
                    invariant
                        i <= count,
                        pos < start <= p <= data@.len(),
                        spec_fixed_arg(kind.is_array(), kind.kind(), data@, pos as int)
                            == match spec_elems(
                            t.model(),
                            data@,
                            start as int,
                            count as int,
                            Seq::empty(),
                        ) {
                            Err(kind) => Err::<(FixedArgModel, int), DecodeErrorKind>(kind),
                            Ok((v, next)) => Ok((FixedArgModel::Array(v), next)),
                        },
                        spec_elems(t.model(), data@, start as int, count as int, Seq::empty())
                            == spec_elems(
                            t.model(),
                            data@,
                            p as int,
                            count - i,
                            elems_model(elems@),
                        ),
                    decreases count - i,
                {
                    let (e, next) = match t.parse_value(data, p) {
                        Err(e) => {
                            return Err(e);
                        },
                        Ok(found) => found,
                    };
                    proof {
                        lemma_elems_push(elems@, e);
                    }
                    elems.push(e);
                    p = next;
                    i += 1;
                }
                Ok((FixedArg::Array(elems), p))
            },
        }
    }
}

impl<'db> NamedArg<'db> {
    /// Reads the named argument at `pos`.
    pub fn parse<'c>(data: &'db [u8], pos: usize, cache: &'db Cache<'c>) -> (r: Result<
        (NamedArg<'db>, usize),
        DecodeError,
    >)
        requires
            cache.wf(),
        ensures
            match spec_named_arg(data@, pos as int, cache@) {
                Ok((a, next)) => r matches Ok((v, p)) && v.model() == a && p == next && pos < next
                    <= data@.len(),
                Err(kind) => r matches Err(e) && e == DecodeError(kind),
            },
    {
        reveal(spec_named_arg);
        if pos >= data.len() {
            return Err(DecodeError(DecodeErrorKind::UnexpectedEof));
        }
        let mark = data[pos];
        if mark != ARG_FIELD && mark != ARG_PROPERTY {
            return Err(DecodeError(DecodeErrorKind::InvalidNamedArgument));
        }
        let (kind, after) = match ElemKind::parse(data, pos + 1, cache) {
            Err(e) => {
                return Err(e);
            },
            Ok(found) => found,
        };
        let (name, next) = match read_ser_string(data, after) {
            Err(e) => {
                return Err(e);
            },
            Ok((None, _)) => {
                return Err(DecodeError(DecodeErrorKind::InvalidNamedArgument));
            },
            Ok((Some(name), next)) => (name, next),
        };
        let (value, end) = match FixedArg::parse(data, next, &kind) {
            Err(e) => {
                return Err(e);
            },
            Ok(found) => found,
        };
        if mark == ARG_PROPERTY {
            Ok((NamedArg { name: NamedArgName::Property(name), value: value }, end))
        } else {
            Ok((NamedArg { name: NamedArgName::Field(name), value: value }, end))
        }
    }
}

/// Reads the argument of the parameter `param` at `pos`.
pub fn parse_param_arg<'db, 'c>(
    data: &'db [u8],
    pos: usize,
    param: &ParamSig<'db>,
    cache: &'db Cache<'c>,
) -> (r: Result<(FixedArg<'db>, usize), DecodeError>)
    requires
        cache.wf(),
    ensures
        match spec_param_arg(param.model(), data@, pos as int, cache@) {
            Ok((a, next)) => r matches Ok((v, p)) && v.model() == a && p == next && pos < next
                <= data@.len(),
            Err(kind) => r matches Err(e) && e == DecodeError(kind),
        },
{
    reveal(spec_param_arg);
    match param.kind() {
        ParamKind::Type(t) => match ElemKind::from_fixed_arg_type(t, cache) {
            Err(e) => Err(e),
            Ok(kind) => FixedArg::parse(data, pos, &kind),
        },
        _ => Err(DecodeError(DecodeErrorKind::InvalidCustomAttributeType)),
    }
}

impl<'db> CustomAttributeSig<'db> {
    /// Decodes the value of a custom attribute from the blob `data`, for a
    /// constructor with the signature `ctor`.
    pub fn parse<'c>(data: &'db [u8], cache: &'db Cache<'c>, ctor: &MethodDefSig<'db>) -> (r: Result<
        CustomAttributeSig<'db>,
        DecodeError,
    >)
        requires
            cache.wf(),
        ensures
            match spec_custom_attribute(data@, ctor.model().params, cache@) {
                Ok(sig) => r matches Ok(v) && v.model() == sig,
                Err(kind) => r matches Err(e) && e == DecodeError(kind),
            },
    {
        let len = data.len();
        if len < 2 {
            return Err(DecodeError(DecodeErrorKind::UnexpectedEof));
        }
        let prolog = read_u16_at(data, 0).unwrap();
        if prolog != 0x0001 {
            return Err(DecodeError(DecodeErrorKind::InvalidCustomAttributeProlog));
        }
        let params = ctor.params();
        let mut fixed: Vec<FixedArg<'db>> = Vec::new();
        let mut p: usize = 2;
        let mut i: usize = 0;
        assert(fixed_args_model(fixed@) =~= Seq::empty());
        while i < params.len()
            invariant
                i <= params@.len(),
                params@ == ctor.m_params@,
                cache.wf(),
                2 <= p <= data@.len(),
                len == data@.len(),
                spec_u16_le(data@, 0) == 0x0001,
                spec_param_args(
                    params_model(params@),
                    0,
                    data@,
                    2,
                    cache@,
                    Seq::empty(),
                ) == spec_param_args(
                    params_model(params@),
                    i as int,
                    data@,
                    p as int,
                    cache@,
                    fixed_args_model(fixed@),
                ),
            decreases params@.len() - i,
        {
            let (arg, next) = match parse_param_arg(data, p, &params[i], cache) {
                Err(e) => {
                    return Err(e);
                },
                Ok(found) => found,
            };
            proof {
                lemma_fixed_args_push(fixed@, arg);
            }
            fixed.push(arg);
            p = next;
            i += 1;
        }
        if len - p < 2 {
            return Err(DecodeError(DecodeErrorKind::UnexpectedEof));
        }
        let count = read_u16_at(data, p).unwrap();
        let start = p + 2;
        let mut named: Vec<NamedArg<'db>> = Vec::new();
        let mut q: usize = start;
        let mut k: u16 = 0;
        assert(named_args_model(named@) =~= Seq::empty());
        while k < count
            invariant
                k <= count,
                cache.wf(),
                start <= q <= data@.len(),
                spec_named_args(data@, start as int, cache@, count as int, Seq::empty())
                    == spec_named_args(
                    data@,
                    q as int,
                    cache@,
                    count - k,
                    named_args_model(named@),
                ),
                spec_custom_attribute(data@, ctor.model().params, cache@) == match spec_named_args(
                    data@,
                    start as int,
                    cache@,
                    count as int,
                    Seq::empty(),
                ) {
                    Err(kind) => Err::<CustomAttributeSigModel, DecodeErrorKind>(kind),
                    Ok((found, end)) => Ok(
                        CustomAttributeSigModel { fixed: fixed_args_model(fixed@), named: found },
                    ),
                },
            decreases count - k,
        {
            let (arg, next) = match NamedArg::parse(data, q, cache) {
                Err(e) => {
                    return Err(e);
                },
                Ok(found) => found,
            };
            proof {
                lemma_named_args_push(named@, arg);
            }
            named.push(arg);
            q = next;
            k += 1;
        }
        Ok(CustomAttributeSig { m_fixed: fixed, m_named: named })
    }
}

} // verus!
