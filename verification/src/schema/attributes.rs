use vstd::prelude::*;
use vstd::string::StringSliceAdditionalSpecFns;
use crate::cache::Cache;
use crate::engine::database::key_range;
use crate::engine::database::spec_decode_coded;
use crate::engine::database::spec_encode_coded;
use crate::engine::database::DatabaseModel;
use crate::engine::database::TableRow;
use crate::engine::kinds::CodedIndexKind;
use crate::engine::kinds::TableId;
use crate::error::DecodeError;
use crate::error::DecodeErrorKind;
use crate::schema::coded::CodedIndex;
use crate::schema::coded::CustomAttributeType;
use crate::schema::coded::MemberRefParent;
use crate::schema::coded::TypeDefOrRef;
use crate::schema::custom_attributes::spec_custom_attribute;
use crate::schema::custom_attributes::spec_split_name;
use crate::schema::custom_attributes::split_name;
use crate::schema::custom_attributes::CustomAttributeSig;
use crate::schema::rows::CustomAttribute;
use crate::schema::rows::TypeDef;
use crate::schema::rows::TypeRef;
use crate::schema::signatures::spec_field_sig;
use crate::schema::signatures::spec_method_def_sig;
use crate::schema::signatures::MethodDefSig;
use crate::schema::signatures::MethodDefSigModel;
use crate::schema::types::is_name_pair;
use crate::schema::types::spec_name_pair;
use crate::schema::types::spec_required_blob;
use crate::schema::types::str_eq;

verus! {

/// The row that a coded index refers to, for an index that must refer to one.
pub open spec fn spec_required_coded(found: Result<Option<(TableId, int)>, DecodeErrorKind>)
    -> Result<(TableId, int), DecodeErrorKind> {
    match found {
        Err(kind) => Err(kind),
        Ok(None) => Err(DecodeErrorKind::InvalidRowIndex),
        Ok(Some(row)) => Ok(row),
    }
}

/// The namespace and the name of the type that defines the custom attribute
/// `index`: the type that the constructor belongs to. Only a constructor
/// that is a member reference of a type definition or a type reference
/// leads to one.
#[verifier::opaque]
pub open spec fn spec_attribute_type_pair(model: DatabaseModel, index: int) -> Result<
    (Seq<u8>, Seq<u8>),
    DecodeErrorKind,
> {
    match spec_required_coded(
        spec_decode_coded(
            CodedIndexKind::CustomAttributeType,
            model.cell(TableId::CustomAttribute, index, 1) as u32,
            model,
        ),
    ) {
        Err(kind) => Err(kind),
        Ok((ctor, i)) => if ctor != TableId::MemberRef {
            Err(DecodeErrorKind::UnsupportedSignature)
        } else {
            match spec_required_coded(
                spec_decode_coded(
                    CodedIndexKind::MemberRefParent,
                    model.cell(TableId::MemberRef, i, 0) as u32,
                    model,
                ),
            ) {
                Err(kind) => Err(kind),
                Ok((parent, j)) => if parent == TableId::TypeDef || parent == TableId::TypeRef {
                    spec_name_pair(model, parent, j)
                } else {
                    Err(DecodeErrorKind::InvalidCustomAttributeType)
                },
            }
        },
    }
}

/// The signature of the constructor of the custom attribute `index`.
#[verifier::opaque]
pub open spec fn spec_attribute_ctor(model: DatabaseModel, index: int) -> Result<
    MethodDefSigModel,
    DecodeErrorKind,
> {
    match spec_required_coded(
        spec_decode_coded(
            CodedIndexKind::CustomAttributeType,
            model.cell(TableId::CustomAttribute, index, 1) as u32,
            model,
        ),
    ) {
        Err(kind) => Err(kind),
        Ok((ctor, i)) => if ctor == TableId::MemberRef {
            match spec_required_blob(model.blob(TableId::MemberRef, i, 2)) {
                Err(kind) => Err(kind),
                Ok(bytes) => if bytes.len() > 0 && bytes[0] == 0x06 {
                    match spec_field_sig(bytes, model) {
                        Ok(sig) => Err(DecodeErrorKind::InvalidSignature),
                        Err(kind) => Err(kind),
                    }
                } else {
                    spec_method_def_sig(bytes, model)
                },
            }
        } else {
            match spec_required_blob(model.blob(TableId::MethodDef, i, 4)) {
                Err(kind) => Err(kind),
                Ok(bytes) => spec_method_def_sig(bytes, model),
            }
        },
    }
}

/// The first of the custom attributes `[i, last)` whose type has the
/// namespace `namespace` and the name `name`.
pub open spec fn spec_find_attribute(
    model: DatabaseModel,
    i: int,
    last: int,
    namespace: Seq<u8>,
    name: Seq<u8>,
) -> Result<Option<int>, DecodeErrorKind>
    decreases last - i,
{
    if i >= last {
        Ok(None)
    } else {
        match spec_attribute_type_pair(model, i) {
            Err(kind) => Err(kind),
            Ok(pair) => if pair.0 == namespace && pair.1 == name {
                Ok(Some(i))
            } else {
                spec_find_attribute(model, i + 1, last, namespace, name)
            },
        }
    }
}

impl<'db> CustomAttribute<'db> {
    /// The signature of the constructor of the attribute.
    pub fn constructor_signature(&self) -> (r: Result<MethodDefSig<'db>, DecodeError>)
        ensures
            match spec_attribute_ctor(self.row().model(), self.row().index()) {
                Ok(sig) => r matches Ok(v) && v.model() == sig,
                Err(kind) => r matches Err(e) && e == DecodeError(kind),
            },
    {
        reveal(spec_attribute_ctor);
        let _ = self.as_row();
        match self.type_() {
            Err(e) => Err(e),
            Ok(CustomAttributeType::MemberRef(m)) => {
                let _ = m.as_row();
                m.method_signature()
            },
            Ok(CustomAttributeType::MethodDef(m)) => {
                let _ = m.as_row();
                m.signature()
            },
        }
    }

    /// The value of the attribute: the arguments that its blob holds for
    /// the parameters of its constructor. An attribute without a blob has
    /// no arguments.
    pub fn value<'c>(&self, cache: &'db Cache<'c>) -> (r: Result<CustomAttributeSig<'db>, DecodeError>)
        requires
            cache.wf(),
        ensures
            match self.row().blob(2) {
                Err(kind) => r matches Err(e) && e == DecodeError(kind),
                Ok(None) => r matches Ok(v) && v.m_fixed@.len() == 0 && v.m_named@.len() == 0,
                Ok(Some(bytes)) => match spec_attribute_ctor(
                    self.row().model(),
                    self.row().index(),
                ) {
                    Err(kind) => r matches Err(e) && e == DecodeError(kind),
                    Ok(sig) => match spec_custom_attribute(bytes, sig.params, cache@) {
                        Ok(value) => r matches Ok(v) && v.model() == value,
                        Err(kind) => r matches Err(e) && e == DecodeError(kind),
                    },
                },
            },
    {
        let row = self.as_row();
        match row.get_blob(2) {
            Err(e) => Err(e),
            Ok(None) => Ok(CustomAttributeSig::default()),
            Ok(Some(bytes)) => match self.constructor_signature() {
                Err(e) => Err(e),
                Ok(ctor) => CustomAttributeSig::parse(bytes, cache, &ctor),
            },
        }
    }

    /// The namespace and the name of the type that defines the attribute.
    pub fn namespace_name_pair(&self) -> (r: Result<(&'db str, &'db str), DecodeError>)
        ensures
            is_name_pair(r, spec_attribute_type_pair(self.row().model(), self.row().index())),
    {
        reveal(spec_attribute_type_pair);
        let _ = self.as_row();
        match self.type_() {
            Err(e) => Err(e),
            Ok(CustomAttributeType::MethodDef(m)) => {
                let _ = m.as_row();
                Err(DecodeError(DecodeErrorKind::UnsupportedSignature))
            },
            Ok(CustomAttributeType::MemberRef(m)) => {
                let _ = m.as_row();
                match m.class() {
                    Err(e) => Err(e),
                    Ok(MemberRefParent::TypeDef(t)) => {
                        let _ = t.as_row();
                        t.namespace_name_pair()
                    },
                    Ok(MemberRefParent::TypeRef(t)) => {
                        let _ = t.as_row();
                        t.namespace_name_pair()
                    },
                    Ok(other) => {
                        let _ = other.as_row();
                        match other {
                            MemberRefParent::ModuleRef(x) => {
                                let _ = x.as_row();
                            },
                            MemberRefParent::MethodDef(x) => {
                                let _ = x.as_row();
                            },
                            MemberRefParent::TypeSpec(x) => {
                                let _ = x.as_row();
                            },
                            _ => {},
                        }
                        Err(DecodeError(DecodeErrorKind::InvalidCustomAttributeType))
                    },
                }
            },
        }
    }
}

impl<'db> TypeDef<'db> {
    /// The first custom attribute of the type whose own type has the
    /// namespace `namespace` and the name `name`, if there is one. The
    /// attributes are looked at in order, and the first whose type cannot be
    /// told ends the search with its failure.
    pub fn get_attribute(&self, namespace: &str, name: &str) -> (r: Result<
        Option<CustomAttribute<'db>>,
        DecodeError,
    >)
        ensures
            exists|first: int, last: int| #[trigger]
                key_range(
                    self.row().model(),
                    TableId::CustomAttribute,
                    spec_encode_coded(
                        CodedIndexKind::HasCustomAttribute,
                        TableId::TypeDef,
                        self.row().index() as u32,
                    ),
                    first,
                    last,
                ) && match spec_find_attribute(
                    self.row().model(),
                    first,
                    last,
                    namespace.spec_bytes(),
                    name.spec_bytes(),
                ) {
                    Ok(Some(i)) => r matches Ok(Some(a)) && a.row().model() == self.row().model()
                        && a.row().index() == i,
                    Ok(None) => r matches Ok(None),
                    Err(kind) => r matches Err(e) && e == DecodeError(kind),
                },
    {
        let _ = self.as_row();
        let mut attributes = match self.custom_attributes() {
            Err(e) => {
                return Err(e);
            },
            Ok(attributes) => attributes,
        };
        let ghost model = self.row().model();
        let ghost first = attributes.start();
        let ghost last = attributes.end();
        let count = attributes.count();
        let mut n: usize = 0;
        while n < count
            invariant
                n <= count,
                count == last - first,
                attributes.model() == model,
                model == self.row().model(),
                attributes.start() == first + n,
                attributes.end() == last,
                key_range(
                    model,
                    TableId::CustomAttribute,
                    spec_encode_coded(
                        CodedIndexKind::HasCustomAttribute,
                        TableId::TypeDef,
                        self.row().index() as u32,
                    ),
                    first,
                    last,
                ),
                spec_find_attribute(model, first, last, namespace.spec_bytes(), name.spec_bytes())
                    == spec_find_attribute(
                    model,
                    first + n,
                    last,
                    namespace.spec_bytes(),
                    name.spec_bytes(),
                ),
            decreases count - n,
        {
            let attribute = match attributes.next() {
                None => {
                    return Ok(None);
                },
                Some(attribute) => attribute,
            };
            let _ = attribute.as_row();
            let (found_namespace, found_name) = match attribute.namespace_name_pair() {
                Err(e) => {
                    return Err(e);
                },
                Ok(pair) => pair,
            };
            if str_eq(found_namespace, namespace) && str_eq(found_name, name) {
                return Ok(Some(attribute));
            }
            n += 1;
        }
        Ok(None)
    }
}

/// The type with the full name `full` that the cache knows: what stands
/// before the last dot is the namespace.
pub fn resolve_name<'a, 'c>(cache: &'a Cache<'c>, full: &str) -> (r: Option<TypeDef<'a>>)
    requires
        cache.wf(),
    ensures
        match cache@.find(
            spec_split_name(full.spec_bytes()).0,
            spec_split_name(full.spec_bytes()).1,
        ) {
            Some(e) => r matches Some(t) && 0 <= e.db < cache@.databases.len() && t.row().model()
                == cache@.databases[e.db] && t.row().table() == TableId::TypeDef
                && t.row().index() == e.row,
            None => r is None,
        },
{
    let (namespace, name) = split_name(full.as_bytes());
    cache.find_bytes(namespace, name)
}

impl<'db> TypeRef<'db> {
    /// The type definition that the reference stands for: the type that
    /// the cache knows under its namespace and name.
    pub fn resolve<'c>(&self, cache: &'db Cache<'c>) -> (r: Result<Option<TypeDef<'db>>, DecodeError>)
        requires
            cache.wf(),
        ensures
            match spec_name_pair(self.row().model(), TableId::TypeRef, self.row().index()) {
                Err(kind) => r matches Err(e) && e == DecodeError(kind),
                Ok(pair) => match cache@.find(pair.0, pair.1) {
                    Some(e) => r matches Ok(Some(t)) && 0 <= e.db < cache@.databases.len()
                        && t.row().model() == cache@.databases[e.db] && t.row().index() == e.row,
                    None => r matches Ok(None),
                },
            },
    {
        match self.namespace_name_pair() {
            Err(e) => Err(e),
            Ok((namespace, name)) => Ok(cache.find(namespace, name)),
        }
    }
}

impl<'db> TypeDefOrRef<'db> {
    /// The type definition that this stands for: a type definition stands
    /// for itself, a type reference for the type that the cache knows under
    /// its namespace and name. A type specification stands for none.
    pub fn resolve<'c>(&self, cache: &'db Cache<'c>) -> (r: Result<Option<TypeDef<'db>>, DecodeError>)
        requires
            cache.wf(),
        ensures
            match self {
                TypeDefOrRef::TypeDef(d) => r matches Ok(Some(t)) && t.row() == d.row(),
                TypeDefOrRef::TypeRef(t) => match spec_name_pair(
                    t.row().model(),
                    TableId::TypeRef,
                    t.row().index(),
                ) {
                    Err(kind) => r matches Err(e) && e == DecodeError(kind),
                    Ok(pair) => match cache@.find(pair.0, pair.1) {
                        Some(e) => r matches Ok(Some(v)) && 0 <= e.db < cache@.databases.len()
                            && v.row().model() == cache@.databases[e.db] && v.row().index()
                            == e.row,
                        None => r matches Ok(None),
                    },
                },
                TypeDefOrRef::TypeSpec(_) => r matches Err(e) && e == DecodeError(
                    DecodeErrorKind::TypeSpecHasNoName,
                ),
            },
    {
        match self {
            TypeDefOrRef::TypeDef(d) => Ok(Some(*d)),
            TypeDefOrRef::TypeRef(t) => t.resolve(cache),
            TypeDefOrRef::TypeSpec(_) => Err(DecodeError(DecodeErrorKind::TypeSpecHasNoName)),
        }
    }
}

} // verus!
