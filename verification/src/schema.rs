//! The tables of the metadata as typed rows, the coded indices between
//! them, their flags, and the signatures that their blobs hold.
pub mod flags;
pub mod signatures;
pub mod rows;
pub mod coded;
pub mod constants;
pub mod types;
pub mod custom_attributes;
pub mod attributes;

pub use crate::schema::coded::CodedIndex;
pub use crate::schema::coded::CustomAttributeType;
pub use crate::schema::coded::HasConstant;
pub use crate::schema::coded::HasCustomAttribute;
pub use crate::schema::coded::HasDeclSecurity;
pub use crate::schema::coded::HasFieldMarshal;
pub use crate::schema::coded::HasSemantics;
pub use crate::schema::coded::Implementation;
pub use crate::schema::coded::MemberForwarded;
pub use crate::schema::coded::MemberRefParent;
pub use crate::schema::coded::MethodDefOrRef;
pub use crate::schema::coded::ResolutionScope;
pub use crate::schema::coded::TypeDefOrRef;
pub use crate::schema::coded::TypeOrMethodDef;
pub use crate::schema::constants::ConstantType;
pub use crate::schema::constants::FieldInit;
pub use crate::schema::constants::PrimitiveValue;
pub use crate::schema::custom_attributes::CustomAttributeSig;
pub use crate::schema::custom_attributes::Elem;
pub use crate::schema::custom_attributes::ElemKind;
pub use crate::schema::custom_attributes::FieldOrPropType;
pub use crate::schema::custom_attributes::FixedArg;
pub use crate::schema::custom_attributes::NamedArg;
pub use crate::schema::custom_attributes::NamedArgName;
pub use crate::schema::rows::Assembly;
pub use crate::schema::rows::AssemblyOS;
pub use crate::schema::rows::AssemblyProcessor;
pub use crate::schema::rows::AssemblyRef;
pub use crate::schema::rows::AssemblyRefOS;
pub use crate::schema::rows::AssemblyRefProcessor;
pub use crate::schema::rows::ClassLayout;
pub use crate::schema::rows::Constant;
pub use crate::schema::rows::CustomAttribute;
pub use crate::schema::rows::DeclSecurity;
pub use crate::schema::rows::Event;
pub use crate::schema::rows::EventMap;
pub use crate::schema::rows::ExportedType;
pub use crate::schema::rows::Field;
pub use crate::schema::rows::FieldLayout;
pub use crate::schema::rows::FieldMarshal;
pub use crate::schema::rows::FieldRVA;
pub use crate::schema::rows::File;
pub use crate::schema::rows::GenericParam;
pub use crate::schema::rows::GenericParamConstraint;
pub use crate::schema::rows::ImplMap;
pub use crate::schema::rows::InterfaceImpl;
pub use crate::schema::rows::ManifestResource;
pub use crate::schema::rows::MemberRef;
pub use crate::schema::rows::MethodDef;
pub use crate::schema::rows::MethodImpl;
pub use crate::schema::rows::MethodSemantics;
pub use crate::schema::rows::MethodSpec;
pub use crate::schema::rows::Module;
pub use crate::schema::rows::ModuleRef;
pub use crate::schema::rows::NestedClass;
pub use crate::schema::rows::Param;
pub use crate::schema::rows::Property;
pub use crate::schema::rows::PropertyMap;
pub use crate::schema::rows::StandAloneSig;
pub use crate::schema::rows::TypeDef;
pub use crate::schema::rows::TypeRef;
pub use crate::schema::rows::TypeSpec;
pub use crate::schema::signatures::Array;
pub use crate::schema::signatures::CustomMod;
pub use crate::schema::signatures::CustomModTag;
pub use crate::schema::signatures::FieldSig;
pub use crate::schema::signatures::GenericVarScope;
pub use crate::schema::signatures::MethodDefSig;
pub use crate::schema::signatures::ParamKind;
pub use crate::schema::signatures::ParamSig;
pub use crate::schema::signatures::PrimitiveType;
pub use crate::schema::signatures::RetType;
pub use crate::schema::signatures::RetTypeKind;
pub use crate::schema::signatures::Type;
pub use crate::schema::signatures::TypeSpecSig;
pub use crate::schema::signatures::TypeTag;
pub use crate::schema::types::MemberRefSig;
pub use crate::schema::types::TypeCategory;
