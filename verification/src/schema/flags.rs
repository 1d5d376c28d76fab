//! The flags of rows, each a raw integer with named bits and fields.
use vstd::prelude::*;

pub mod assembly_attributes;
pub mod event_attributes;
pub mod field_attributes;
pub mod generic_param_attributes;
pub mod method_attributes;
pub mod method_impl_attributes;
pub mod method_semantics_attributes;
pub mod param_attributes;
pub mod property_attributes;
pub mod type_attributes;

pub use crate::schema::flags::assembly_attributes::AssemblyAttributes;
pub use crate::schema::flags::event_attributes::EventAttributes;
pub use crate::schema::flags::field_attributes::FieldAttributes;
pub use crate::schema::flags::generic_param_attributes::GenericParamAttributes;
pub use crate::schema::flags::generic_param_attributes::GenericParamSpecialConstraint;
pub use crate::schema::flags::generic_param_attributes::GenericParamVariance;
pub use crate::schema::flags::method_attributes::MethodAttributes;
pub use crate::schema::flags::method_attributes::VtableLayout;
pub use crate::schema::flags::method_impl_attributes::CodeType;
pub use crate::schema::flags::method_impl_attributes::Managed;
pub use crate::schema::flags::method_impl_attributes::MethodImplAttributes;
pub use crate::schema::flags::method_semantics_attributes::MethodSemanticsAttributes;
pub use crate::schema::flags::param_attributes::ParamAttributes;
pub use crate::schema::flags::property_attributes::PropertyAttributes;
pub use crate::schema::flags::type_attributes::StringFormat;
pub use crate::schema::flags::type_attributes::TypeAttributes;
pub use crate::schema::flags::type_attributes::TypeLayout;
pub use crate::schema::flags::type_attributes::TypeSemantics;
pub use crate::schema::flags::type_attributes::TypeVisibility;

verus! {

/// Who can reach a member.
#[derive(Clone, Copy, Debug, PartialEq, Eq, Structural)]
pub enum MemberAccess {
    /// The member cannot be referred to.
    CompilerControlled,
    Private,
    /// Subtypes within this assembly.
    FamAndAssem,
    /// Anyone within this assembly.
    Assembly,
    /// Subtypes.
    Family,
    /// Subtypes, and anyone within this assembly.
    FamOrAssem,
    Public,
}

impl MemberAccess {
    /// The number that stands for this value in the flags.
    pub open spec fn spec_value(self) -> u16 {
        match self {
            MemberAccess::CompilerControlled => 0x0,
            MemberAccess::Private => 0x1,
            MemberAccess::FamAndAssem => 0x2,
            MemberAccess::Assembly => 0x3,
            MemberAccess::Family => 0x4,
            MemberAccess::FamOrAssem => 0x5,
            MemberAccess::Public => 0x6,
        }
    }

    /// The value that the number `v` stands for, if it stands for one.
    pub open spec fn spec_from_u16(v: u16) -> Option<MemberAccess> {
        if v == 0x0 {
            Some(MemberAccess::CompilerControlled)
        } else if v == 0x1 {
            Some(MemberAccess::Private)
        } else if v == 0x2 {
            Some(MemberAccess::FamAndAssem)
        } else if v == 0x3 {
            Some(MemberAccess::Assembly)
        } else if v == 0x4 {
            Some(MemberAccess::Family)
        } else if v == 0x5 {
            Some(MemberAccess::FamOrAssem)
        } else if v == 0x6 {
            Some(MemberAccess::Public)
        } else {
            None
        }
    }

    /// The number that stands for this value in the flags.
    pub fn value(self) -> (r: u16)
        ensures
            r == self.spec_value(),
            MemberAccess::spec_from_u16(r) == Some(self),
    {
        match self {
            MemberAccess::CompilerControlled => 0x0,
            MemberAccess::Private => 0x1,
            MemberAccess::FamAndAssem => 0x2,
            MemberAccess::Assembly => 0x3,
            MemberAccess::Family => 0x4,
            MemberAccess::FamOrAssem => 0x5,
            MemberAccess::Public => 0x6,
        }
    }

    /// The value that the number `v` stands for, if it stands for one.
    pub fn from_u16(v: u16) -> (r: Option<MemberAccess>)
        ensures
            r == MemberAccess::spec_from_u16(v),
    {
        match v {
            0x0 => Some(MemberAccess::CompilerControlled),
            0x1 => Some(MemberAccess::Private),
            0x2 => Some(MemberAccess::FamAndAssem),
            0x3 => Some(MemberAccess::Assembly),
            0x4 => Some(MemberAccess::Family),
            0x5 => Some(MemberAccess::FamOrAssem),
            0x6 => Some(MemberAccess::Public),
            _ => None,
        }
    }
}

} // verus!
