use vstd::prelude::*;
use crate::engine::bytes::bit_is_set;
use crate::engine::bytes::get_bit_u16;
use crate::schema::flags::MemberAccess;

verus! {

/// The flags of a field.
#[derive(Clone, Copy, Debug, PartialEq, Eq, Structural)]
pub struct FieldAttributes(pub u16);

impl FieldAttributes {
    /// Who can reach the field. The three access bits are never all set.
    pub fn access(&self) -> (r: MemberAccess)
        requires
            MemberAccess::spec_from_u16(self.0 & 0x7) is Some,
        ensures
            Some(r) == MemberAccess::spec_from_u16(self.0 & 0x7),
    {
        match MemberAccess::from_u16(self.0 & 0x7) {
            Some(v) => v,
            None => MemberAccess::CompilerControlled,
        }
    }

    /// The field is static.
    pub fn static_(&self) -> (r: bool)
        ensures
            r == bit_is_set(self.0 as u32, 4),
    {
        get_bit_u16(self.0, 4)
    }

    /// The field is written only when it is initialised.
    pub fn init_only(&self) -> (r: bool)
        ensures
            r == bit_is_set(self.0 as u32, 5),
    {
        get_bit_u16(self.0, 5)
    }

    /// The field is a constant of compile time.
    pub fn literal(&self) -> (r: bool)
        ensures
            r == bit_is_set(self.0 as u32, 6),
    {
        get_bit_u16(self.0, 6)
    }

    /// The field is left out when the type is serialized.
    pub fn not_serialized(&self) -> (r: bool)
        ensures
            r == bit_is_set(self.0 as u32, 7),
    {
        get_bit_u16(self.0, 7)
    }

    /// The name of the field is special.
    pub fn special_name(&self) -> (r: bool)
        ensures
            r == bit_is_set(self.0 as u32, 9),
    {
        get_bit_u16(self.0, 9)
    }

    /// The field is reached through PInvoke.
    pub fn pinvoke_impl(&self) -> (r: bool)
        ensures
            r == bit_is_set(self.0 as u32, 13),
    {
        get_bit_u16(self.0, 13)
    }

    /// The runtime checks the encoding of the name.
    pub fn rt_special_name(&self) -> (r: bool)
        ensures
            r == bit_is_set(self.0 as u32, 10),
    {
        get_bit_u16(self.0, 10)
    }

    /// The field has marshalling information.
    pub fn has_field_marshal(&self) -> (r: bool)
        ensures
            r == bit_is_set(self.0 as u32, 12),
    {
        get_bit_u16(self.0, 12)
    }

    /// The field has a default value.
    pub fn has_default(&self) -> (r: bool)
        ensures
            r == bit_is_set(self.0 as u32, 15),
    {
        get_bit_u16(self.0, 15)
    }

    /// The field has an address within the image.
    pub fn has_field_rva(&self) -> (r: bool)
        ensures
            r == bit_is_set(self.0 as u32, 8),
    {
        get_bit_u16(self.0, 8)
    }

}

} // verus!
