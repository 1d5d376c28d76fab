use vstd::prelude::*;
use crate::engine::bytes::bit_is_set;
use crate::engine::bytes::get_bit_u16;
use crate::schema::flags::MemberAccess;

verus! {

/// Whether a method takes a new slot in the vtable.
#[derive(Clone, Copy, Debug, PartialEq, Eq, Structural)]
pub enum VtableLayout {
    ReuseSlot,
    NewSlot,
}

impl VtableLayout {
    /// The number that stands for this value in the flags.
    pub open spec fn spec_value(self) -> u16 {
        match self {
            VtableLayout::ReuseSlot => 0x0,
            VtableLayout::NewSlot => 0x100,
        }
    }

    /// The value that the number `v` stands for, if it stands for one.
    pub open spec fn spec_from_u16(v: u16) -> Option<VtableLayout> {
        if v == 0x0 {
            Some(VtableLayout::ReuseSlot)
        } else if v == 0x100 {
            Some(VtableLayout::NewSlot)
        } else {
            None
        }
    }

    /// The number that stands for this value in the flags.
    pub fn value(self) -> (r: u16)
        ensures
            r == self.spec_value(),
            VtableLayout::spec_from_u16(r) == Some(self),
    {
        match self {
            VtableLayout::ReuseSlot => 0x0,
            VtableLayout::NewSlot => 0x100,
        }
    }

    /// The value that the number `v` stands for, if it stands for one.
    pub fn from_u16(v: u16) -> (r: Option<VtableLayout>)
        ensures
            r == VtableLayout::spec_from_u16(v),
    {
        match v {
            0x0 => Some(VtableLayout::ReuseSlot),
            0x100 => Some(VtableLayout::NewSlot),
            _ => None,
        }
    }
}

/// The flags of a method definition.
#[derive(Clone, Copy, Debug, PartialEq, Eq, Structural)]
pub struct MethodAttributes(pub u16);

impl MethodAttributes {
    /// Who can reach the method. The three access bits are never all set.
    pub fn access(&self) -> (r: MemberAccess)
        requires
            MemberAccess::spec_from_u16(self.0 & 0x7) is Some,
        ensures
            Some(r) == MemberAccess::spec_from_u16(self.0 & 0x7),
    {
        match MemberAccess::from_u16(self.0 & 0x7) {
            Some(v) => v,
            None => MemberAccess::CompilerControlled,
        }
    }

    /// The method is static.
    pub fn static_(&self) -> (r: bool)
        ensures
            r == bit_is_set(self.0 as u32, 4),
    {
        get_bit_u16(self.0, 4)
    }

    /// The method cannot be overridden.
    pub fn final_(&self) -> (r: bool)
        ensures
            r == bit_is_set(self.0 as u32, 5),
    {
        get_bit_u16(self.0, 5)
    }

    /// The method is virtual.
    pub fn virtual_(&self) -> (r: bool)
        ensures
            r == bit_is_set(self.0 as u32, 6),
    {
        get_bit_u16(self.0, 6)
    }

    /// The method hides by name and signature.
    pub fn hide_by_sig(&self) -> (r: bool)
        ensures
            r == bit_is_set(self.0 as u32, 7),
    {
        get_bit_u16(self.0, 7)
    }

    /// Whether the method takes a new slot in the vtable.
    pub fn layout(&self) -> (r: VtableLayout)
        ensures
            Some(r) == VtableLayout::spec_from_u16(self.0 & 0x100),
    {
        let raw = self.0;
        assert(raw & 0x100u16 == 0 || raw & 0x100u16 == 0x100) by (bit_vector);
        match VtableLayout::from_u16(self.0 & 0x100) {
            Some(v) => v,
            None => VtableLayout::ReuseSlot,
        }
    }

    /// The method can be overridden only where it can be reached.
    pub fn strict(&self) -> (r: bool)
        ensures
            r == bit_is_set(self.0 as u32, 9),
    {
        get_bit_u16(self.0, 9)
    }

    /// The method has no body.
    pub fn abstract_(&self) -> (r: bool)
        ensures
            r == bit_is_set(self.0 as u32, 10),
    {
        get_bit_u16(self.0, 10)
    }

    /// The name of the method is special.
    pub fn special_name(&self) -> (r: bool)
        ensures
            r == bit_is_set(self.0 as u32, 11),
    {
        get_bit_u16(self.0, 11)
    }

    /// The body is reached through PInvoke.
    pub fn pinvoke_impl(&self) -> (r: bool)
        ensures
            r == bit_is_set(self.0 as u32, 13),
    {
        get_bit_u16(self.0, 13)
    }

    /// The method is exported to unmanaged code.
    pub fn unmanaged_export(&self) -> (r: bool)
        ensures
            r == bit_is_set(self.0 as u32, 3),
    {
        get_bit_u16(self.0, 3)
    }

    /// The runtime checks the encoding of the name.
    pub fn rt_special_name(&self) -> (r: bool)
        ensures
            r == bit_is_set(self.0 as u32, 12),
    {
        get_bit_u16(self.0, 12)
    }

    /// The method has security attached.
    pub fn has_security(&self) -> (r: bool)
        ensures
            r == bit_is_set(self.0 as u32, 14),
    {
        get_bit_u16(self.0, 14)
    }

    /// The method calls another that needs a security object.
    pub fn require_sec_object(&self) -> (r: bool)
        ensures
            r == bit_is_set(self.0 as u32, 15),
    {
        get_bit_u16(self.0, 15)
    }

}

} // verus!
