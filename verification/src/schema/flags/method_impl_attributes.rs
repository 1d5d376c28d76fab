use vstd::prelude::*;
use crate::engine::bytes::bit_is_set;
use crate::engine::bytes::get_bit_u16;

verus! {

/// The kind of code of a method body.
#[derive(Clone, Copy, Debug, PartialEq, Eq, Structural)]
pub enum CodeType {
    IL,
    Native,
    OPTIL,
    Runtime,
}

impl CodeType {
    /// The number that stands for this value in the flags.
    pub open spec fn spec_value(self) -> u16 {
        match self {
            CodeType::IL => 0x0,
            CodeType::Native => 0x1,
            CodeType::OPTIL => 0x2,
            CodeType::Runtime => 0x3,
        }
    }

    /// The value that the number `v` stands for, if it stands for one.
    pub open spec fn spec_from_u16(v: u16) -> Option<CodeType> {
        if v == 0x0 {
            Some(CodeType::IL)
        } else if v == 0x1 {
            Some(CodeType::Native)
        } else if v == 0x2 {
            Some(CodeType::OPTIL)
        } else if v == 0x3 {
            Some(CodeType::Runtime)
        } else {
            None
        }
    }

    /// The number that stands for this value in the flags.
    pub fn value(self) -> (r: u16)
        ensures
            r == self.spec_value(),
            CodeType::spec_from_u16(r) == Some(self),
    {
        match self {
            CodeType::IL => 0x0,
            CodeType::Native => 0x1,
            CodeType::OPTIL => 0x2,
            CodeType::Runtime => 0x3,
        }
    }

    /// The value that the number `v` stands for, if it stands for one.
    pub fn from_u16(v: u16) -> (r: Option<CodeType>)
        ensures
            r == CodeType::spec_from_u16(v),
    {
        match v {
            0x0 => Some(CodeType::IL),
            0x1 => Some(CodeType::Native),
            0x2 => Some(CodeType::OPTIL),
            0x3 => Some(CodeType::Runtime),
            _ => None,
        }
    }
}

/// Whether a method body is managed code.
#[derive(Clone, Copy, Debug, PartialEq, Eq, Structural)]
pub enum Managed {
    Unmanaged,
    Managed,
}

impl Managed {
    /// The number that stands for this value in the flags.
    pub open spec fn spec_value(self) -> u16 {
        match self {
            Managed::Unmanaged => 0x4,
            Managed::Managed => 0x0,
        }
    }

    /// The value that the number `v` stands for, if it stands for one.
    pub open spec fn spec_from_u16(v: u16) -> Option<Managed> {
        if v == 0x4 {
            Some(Managed::Unmanaged)
        } else if v == 0x0 {
            Some(Managed::Managed)
        } else {
            None
        }
    }

    /// The number that stands for this value in the flags.
    pub fn value(self) -> (r: u16)
        ensures
            r == self.spec_value(),
            Managed::spec_from_u16(r) == Some(self),
    {
        match self {
            Managed::Unmanaged => 0x4,
            Managed::Managed => 0x0,
        }
    }

    /// The value that the number `v` stands for, if it stands for one.
    pub fn from_u16(v: u16) -> (r: Option<Managed>)
        ensures
            r == Managed::spec_from_u16(v),
    {
        match v {
            0x4 => Some(Managed::Unmanaged),
            0x0 => Some(Managed::Managed),
            _ => None,
        }
    }
}

/// The flags of the implementation of a method.
#[derive(Clone, Copy, Debug, PartialEq, Eq, Structural)]
pub struct MethodImplAttributes(pub u16);

impl MethodImplAttributes {
    /// The kind of code of the body.
    pub fn code_type(&self) -> (r: CodeType)
        ensures
            Some(r) == CodeType::spec_from_u16(self.0 & 0x3),
    {
        let raw = self.0;
        assert(raw & 0x3u16 <= 3) by (bit_vector);
        match CodeType::from_u16(self.0 & 0x3) {
            Some(v) => v,
            None => CodeType::IL,
        }
    }

    /// Whether the body is managed code.
    pub fn managed(&self) -> (r: Managed)
        ensures
            Some(r) == Managed::spec_from_u16(self.0 & 0x4),
    {
        let raw = self.0;
        assert(raw & 0x4u16 == 0 || raw & 0x4u16 == 4) by (bit_vector);
        match Managed::from_u16(self.0 & 0x4) {
            Some(v) => v,
            None => Managed::Managed,
        }
    }

    /// The method is defined elsewhere.
    pub fn forward_ref(&self) -> (r: bool)
        ensures
            r == bit_is_set(self.0 as u32, 4),
    {
        get_bit_u16(self.0, 4)
    }

    /// The signature is kept as it is.
    pub fn preserve_sig(&self) -> (r: bool)
        ensures
            r == bit_is_set(self.0 as u32, 7),
    {
        get_bit_u16(self.0, 7)
    }

    /// The body is within the runtime.
    pub fn internal_call(&self) -> (r: bool)
        ensures
            r == bit_is_set(self.0 as u32, 12),
    {
        get_bit_u16(self.0, 12)
    }

    /// One thread at a time runs the body.
    pub fn synchronized(&self) -> (r: bool)
        ensures
            r == bit_is_set(self.0 as u32, 5),
    {
        get_bit_u16(self.0, 5)
    }

    /// The method is not inlined.
    pub fn no_inlining(&self) -> (r: bool)
        ensures
            r == bit_is_set(self.0 as u32, 3),
    {
        get_bit_u16(self.0, 3)
    }

    /// The method is not optimised.
    pub fn no_optimization(&self) -> (r: bool)
        ensures
            r == bit_is_set(self.0 as u32, 6),
    {
        get_bit_u16(self.0, 6)
    }

}

} // verus!
