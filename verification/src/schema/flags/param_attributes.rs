use vstd::prelude::*;
use crate::engine::bytes::bit_is_set;
use crate::engine::bytes::get_bit_u16;

verus! {

/// The flags of a parameter.
#[derive(Clone, Copy, Debug, PartialEq, Eq, Structural)]
pub struct ParamAttributes(pub u16);

impl ParamAttributes {
    /// The parameter is an input.
    pub fn in_(&self) -> (r: bool)
        ensures
            r == bit_is_set(self.0 as u32, 0),
    {
        get_bit_u16(self.0, 0)
    }

    /// The parameter is an output.
    pub fn out(&self) -> (r: bool)
        ensures
            r == bit_is_set(self.0 as u32, 1),
    {
        get_bit_u16(self.0, 1)
    }

    /// The parameter is optional.
    pub fn optional(&self) -> (r: bool)
        ensures
            r == bit_is_set(self.0 as u32, 4),
    {
        get_bit_u16(self.0, 4)
    }

    /// The parameter has a default value.
    pub fn has_default(&self) -> (r: bool)
        ensures
            r == bit_is_set(self.0 as u32, 12),
    {
        get_bit_u16(self.0, 12)
    }

    /// The parameter has marshalling information.
    pub fn has_field_marshal(&self) -> (r: bool)
        ensures
            r == bit_is_set(self.0 as u32, 13),
    {
        get_bit_u16(self.0, 13)
    }

}

} // verus!
