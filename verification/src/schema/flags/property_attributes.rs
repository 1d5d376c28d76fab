use vstd::prelude::*;
use crate::engine::bytes::bit_is_set;
use crate::engine::bytes::get_bit_u16;

verus! {

/// The flags of a property.
#[derive(Clone, Copy, Debug, PartialEq, Eq, Structural)]
pub struct PropertyAttributes(pub u16);

impl PropertyAttributes {
    /// The name of the property is special.
    pub fn special_name(&self) -> (r: bool)
        ensures
            r == bit_is_set(self.0 as u32, 9),
    {
        get_bit_u16(self.0, 9)
    }

    /// The runtime checks the encoding of the name.
    pub fn rt_special_name(&self) -> (r: bool)
        ensures
            r == bit_is_set(self.0 as u32, 10),
    {
        get_bit_u16(self.0, 10)
    }

    /// The property has a default value.
    pub fn has_default(&self) -> (r: bool)
        ensures
            r == bit_is_set(self.0 as u32, 12),
    {
        get_bit_u16(self.0, 12)
    }

}

} // verus!
