use vstd::prelude::*;
use crate::engine::bytes::bit_is_set;
use crate::engine::bytes::get_bit_u16;

verus! {

/// What a method is to a property or an event.
#[derive(Clone, Copy, Debug, PartialEq, Eq, Structural)]
pub struct MethodSemanticsAttributes(pub u16);

impl MethodSemanticsAttributes {
    /// The method sets the property.
    pub fn setter(&self) -> (r: bool)
        ensures
            r == bit_is_set(self.0 as u32, 0),
    {
        get_bit_u16(self.0, 0)
    }

    /// The method gets the property.
    pub fn getter(&self) -> (r: bool)
        ensures
            r == bit_is_set(self.0 as u32, 1),
    {
        get_bit_u16(self.0, 1)
    }

    /// The method is another method of the property or event.
    pub fn other(&self) -> (r: bool)
        ensures
            r == bit_is_set(self.0 as u32, 2),
    {
        get_bit_u16(self.0, 2)
    }

    /// The method adds a handler to the event.
    pub fn add_on(&self) -> (r: bool)
        ensures
            r == bit_is_set(self.0 as u32, 3),
    {
        get_bit_u16(self.0, 3)
    }

    /// The method removes a handler from the event.
    pub fn remove_on(&self) -> (r: bool)
        ensures
            r == bit_is_set(self.0 as u32, 4),
    {
        get_bit_u16(self.0, 4)
    }

    /// The method fires the event.
    pub fn fire(&self) -> (r: bool)
        ensures
            r == bit_is_set(self.0 as u32, 5),
    {
        get_bit_u16(self.0, 5)
    }

}

} // verus!
