use vstd::prelude::*;
use crate::engine::bytes::bit_is_set;
use crate::engine::bytes::get_bit_u16;

verus! {

/// The flags of an event.
#[derive(Clone, Copy, Debug, PartialEq, Eq, Structural)]
pub struct EventAttributes(pub u16);

impl EventAttributes {
    /// The name of the event is special.
    pub fn special_name(&self) -> (r: bool)
        ensures
            r == bit_is_set(self.0 as u32, 9),
    {
        get_bit_u16(self.0, 9)
    }

    /// The runtime checks the encoding of the name.
    pub fn rt_special_name(&self) -> (r: bool)
        ensures
            r == bit_is_set(self.0 as u32, 10),
    {
        get_bit_u16(self.0, 10)
    }

}

} // verus!
