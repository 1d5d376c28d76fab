use vstd::prelude::*;
use crate::engine::bytes::bit_is_set;
use crate::engine::bytes::get_bit_u16;

verus! {

/// The flags of an assembly.
#[derive(Clone, Copy, Debug, PartialEq, Eq, Structural)]
pub struct AssemblyAttributes(pub u16);

impl AssemblyAttributes {
    /// The assembly holds Windows Runtime types.
    pub fn windows_runtime(&self) -> (r: bool)
        ensures
            r == bit_is_set(self.0 as u32, 9),
    {
        get_bit_u16(self.0, 9)
    }

}

} // verus!
