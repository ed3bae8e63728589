//! The size of the register that a value fits in.
use vstd::prelude::*;

verus! {

#[derive(Clone, Copy, Debug, PartialEq, Eq, Structural)]
pub enum RegSize {
    R8,
    R16,
    R32,
    R64,
}

impl RegSize {
    /// The number of bytes that a register of this size holds.
    pub open spec fn bytes(self) -> nat {
        match self {
            RegSize::R8 => 1,
            RegSize::R16 => 2,
            RegSize::R32 => 4,
            RegSize::R64 => 8,
        }
    }

    /// The smallest register that holds `nbytes` bytes.  A value without
    /// bytes needs no register, and one of more than eight bytes fits in
    /// none.
    pub fn assign(nbytes: usize) -> (r: Option<RegSize>)
        ensures
            r is Some <==> 0 < nbytes <= 8,
            r is Some ==> nbytes <= r.unwrap().bytes(),
            r is Some ==> forall|s: RegSize|
                nbytes <= #[trigger] s.bytes() ==> r.unwrap().bytes() <= s.bytes(),
    {
        if nbytes == 0 {
            None
        } else if nbytes <= 1 {
            Some(RegSize::R8)
        } else if nbytes <= 2 {
            Some(RegSize::R16)
        } else if nbytes <= 4 {
            Some(RegSize::R32)
        } else if nbytes <= 8 {
            Some(RegSize::R64)
        } else {
            None
        }
    }
}

} // verus!
