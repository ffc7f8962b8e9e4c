//! The register file: sixteen 8-bit registers, the index register and the
//! program counter.

use vstd::prelude::*;

verus! {

/// The number of general registers, `V0` to `VF`.
pub const REGISTER_COUNT: usize = 16;

/// The register that arithmetic, shift and draw instructions use as their
/// flag output.
pub const FLAG_REGISTER: usize = 0xF;

/// The address at which execution starts.
pub const ENTRY_POINT: u16 = 0x200;

/// The registers of one machine. They are plain state with no rule among
/// them, so the fields are open to the rest of the machine.
pub struct RegisterFile {
    /// `V0` to `VF`.
    pub v: [u8; 16],
    /// The index register `I`.
    pub index: u16,
    /// The program counter.
    pub pc: u16,
}

impl RegisterFile {
    /// All registers zero, the program counter at `ENTRY_POINT`.
    pub fn new() -> (r: Self)
        ensures
            r.v@ == Seq::new(REGISTER_COUNT as nat, |i: int| 0u8),
            r.index == 0,
            r.pc == ENTRY_POINT,
    {
        let r = RegisterFile { v: [0u8; 16], index: 0, pc: ENTRY_POINT };
        assert(r.v@ =~= Seq::new(REGISTER_COUNT as nat, |i: int| 0u8));
        r
    }

    /// The value of register `i`, or `None` where there is no such register.
    pub fn get(&self, i: u8) -> (r: Option<u8>)
        ensures
            i < REGISTER_COUNT ==> r == Some(self.v@[i as int]),
            i >= REGISTER_COUNT ==> r is None,
    {
        if (i as usize) < REGISTER_COUNT {
            Some(self.v[i as usize])
        } else {
            None
        }
    }

    /// Sets register `i` and says whether there is such a register. Where
    /// there is none, nothing changes.
    pub fn set(&mut self, i: u8, value: u8) -> (done: bool)
        ensures
            done == (i < REGISTER_COUNT),
            done ==> final(self).v@ == old(self).v@.update(i as int, value),
            !done ==> final(self).v@ == old(self).v@,
            final(self).index == old(self).index,
            final(self).pc == old(self).pc,
    {
        if (i as usize) < REGISTER_COUNT {
            self.v[i as usize] = value;
            true
        } else {
            false
        }
    }
}

} // verus!
