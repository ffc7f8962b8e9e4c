//! The call stack: up to sixteen return addresses.

use vstd::prelude::*;
use crate::error::Chip8Error;

verus! {

/// The number of return addresses the stack can hold.
pub const STACK_DEPTH: usize = 16;

/// A fixed-capacity stack of return addresses. Its view is the sequence of
/// the addresses it holds, the oldest first.
pub struct CallStack {
    slots: [u16; 16],
    top: u8,
}

impl View for CallStack {
    type V = Seq<u16>;

    closed spec fn view(&self) -> Seq<u16> {
        if self.top as int <= STACK_DEPTH {
            self.slots@.subrange(0, self.top as int)
        } else {
            self.slots@
        }
    }
}

impl CallStack {
    #[verifier::type_invariant]
    spec fn in_bounds(self) -> bool {
        self.top as int <= STACK_DEPTH
    }

    /// The stack never holds more than `STACK_DEPTH` addresses.
    pub proof fn view_len(&self)
        ensures
            self@.len() <= STACK_DEPTH,
    {
    }

    /// An empty stack.
    pub fn new() -> (r: Self)
        ensures
            r@ == Seq::<u16>::empty(),
    {
        let r = CallStack { slots: [0u16; 16], top: 0 };
        assert(r@ =~= Seq::<u16>::empty());
        r
    }

    /// The number of addresses on the stack.
    pub fn depth(&self) -> (r: usize)
        ensures
            r == self@.len(),
            r <= STACK_DEPTH,
    {
        proof {
            use_type_invariant(self);
        }
        self.top as usize
    }

    /// Puts a return address on the stack. A full stack refuses it and stays
    /// as it was.
    pub fn push(&mut self, addr: u16) -> (r: Result<(), Chip8Error>)
        ensures
            old(self)@.len() < STACK_DEPTH ==> r is Ok && final(self)@ == old(self)@.push(addr),
            old(self)@.len() >= STACK_DEPTH ==> r == Err::<(), Chip8Error>(
                Chip8Error::StackOverflow,
            ) && final(self)@ == old(self)@,
    {
        proof {
            use_type_invariant(&*self);
        }
        if self.top as usize >= STACK_DEPTH {
            return Err(Chip8Error::StackOverflow);
        }
        let at: usize = self.top as usize;
        self.slots[at] = addr;
        self.top = self.top + 1;
        assert(self@ =~= old(self)@.push(addr));
        Ok(())
    }

    /// Takes the newest return address off the stack. An empty stack has
    /// none to give and stays as it was.
    pub fn pop(&mut self) -> (r: Result<u16, Chip8Error>)
        ensures
            old(self)@.len() > 0 ==> r == Ok::<u16, Chip8Error>(old(self)@.last()) && final(self)@
                == old(self)@.drop_last(),
            old(self)@.len() == 0 ==> r == Err::<u16, Chip8Error>(Chip8Error::StackUnderflow)
                && final(self)@ == old(self)@,
    {
        proof {
            use_type_invariant(&*self);
        }
        if self.top == 0 {
            return Err(Chip8Error::StackUnderflow);
        }
        self.top = self.top - 1;
        let addr: u16 = self.slots[self.top as usize];
        assert(self@ =~= old(self)@.drop_last());
        Ok(addr)
    }
}

} // verus!
