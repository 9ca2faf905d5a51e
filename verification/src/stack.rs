use vstd::prelude::*;

use crate::fault::Fault;

verus! {

/// Number of return addresses the call stack can hold.
pub const STACK_SIZE: usize = 24;

/// Bounded stack of return addresses.
pub struct Stack {
    stack: [u16; 24],
    stack_pointer: usize,
}

impl View for Stack {
    type V = Seq<u16>;

    /// The addresses held, oldest first.
    closed spec fn view(&self) -> Seq<u16> {
        let held = if self.stack_pointer <= STACK_SIZE {
            self.stack_pointer
        } else {
            STACK_SIZE
        };
        self.stack@.subrange(0, held as int)
    }
}

impl Stack {
    #[verifier::type_invariant]
    spec fn inv(self) -> bool {
        self.stack_pointer <= STACK_SIZE
    }

    /// An empty stack.
    pub fn new() -> (s: Stack)
        ensures
            s@ == Seq::<u16>::empty(),
    {
        Stack { stack: [0; 24], stack_pointer: 0 }
    }

    /// How many addresses are held.
    pub fn len(&self) -> (n: usize)
        ensures
            n == self@.len(),
    {
        proof {
            use_type_invariant(self);
        }
        self.stack_pointer
    }

    /// The stack never holds more addresses than it has room for.
    pub proof fn lemma_bounded(&self)
        ensures
            self@.len() <= STACK_SIZE,
    {
    }

    /// Puts `val` on top, unless the stack is full.
    pub fn push(&mut self, val: u16) -> (res: Result<(), Fault>)
        ensures
            old(self)@.len() < STACK_SIZE ==> res == Ok::<(), Fault>(())
                && final(self)@ == old(self)@.push(val),
            old(self)@.len() == STACK_SIZE ==> res == Err::<(), Fault>(Fault::StackOverflow)
                && final(self)@ == old(self)@,
    {
        proof {
            use_type_invariant(&*self);
        }
        if self.stack_pointer >= STACK_SIZE {
            return Err(Fault::StackOverflow);
        }
        self.stack[self.stack_pointer] = val;
        self.stack_pointer += 1;
        Ok(())
    }

    /// Takes the newest address off the stack, unless the stack is empty.
    pub fn pop(&mut self) -> (res: Result<u16, Fault>)
        ensures
            old(self)@.len() > 0 ==> res == Ok::<u16, Fault>(old(self)@.last())
                && final(self)@ == old(self)@.drop_last(),
            old(self)@.len() == 0 ==> res == Err::<u16, Fault>(Fault::StackUnderflow)
                && final(self)@ == old(self)@,
    {
        proof {
            use_type_invariant(&*self);
        }
        if self.stack_pointer == 0 {
            return Err(Fault::StackUnderflow);
        }
        self.stack_pointer -= 1;
        Ok(self.stack[self.stack_pointer])
    }
}

} // verus!
