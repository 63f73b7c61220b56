//! The call stack: a last-in, first-out store of sixteen return addresses.
use vstd::prelude::*;

use crate::error::VmError;
use crate::model::follows;
use crate::vm::VM;

verus! {

impl VM {
    /// Removes the newest return address and returns it.  Fails with
    /// [`VmError::StackUnderflow`] if the stack is empty.
    pub fn pop(&mut self) -> (result: Result<u16, VmError>)
        ensures
            old(self)@.can_pop() ==> result == Ok::<u16, VmError>(old(self)@.stack.last())
                && final(self)@ == old(self)@.popped(),
            !old(self)@.can_pop() ==> result == Err::<u16, VmError>(VmError::StackUnderflow)
                && final(self)@ == old(self)@,
    {
        proof {
            use_type_invariant(&*self);
        }
        if self.depth == 0 {
            return Err(VmError::StackUnderflow);
        }
        self.depth = self.depth - 1;
        let value = self.stack[self.depth];
        assert(self@.stack =~= old(self)@.stack.drop_last());
        Ok(value)
    }

    /// Puts `value` on the stack as the newest return address.  Fails with
    /// [`VmError::StackOverflow`] if the stack already holds sixteen.
    pub fn push(&mut self, value: u16) -> (result: Result<(), VmError>)
        ensures
            follows(old(self)@.push(value), old(self)@, final(self)@, result),
    {
        proof {
            use_type_invariant(&*self);
        }
        if self.depth >= 16 {
            return Err(VmError::StackOverflow);
        }
        self.stack[self.depth] = value;
        self.depth = self.depth + 1;
        assert(self@.stack =~= old(self)@.stack.push(value));
        Ok(())
    }
}

} // verus!
