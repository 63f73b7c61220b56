//! The execution engine: dispatching a decoded instruction and the
//! fetch-decode-execute step.
use vstd::prelude::*;

use crate::error::VmError;
use crate::model::follows;
use crate::opcodes::{decode, OpCode};
use crate::vm::VM;

verus! {

impl VM {
    /// Executes one decoded instruction.  The program counter must already
    /// be past the instruction, as [`VM::get_instruction`] leaves it, so
    /// that jumps, calls and skips work from there.
    ///
    /// Fails with [`VmError::UnrecognizedInstruction`] on
    /// [`OpCode::Unknown`], and with the error of the instruction's own
    /// method if that fails.  `RND` draws a random byte; the outcome is
    /// that of [`VM::execute_with`] for the byte that came.
    pub fn execute_op(&mut self, op: &OpCode) -> (result: Result<(), VmError>)
        ensures
            exists|random: u8|
                follows(
                    #[trigger] old(self)@.execute(*op, random),
                    old(self)@,
                    final(self)@,
                    result,
                ),
            !(*op is RND) ==> follows(
                old(self)@.execute(*op, 0),
                old(self)@,
                final(self)@,
                result,
            ),
    {
        match op {
            OpCode::RND { reg, value } => {
                let result = self.random(*reg, *value);
                let ghost random = choose|random: u8|
                    follows(
                        #[trigger] old(self)@.load_random(*reg, *value, random),
                        old(self)@,
                        self@,
                        result,
                    );
                assert(follows(old(self)@.execute(*op, random), old(self)@, self@, result));
                result
            },
            _ => {
                let result = self.execute_with(op, 0);
                assert(follows(old(self)@.execute(*op, 0), old(self)@, self@, result));
                result
            },
        }
    }

    /// Executes one decoded instruction, with `random` as the byte that
    /// `RND` draws.  No other instruction looks at `random`.
    pub fn execute_with(&mut self, op: &OpCode, random: u8) -> (result: Result<(), VmError>)
        ensures
            follows(old(self)@.execute(*op, random), old(self)@, final(self)@, result),
    {
        match op {
            OpCode::CLS => {
                self.clear_display();
                Ok(())
            },
            OpCode::RET => self.return_subroutine(),
            OpCode::JMP(x) => {
                self.jump(*x);
                Ok(())
            },
            OpCode::CALL(x) => self.call(*x),
            OpCode::SE { reg, value } => self.skip_equal(*reg, *value),
            OpCode::SNE { reg, value } => self.skip_not_equal(*reg, *value),
            OpCode::RSE { reg_x, reg_y } => self.reg_skip_equal(*reg_x, *reg_y),
            OpCode::RSNE { reg_x, reg_y } => self.reg_skip_not_equal(*reg_x, *reg_y),
            OpCode::SET { reg, value } => self.set_register(*reg, *value),
            OpCode::ADD { reg, value } => self.add(*reg, *value),
            OpCode::RLD { reg_x, reg_y } => self.reg_load(*reg_x, *reg_y),
            OpCode::ROR { reg_x, reg_y } => self.reg_or(*reg_x, *reg_y),
            OpCode::RAND { reg_x, reg_y } => self.reg_and(*reg_x, *reg_y),
            OpCode::RXOR { reg_x, reg_y } => self.reg_xor(*reg_x, *reg_y),
            OpCode::RADD { reg_x, reg_y } => self.reg_add(*reg_x, *reg_y),
            OpCode::RSUB { reg_x, reg_y } => self.reg_sub(*reg_x, *reg_y),
            OpCode::RSHR(reg) => self.reg_shift_right(*reg),
            OpCode::RSUBN { reg_x, reg_y } => self.reg_sub_not_borrow(*reg_x, *reg_y),
            OpCode::RSHL(reg) => self.reg_shift_left(*reg),
            OpCode::LD(x) => {
                self.set_index(*x);
                Ok(())
            },
            OpCode::JP(x) => self.jump_location(*x),
            OpCode::RND { reg, value } => self.load_random(*reg, *value, random),
            OpCode::DRW { x, y, n } => self.draw(*x, *y, *n),
            OpCode::SKP(x) => self.skip_if_key(*x),
            OpCode::SKNP(x) => self.skip_if_no_key(*x),
            OpCode::LDT(x) => self.load_delay_timer(*x),
            OpCode::KPR(x) => self.await_keypress(*x),
            OpCode::SETDT(x) => self.set_delay_timer(*x),
            OpCode::SETST(x) => self.set_sound_timer(*x),
            OpCode::ADDI(x) => self.add_i(*x),
            OpCode::LDSPR(x) => self.load_sprite(*x),
            OpCode::STBCD(x) => self.store_bcd(*x),
            OpCode::STORE(x) => self.store_registers(*x),
            OpCode::READ(x) => self.read_registers(*x),
            OpCode::Unknown(x) => Err(VmError::UnrecognizedInstruction(*x)),
        }
    }

    /// One CPU tick: fetches the instruction at the program counter,
    /// decodes it and executes it.  On failure the machine is as it was
    /// before the step, the program counter on the instruction that failed.
    ///
    /// Fails with [`VmError::OutOfRangeAddress`] if the program counter is
    /// beyond `0xFFE`, and with the error of the instruction if that fails.
    /// `RND` draws a random byte; the outcome is that of
    /// [`VM::step_with`] for the byte that came.
    pub fn step(&mut self) -> (result: Result<(), VmError>)
        ensures
            exists|random: u8|
                follows(#[trigger] old(self)@.step(random), old(self)@, final(self)@, result),
            !(old(self)@.can_fetch() && decode(old(self)@.fetched().0, old(self)@.fetched().1)
                is RND) ==> follows(old(self)@.step(0), old(self)@, final(self)@, result),
    {
        let start = self.program_counter;
        match self.get_instruction() {
            Err(error) => {
                assert(follows(old(self)@.step(0), old(self)@, self@, Err(error)));
                Err(error)
            },
            Ok(instruction) => {
                let op = OpCode::from_bytes(instruction);
                let ghost fetched = self@;
                let result = self.execute_op(&op);
                let ghost random = choose|random: u8|
                    follows(#[trigger] fetched.execute(op, random), fetched, self@, result);
                if result.is_err() {
                    proof {
                        use_type_invariant(&*self);
                    }
                    self.program_counter = start;
                }
                assert(follows(old(self)@.step(random), old(self)@, self@, result));
                result
            },
        }
    }

    /// One CPU tick, with `random` as the byte that `RND` draws.
    pub fn step_with(&mut self, random: u8) -> (result: Result<(), VmError>)
        ensures
            follows(old(self)@.step(random), old(self)@, final(self)@, result),
    {
        let start = self.program_counter;
        match self.get_instruction() {
            Err(error) => Err(error),
            Ok(instruction) => {
                let op = OpCode::from_bytes(instruction);
                match self.execute_with(&op, random) {
                    Ok(()) => Ok(()),
                    Err(error) => {
                        proof {
                            use_type_invariant(&*self);
                        }
                        self.program_counter = start;
                        Err(error)
                    },
                }
            },
        }
    }
}

} // verus!
