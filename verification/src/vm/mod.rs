//! The executable machine.
use vstd::prelude::*;

use crate::error::VmError;
use crate::model::{follows, MachineState, FONTSET};

pub mod dump;
mod execute;
mod input;
mod operations;
pub mod screen;
mod stack;
mod timer;

verus! {

/// A CHIP-8 machine.  What it holds is described by its view, a
/// [`MachineState`]; every method says in terms of that view what it does.
#[derive(Debug)]
pub struct VM {
    pub(crate) memory: [u8; 4096],
    pub(crate) program_counter: u16,
    pub(crate) i: u16,
    pub(crate) reg: [u8; 16],
    pub(crate) stack: [u16; 16],
    pub(crate) depth: usize,
    pub(crate) key: [bool; 16],
    pub(crate) screen: [bool; 2048],
    pub(crate) delay_timer: u8,
    pub(crate) sound_timer: u8,
    pub(crate) sound_playing: bool,
}

impl View for VM {
    type V = MachineState;

    /// The state that the machine holds.  Of the stack array only the part
    /// in use counts; a machine never has more than sixteen addresses in
    /// use, so the bound on the depth only makes the view well formed for
    /// every value of the type.
    open(crate) spec fn view(&self) -> MachineState {
        MachineState {
            memory: self.memory@,
            pc: self.program_counter,
            index: self.i,
            reg: self.reg@,
            stack: self.stack@.take(
                if self.depth <= 16 {
                    self.depth as int
                } else {
                    16
                },
            ),
            keys: self.key@,
            screen: self.screen@,
            delay_timer: self.delay_timer,
            sound_timer: self.sound_timer,
            sound_playing: self.sound_playing,
        }
    }
}

impl VM {
    /// No more return addresses are in use than the stack has room for.
    #[verifier::type_invariant]
    pub open(crate) spec fn inv(&self) -> bool {
        self.depth <= 16
    }

    /// Whatever a machine holds, its view has the fixed sizes and at most
    /// sixteen return addresses.
    pub proof fn law_view_is_well_formed(&self)
        ensures
            self@.wf(),
    {
    }

    /// A machine in its initial state.
    #[must_use]
    pub fn new() -> (vm: Self)
        ensures
            vm@ == MachineState::initial(),
    {
        let mut vm = VM {
            memory: [0; 4096],
            program_counter: 0x200,
            i: 0,
            reg: [0; 16],
            stack: [0; 16],
            depth: 0,
            key: [false; 16],
            screen: [false; 2048],
            delay_timer: 0,
            sound_timer: 0,
            sound_playing: false,
        };
        let loaded = vm.load_bytes(&FONTSET, 0);
        assert(loaded is Ok);
        assert(vm@.memory =~= MachineState::initial().memory);
        assert(vm@ =~= MachineState::initial());
        vm
    }

    /// Copies `buf` into memory from `offset` on.  Fails with
    /// [`VmError::LoadError`], copying nothing, if `buf` does not fit
    /// between `offset` and the end of memory.
    pub fn load_bytes(&mut self, buf: &[u8], offset: u16) -> (result: Result<(), VmError>)
        ensures
            follows(old(self)@.load_bytes(buf@, offset), old(self)@, final(self)@, result),
    {
        proof {
            use_type_invariant(&*self);
        }
        let start = offset as usize;
        if start > 4096 || buf.len() > 4096 - start {
            return Err(VmError::LoadError);
        }
        let ghost pre = self@;
        let mut k: usize = 0;
        while k < buf.len()
            invariant
                k <= buf.len(),
                start + buf.len() <= 4096,
                self.depth <= 16,
                self@ == (MachineState { memory: self@.memory, ..pre }),
                forall|a: int|
                    0 <= a < 4096 ==> self@.memory[a] == if start <= a < start + k {
                        buf@[a - start]
                    } else {
                        pre.memory[a]
                    },
            decreases buf.len() - k,
        {
            self.memory[start + k] = buf[k];
            k += 1;
        }
        assert(self@.memory =~= pre.load_bytes(buf@, offset).unwrap().memory);
        Ok(())
    }

    /// Fetches the two bytes of the instruction at the program counter and
    /// moves the program counter past them.  Fails with
    /// [`VmError::OutOfRangeAddress`] if the program counter is beyond
    /// `0xFFE`.
    pub fn get_instruction(&mut self) -> (result: Result<(u8, u8), VmError>)
        ensures
            old(self)@.can_fetch() ==> result == Ok::<(u8, u8), VmError>(old(self)@.fetched())
                && final(self)@ == old(self)@.after_fetch(),
            !old(self)@.can_fetch() ==> result == Err::<(u8, u8), VmError>(
                VmError::OutOfRangeAddress,
            ) && final(self)@ == old(self)@,
    {
        proof {
            use_type_invariant(&*self);
        }
        if self.program_counter > 0xFFE {
            return Err(VmError::OutOfRangeAddress);
        }
        let at = self.program_counter as usize;
        self.program_counter = self.program_counter + 2;
        Ok((self.memory[at], self.memory[at + 1]))
    }

    /// Sets the flag register `VF`.
    pub fn set_carry_flag(&mut self, value: u8)
        ensures
            final(self)@ == old(self)@.with_flag(value),
    {
        proof {
            use_type_invariant(&*self);
        }
        self.reg[0xF] = value;
    }

    /// Writes one byte of memory.  Fails with
    /// [`VmError::OutOfRangeAddress`] if `address` is beyond the last byte.
    pub fn set_byte(&mut self, address: u16, value: u8) -> (result: Result<(), VmError>)
        ensures
            follows(old(self)@.set_byte(address, value), old(self)@, final(self)@, result),
    {
        proof {
            use_type_invariant(&*self);
        }
        if address >= 4096 {
            return Err(VmError::OutOfRangeAddress);
        }
        self.memory[address as usize] = value;
        Ok(())
    }

    /// The byte of memory at `address`.  Fails with
    /// [`VmError::OutOfRangeAddress`] if `address` is beyond the last byte.
    pub fn get_byte(&self, address: u16) -> (result: Result<u8, VmError>)
        ensures
            address < 4096 ==> result == Ok::<u8, VmError>(self@.memory[address as int]),
            address >= 4096 ==> result == Err::<u8, VmError>(VmError::OutOfRangeAddress),
    {
        if address >= 4096 {
            return Err(VmError::OutOfRangeAddress);
        }
        Ok(self.memory[address as usize])
    }

    /// The value of register `V<reg>`.  Fails with
    /// [`VmError::OutOfRangeAddress`] if `reg` is no register index.
    pub fn register(&self, reg: u8) -> (result: Result<u8, VmError>)
        ensures
            reg < 16 ==> result == Ok::<u8, VmError>(self@.reg[reg as int]),
            reg >= 16 ==> result == Err::<u8, VmError>(VmError::OutOfRangeAddress),
    {
        if reg >= 16 {
            return Err(VmError::OutOfRangeAddress);
        }
        Ok(self.reg[reg as usize])
    }

    /// Whether key `key` is down.  Fails with
    /// [`VmError::OutOfRangeAddress`] if `key` is no key index.
    pub fn key(&self, key: u8) -> (result: Result<bool, VmError>)
        ensures
            key < 16 ==> result == Ok::<bool, VmError>(self@.keys[key as int]),
            key >= 16 ==> result == Err::<bool, VmError>(VmError::OutOfRangeAddress),
    {
        if key >= 16 {
            return Err(VmError::OutOfRangeAddress);
        }
        Ok(self.key[key as usize])
    }

    /// Whether the pixel in column `x` of row `y` is on.  Fails with
    /// [`VmError::OutOfRangeAddress`] if (`x`, `y`) is not on the screen.
    pub fn pixel(&self, x: u8, y: u8) -> (result: Result<bool, VmError>)
        ensures
            x < 64 && y < 32 ==> result == Ok::<bool, VmError>(self@.screen[x + 64 * y]),
            !(x < 64 && y < 32) ==> result == Err::<bool, VmError>(VmError::OutOfRangeAddress),
    {
        if x >= 64 || y >= 32 {
            return Err(VmError::OutOfRangeAddress);
        }
        Ok(self.screen[x as usize + 64 * y as usize])
    }

    /// The framebuffer, row by row, for the renderer.
    pub fn screen(&self) -> (pixels: &[bool; 2048])
        ensures
            pixels@ == self@.screen,
    {
        &self.screen
    }

    /// The address of the next instruction.
    pub fn program_counter(&self) -> (pc: u16)
        ensures
            pc == self@.pc,
    {
        self.program_counter
    }

    /// The index register `I`.
    pub fn index(&self) -> (index: u16)
        ensures
            index == self@.index,
    {
        self.i
    }

    /// The number of return addresses on the stack.
    pub fn stack_depth(&self) -> (depth: usize)
        ensures
            depth == self@.stack.len(),
    {
        proof {
            use_type_invariant(self);
        }
        self.depth
    }

    /// The delay timer.
    pub fn delay_timer(&self) -> (ticks: u8)
        ensures
            ticks == self@.delay_timer,
    {
        self.delay_timer
    }

    /// The sound timer.
    pub fn sound_timer(&self) -> (ticks: u8)
        ensures
            ticks == self@.sound_timer,
    {
        self.sound_timer
    }

    /// Whether the sound device has been told to sound.
    pub fn sound_playing(&self) -> (playing: bool)
        ensures
            playing == self@.sound_playing,
    {
        self.sound_playing
    }
}

impl Default for VM {
    fn default() -> (vm: Self)
        ensures
            vm@ == MachineState::initial(),
    {
        VM::new()
    }
}

} // verus!
