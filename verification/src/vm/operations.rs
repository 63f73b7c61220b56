//! The instructions, one method each.
//!
//! Every method checks its operands before it changes anything, so a call
//! that fails leaves the machine as it was.
use vstd::prelude::*;

use crate::error::VmError;
use crate::bits::low_nibble;
use crate::model::{first_pressed, follows, MachineState, GLYPH_SIZE};
use crate::rng::random_byte;
use crate::vm::VM;

verus! {

impl VM {
    /// Moves the program counter past the next instruction.
    fn skip(&mut self) -> (result: Result<(), VmError>)
        ensures
            follows(old(self)@.skip_when(true), old(self)@, final(self)@, result),
    {
        proof {
            use_type_invariant(&*self);
        }
        if self.program_counter > 0xFFFD {
            return Err(VmError::OutOfRangeAddress);
        }
        self.program_counter = self.program_counter + 2;
        Ok(())
    }

    /// `CLS` (`00E0`): turns every pixel off.
    pub fn clear_display(&mut self)
        ensures
            final(self)@ == old(self)@.clear_display(),
    {
        proof {
            use_type_invariant(&*self);
        }
        self.screen = [false; 2048];
        assert(self@.screen =~= old(self)@.clear_display().screen);
    }

    /// `RET` (`00EE`): returns to the newest return address.  Fails with
    /// [`VmError::StackUnderflow`] if there is none.
    pub fn return_subroutine(&mut self) -> (result: Result<(), VmError>)
        ensures
            follows(old(self)@.return_subroutine(), old(self)@, final(self)@, result),
    {
        match self.pop() {
            Ok(address) => {
                proof {
                    use_type_invariant(&*self);
                }
                self.program_counter = address;
                Ok(())
            },
            Err(error) => Err(error),
        }
    }

    /// `JMP` (`1NNN`): continues at `addr`.
    pub fn jump(&mut self, addr: u16)
        ensures
            final(self)@ == old(self)@.jump(addr),
    {
        proof {
            use_type_invariant(&*self);
        }
        self.program_counter = addr;
    }

    /// `CALL` (`2NNN`): remembers the program counter on the stack and
    /// continues at `addr`.  Fails with [`VmError::StackOverflow`] if the
    /// stack is full.
    pub fn call(&mut self, addr: u16) -> (result: Result<(), VmError>)
        ensures
            follows(old(self)@.call(addr), old(self)@, final(self)@, result),
    {
        let return_address = self.program_counter;
        match self.push(return_address) {
            Ok(()) => {
                proof {
                    use_type_invariant(&*self);
                }
                self.program_counter = addr;
                Ok(())
            },
            Err(error) => Err(error),
        }
    }

    /// `SE` (`3XNN`): skips the next instruction if `VX == value`.
    pub fn skip_equal(&mut self, register: u8, value: u8) -> (result: Result<(), VmError>)
        ensures
            follows(old(self)@.skip_equal(register, value), old(self)@, final(self)@, result),
    {
        if register >= 16 {
            return Err(VmError::OutOfRangeAddress);
        }
        if self.reg[register as usize] == value {
            self.skip()
        } else {
            Ok(())
        }
    }

    /// `SNE` (`4XNN`): skips the next instruction if `VX != value`.
    pub fn skip_not_equal(&mut self, register: u8, value: u8) -> (result: Result<(), VmError>)
        ensures
            follows(old(self)@.skip_not_equal(register, value), old(self)@, final(self)@, result),
    {
        if register >= 16 {
            return Err(VmError::OutOfRangeAddress);
        }
        if self.reg[register as usize] != value {
            self.skip()
        } else {
            Ok(())
        }
    }

    /// `RSE` (`5XY_`): skips the next instruction if `VX == VY`.
    pub fn reg_skip_equal(&mut self, reg1: u8, reg2: u8) -> (result: Result<(), VmError>)
        ensures
            follows(old(self)@.reg_skip_equal(reg1, reg2), old(self)@, final(self)@, result),
    {
        if reg1 >= 16 || reg2 >= 16 {
            return Err(VmError::OutOfRangeAddress);
        }
        if self.reg[reg1 as usize] == self.reg[reg2 as usize] {
            self.skip()
        } else {
            Ok(())
        }
    }

    /// `SET` (`6XNN`): `VX = value`.
    pub fn set_register(&mut self, register: u8, value: u8) -> (result: Result<(), VmError>)
        ensures
            follows(old(self)@.set_register(register, value), old(self)@, final(self)@, result),
    {
        proof {
            use_type_invariant(&*self);
        }
        if register >= 16 {
            return Err(VmError::OutOfRangeAddress);
        }
        self.reg[register as usize] = value;
        Ok(())
    }

    /// `ADD` (`7XNN`): `VX = VX + value`, wrapping at 256; the flag is left
    /// alone.
    pub fn add(&mut self, register: u8, value: u8) -> (result: Result<(), VmError>)
        ensures
            follows(old(self)@.add(register, value), old(self)@, final(self)@, result),
    {
        proof {
            use_type_invariant(&*self);
        }
        if register >= 16 {
            return Err(VmError::OutOfRangeAddress);
        }
        self.reg[register as usize] = self.reg[register as usize].wrapping_add(value);
        Ok(())
    }

    /// `RLD` (`8XY0`): `VX = VY`.
    pub fn reg_load(&mut self, reg_x: u8, reg_y: u8) -> (result: Result<(), VmError>)
        ensures
            follows(old(self)@.reg_load(reg_x, reg_y), old(self)@, final(self)@, result),
    {
        if reg_x >= 16 || reg_y >= 16 {
            return Err(VmError::OutOfRangeAddress);
        }
        let value = self.reg[reg_y as usize];
        self.set_register(reg_x, value)
    }

    /// `ROR` (`8XY1`): `VX = VX | VY`.
    pub fn reg_or(&mut self, reg_x: u8, reg_y: u8) -> (result: Result<(), VmError>)
        ensures
            follows(old(self)@.reg_or(reg_x, reg_y), old(self)@, final(self)@, result),
    {
        proof {
            use_type_invariant(&*self);
        }
        if reg_x >= 16 || reg_y >= 16 {
            return Err(VmError::OutOfRangeAddress);
        }
        self.reg[reg_x as usize] = self.reg[reg_x as usize] | self.reg[reg_y as usize];
        Ok(())
    }

    /// `RAND` (`8XY2`): `VX = VX & VY`.
    pub fn reg_and(&mut self, reg_x: u8, reg_y: u8) -> (result: Result<(), VmError>)
        ensures
            follows(old(self)@.reg_and(reg_x, reg_y), old(self)@, final(self)@, result),
    {
        proof {
            use_type_invariant(&*self);
        }
        if reg_x >= 16 || reg_y >= 16 {
            return Err(VmError::OutOfRangeAddress);
        }
        self.reg[reg_x as usize] = self.reg[reg_x as usize] & self.reg[reg_y as usize];
        Ok(())
    }

    /// `RXOR` (`8XY3`): `VX = VX ^ VY`.
    pub fn reg_xor(&mut self, reg_x: u8, reg_y: u8) -> (result: Result<(), VmError>)
        ensures
            follows(old(self)@.reg_xor(reg_x, reg_y), old(self)@, final(self)@, result),
    {
        proof {
            use_type_invariant(&*self);
        }
        if reg_x >= 16 || reg_y >= 16 {
            return Err(VmError::OutOfRangeAddress);
        }
        self.reg[reg_x as usize] = self.reg[reg_x as usize] ^ self.reg[reg_y as usize];
        Ok(())
    }

    /// `RADD` (`8XY4`): `VX = VX + VY`, wrapping at 256; then `VF` is 1 if
    /// the sum passed 255 and 0 if not.
    pub fn reg_add(&mut self, reg_x: u8, reg_y: u8) -> (result: Result<(), VmError>)
        ensures
            follows(old(self)@.reg_add(reg_x, reg_y), old(self)@, final(self)@, result),
    {
        proof {
            use_type_invariant(&*self);
        }
        if reg_x >= 16 || reg_y >= 16 {
            return Err(VmError::OutOfRangeAddress);
        }
        let x = self.reg[reg_x as usize];
        let y = self.reg[reg_y as usize];
        match x.checked_add(y) {
            None => {
                self.reg[reg_x as usize] = x.wrapping_add(y);
                self.set_carry_flag(1);
            },
            Some(sum) => {
                self.reg[reg_x as usize] = sum;
                self.set_carry_flag(0);
            },
        }
        Ok(())
    }

    /// `RSUB` (`8XY5`): `VX = VX - VY`, wrapping at 256; then `VF` is 1 if
    /// `VX` was greater than `VY` and 0 if not.
    pub fn reg_sub(&mut self, reg_x: u8, reg_y: u8) -> (result: Result<(), VmError>)
        ensures
            follows(old(self)@.reg_sub(reg_x, reg_y), old(self)@, final(self)@, result),
    {
        proof {
            use_type_invariant(&*self);
        }
        if reg_x >= 16 || reg_y >= 16 {
            return Err(VmError::OutOfRangeAddress);
        }
        let x = self.reg[reg_x as usize];
        let y = self.reg[reg_y as usize];
        self.reg[reg_x as usize] = x.wrapping_sub(y);
        if x > y {
            self.set_carry_flag(1);
        } else {
            self.set_carry_flag(0);
        }
        Ok(())
    }

    /// `RSHR` (`8X_6`): `VX = VX >> 1`; then `VF` is the bit shifted out.
    pub fn reg_shift_right(&mut self, reg: u8) -> (result: Result<(), VmError>)
        ensures
            follows(old(self)@.reg_shift_right(reg), old(self)@, final(self)@, result),
    {
        proof {
            use_type_invariant(&*self);
        }
        if reg >= 16 {
            return Err(VmError::OutOfRangeAddress);
        }
        let v = self.reg[reg as usize];
        assert(v >> 1 == v / 2 && (0b0000_0001 & v == 1 <==> v % 2 == 1)) by (bit_vector);
        self.reg[reg as usize] = v >> 1;
        if 0b0000_0001 & v == 1 {
            self.set_carry_flag(1);
        } else {
            self.set_carry_flag(0);
        }
        Ok(())
    }

    /// `RSUBN` (`8XY7`): `VX = VY - VX`, wrapping at 256; then `VF` is 1 if
    /// `VY` was greater than `VX` and 0 if not.
    pub fn reg_sub_not_borrow(&mut self, reg_x: u8, reg_y: u8) -> (result: Result<(), VmError>)
        ensures
            follows(old(self)@.reg_sub_not_borrow(reg_x, reg_y), old(self)@, final(self)@, result),
    {
        proof {
            use_type_invariant(&*self);
        }
        if reg_x >= 16 || reg_y >= 16 {
            return Err(VmError::OutOfRangeAddress);
        }
        let x = self.reg[reg_x as usize];
        let y = self.reg[reg_y as usize];
        self.reg[reg_x as usize] = y.wrapping_sub(x);
        if y > x {
            self.set_carry_flag(1);
        } else {
            self.set_carry_flag(0);
        }
        Ok(())
    }

    /// `RSHL` (`8X_E`): `VX = VX << 1`; then `VF` is the bit shifted out.
    pub fn reg_shift_left(&mut self, reg: u8) -> (result: Result<(), VmError>)
        ensures
            follows(old(self)@.reg_shift_left(reg), old(self)@, final(self)@, result),
    {
        proof {
            use_type_invariant(&*self);
        }
        if reg >= 16 {
            return Err(VmError::OutOfRangeAddress);
        }
        let v = self.reg[reg as usize];
        assert(v << 1 == (v * 2) % 256 && (0b1000_0000 & v == 0b1000_0000 <==> v / 128 == 1))
            by (bit_vector);
        self.reg[reg as usize] = v << 1;
        if 0b1000_0000 & v == 0b1000_0000 {
            self.set_carry_flag(1);
        } else {
            self.set_carry_flag(0);
        }
        Ok(())
    }

    /// `RSNE` (`9XY_`): skips the next instruction if `VX != VY`.
    pub fn reg_skip_not_equal(&mut self, reg1: u8, reg2: u8) -> (result: Result<(), VmError>)
        ensures
            follows(old(self)@.reg_skip_not_equal(reg1, reg2), old(self)@, final(self)@, result),
    {
        if reg1 >= 16 || reg2 >= 16 {
            return Err(VmError::OutOfRangeAddress);
        }
        if self.reg[reg1 as usize] != self.reg[reg2 as usize] {
            self.skip()
        } else {
            Ok(())
        }
    }

    /// `LD` (`ANNN`): `I = val`.
    pub fn set_index(&mut self, val: u16)
        ensures
            final(self)@ == old(self)@.set_index(val),
    {
        proof {
            use_type_invariant(&*self);
        }
        self.i = val;
    }

    /// `JP` (`BNNN`): continues at `V0 + value`.  Fails with
    /// [`VmError::OutOfRangeAddress`] if that is beyond sixteen bits.
    pub fn jump_location(&mut self, value: u16) -> (result: Result<(), VmError>)
        ensures
            follows(old(self)@.jump_location(value), old(self)@, final(self)@, result),
    {
        proof {
            use_type_invariant(&*self);
        }
        match (self.reg[0x0] as u16).checked_add(value) {
            Some(target) => {
                self.program_counter = target;
                Ok(())
            },
            None => Err(VmError::OutOfRangeAddress),
        }
    }
    /// `RND` (`CXNN`): `VX` = a random byte masked with `value`.  Which byte
    /// is drawn is not known beforehand; the register ends as
    /// [`VM::load_random`] leaves it for the byte that came.
    pub fn random(&mut self, reg: u8, value: u8) -> (result: Result<(), VmError>)
        ensures
            exists|byte: u8|
                follows(
                    #[trigger] old(self)@.load_random(reg, value, byte),
                    old(self)@,
                    final(self)@,
                    result,
                ),
    {
        if reg >= 16 {
            assert(follows(
                old(self)@.load_random(reg, value, 0),
                old(self)@,
                self@,
                Err(VmError::OutOfRangeAddress),
            ));
            return Err(VmError::OutOfRangeAddress);
        }
        let r = random_byte();
        let result = self.load_random(reg, value, r);
        assert(follows(old(self)@.load_random(reg, value, r), old(self)@, self@, result));
        result
    }

    /// What `RND` does once the random byte is drawn: `VX = byte & mask`.
    pub fn load_random(&mut self, reg: u8, mask: u8, byte: u8) -> (result: Result<(), VmError>)
        ensures
            follows(old(self)@.load_random(reg, mask, byte), old(self)@, final(self)@, result),
    {
        proof {
            use_type_invariant(&*self);
        }
        if reg >= 16 {
            return Err(VmError::OutOfRangeAddress);
        }
        self.reg[reg as usize] = byte & mask;
        Ok(())
    }

    /// `SKP` (`EX9E`): skips the next instruction if the key whose index is
    /// in `VX` is down.  Fails with [`VmError::OutOfRangeAddress`] if `VX`
    /// is no key index.
    pub fn skip_if_key(&mut self, reg: u8) -> (result: Result<(), VmError>)
        ensures
            follows(old(self)@.skip_if_key(reg), old(self)@, final(self)@, result),
    {
        if reg >= 16 {
            return Err(VmError::OutOfRangeAddress);
        }
        let key = self.reg[reg as usize];
        if key >= 16 {
            return Err(VmError::OutOfRangeAddress);
        }
        if self.key[key as usize] {
            self.skip()
        } else {
            Ok(())
        }
    }

    /// `SKNP` (`EXA1`): skips the next instruction if the key whose index
    /// is in `VX` is up.  Fails with [`VmError::OutOfRangeAddress`] if `VX`
    /// is no key index.
    pub fn skip_if_no_key(&mut self, reg: u8) -> (result: Result<(), VmError>)
        ensures
            follows(old(self)@.skip_if_no_key(reg), old(self)@, final(self)@, result),
    {
        if reg >= 16 {
            return Err(VmError::OutOfRangeAddress);
        }
        let key = self.reg[reg as usize];
        if key >= 16 {
            return Err(VmError::OutOfRangeAddress);
        }
        if !self.key[key as usize] {
            self.skip()
        } else {
            Ok(())
        }
    }

    /// `LDT` (`FX07`): `VX` = delay timer.
    pub fn load_delay_timer(&mut self, reg: u8) -> (result: Result<(), VmError>)
        ensures
            follows(old(self)@.load_delay_timer(reg), old(self)@, final(self)@, result),
    {
        proof {
            use_type_invariant(&*self);
        }
        if reg >= 16 {
            return Err(VmError::OutOfRangeAddress);
        }
        self.reg[reg as usize] = self.delay_timer;
        Ok(())
    }

    /// `KPR` (`FX0A`): waits for a key.  If a key is down, the lowest index
    /// of one goes to `VX`.  If none is, the program counter goes back by
    /// 2, so that this instruction is executed again at the next step.
    pub fn await_keypress(&mut self, reg: u8) -> (result: Result<(), VmError>)
        ensures
            follows(old(self)@.await_keypress(reg), old(self)@, final(self)@, result),
    {
        proof {
            use_type_invariant(&*self);
        }
        if reg >= 16 {
            return Err(VmError::OutOfRangeAddress);
        }
        let mut k: u8 = 0;
        while k < 16
            invariant
                k <= 16,
                reg < 16,
                self.depth <= 16,
                self@ == old(self)@,
                first_pressed(self@.keys, 0) == first_pressed(self@.keys, k as int),
            decreases 16 - k,
        {
            if self.key[k as usize] {
                self.reg[reg as usize] = k;
                return Ok(());
            }
            k += 1;
        }
        if self.program_counter < 2 {
            return Err(VmError::OutOfRangeAddress);
        }
        self.program_counter = self.program_counter - 2;
        Ok(())
    }

    /// `SETDT` (`FX15`): delay timer = `VX`.
    pub fn set_delay_timer(&mut self, reg: u8) -> (result: Result<(), VmError>)
        ensures
            follows(old(self)@.set_delay_timer(reg), old(self)@, final(self)@, result),
    {
        proof {
            use_type_invariant(&*self);
        }
        if reg >= 16 {
            return Err(VmError::OutOfRangeAddress);
        }
        self.delay_timer = self.reg[reg as usize];
        Ok(())
    }

    /// `SETST` (`FX18`): sound timer = `VX`.
    pub fn set_sound_timer(&mut self, reg: u8) -> (result: Result<(), VmError>)
        ensures
            follows(old(self)@.set_sound_timer(reg), old(self)@, final(self)@, result),
    {
        proof {
            use_type_invariant(&*self);
        }
        if reg >= 16 {
            return Err(VmError::OutOfRangeAddress);
        }
        self.sound_timer = self.reg[reg as usize];
        Ok(())
    }

    /// `ADDI` (`FX1E`): `I = I + VX`, wrapping at sixteen bits; no flag.
    pub fn add_i(&mut self, reg: u8) -> (result: Result<(), VmError>)
        ensures
            follows(old(self)@.add_i(reg), old(self)@, final(self)@, result),
    {
        proof {
            use_type_invariant(&*self);
        }
        if reg >= 16 {
            return Err(VmError::OutOfRangeAddress);
        }
        self.i = self.i.wrapping_add(self.reg[reg as usize] as u16);
        Ok(())
    }

    /// `LDSPR` (`FX29`): `I` = the address of the built-in glyph for the
    /// low nibble of `VX`.
    pub fn load_sprite(&mut self, reg: u8) -> (result: Result<(), VmError>)
        ensures
            follows(old(self)@.load_sprite(reg), old(self)@, final(self)@, result),
    {
        proof {
            use_type_invariant(&*self);
        }
        if reg >= 16 {
            return Err(VmError::OutOfRangeAddress);
        }
        let val = self.reg[reg as usize];
        self.i = low_nibble(val) as u16 * GLYPH_SIZE;
        Ok(())
    }

    /// `STBCD` (`FX33`): stores the hundreds, tens and units of `VX` at
    /// `I`, `I+1` and `I+2`.  Fails with [`VmError::OutOfRangeAddress`] if
    /// `I+2` is beyond memory.
    pub fn store_bcd(&mut self, reg: u8) -> (result: Result<(), VmError>)
        ensures
            follows(old(self)@.store_bcd(reg), old(self)@, final(self)@, result),
    {
        proof {
            use_type_invariant(&*self);
        }
        if reg >= 16 || self.i > 4093 {
            return Err(VmError::OutOfRangeAddress);
        }
        let val = self.reg[reg as usize];
        let addr = self.i as usize;
        let d1 = val / 100;
        let d2 = (val % 100) / 10;
        let d3 = val % 10;
        self.memory[addr] = d1;
        self.memory[addr + 1] = d2;
        self.memory[addr + 2] = d3;
        Ok(())
    }

    /// `STORE` (`FX55`): stores `V0..=VX` in memory from `I` on.  Fails
    /// with [`VmError::OutOfRangeAddress`] if they do not fit.
    pub fn store_registers(&mut self, reg: u8) -> (result: Result<(), VmError>)
        ensures
            follows(old(self)@.store_registers(reg), old(self)@, final(self)@, result),
    {
        proof {
            use_type_invariant(&*self);
        }
        if reg >= 16 || self.i as usize + reg as usize >= 4096 {
            return Err(VmError::OutOfRangeAddress);
        }
        let addr = self.i as usize;
        let ghost pre = self@;
        let mut k: usize = 0;
        while k <= reg as usize
            invariant
                k <= reg + 1,
                reg < 16,
                addr + reg < 4096,
                addr == pre.index,
                self.depth <= 16,
                self@ == pre.with_memory(self@.memory),
                forall|a: int|
                    0 <= a < 4096 ==> self@.memory[a] == if addr <= a < addr + k {
                        pre.reg[a - addr]
                    } else {
                        pre.memory[a]
                    },
            decreases reg + 1 - k,
        {
            self.memory[addr + k] = self.reg[k];
            k += 1;
        }
        assert(self@.memory =~= pre.store_registers(reg).unwrap().memory);
        Ok(())
    }

    /// `READ` (`FX65`): loads `V0..=VX` from memory from `I` on.  Fails
    /// with [`VmError::OutOfRangeAddress`] if they lie beyond memory.
    pub fn read_registers(&mut self, reg: u8) -> (result: Result<(), VmError>)
        ensures
            follows(old(self)@.read_registers(reg), old(self)@, final(self)@, result),
    {
        proof {
            use_type_invariant(&*self);
        }
        if reg >= 16 || self.i as usize + reg as usize >= 4096 {
            return Err(VmError::OutOfRangeAddress);
        }
        let addr = self.i as usize;
        let ghost pre = self@;
        let mut k: usize = 0;
        while k <= reg as usize
            invariant
                k <= reg + 1,
                reg < 16,
                addr + reg < 4096,
                addr == pre.index,
                self.depth <= 16,
                self@ == (MachineState { reg: self@.reg, ..pre }),
                forall|r: int|
                    0 <= r < 16 ==> self@.reg[r] == if r < k {
                        pre.memory[addr + r]
                    } else {
                        pre.reg[r]
                    },
            decreases reg + 1 - k,
        {
            self.reg[k] = self.memory[addr + k];
            k += 1;
        }
        assert(self@.reg =~= pre.read_registers(reg).unwrap().reg);
        Ok(())
    }
}

} // verus!
