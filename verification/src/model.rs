//! The abstract machine: its state as mathematical values and the effect of
//! every instruction as a function from state to state.
//!
//! Nothing here is executable.  The executable machine is proved to follow
//! these definitions, so they are what a program running on it can rely on.
use vstd::prelude::*;

use crate::error::VmError;
use crate::opcodes::{decode, OpCode};

verus! {

/// Number of bytes of memory.
pub const MEMORY_SIZE: usize = 4096;

/// Address at which programs are loaded and at which execution starts.
pub const PROGRAM_START: u16 = 0x200;

/// Number of bytes of one glyph of the built-in font.
pub const GLYPH_SIZE: u16 = 5;

/// The built-in font: sixteen glyphs of five rows each, for the digits
/// `0` to `F`.
pub const FONTSET: [u8; 80] = [
    0xF0, 0x90, 0x90, 0x90, 0xF0,
    0x20, 0x60, 0x20, 0x20, 0x70,
    0xF0, 0x10, 0xF0, 0x80, 0xF0,
    0xF0, 0x10, 0xF0, 0x10, 0xF0,
    0x90, 0x90, 0xF0, 0x10, 0x10,
    0xF0, 0x80, 0xF0, 0x10, 0xF0,
    0xF0, 0x80, 0xF0, 0x90, 0xF0,
    0xF0, 0x10, 0x20, 0x40, 0x40,
    0xF0, 0x90, 0xF0, 0x90, 0xF0,
    0xF0, 0x90, 0xF0, 0x10, 0xF0,
    0xF0, 0x90, 0xF0, 0x90, 0x90,
    0xE0, 0x90, 0xE0, 0x90, 0xE0,
    0xF0, 0x80, 0x80, 0x80, 0xF0,
    0xE0, 0x90, 0x90, 0x90, 0xE0,
    0xF0, 0x80, 0xF0, 0x80, 0xF0,
    0xF0, 0x80, 0xF0, 0x80, 0x80,
];

/// What the sound device has to do after a timer tick.
#[derive(Debug, Clone, Copy, PartialEq, Eq, Structural)]
pub enum SoundAction {
    /// Nothing changes: the device stays silent or goes on sounding.
    Keep,
    /// The device was silent and has to start its tone.
    Start,
    /// The device was sounding and has to stop.
    Stop,
}

/// The state of the machine.
#[verifier::ext_equal]
pub struct MachineState {
    /// The 4096 bytes of memory.
    pub memory: Seq<u8>,
    /// The address of the next instruction.
    pub pc: u16,
    /// The index register `I`.
    pub index: u16,
    /// The sixteen general registers `V0` to `VF`.
    pub reg: Seq<u8>,
    /// The return addresses, the oldest first; at most sixteen.
    pub stack: Seq<u16>,
    /// Which of the sixteen keys are down.
    pub keys: Seq<bool>,
    /// The 64 x 32 pixels, row by row.
    pub screen: Seq<bool>,
    /// The delay timer.
    pub delay_timer: u8,
    /// The sound timer.
    pub sound_timer: u8,
    /// Whether the sound device has been told to sound.
    pub sound_playing: bool,
}

/// Whether bit `column` of a sprite row is set, counting from the most
/// significant bit, which is the leftmost pixel.
pub open spec fn sprite_bit(row: u8, column: u8) -> bool {
    (0x80u8 >> column) & row != 0
}

/// The index of the first key at or after `from` that is down, or the
/// number of keys if there is none.
pub open spec fn first_pressed(keys: Seq<bool>, from: int) -> int
    decreases keys.len() - from,
{
    if from < 0 || from >= keys.len() {
        keys.len() as int
    } else if keys[from] {
        from
    } else {
        first_pressed(keys, from + 1)
    }
}

/// Whether pixel `p` lies on the outermost rows or columns of the screen.
pub open spec fn on_border(p: int) -> bool {
    p / 64 == 0 || p / 64 == 31 || p % 64 == 0 || p % 64 == 63
}

/// Whether a call that began in state `pre`, ended in state `post` and
/// returned `result` did what `expected` says: on success the machine is in
/// the expected state, on failure the error is the expected one and the
/// machine is as it was.
pub open spec fn follows(
    expected: Result<MachineState, VmError>,
    pre: MachineState,
    post: MachineState,
    result: Result<(), VmError>,
) -> bool {
    match expected {
        Ok(state) => result is Ok && post =~= state,
        Err(error) => result == Err::<(), VmError>(error) && post =~= pre,
    }
}

impl MachineState {
    /// Whether every part of the state has its fixed size.
    pub open spec fn wf(self) -> bool {
        &&& self.memory.len() == 4096
        &&& self.reg.len() == 16
        &&& self.stack.len() <= 16
        &&& self.keys.len() == 16
        &&& self.screen.len() == 2048
    }

    /// The state of a new machine: the font at address 0, the program
    /// counter at `0x200` and everything else zero, empty, up or off.
    pub open spec fn initial() -> MachineState {
        MachineState {
            memory: Seq::new(4096, |a: int| if a < 80 { FONTSET@[a] } else { 0u8 }),
            pc: PROGRAM_START,
            index: 0,
            reg: Seq::new(16, |r: int| 0u8),
            stack: Seq::empty(),
            keys: Seq::new(16, |k: int| false),
            screen: Seq::new(2048, |p: int| false),
            delay_timer: 0,
            sound_timer: 0,
            sound_playing: false,
        }
    }

    /// The state with register `x` set to `value`.
    pub open spec fn with_reg(self, x: int, value: u8) -> MachineState {
        MachineState { reg: self.reg.update(x, value), ..self }
    }

    /// The state with the flag register `VF` set to `value`.
    pub open spec fn with_flag(self, value: u8) -> MachineState {
        self.with_reg(0xF, value)
    }

    /// The state with the program counter at `pc`.
    pub open spec fn with_pc(self, pc: u16) -> MachineState {
        MachineState { pc, ..self }
    }

    /// The state with the index register at `index`.
    pub open spec fn with_index(self, index: u16) -> MachineState {
        MachineState { index, ..self }
    }

    /// The state with `memory` as its memory.
    pub open spec fn with_memory(self, memory: Seq<u8>) -> MachineState {
        MachineState { memory, ..self }
    }

    /// The state with `screen` as its framebuffer.
    pub open spec fn with_screen(self, screen: Seq<bool>) -> MachineState {
        MachineState { screen, ..self }
    }

    /// Skips one instruction if `condition` holds.  Fails if the program
    /// counter would leave its sixteen bits.
    pub open spec fn skip_when(self, condition: bool) -> Result<MachineState, VmError> {
        if !condition {
            Ok(self)
        } else if self.pc > 0xFFFD {
            Err(VmError::OutOfRangeAddress)
        } else {
            Ok(self.with_pc((self.pc + 2) as u16))
        }
    }

    // ---- loading and fetching -------------------------------------------

    /// Copies `bytes` into memory from `offset` on.  Fails if they do not
    /// fit between `offset` and the end of memory.
    pub open spec fn load_bytes(self, bytes: Seq<u8>, offset: u16) -> Result<
        MachineState,
        VmError,
    > {
        if offset + bytes.len() > 4096 {
            Err(VmError::LoadError)
        } else {
            Ok(
                self.with_memory(
                    Seq::new(
                        4096,
                        |a: int|
                            if offset <= a < offset + bytes.len() {
                                bytes[a - offset]
                            } else {
                                self.memory[a]
                            },
                    ),
                ),
            )
        }
    }

    /// Writes one byte of memory.
    pub open spec fn set_byte(self, address: u16, value: u8) -> Result<MachineState, VmError> {
        if address >= 4096 {
            Err(VmError::OutOfRangeAddress)
        } else {
            Ok(self.with_memory(self.memory.update(address as int, value)))
        }
    }

    /// Whether the two bytes of an instruction can be read at the program
    /// counter.
    pub open spec fn can_fetch(self) -> bool {
        self.pc <= 0xFFE
    }

    /// The two bytes at the program counter.
    pub open spec fn fetched(self) -> (u8, u8) {
        (self.memory[self.pc as int], self.memory[self.pc + 1])
    }

    /// The state after fetching: the program counter is past the
    /// instruction.
    pub open spec fn after_fetch(self) -> MachineState {
        self.with_pc((self.pc + 2) as u16)
    }

    // ---- stack ----------------------------------------------------------

    /// Pushes a return address.
    pub open spec fn push(self, value: u16) -> Result<MachineState, VmError> {
        if self.stack.len() >= 16 {
            Err(VmError::StackOverflow)
        } else {
            Ok(MachineState { stack: self.stack.push(value), ..self })
        }
    }

    /// Whether a return address can be popped.
    pub open spec fn can_pop(self) -> bool {
        self.stack.len() > 0
    }

    /// The state after popping the newest return address.
    pub open spec fn popped(self) -> MachineState {
        MachineState { stack: self.stack.drop_last(), ..self }
    }

    // ---- control --------------------------------------------------------

    /// `CLS`: every pixel off.
    pub open spec fn clear_display(self) -> MachineState {
        self.with_screen(Seq::new(2048, |p: int| false))
    }

    /// `RET`: the newest return address leaves the stack and becomes the
    /// program counter.
    pub open spec fn return_subroutine(self) -> Result<MachineState, VmError> {
        if self.stack.len() == 0 {
            Err(VmError::StackUnderflow)
        } else {
            Ok(self.popped().with_pc(self.stack.last()))
        }
    }

    /// `JMP`: the program counter becomes `addr`.
    pub open spec fn jump(self, addr: u16) -> MachineState {
        self.with_pc(addr)
    }

    /// `CALL`: the program counter goes onto the stack and becomes `addr`.
    pub open spec fn call(self, addr: u16) -> Result<MachineState, VmError> {
        match self.push(self.pc) {
            Ok(state) => Ok(state.with_pc(addr)),
            Err(error) => Err(error),
        }
    }

    /// `JP`: the program counter becomes `V0 + value`.
    pub open spec fn jump_location(self, value: u16) -> Result<MachineState, VmError> {
        if self.reg[0] + value > 0xFFFF {
            Err(VmError::OutOfRangeAddress)
        } else {
            Ok(self.with_pc((self.reg[0] + value) as u16))
        }
    }

    // ---- conditional skips ----------------------------------------------

    /// `SE`: skip if `VX == value`.
    pub open spec fn skip_equal(self, register: u8, value: u8) -> Result<MachineState, VmError> {
        if register >= 16 {
            Err(VmError::OutOfRangeAddress)
        } else {
            self.skip_when(self.reg[register as int] == value)
        }
    }

    /// `SNE`: skip if `VX != value`.
    pub open spec fn skip_not_equal(self, register: u8, value: u8) -> Result<
        MachineState,
        VmError,
    > {
        if register >= 16 {
            Err(VmError::OutOfRangeAddress)
        } else {
            self.skip_when(self.reg[register as int] != value)
        }
    }

    /// `RSE`: skip if `VX == VY`.
    pub open spec fn reg_skip_equal(self, reg1: u8, reg2: u8) -> Result<MachineState, VmError> {
        if reg1 >= 16 || reg2 >= 16 {
            Err(VmError::OutOfRangeAddress)
        } else {
            self.skip_when(self.reg[reg1 as int] == self.reg[reg2 as int])
        }
    }

    /// `RSNE`: skip if `VX != VY`.
    pub open spec fn reg_skip_not_equal(self, reg1: u8, reg2: u8) -> Result<
        MachineState,
        VmError,
    > {
        if reg1 >= 16 || reg2 >= 16 {
            Err(VmError::OutOfRangeAddress)
        } else {
            self.skip_when(self.reg[reg1 as int] != self.reg[reg2 as int])
        }
    }

    // ---- registers ------------------------------------------------------

    /// `SET`: `VX = value`.
    pub open spec fn set_register(self, register: u8, value: u8) -> Result<
        MachineState,
        VmError,
    > {
        if register >= 16 {
            Err(VmError::OutOfRangeAddress)
        } else {
            Ok(self.with_reg(register as int, value))
        }
    }

    /// `ADD`: `VX = (VX + value) mod 256`; the flag is left alone.
    pub open spec fn add(self, register: u8, value: u8) -> Result<MachineState, VmError> {
        if register >= 16 {
            Err(VmError::OutOfRangeAddress)
        } else {
            Ok(
                self.with_reg(
                    register as int,
                    ((self.reg[register as int] + value) % 256) as u8,
                ),
            )
        }
    }

    /// `RLD`: `VX = VY`.
    pub open spec fn reg_load(self, reg_x: u8, reg_y: u8) -> Result<MachineState, VmError> {
        if reg_x >= 16 || reg_y >= 16 {
            Err(VmError::OutOfRangeAddress)
        } else {
            Ok(self.with_reg(reg_x as int, self.reg[reg_y as int]))
        }
    }

    /// `ROR`: `VX = VX | VY`.
    pub open spec fn reg_or(self, reg_x: u8, reg_y: u8) -> Result<MachineState, VmError> {
        if reg_x >= 16 || reg_y >= 16 {
            Err(VmError::OutOfRangeAddress)
        } else {
            Ok(self.with_reg(reg_x as int, self.reg[reg_x as int] | self.reg[reg_y as int]))
        }
    }

    /// `RAND`: `VX = VX & VY`.
    pub open spec fn reg_and(self, reg_x: u8, reg_y: u8) -> Result<MachineState, VmError> {
        if reg_x >= 16 || reg_y >= 16 {
            Err(VmError::OutOfRangeAddress)
        } else {
            Ok(self.with_reg(reg_x as int, self.reg[reg_x as int] & self.reg[reg_y as int]))
        }
    }

    /// `RXOR`: `VX = VX ^ VY`.
    pub open spec fn reg_xor(self, reg_x: u8, reg_y: u8) -> Result<MachineState, VmError> {
        if reg_x >= 16 || reg_y >= 16 {
            Err(VmError::OutOfRangeAddress)
        } else {
            Ok(self.with_reg(reg_x as int, self.reg[reg_x as int] ^ self.reg[reg_y as int]))
        }
    }

    /// `RADD`: `VX = (VX + VY) mod 256`, then `VF = 1` if the sum passed
    /// 255 and `0` if not.  The flag is written last, so it wins if `X` is
    /// `F`.
    pub open spec fn reg_add(self, reg_x: u8, reg_y: u8) -> Result<MachineState, VmError> {
        if reg_x >= 16 || reg_y >= 16 {
            Err(VmError::OutOfRangeAddress)
        } else {
            let sum = self.reg[reg_x as int] + self.reg[reg_y as int];
            Ok(
                self.with_reg(reg_x as int, (sum % 256) as u8).with_flag(
                    if sum > 255 {
                        1
                    } else {
                        0
                    },
                ),
            )
        }
    }

    /// `RSUB`: `VX = (VX - VY) mod 256`, then `VF = 1` if `VX > VY` and `0`
    /// if not.
    pub open spec fn reg_sub(self, reg_x: u8, reg_y: u8) -> Result<MachineState, VmError> {
        if reg_x >= 16 || reg_y >= 16 {
            Err(VmError::OutOfRangeAddress)
        } else {
            let x = self.reg[reg_x as int];
            let y = self.reg[reg_y as int];
            Ok(
                self.with_reg(reg_x as int, ((x - y) % 256) as u8).with_flag(
                    if x > y {
                        1
                    } else {
                        0
                    },
                ),
            )
        }
    }

    /// `RSUBN`: `VX = (VY - VX) mod 256`, then `VF = 1` if `VY > VX` and
    /// `0` if not.
    pub open spec fn reg_sub_not_borrow(self, reg_x: u8, reg_y: u8) -> Result<
        MachineState,
        VmError,
    > {
        if reg_x >= 16 || reg_y >= 16 {
            Err(VmError::OutOfRangeAddress)
        } else {
            let x = self.reg[reg_x as int];
            let y = self.reg[reg_y as int];
            Ok(
                self.with_reg(reg_x as int, ((y - x) % 256) as u8).with_flag(
                    if y > x {
                        1
                    } else {
                        0
                    },
                ),
            )
        }
    }

    /// `RSHR`: `VX = VX / 2`, then `VF` = the lowest bit that `VX` had.
    pub open spec fn reg_shift_right(self, reg: u8) -> Result<MachineState, VmError> {
        if reg >= 16 {
            Err(VmError::OutOfRangeAddress)
        } else {
            let v = self.reg[reg as int];
            Ok(self.with_reg(reg as int, v / 2).with_flag(v % 2))
        }
    }

    /// `RSHL`: `VX = (VX * 2) mod 256`, then `VF` = the highest bit that
    /// `VX` had.
    pub open spec fn reg_shift_left(self, reg: u8) -> Result<MachineState, VmError> {
        if reg >= 16 {
            Err(VmError::OutOfRangeAddress)
        } else {
            let v = self.reg[reg as int];
            Ok(self.with_reg(reg as int, ((v * 2) % 256) as u8).with_flag(v / 128))
        }
    }

    /// `RND` with the random byte given: `VX = byte & mask`.
    pub open spec fn load_random(self, reg: u8, mask: u8, byte: u8) -> Result<
        MachineState,
        VmError,
    > {
        if reg >= 16 {
            Err(VmError::OutOfRangeAddress)
        } else {
            Ok(self.with_reg(reg as int, byte & mask))
        }
    }

    // ---- index register and memory --------------------------------------

    /// `LD`: `I = val`.
    pub open spec fn set_index(self, val: u16) -> MachineState {
        self.with_index(val)
    }

    /// `ADDI`: `I = (I + VX) mod 65536`; no flag.
    pub open spec fn add_i(self, reg: u8) -> Result<MachineState, VmError> {
        if reg >= 16 {
            Err(VmError::OutOfRangeAddress)
        } else {
            Ok(self.with_index(((self.index + self.reg[reg as int]) % 0x10000) as u16))
        }
    }

    /// `LDSPR`: `I` = the address of the glyph for the low nibble of `VX`.
    pub open spec fn load_sprite(self, reg: u8) -> Result<MachineState, VmError> {
        if reg >= 16 {
            Err(VmError::OutOfRangeAddress)
        } else {
            Ok(self.with_index(((self.reg[reg as int] % 16) * 5) as u16))
        }
    }

    /// `STBCD`: the hundreds, tens and units of `VX` go to `I`, `I+1` and
    /// `I+2`.
    pub open spec fn store_bcd(self, reg: u8) -> Result<MachineState, VmError> {
        if reg >= 16 || self.index + 2 >= 4096 {
            Err(VmError::OutOfRangeAddress)
        } else {
            let v = self.reg[reg as int];
            let i = self.index as int;
            Ok(
                self.with_memory(
                    self.memory.update(i, v / 100).update(i + 1, (v / 10) % 10).update(
                        i + 2,
                        v % 10,
                    ),
                ),
            )
        }
    }

    /// `STORE`: `V0..=VX` go to memory from `I` on.
    pub open spec fn store_registers(self, reg: u8) -> Result<MachineState, VmError> {
        if reg >= 16 || self.index + reg >= 4096 {
            Err(VmError::OutOfRangeAddress)
        } else {
            Ok(
                self.with_memory(
                    Seq::new(
                        4096,
                        |a: int|
                            if self.index <= a <= self.index + reg {
                                self.reg[a - self.index]
                            } else {
                                self.memory[a]
                            },
                    ),
                ),
            )
        }
    }

    /// `READ`: `V0..=VX` come from memory from `I` on.
    pub open spec fn read_registers(self, reg: u8) -> Result<MachineState, VmError> {
        if reg >= 16 || self.index + reg >= 4096 {
            Err(VmError::OutOfRangeAddress)
        } else {
            Ok(
                MachineState {
                    reg: Seq::new(
                        16,
                        |r: int|
                            if r <= reg {
                                self.memory[self.index + r]
                            } else {
                                self.reg[r]
                            },
                    ),
                    ..self
                },
            )
        }
    }

    // ---- screen ---------------------------------------------------------

    /// Whether the `n`-row sprite at `I`, drawn with its top left corner at
    /// (`ox`, `oy`), has a set bit on pixel `p`.  Columns wrap at 64 and
    /// rows at 32.
    pub open spec fn sprite_hits(self, ox: int, oy: int, n: int, p: int) -> bool {
        let column = (p % 64 - ox) % 64;
        let row = (p / 64 - oy) % 32;
        column < 8 && row < n && sprite_bit(self.memory[self.index + row], column as u8)
    }

    /// Whether drawing the sprite turns a pixel off that was on.
    pub open spec fn sprite_collides(self, ox: int, oy: int, n: int) -> bool {
        exists|p: int| 0 <= p < 2048 && self.screen[p] && #[trigger] self.sprite_hits(ox, oy, n, p)
    }

    /// `DRW`: the `n` rows at `I` are combined by exclusive or into the
    /// screen at (`VX mod 64`, `VY mod 32`), wrapping at the edges; then
    /// `VF = 1` if a pixel went from on to off and `0` if none did.
    pub open spec fn draw(self, x: u8, y: u8, n: u8) -> Result<MachineState, VmError> {
        if x >= 16 || y >= 16 || n > 15 || self.index + n > 4096 {
            Err(VmError::OutOfRangeAddress)
        } else {
            let ox = self.reg[x as int] as int % 64;
            let oy = self.reg[y as int] as int % 32;
            Ok(
                self.with_screen(
                    Seq::new(2048, |p: int| self.screen[p] != self.sprite_hits(ox, oy, n as int, p)),
                ).with_flag(
                    if self.sprite_collides(ox, oy, n as int) {
                        1
                    } else {
                        0
                    },
                ),
            )
        }
    }

    /// The state with the pixel at (`x`, `y`) inverted.
    pub open spec fn toggled(self, x: u8, y: u8) -> MachineState {
        self.with_screen(self.screen.update(x + 64 * y, !self.screen[x + 64 * y]))
    }

    /// The state with every pixel of the outermost rows and columns on.
    pub open spec fn set_screen_border(self) -> MachineState {
        self.with_screen(Seq::new(2048, |p: int| self.screen[p] || on_border(p)))
    }

    // ---- keys -----------------------------------------------------------

    /// The state with `keys` as the keys that are down.
    pub open spec fn set_keys(self, keys: Seq<bool>) -> MachineState {
        MachineState { keys, ..self }
    }

    /// `SKP`: skip if the key whose index is in `VX` is down.
    pub open spec fn skip_if_key(self, reg: u8) -> Result<MachineState, VmError> {
        if reg >= 16 || self.reg[reg as int] >= 16 {
            Err(VmError::OutOfRangeAddress)
        } else {
            self.skip_when(self.keys[self.reg[reg as int] as int])
        }
    }

    /// `SKNP`: skip if the key whose index is in `VX` is up.
    pub open spec fn skip_if_no_key(self, reg: u8) -> Result<MachineState, VmError> {
        if reg >= 16 || self.reg[reg as int] >= 16 {
            Err(VmError::OutOfRangeAddress)
        } else {
            self.skip_when(!self.keys[self.reg[reg as int] as int])
        }
    }

    /// `KPR`: if a key is down, `VX` = the lowest index of one; if none is,
    /// the program counter goes back by 2, onto this instruction.
    pub open spec fn await_keypress(self, reg: u8) -> Result<MachineState, VmError> {
        let key = first_pressed(self.keys, 0);
        if reg >= 16 {
            Err(VmError::OutOfRangeAddress)
        } else if key < 16 {
            Ok(self.with_reg(reg as int, key as u8))
        } else if self.pc < 2 {
            Err(VmError::OutOfRangeAddress)
        } else {
            Ok(self.with_pc((self.pc - 2) as u16))
        }
    }

    // ---- timers ---------------------------------------------------------

    /// `LDT`: `VX` = delay timer.
    pub open spec fn load_delay_timer(self, reg: u8) -> Result<MachineState, VmError> {
        if reg >= 16 {
            Err(VmError::OutOfRangeAddress)
        } else {
            Ok(self.with_reg(reg as int, self.delay_timer))
        }
    }

    /// `SETDT`: delay timer = `VX`.
    pub open spec fn set_delay_timer(self, reg: u8) -> Result<MachineState, VmError> {
        if reg >= 16 {
            Err(VmError::OutOfRangeAddress)
        } else {
            Ok(MachineState { delay_timer: self.reg[reg as int], ..self })
        }
    }

    /// `SETST`: sound timer = `VX`.
    pub open spec fn set_sound_timer(self, reg: u8) -> Result<MachineState, VmError> {
        if reg >= 16 {
            Err(VmError::OutOfRangeAddress)
        } else {
            Ok(MachineState { sound_timer: self.reg[reg as int], ..self })
        }
    }

    /// What the sound device has to do at the next 60 Hz tick: start when
    /// the sound timer is running and the device is silent, stop when the
    /// timer has run out and the device is sounding.
    pub open spec fn timer_action(self) -> SoundAction {
        if self.sound_timer != 0 && !self.sound_playing {
            SoundAction::Start
        } else if self.sound_timer == 0 && self.sound_playing {
            SoundAction::Stop
        } else {
            SoundAction::Keep
        }
    }

    /// The state after a 60 Hz tick: each timer that is not zero is one
    /// less, and the device sounds exactly if the sound timer was not zero.
    pub open spec fn run_timers(self) -> MachineState {
        MachineState {
            delay_timer: if self.delay_timer == 0 {
                0
            } else {
                (self.delay_timer - 1) as u8
            },
            sound_timer: if self.sound_timer == 0 {
                0
            } else {
                (self.sound_timer - 1) as u8
            },
            sound_playing: self.sound_timer != 0,
            ..self
        }
    }

    // ---- the engine -----------------------------------------------------

    /// The effect of one decoded instruction.  `random` is the byte that
    /// `RND` draws; no other instruction looks at it.
    pub open spec fn execute(self, op: OpCode, random: u8) -> Result<MachineState, VmError> {
        match op {
            OpCode::CLS => Ok(self.clear_display()),
            OpCode::RET => self.return_subroutine(),
            OpCode::JMP(a) => Ok(self.jump(a)),
            OpCode::CALL(a) => self.call(a),
            OpCode::SE { reg, value } => self.skip_equal(reg, value),
            OpCode::SNE { reg, value } => self.skip_not_equal(reg, value),
            OpCode::RSE { reg_x, reg_y } => self.reg_skip_equal(reg_x, reg_y),
            OpCode::RSNE { reg_x, reg_y } => self.reg_skip_not_equal(reg_x, reg_y),
            OpCode::SET { reg, value } => self.set_register(reg, value),
            OpCode::ADD { reg, value } => self.add(reg, value),
            OpCode::RLD { reg_x, reg_y } => self.reg_load(reg_x, reg_y),
            OpCode::ROR { reg_x, reg_y } => self.reg_or(reg_x, reg_y),
            OpCode::RAND { reg_x, reg_y } => self.reg_and(reg_x, reg_y),
            OpCode::RXOR { reg_x, reg_y } => self.reg_xor(reg_x, reg_y),
            OpCode::RADD { reg_x, reg_y } => self.reg_add(reg_x, reg_y),
            OpCode::RSUB { reg_x, reg_y } => self.reg_sub(reg_x, reg_y),
            OpCode::RSHR(x) => self.reg_shift_right(x),
            OpCode::RSUBN { reg_x, reg_y } => self.reg_sub_not_borrow(reg_x, reg_y),
            OpCode::RSHL(x) => self.reg_shift_left(x),
            OpCode::LD(a) => Ok(self.set_index(a)),
            OpCode::JP(a) => self.jump_location(a),
            OpCode::RND { reg, value } => self.load_random(reg, value, random),
            OpCode::DRW { x, y, n } => self.draw(x, y, n),
            OpCode::SKP(x) => self.skip_if_key(x),
            OpCode::SKNP(x) => self.skip_if_no_key(x),
            OpCode::LDT(x) => self.load_delay_timer(x),
            OpCode::KPR(x) => self.await_keypress(x),
            OpCode::SETDT(x) => self.set_delay_timer(x),
            OpCode::SETST(x) => self.set_sound_timer(x),
            OpCode::ADDI(x) => self.add_i(x),
            OpCode::LDSPR(x) => self.load_sprite(x),
            OpCode::STBCD(x) => self.store_bcd(x),
            OpCode::STORE(x) => self.store_registers(x),
            OpCode::READ(x) => self.read_registers(x),
            OpCode::Unknown(word) => Err(VmError::UnrecognizedInstruction(word)),
        }
    }

    /// One CPU tick: fetch the instruction at the program counter, step past
    /// it, decode it and execute it.
    pub open spec fn step(self, random: u8) -> Result<MachineState, VmError> {
        if !self.can_fetch() {
            Err(VmError::OutOfRangeAddress)
        } else {
            let bytes = self.fetched();
            self.after_fetch().execute(decode(bytes.0, bytes.1), random)
        }
    }

    /// One 60 Hz tick: the keys are refreshed, then the timers run.
    pub open spec fn frame_tick(self, keys: Seq<bool>) -> MachineState {
        self.set_keys(keys).run_timers()
    }
}

} // verus!
