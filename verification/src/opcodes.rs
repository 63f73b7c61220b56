//! The instruction set: decoding two bytes into an instruction and encoding
//! an instruction back into its 16-bit word.
use vstd::prelude::*;

use vstd::string::*;

use crate::bits::{high_nibble, join_bytes, join_nibbles, low_nibble};
use crate::hex::{hex_word, push_hex_word};

verus! {

/// One instruction of the machine.  `x`, `y`, `reg`, `reg_x` and `reg_y` are
/// register indices, `value` is an immediate byte and a bare `u16` is a
/// 12-bit address, except in `Unknown`, which carries the whole word.
#[derive(Debug, Clone, Copy, PartialEq, Eq, Structural)]
#[allow(clippy::upper_case_acronyms)]
pub enum OpCode {
    /// `00E0`: clear the screen.
    CLS,
    /// `00EE`: return from a subroutine.
    RET,
    /// `1NNN`: jump to `NNN`.
    JMP(u16),
    /// `2NNN`: call the subroutine at `NNN`.
    CALL(u16),
    /// `3XNN`: skip the next instruction if `VX == NN`.
    SE { reg: u8, value: u8 },
    /// `4XNN`: skip the next instruction if `VX != NN`.
    SNE { reg: u8, value: u8 },
    /// `5XY_`: skip the next instruction if `VX == VY`.
    RSE { reg_x: u8, reg_y: u8 },
    /// `6XNN`: `VX = NN`.
    SET { reg: u8, value: u8 },
    /// `7XNN`: `VX += NN`, no flag.
    ADD { reg: u8, value: u8 },
    /// `8XY0`: `VX = VY`.
    RLD { reg_x: u8, reg_y: u8 },
    /// `8XY1`: `VX |= VY`.
    ROR { reg_x: u8, reg_y: u8 },
    /// `8XY2`: `VX &= VY`.
    RAND { reg_x: u8, reg_y: u8 },
    /// `8XY3`: `VX ^= VY`.
    RXOR { reg_x: u8, reg_y: u8 },
    /// `8XY4`: `VX += VY`, `VF` = carry.
    RADD { reg_x: u8, reg_y: u8 },
    /// `8XY5`: `VX -= VY`, `VF` = no borrow.
    RSUB { reg_x: u8, reg_y: u8 },
    /// `8X_6`: `VX >>= 1`, `VF` = the bit shifted out.
    RSHR(u8),
    /// `8XY7`: `VX = VY - VX`, `VF` = no borrow.
    RSUBN { reg_x: u8, reg_y: u8 },
    /// `8X_E`: `VX <<= 1`, `VF` = the bit shifted out.
    RSHL(u8),
    /// `9XY_`: skip the next instruction if `VX != VY`.
    RSNE { reg_x: u8, reg_y: u8 },
    /// `ANNN`: `I = NNN`.
    LD(u16),
    /// `BNNN`: jump to `V0 + NNN`.
    JP(u16),
    /// `CXNN`: `VX` = a random byte masked with `NN`.
    RND { reg: u8, value: u8 },
    /// `DXYN`: draw the `N`-row sprite at `I` at (`VX`, `VY`).
    DRW { x: u8, y: u8, n: u8 },
    /// `EX9E`: skip the next instruction if key `VX` is down.
    SKP(u8),
    /// `EXA1`: skip the next instruction if key `VX` is up.
    SKNP(u8),
    /// `FX07`: `VX` = delay timer.
    LDT(u8),
    /// `FX0A`: wait for a key and store its index in `VX`.
    KPR(u8),
    /// `FX15`: delay timer = `VX`.
    SETDT(u8),
    /// `FX18`: sound timer = `VX`.
    SETST(u8),
    /// `FX1E`: `I += VX`.
    ADDI(u8),
    /// `FX29`: `I` = address of the glyph for the low nibble of `VX`.
    LDSPR(u8),
    /// `FX33`: store the decimal digits of `VX` at `I`, `I+1`, `I+2`.
    STBCD(u8),
    /// `FX55`: store `V0..=VX` at `I`.
    STORE(u8),
    /// `FX65`: load `V0..=VX` from `I`.
    READ(u8),
    /// Any word that is none of the above.
    Unknown(u16),
}

/// The big-endian word made of two bytes.
pub open spec fn word_of(high: u8, low: u8) -> u16 {
    (high * 256 + low) as u16
}

/// The instruction that a word stands for.  Every word stands for exactly
/// one of the thirty-five variants.
pub open spec fn decode(high: u8, low: u8) -> OpCode {
    let family = high / 16;
    let x = high % 16;
    let y = low / 16;
    let n = low % 16;
    let address = (x * 256 + low) as u16;
    let unknown = OpCode::Unknown(word_of(high, low));
    if family == 0x0 {
        if high == 0x00 && low == 0xE0 {
            OpCode::CLS
        } else if high == 0x00 && low == 0xEE {
            OpCode::RET
        } else {
            unknown
        }
    } else if family == 0x1 {
        OpCode::JMP(address)
    } else if family == 0x2 {
        OpCode::CALL(address)
    } else if family == 0x3 {
        OpCode::SE { reg: x, value: low }
    } else if family == 0x4 {
        OpCode::SNE { reg: x, value: low }
    } else if family == 0x5 {
        OpCode::RSE { reg_x: x, reg_y: y }
    } else if family == 0x6 {
        OpCode::SET { reg: x, value: low }
    } else if family == 0x7 {
        OpCode::ADD { reg: x, value: low }
    } else if family == 0x8 {
        if n == 0x0 {
            OpCode::RLD { reg_x: x, reg_y: y }
        } else if n == 0x1 {
            OpCode::ROR { reg_x: x, reg_y: y }
        } else if n == 0x2 {
            OpCode::RAND { reg_x: x, reg_y: y }
        } else if n == 0x3 {
            OpCode::RXOR { reg_x: x, reg_y: y }
        } else if n == 0x4 {
            OpCode::RADD { reg_x: x, reg_y: y }
        } else if n == 0x5 {
            OpCode::RSUB { reg_x: x, reg_y: y }
        } else if n == 0x6 {
            OpCode::RSHR(x)
        } else if n == 0x7 {
            OpCode::RSUBN { reg_x: x, reg_y: y }
        } else if n == 0xE {
            OpCode::RSHL(x)
        } else {
            unknown
        }
    } else if family == 0x9 {
        OpCode::RSNE { reg_x: x, reg_y: y }
    } else if family == 0xA {
        OpCode::LD(address)
    } else if family == 0xB {
        OpCode::JP(address)
    } else if family == 0xC {
        OpCode::RND { reg: x, value: low }
    } else if family == 0xD {
        OpCode::DRW { x, y, n }
    } else if family == 0xE {
        if low == 0x9E {
            OpCode::SKP(x)
        } else if low == 0xA1 {
            OpCode::SKNP(x)
        } else {
            unknown
        }
    } else {
        if low == 0x07 {
            OpCode::LDT(x)
        } else if low == 0x0A {
            OpCode::KPR(x)
        } else if low == 0x15 {
            OpCode::SETDT(x)
        } else if low == 0x18 {
            OpCode::SETST(x)
        } else if low == 0x1E {
            OpCode::ADDI(x)
        } else if low == 0x29 {
            OpCode::LDSPR(x)
        } else if low == 0x33 {
            OpCode::STBCD(x)
        } else if low == 0x55 {
            OpCode::STORE(x)
        } else if low == 0x65 {
            OpCode::READ(x)
        } else {
            unknown
        }
    }
}

/// The instruction that a 16-bit word stands for.
pub open spec fn decode_word(word: u16) -> OpCode {
    decode((word / 256) as u8, (word % 256) as u8)
}

/// Whether the decoder reads every bit of the word.  It does not read the
/// last nibble of `5XY_` and `9XY_`, nor the `Y` nibble of the two shifts.
pub open spec fn fully_read(word: u16) -> bool {
    let family = word / 4096;
    let y = (word / 16) % 16;
    let n = word % 16;
    if family == 0x5 || family == 0x9 {
        n == 0
    } else if family == 0x8 && (n == 0x6 || n == 0xE) {
        y == 0
    } else {
        true
    }
}

/// The word `family X low`, with `X` a register index.
pub open spec fn word_x_byte(family: int, x: u8, low: int) -> u16 {
    (family * 4096 + (x % 16) * 256 + low) as u16
}

/// The word `family X Y n`, with `X` and `Y` register indices.
pub open spec fn word_x_y(family: int, x: u8, y: u8, n: int) -> u16 {
    (family * 4096 + (x % 16) * 256 + (y % 16) * 16 + n) as u16
}

/// The word `family NNN`.
pub open spec fn word_address(family: int, address: u16) -> u16 {
    (family * 4096 + address % 4096) as u16
}

impl OpCode {
    /// Whether the operands fit the fields of the instruction word: a
    /// register index and a sprite height in four bits, an address in
    /// twelve, and an `Unknown` word that really is no instruction.
    pub open spec fn wf(self) -> bool {
        match self {
            OpCode::CLS | OpCode::RET => true,
            OpCode::JMP(a) | OpCode::CALL(a) | OpCode::LD(a) | OpCode::JP(a) => a < 0x1000,
            OpCode::SE { reg, value }
            | OpCode::SNE { reg, value }
            | OpCode::SET { reg, value }
            | OpCode::ADD { reg, value }
            | OpCode::RND { reg, value } => reg < 16,
            OpCode::RSE { reg_x, reg_y }
            | OpCode::RLD { reg_x, reg_y }
            | OpCode::ROR { reg_x, reg_y }
            | OpCode::RAND { reg_x, reg_y }
            | OpCode::RXOR { reg_x, reg_y }
            | OpCode::RADD { reg_x, reg_y }
            | OpCode::RSUB { reg_x, reg_y }
            | OpCode::RSUBN { reg_x, reg_y }
            | OpCode::RSNE { reg_x, reg_y } => reg_x < 16 && reg_y < 16,
            OpCode::DRW { x, y, n } => x < 16 && y < 16 && n < 16,
            OpCode::RSHR(x)
            | OpCode::RSHL(x)
            | OpCode::SKP(x)
            | OpCode::SKNP(x)
            | OpCode::LDT(x)
            | OpCode::KPR(x)
            | OpCode::SETDT(x)
            | OpCode::SETST(x)
            | OpCode::ADDI(x)
            | OpCode::LDSPR(x)
            | OpCode::STBCD(x)
            | OpCode::STORE(x)
            | OpCode::READ(x) => x < 16,
            OpCode::Unknown(w) => decode_word(w) == OpCode::Unknown(w),
        }
    }

    /// The 16-bit word of the instruction.  Of an operand too large for its
    /// field only the low bits are kept.
    pub open spec fn word(self) -> u16 {
        match self {
            OpCode::CLS => 0x00E0,
            OpCode::RET => 0x00EE,
            OpCode::JMP(a) => word_address(0x1, a),
            OpCode::CALL(a) => word_address(0x2, a),
            OpCode::SE { reg, value } => word_x_byte(0x3, reg, value as int),
            OpCode::SNE { reg, value } => word_x_byte(0x4, reg, value as int),
            OpCode::RSE { reg_x, reg_y } => word_x_y(0x5, reg_x, reg_y, 0x0),
            OpCode::SET { reg, value } => word_x_byte(0x6, reg, value as int),
            OpCode::ADD { reg, value } => word_x_byte(0x7, reg, value as int),
            OpCode::RLD { reg_x, reg_y } => word_x_y(0x8, reg_x, reg_y, 0x0),
            OpCode::ROR { reg_x, reg_y } => word_x_y(0x8, reg_x, reg_y, 0x1),
            OpCode::RAND { reg_x, reg_y } => word_x_y(0x8, reg_x, reg_y, 0x2),
            OpCode::RXOR { reg_x, reg_y } => word_x_y(0x8, reg_x, reg_y, 0x3),
            OpCode::RADD { reg_x, reg_y } => word_x_y(0x8, reg_x, reg_y, 0x4),
            OpCode::RSUB { reg_x, reg_y } => word_x_y(0x8, reg_x, reg_y, 0x5),
            OpCode::RSHR(x) => word_x_byte(0x8, x, 0x06),
            OpCode::RSUBN { reg_x, reg_y } => word_x_y(0x8, reg_x, reg_y, 0x7),
            OpCode::RSHL(x) => word_x_byte(0x8, x, 0x0E),
            OpCode::RSNE { reg_x, reg_y } => word_x_y(0x9, reg_x, reg_y, 0x0),
            OpCode::LD(a) => word_address(0xA, a),
            OpCode::JP(a) => word_address(0xB, a),
            OpCode::RND { reg, value } => word_x_byte(0xC, reg, value as int),
            OpCode::DRW { x, y, n } => word_x_y(0xD, x, y, n as int % 16),
            OpCode::SKP(x) => word_x_byte(0xE, x, 0x9E),
            OpCode::SKNP(x) => word_x_byte(0xE, x, 0xA1),
            OpCode::LDT(x) => word_x_byte(0xF, x, 0x07),
            OpCode::KPR(x) => word_x_byte(0xF, x, 0x0A),
            OpCode::SETDT(x) => word_x_byte(0xF, x, 0x15),
            OpCode::SETST(x) => word_x_byte(0xF, x, 0x18),
            OpCode::ADDI(x) => word_x_byte(0xF, x, 0x1E),
            OpCode::LDSPR(x) => word_x_byte(0xF, x, 0x29),
            OpCode::STBCD(x) => word_x_byte(0xF, x, 0x33),
            OpCode::STORE(x) => word_x_byte(0xF, x, 0x55),
            OpCode::READ(x) => word_x_byte(0xF, x, 0x65),
            OpCode::Unknown(w) => w,
        }
    }

    /// Decodes the two bytes of an instruction word, the high byte first.
    /// Decoding never fails: a word outside the instruction set is returned
    /// as [`OpCode::Unknown`] with the word in it.
    #[must_use]
    pub fn from_bytes(bytes: (u8, u8)) -> (op: Self)
        ensures
            op == decode(bytes.0, bytes.1),
            op.wf(),
    {
        let high = bytes.0;
        let low = bytes.1;
        let family = high_nibble(high);
        let x = low_nibble(high);
        let y = high_nibble(low);
        let n = low_nibble(low);
        let address = join_bytes(x, low);
        let word = join_bytes(high, low);
        proof {
            lemma_decode_wf(high, low);
        }
        match family {
            0x0 => match (high, low) {
                (0x00, 0xE0) => OpCode::CLS,
                (0x00, 0xEE) => OpCode::RET,
                _ => OpCode::Unknown(word),
            },
            0x1 => OpCode::JMP(address),
            0x2 => OpCode::CALL(address),
            0x3 => OpCode::SE { reg: x, value: low },
            0x4 => OpCode::SNE { reg: x, value: low },
            0x5 => OpCode::RSE { reg_x: x, reg_y: y },
            0x6 => OpCode::SET { reg: x, value: low },
            0x7 => OpCode::ADD { reg: x, value: low },
            0x8 => match n {
                0x0 => OpCode::RLD { reg_x: x, reg_y: y },
                0x1 => OpCode::ROR { reg_x: x, reg_y: y },
                0x2 => OpCode::RAND { reg_x: x, reg_y: y },
                0x3 => OpCode::RXOR { reg_x: x, reg_y: y },
                0x4 => OpCode::RADD { reg_x: x, reg_y: y },
                0x5 => OpCode::RSUB { reg_x: x, reg_y: y },
                0x6 => OpCode::RSHR(x),
                0x7 => OpCode::RSUBN { reg_x: x, reg_y: y },
                0xE => OpCode::RSHL(x),
                _ => OpCode::Unknown(word),
            },
            0x9 => OpCode::RSNE { reg_x: x, reg_y: y },
            0xA => OpCode::LD(address),
            0xB => OpCode::JP(address),
            0xC => OpCode::RND { reg: x, value: low },
            0xD => OpCode::DRW { x, y, n },
            0xE => match low {
                0x9E => OpCode::SKP(x),
                0xA1 => OpCode::SKNP(x),
                _ => OpCode::Unknown(word),
            },
            _ => match low {
                0x07 => OpCode::LDT(x),
                0x0A => OpCode::KPR(x),
                0x15 => OpCode::SETDT(x),
                0x18 => OpCode::SETST(x),
                0x1E => OpCode::ADDI(x),
                0x29 => OpCode::LDSPR(x),
                0x33 => OpCode::STBCD(x),
                0x55 => OpCode::STORE(x),
                0x65 => OpCode::READ(x),
                _ => OpCode::Unknown(word),
            },
        }
    }

    /// Encodes the instruction as its 16-bit word.
    #[must_use]
    pub fn encode(&self) -> (word: u16)
        ensures
            word == self.word(),
    {
        match *self {
            OpCode::CLS => 0x00E0,
            OpCode::RET => 0x00EE,
            OpCode::JMP(a) => encode_address(0x1, a),
            OpCode::CALL(a) => encode_address(0x2, a),
            OpCode::SE { reg, value } => join_bytes(join_nibbles(0x3, reg), value),
            OpCode::SNE { reg, value } => join_bytes(join_nibbles(0x4, reg), value),
            OpCode::RSE { reg_x, reg_y } => encode_x_y(0x5, reg_x, reg_y, 0x0),
            OpCode::SET { reg, value } => join_bytes(join_nibbles(0x6, reg), value),
            OpCode::ADD { reg, value } => join_bytes(join_nibbles(0x7, reg), value),
            OpCode::RLD { reg_x, reg_y } => encode_x_y(0x8, reg_x, reg_y, 0x0),
            OpCode::ROR { reg_x, reg_y } => encode_x_y(0x8, reg_x, reg_y, 0x1),
            OpCode::RAND { reg_x, reg_y } => encode_x_y(0x8, reg_x, reg_y, 0x2),
            OpCode::RXOR { reg_x, reg_y } => encode_x_y(0x8, reg_x, reg_y, 0x3),
            OpCode::RADD { reg_x, reg_y } => encode_x_y(0x8, reg_x, reg_y, 0x4),
            OpCode::RSUB { reg_x, reg_y } => encode_x_y(0x8, reg_x, reg_y, 0x5),
            OpCode::RSHR(x) => join_bytes(join_nibbles(0x8, x), 0x06),
            OpCode::RSUBN { reg_x, reg_y } => encode_x_y(0x8, reg_x, reg_y, 0x7),
            OpCode::RSHL(x) => join_bytes(join_nibbles(0x8, x), 0x0E),
            OpCode::RSNE { reg_x, reg_y } => encode_x_y(0x9, reg_x, reg_y, 0x0),
            OpCode::LD(a) => encode_address(0xA, a),
            OpCode::JP(a) => encode_address(0xB, a),
            OpCode::RND { reg, value } => join_bytes(join_nibbles(0xC, reg), value),
            OpCode::DRW { x, y, n } => encode_x_y(0xD, x, y, n),
            OpCode::SKP(x) => join_bytes(join_nibbles(0xE, x), 0x9E),
            OpCode::SKNP(x) => join_bytes(join_nibbles(0xE, x), 0xA1),
            OpCode::LDT(x) => join_bytes(join_nibbles(0xF, x), 0x07),
            OpCode::KPR(x) => join_bytes(join_nibbles(0xF, x), 0x0A),
            OpCode::SETDT(x) => join_bytes(join_nibbles(0xF, x), 0x15),
            OpCode::SETST(x) => join_bytes(join_nibbles(0xF, x), 0x18),
            OpCode::ADDI(x) => join_bytes(join_nibbles(0xF, x), 0x1E),
            OpCode::LDSPR(x) => join_bytes(join_nibbles(0xF, x), 0x29),
            OpCode::STBCD(x) => join_bytes(join_nibbles(0xF, x), 0x33),
            OpCode::STORE(x) => join_bytes(join_nibbles(0xF, x), 0x55),
            OpCode::READ(x) => join_bytes(join_nibbles(0xF, x), 0x65),
            OpCode::Unknown(w) => w,
        }
    }

    /// The characters of the instruction's mnemonic.
    pub open spec fn mnemonic_text(self) -> Seq<char> {
        match self {
            OpCode::CLS => "CLS"@,
            OpCode::RET => "RET"@,
            OpCode::JMP(_) => "JMP"@,
            OpCode::CALL(_) => "CALL"@,
            OpCode::SE { .. } => "SE"@,
            OpCode::SNE { .. } => "SNE"@,
            OpCode::RSE { .. } => "RSE"@,
            OpCode::SET { .. } => "SET"@,
            OpCode::ADD { .. } => "ADD"@,
            OpCode::RLD { .. } => "RLD"@,
            OpCode::ROR { .. } => "ROR"@,
            OpCode::RAND { .. } => "RAND"@,
            OpCode::RXOR { .. } => "RXOR"@,
            OpCode::RADD { .. } => "RADD"@,
            OpCode::RSUB { .. } => "RSUB"@,
            OpCode::RSHR(_) => "RSHR"@,
            OpCode::RSUBN { .. } => "RSUBN"@,
            OpCode::RSHL(_) => "RSHL"@,
            OpCode::RSNE { .. } => "RSNE"@,
            OpCode::LD(_) => "LD"@,
            OpCode::JP(_) => "JP"@,
            OpCode::RND { .. } => "RND"@,
            OpCode::DRW { .. } => "DRW"@,
            OpCode::SKP(_) => "SKP"@,
            OpCode::SKNP(_) => "SKNP"@,
            OpCode::LDT(_) => "LDT"@,
            OpCode::KPR(_) => "KPR"@,
            OpCode::SETDT(_) => "SETDT"@,
            OpCode::SETST(_) => "SETST"@,
            OpCode::ADDI(_) => "ADDI"@,
            OpCode::LDSPR(_) => "LDSPR"@,
            OpCode::STBCD(_) => "STBCD"@,
            OpCode::STORE(_) => "STORE"@,
            OpCode::READ(_) => "READ"@,
            OpCode::Unknown(_) => "UNK"@,
        }
    }

    /// The characters of the instruction's display form: the mnemonic, then
    /// ` - 0x` and the four hexadecimal digits of the instruction word.
    pub open spec fn display_text(self) -> Seq<char> {
        self.mnemonic_text() + " - 0x"@ + hex_word(self.word())
    }

    /// The mnemonic of the instruction; `UNK` for a word that is none.
    #[must_use]
    pub fn mnemonic(&self) -> (name: &'static str)
        ensures
            name@ == self.mnemonic_text(),
    {
        match self {
            OpCode::CLS => "CLS",
            OpCode::RET => "RET",
            OpCode::JMP(_) => "JMP",
            OpCode::CALL(_) => "CALL",
            OpCode::SE { .. } => "SE",
            OpCode::SNE { .. } => "SNE",
            OpCode::RSE { .. } => "RSE",
            OpCode::SET { .. } => "SET",
            OpCode::ADD { .. } => "ADD",
            OpCode::RLD { .. } => "RLD",
            OpCode::ROR { .. } => "ROR",
            OpCode::RAND { .. } => "RAND",
            OpCode::RXOR { .. } => "RXOR",
            OpCode::RADD { .. } => "RADD",
            OpCode::RSUB { .. } => "RSUB",
            OpCode::RSHR(_) => "RSHR",
            OpCode::RSUBN { .. } => "RSUBN",
            OpCode::RSHL(_) => "RSHL",
            OpCode::RSNE { .. } => "RSNE",
            OpCode::LD(_) => "LD",
            OpCode::JP(_) => "JP",
            OpCode::RND { .. } => "RND",
            OpCode::DRW { .. } => "DRW",
            OpCode::SKP(_) => "SKP",
            OpCode::SKNP(_) => "SKNP",
            OpCode::LDT(_) => "LDT",
            OpCode::KPR(_) => "KPR",
            OpCode::SETDT(_) => "SETDT",
            OpCode::SETST(_) => "SETST",
            OpCode::ADDI(_) => "ADDI",
            OpCode::LDSPR(_) => "LDSPR",
            OpCode::STBCD(_) => "STBCD",
            OpCode::STORE(_) => "STORE",
            OpCode::READ(_) => "READ",
            OpCode::Unknown(_) => "UNK",
        }
    }

    /// The display form of the instruction, such as `JMP - 0x1234`.
    #[must_use]
    pub fn to_string(&self) -> (text: String)
        ensures
            text@ == self.display_text(),
    {
        let mut text = String::from_str(self.mnemonic());
        text.append(" - 0x");
        push_hex_word(&mut text, self.encode());
        text
    }
}

/// The word `family NNN`.
fn encode_address(family: u8, address: u16) -> (word: u16)
    requires
        family < 16,
    ensures
        word == word_address(family as int, address),
{
    let low = (address % 256) as u8;
    let x = ((address / 256) % 16) as u8;
    join_bytes(join_nibbles(family, x), low)
}

/// The word `family X Y n`.
fn encode_x_y(family: u8, x: u8, y: u8, n: u8) -> (word: u16)
    requires
        family < 16,
    ensures
        word == word_x_y(family as int, x, y, n as int % 16),
{
    join_bytes(join_nibbles(family, x), join_nibbles(y, n))
}

/// Whatever the decoder returns has operands that fit their fields, and an
/// unknown instruction carries the very word that was decoded.
pub proof fn lemma_decode_wf(high: u8, low: u8)
    ensures
        decode(high, low).wf(),
        decode(high, low) matches OpCode::Unknown(word) ==> word == word_of(high, low),
{
    let op = decode(high, low);
    if op is Unknown {
        let w = word_of(high, low);
        assert((w / 256) as u8 == high);
        assert((w % 256) as u8 == low);
    }
}

/// The fields of the word `family X Y N`, read back by division.
proof fn lemma_word_fields(family: int, x: int, y: int, n: int)
    requires
        0 <= family < 16,
        0 <= x < 16,
        0 <= y < 16,
        0 <= n < 16,
    ensures
        ({
            let w = family * 4096 + x * 256 + y * 16 + n;
            &&& 0 <= w < 0x10000
            &&& w / 256 == family * 16 + x
            &&& w % 256 == y * 16 + n
            &&& (w / 256) / 16 == family
            &&& (w / 256) % 16 == x
            &&& (w % 256) / 16 == y
            &&& (w % 256) % 16 == n
            &&& w / 4096 == family
            &&& (w / 16) % 16 == y
            &&& w % 16 == n
        }),
{
}

/// What the word `family X low` decodes to, and its fields.
proof fn lemma_decode_bytes(family: int, x: u8, low: u8)
    requires
        0 <= family < 16,
        x < 16,
    ensures
        ({
            let w = (family * 4096 + x * 256 + low) as u16;
            let high = (family * 16 + x) as u8;
            &&& w == family * 4096 + x * 256 + low
            &&& decode_word(w) == decode(high, low)
            &&& high / 16 == family
            &&& high % 16 == x
            &&& word_of(high, low) == w
            &&& w / 4096 == family
            &&& (w / 16) % 16 == low / 16
            &&& w % 16 == low % 16
        }),
{
    lemma_word_fields(family, x as int, low as int / 16, low as int % 16);
}

/// What the word `family X Y N` decodes to, and its fields.
proof fn lemma_decode_nibbles(family: int, x: u8, y: u8, n: u8)
    requires
        0 <= family < 16,
        x < 16,
        y < 16,
        n < 16,
    ensures
        ({
            let w = (family * 4096 + x * 256 + y * 16 + n) as u16;
            let high = (family * 16 + x) as u8;
            let low = (y * 16 + n) as u8;
            &&& w == family * 4096 + x * 256 + y * 16 + n
            &&& decode_word(w) == decode(high, low)
            &&& high / 16 == family
            &&& high % 16 == x
            &&& low / 16 == y
            &&& low % 16 == n
            &&& w / 4096 == family
            &&& (w / 16) % 16 == y
            &&& w % 16 == n
        }),
{
    lemma_word_fields(family, x as int, y as int, n as int);
}

/// Whether `op` is what its own word decodes to, every bit of it read.
spec fn round_trips(op: OpCode) -> bool {
    decode_word(op.word()) == op && fully_read(op.word())
}

/// The round trip for the instructions that carry an address.
proof fn lemma_round_trip_address(a: u16)
    requires
        a < 0x1000,
    ensures
        round_trips(OpCode::JMP(a)),
        round_trips(OpCode::CALL(a)),
        round_trips(OpCode::LD(a)),
        round_trips(OpCode::JP(a)),
{
    let x = (a / 256) as u8;
    let low = (a % 256) as u8;
    assert(x * 256 + low == a && a % 4096 == a);
    assert(round_trips(OpCode::JMP(a))) by {
        lemma_decode_bytes(0x1, x, low);
    }
    assert(round_trips(OpCode::CALL(a))) by {
        lemma_decode_bytes(0x2, x, low);
    }
    assert(round_trips(OpCode::LD(a))) by {
        lemma_decode_bytes(0xA, x, low);
    }
    assert(round_trips(OpCode::JP(a))) by {
        lemma_decode_bytes(0xB, x, low);
    }
}

/// The round trip for the instructions that carry a register and a byte.
proof fn lemma_round_trip_immediate(reg: u8, value: u8)
    requires
        reg < 16,
    ensures
        round_trips(OpCode::SE { reg, value }),
        round_trips(OpCode::SNE { reg, value }),
        round_trips(OpCode::SET { reg, value }),
        round_trips(OpCode::ADD { reg, value }),
        round_trips(OpCode::RND { reg, value }),
{
    assert(round_trips(OpCode::SE { reg, value })) by {
        lemma_decode_bytes(0x3, reg, value);
    }
    assert(round_trips(OpCode::SNE { reg, value })) by {
        lemma_decode_bytes(0x4, reg, value);
    }
    assert(round_trips(OpCode::SET { reg, value })) by {
        lemma_decode_bytes(0x6, reg, value);
    }
    assert(round_trips(OpCode::ADD { reg, value })) by {
        lemma_decode_bytes(0x7, reg, value);
    }
    assert(round_trips(OpCode::RND { reg, value })) by {
        lemma_decode_bytes(0xC, reg, value);
    }
}

/// The round trip for the instructions that carry two registers.
proof fn lemma_round_trip_registers(reg_x: u8, reg_y: u8)
    requires
        reg_x < 16,
        reg_y < 16,
    ensures
        round_trips(OpCode::RSE { reg_x, reg_y }),
        round_trips(OpCode::RSNE { reg_x, reg_y }),
        round_trips(OpCode::RLD { reg_x, reg_y }),
        round_trips(OpCode::ROR { reg_x, reg_y }),
        round_trips(OpCode::RAND { reg_x, reg_y }),
        round_trips(OpCode::RXOR { reg_x, reg_y }),
        round_trips(OpCode::RADD { reg_x, reg_y }),
        round_trips(OpCode::RSUB { reg_x, reg_y }),
        round_trips(OpCode::RSUBN { reg_x, reg_y }),
{
    assert(round_trips(OpCode::RSE { reg_x, reg_y })) by {
        lemma_decode_nibbles(0x5, reg_x, reg_y, 0x0);
    }
    assert(round_trips(OpCode::RSNE { reg_x, reg_y })) by {
        lemma_decode_nibbles(0x9, reg_x, reg_y, 0x0);
    }
    assert(round_trips(OpCode::RLD { reg_x, reg_y })) by {
        lemma_decode_nibbles(0x8, reg_x, reg_y, 0x0);
    }
    assert(round_trips(OpCode::ROR { reg_x, reg_y })) by {
        lemma_decode_nibbles(0x8, reg_x, reg_y, 0x1);
    }
    assert(round_trips(OpCode::RAND { reg_x, reg_y })) by {
        lemma_decode_nibbles(0x8, reg_x, reg_y, 0x2);
    }
    assert(round_trips(OpCode::RXOR { reg_x, reg_y })) by {
        lemma_decode_nibbles(0x8, reg_x, reg_y, 0x3);
    }
    assert(round_trips(OpCode::RADD { reg_x, reg_y })) by {
        lemma_decode_nibbles(0x8, reg_x, reg_y, 0x4);
    }
    assert(round_trips(OpCode::RSUB { reg_x, reg_y })) by {
        lemma_decode_nibbles(0x8, reg_x, reg_y, 0x5);
    }
    assert(round_trips(OpCode::RSUBN { reg_x, reg_y })) by {
        lemma_decode_nibbles(0x8, reg_x, reg_y, 0x7);
    }
}

/// The round trip for drawing.
proof fn lemma_round_trip_draw(x: u8, y: u8, n: u8)
    requires
        x < 16,
        y < 16,
        n < 16,
    ensures
        round_trips(OpCode::DRW { x, y, n }),
{
    lemma_decode_nibbles(0xD, x, y, n);
}

/// The round trip for the instructions that carry one register.
proof fn lemma_round_trip_register(x: u8)
    requires
        x < 16,
    ensures
        round_trips(OpCode::RSHR(x)),
        round_trips(OpCode::RSHL(x)),
        round_trips(OpCode::SKP(x)),
        round_trips(OpCode::SKNP(x)),
        round_trips(OpCode::LDT(x)),
        round_trips(OpCode::KPR(x)),
        round_trips(OpCode::SETDT(x)),
        round_trips(OpCode::SETST(x)),
        round_trips(OpCode::ADDI(x)),
        round_trips(OpCode::LDSPR(x)),
        round_trips(OpCode::STBCD(x)),
        round_trips(OpCode::STORE(x)),
        round_trips(OpCode::READ(x)),
{
    assert(round_trips(OpCode::RSHR(x))) by {
        lemma_decode_bytes(0x8, x, 0x06);
    }
    assert(round_trips(OpCode::RSHL(x))) by {
        lemma_decode_bytes(0x8, x, 0x0E);
    }
    assert(round_trips(OpCode::SKP(x))) by {
        lemma_decode_bytes(0xE, x, 0x9E);
    }
    assert(round_trips(OpCode::SKNP(x))) by {
        lemma_decode_bytes(0xE, x, 0xA1);
    }
    assert(round_trips(OpCode::LDT(x))) by {
        lemma_decode_bytes(0xF, x, 0x07);
    }
    assert(round_trips(OpCode::KPR(x))) by {
        lemma_decode_bytes(0xF, x, 0x0A);
    }
    assert(round_trips(OpCode::SETDT(x))) by {
        lemma_decode_bytes(0xF, x, 0x15);
    }
    assert(round_trips(OpCode::SETST(x))) by {
        lemma_decode_bytes(0xF, x, 0x18);
    }
    assert(round_trips(OpCode::ADDI(x))) by {
        lemma_decode_bytes(0xF, x, 0x1E);
    }
    assert(round_trips(OpCode::LDSPR(x))) by {
        lemma_decode_bytes(0xF, x, 0x29);
    }
    assert(round_trips(OpCode::STBCD(x))) by {
        lemma_decode_bytes(0xF, x, 0x33);
    }
    assert(round_trips(OpCode::STORE(x))) by {
        lemma_decode_bytes(0xF, x, 0x55);
    }
    assert(round_trips(OpCode::READ(x))) by {
        lemma_decode_bytes(0xF, x, 0x65);
    }
}

/// Decoding is the inverse of encoding: every instruction whose operands
/// fit their fields is what its own word decodes to.  So each such
/// instruction has a two-byte encoding, and encoding the decoded word again
/// gives that same word.
pub proof fn law_decode_inverts_encode(op: OpCode)
    requires
        op.wf(),
    ensures
        decode_word(op.word()) == op,
        exists|high: u8, low: u8| #[trigger] decode(high, low) == op,
        fully_read(op.word()),
        decode_word(op.word()).word() == op.word(),
{
    match op {
        OpCode::CLS | OpCode::RET => {
            assert(round_trips(op));
        },
        OpCode::JMP(a) | OpCode::CALL(a) | OpCode::LD(a) | OpCode::JP(a) => {
            lemma_round_trip_address(a);
        },
        OpCode::SE { reg, value }
        | OpCode::SNE { reg, value }
        | OpCode::SET { reg, value }
        | OpCode::ADD { reg, value }
        | OpCode::RND { reg, value } => {
            lemma_round_trip_immediate(reg, value);
        },
        OpCode::RSE { reg_x, reg_y }
        | OpCode::RLD { reg_x, reg_y }
        | OpCode::ROR { reg_x, reg_y }
        | OpCode::RAND { reg_x, reg_y }
        | OpCode::RXOR { reg_x, reg_y }
        | OpCode::RADD { reg_x, reg_y }
        | OpCode::RSUB { reg_x, reg_y }
        | OpCode::RSUBN { reg_x, reg_y }
        | OpCode::RSNE { reg_x, reg_y } => {
            lemma_round_trip_registers(reg_x, reg_y);
        },
        OpCode::DRW { x, y, n } => {
            lemma_round_trip_draw(x, y, n);
        },
        OpCode::RSHR(x)
        | OpCode::RSHL(x)
        | OpCode::SKP(x)
        | OpCode::SKNP(x)
        | OpCode::LDT(x)
        | OpCode::KPR(x)
        | OpCode::SETDT(x)
        | OpCode::SETST(x)
        | OpCode::ADDI(x)
        | OpCode::LDSPR(x)
        | OpCode::STBCD(x)
        | OpCode::STORE(x)
        | OpCode::READ(x) => {
            lemma_round_trip_register(x);
        },
        OpCode::Unknown(w) => {
            assert(round_trips(op));
        },
    }
    assert(round_trips(op));
    assert(decode((op.word() / 256) as u8, (op.word() % 256) as u8) == op);
}

/// Whether the instruction decoded from a word encodes to that word again,
/// provided that the decoder reads all of the word.
spec fn reencodes(high: u8, low: u8) -> bool {
    fully_read(word_of(high, low)) ==> decode(high, low).word() == word_of(high, low)
}

/// Re-encoding in the families `0` to `7`.
proof fn lemma_reencode_low_families(high: u8, low: u8)
    requires
        high / 16 < 8,
    ensures
        reencodes(high, low),
{
    lemma_word_fields(high as int / 16, high as int % 16, low as int / 16, low as int % 16);
}

/// Re-encoding in the family `8`.
proof fn lemma_reencode_arithmetic_family(high: u8, low: u8)
    requires
        high / 16 == 8,
    ensures
        reencodes(high, low),
{
    lemma_word_fields(8, high as int % 16, low as int / 16, low as int % 16);
}

/// Re-encoding in the families `9` to `D`.
proof fn lemma_reencode_middle_families(high: u8, low: u8)
    requires
        9 <= high / 16 <= 0xD,
    ensures
        reencodes(high, low),
{
    lemma_word_fields(high as int / 16, high as int % 16, low as int / 16, low as int % 16);
}

/// Re-encoding in the families `E` and `F`.
proof fn lemma_reencode_device_families(high: u8, low: u8)
    requires
        high / 16 >= 0xE,
    ensures
        reencodes(high, low),
{
    lemma_word_fields(high as int / 16, high as int % 16, low as int / 16, low as int % 16);
}

/// Encoding is the inverse of decoding on every word of which the decoder
/// reads all bits: the decoded instruction encodes to the word it came from.
/// On any word at all, decoding, encoding and decoding again gives the
/// instruction of the first decoding.
pub proof fn law_encode_inverts_decode(high: u8, low: u8)
    ensures
        fully_read(word_of(high, low)) ==> decode(high, low).word() == word_of(high, low),
        decode_word(decode(high, low).word()) == decode(high, low),
{
    assert(decode_word(decode(high, low).word()) == decode(high, low)) by {
        lemma_decode_wf(high, low);
        law_decode_inverts_encode(decode(high, low));
    }
    assert(reencodes(high, low)) by {
        if high / 16 < 8 {
            lemma_reencode_low_families(high, low);
        } else if high / 16 == 8 {
            lemma_reencode_arithmetic_family(high, low);
        } else if high / 16 <= 0xD {
            lemma_reencode_middle_families(high, low);
        } else {
            lemma_reencode_device_families(high, low);
        }
    }
}

} // verus!
