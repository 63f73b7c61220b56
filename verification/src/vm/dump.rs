//! A hexadecimal listing of the whole memory.
use vstd::prelude::*;
use vstd::string::*;

use crate::hex::{hex_byte, hex_word, push_hex_byte, push_hex_word};
use crate::vm::VM;

verus! {

/// The text for the byte at `address`: at the start of each line of 32
/// bytes a line break and the address, as `0x` and four digits, with a
/// colon and a blank; before each group of 8 bytes two blanks; then the two
/// digits of the byte and a blank.
pub open spec fn dump_cell(address: int, byte: u8) -> Seq<char> {
    let line = if address % 32 == 0 {
        "\n0x"@ + hex_word(address as u16) + ": "@
    } else {
        Seq::<char>::empty()
    };
    let group = if address % 8 == 0 {
        "  "@
    } else {
        Seq::<char>::empty()
    };
    line + group + hex_byte(byte) + " "@
}

/// The listing of the first `upto` bytes of `memory`.
pub open spec fn dump_text(memory: Seq<u8>, upto: int) -> Seq<char>
    decreases upto,
{
    if upto <= 0 {
        Seq::<char>::empty()
    } else {
        dump_text(memory, upto - 1) + dump_cell(upto - 1, memory[upto - 1])
    }
}

impl VM {
    /// The listing of all 4096 bytes of memory, 32 to a line.
    pub fn dump_memory(&self) -> (text: String)
        ensures
            text@ == dump_text(self@.memory, 4096),
    {
        let mut text = String::new();
        let mut k: usize = 0;
        while k < 4096
            invariant
                k <= 4096,
                text@ == dump_text(self@.memory, k as int),
            decreases 4096 - k,
        {
            let ghost before = text@;
            if k % 32 == 0 {
                text.append("\n0x");
                push_hex_word(&mut text, k as u16);
                text.append(": ");
            }
            if k % 8 == 0 {
                text.append("  ");
            }
            push_hex_byte(&mut text, self.memory[k]);
            text.append(" ");
            assert(text@ =~= before + dump_cell(k as int, self@.memory[k as int]));
            k += 1;
        }
        text
    }
}

} // verus!
