//! The framebuffer: single pixels, the border and sprite drawing.
use vstd::prelude::*;

use crate::error::VmError;
use crate::model::{follows, on_border, sprite_bit, MachineState};
use crate::vm::VM;

verus! {

/// Whether the sprite has a set bit on pixel `p` in one of its first `rows`
/// rows, or in row `rows` in one of the first `columns` columns.
spec fn hits_so_far(
    state: MachineState,
    ox: int,
    oy: int,
    rows: int,
    columns: int,
    p: int,
) -> bool {
    let column = (p % 64 - ox) % 64;
    let row = (p / 64 - oy) % 32;
    &&& column < 8
    &&& sprite_bit(state.memory[state.index + row], column as u8)
    &&& (row < rows || (row == rows && column < columns))
}

/// Whether a pixel that is on lies under a set bit of the part of the
/// sprite drawn so far.
spec fn collides_so_far(state: MachineState, ox: int, oy: int, rows: int, columns: int) -> bool {
    exists|p: int|
        0 <= p < 2048 && state.screen[p] && #[trigger] hits_so_far(state, ox, oy, rows, columns, p)
}

/// A pixel index is its row times 64 plus its column.
pub proof fn lemma_pixel_index(p: int, x: int, y: int)
    requires
        0 <= x < 64,
        0 <= p,
    ensures
        p == y * 64 + x <==> (p / 64 == y && p % 64 == x),
{
}

/// Going `step` places on from `origin` on a ring of 64 arrives at `at`
/// exactly if `at` is `step` places after `origin`.
pub proof fn lemma_wrap_64(at: int, origin: int, step: int)
    requires
        0 <= at < 64,
        0 <= origin < 64,
        0 <= step < 64,
    ensures
        (at - origin) % 64 == step <==> at == (origin + step) % 64,
{
    if at >= origin {
        assert((at - origin) % 64 == at - origin);
    } else {
        assert((at - origin) % 64 == at - origin + 64);
    }
    if origin + step < 64 {
        assert((origin + step) % 64 == origin + step);
    } else {
        assert((origin + step) % 64 == origin + step - 64);
    }
}

/// The same on a ring of 32.
pub proof fn lemma_wrap_32(at: int, origin: int, step: int)
    requires
        0 <= at < 32,
        0 <= origin < 32,
        0 <= step < 32,
    ensures
        (at - origin) % 32 == step <==> at == (origin + step) % 32,
{
    if at >= origin {
        assert((at - origin) % 32 == at - origin);
    } else {
        assert((at - origin) % 32 == at - origin + 32);
    }
    if origin + step < 32 {
        assert((origin + step) % 32 == origin + step);
    } else {
        assert((origin + step) % 32 == origin + step - 32);
    }
}

/// The pixel under column `column` of row `row` of the sprite is the only
/// pixel with that row and column.
pub proof fn lemma_target_pixel(ox: int, oy: int, row: int, column: int, p: int)
    requires
        0 <= ox < 64,
        0 <= oy < 32,
        0 <= row < 32,
        0 <= column < 64,
        0 <= p < 2048,
    ensures
        ((p % 64 - ox) % 64 == column && (p / 64 - oy) % 32 == row) <==> p == (ox + column) % 64
            + 64 * ((oy + row) % 32),
{
    let tx = (ox + column) % 64;
    let ty = (oy + row) % 32;
    lemma_wrap_64(p % 64, ox, column);
    lemma_wrap_32(p / 64, oy, row);
    lemma_pixel_index(p, tx, ty);
}

/// Drawing one more column extends the part drawn so far by at most the
/// target pixel.
proof fn lemma_next_column(state: MachineState, ox: int, oy: int, row: int, column: int)
    requires
        0 <= ox < 64,
        0 <= oy < 32,
        0 <= row < 32,
        0 <= column < 8,
    ensures
        ({
            let target = (ox + column) % 64 + 64 * ((oy + row) % 32);
            let bit = sprite_bit(state.memory[state.index + row], column as u8);
            &&& 0 <= target < 2048
            &&& !hits_so_far(state, ox, oy, row, column, target)
            &&& forall|p: int|
                0 <= p < 2048 ==> (#[trigger] hits_so_far(state, ox, oy, row, column + 1, p) <==> (
                hits_so_far(state, ox, oy, row, column, p) || (p == target && bit)))
            &&& collides_so_far(state, ox, oy, row, column + 1) <==> (collides_so_far(
                state,
                ox,
                oy,
                row,
                column,
            ) || (state.screen[target] && bit))
        }),
{
    let target = (ox + column) % 64 + 64 * ((oy + row) % 32);
    let bit = sprite_bit(state.memory[state.index + row], column as u8);
    lemma_target_pixel(ox, oy, row, column, target);
    assert forall|p: int| 0 <= p < 2048 implies (#[trigger] hits_so_far(
        state,
        ox,
        oy,
        row,
        column + 1,
        p,
    ) <==> (hits_so_far(state, ox, oy, row, column, p) || (p == target && bit))) by {
        lemma_target_pixel(ox, oy, row, column, p);
    }
    if collides_so_far(state, ox, oy, row, column + 1) {
        let p = choose|p: int|
            0 <= p < 2048 && state.screen[p] && #[trigger] hits_so_far(
                state,
                ox,
                oy,
                row,
                column + 1,
                p,
            );
        if !(p == target && bit) {
            assert(hits_so_far(state, ox, oy, row, column, p));
        }
    }
    if collides_so_far(state, ox, oy, row, column) {
        let p = choose|p: int|
            0 <= p < 2048 && state.screen[p] && #[trigger] hits_so_far(
                state,
                ox,
                oy,
                row,
                column,
                p,
            );
        assert(hits_so_far(state, ox, oy, row, column + 1, p));
    }
    if state.screen[target] && bit {
        assert(hits_so_far(state, ox, oy, row, column + 1, target));
    }
}

/// A row drawn to its eighth column is a finished row.
proof fn lemma_next_row(state: MachineState, ox: int, oy: int, row: int)
    ensures
        forall|p: int|
            #[trigger] hits_so_far(state, ox, oy, row, 8, p) == hits_so_far(
                state,
                ox,
                oy,
                row + 1,
                0,
                p,
            ),
        collides_so_far(state, ox, oy, row, 8) == collides_so_far(state, ox, oy, row + 1, 0),
{
    if collides_so_far(state, ox, oy, row, 8) {
        let p = choose|p: int|
            0 <= p < 2048 && state.screen[p] && #[trigger] hits_so_far(state, ox, oy, row, 8, p);
        assert(hits_so_far(state, ox, oy, row + 1, 0, p));
    }
    if collides_so_far(state, ox, oy, row + 1, 0) {
        let p = choose|p: int|
            0 <= p < 2048 && state.screen[p] && #[trigger] hits_so_far(
                state,
                ox,
                oy,
                row + 1,
                0,
                p,
            );
        assert(hits_so_far(state, ox, oy, row, 8, p));
    }
}

/// The part drawn after `n` whole rows is the whole sprite.
proof fn lemma_all_rows(state: MachineState, ox: int, oy: int, n: int)
    ensures
        forall|p: int|
            #[trigger] hits_so_far(state, ox, oy, n, 0, p) == state.sprite_hits(ox, oy, n, p),
        collides_so_far(state, ox, oy, n, 0) == state.sprite_collides(ox, oy, n),
{
    if collides_so_far(state, ox, oy, n, 0) {
        let p = choose|p: int|
            0 <= p < 2048 && state.screen[p] && #[trigger] hits_so_far(state, ox, oy, n, 0, p);
        assert(state.sprite_hits(ox, oy, n, p));
    }
    if state.sprite_collides(ox, oy, n) {
        let p = choose|p: int|
            0 <= p < 2048 && state.screen[p] && #[trigger] state.sprite_hits(ox, oy, n, p);
        assert(hits_so_far(state, ox, oy, n, 0, p));
    }
}

impl VM {
    /// Inverts the pixel at (`x`, `y`) and says whether it was on.
    fn toggle(&mut self, x: u8, y: u8) -> (was_on: bool)
        requires
            x < 64,
            y < 32,
        ensures
            was_on == old(self)@.screen[x + 64 * y],
            final(self)@ == old(self)@.toggled(x, y),
    {
        proof {
            use_type_invariant(&*self);
        }
        let idx = x as usize + (64 * y as usize);
        if self.screen[idx] {
            self.screen[idx] = false;
            true
        } else {
            self.screen[idx] = true;
            false
        }
    }

    /// Inverts the pixel in column `x` of row `y` and returns whether it
    /// was on before, which is a collision.  Fails with
    /// [`VmError::OutOfRangeAddress`] if (`x`, `y`) is not on the screen.
    pub fn set_pixel(&mut self, x: u8, y: u8) -> (result: Result<bool, VmError>)
        ensures
            x < 64 && y < 32 ==> result == Ok::<bool, VmError>(old(self)@.screen[x + 64 * y])
                && final(self)@ == old(self)@.toggled(x, y),
            !(x < 64 && y < 32) ==> result == Err::<bool, VmError>(VmError::OutOfRangeAddress)
                && final(self)@ == old(self)@,
    {
        if x >= 64 || y >= 32 {
            return Err(VmError::OutOfRangeAddress);
        }
        Ok(self.toggle(x, y))
    }

    /// Turns on every pixel of the top and bottom rows and of the left and
    /// right columns.
    pub fn set_screen_border(&mut self)
        ensures
            final(self)@ == old(self)@.set_screen_border(),
    {
        proof {
            use_type_invariant(&*self);
        }
        let ghost pre = self@;
        let mut x: usize = 0;
        while x < 64
            invariant
                x <= 64,
                self.depth <= 16,
                pre.screen.len() == 2048,
                self@ == pre.with_screen(self@.screen),
                forall|p: int|
                    0 <= p < 2048 ==> #[trigger] self@.screen[p] == (pre.screen[p] || ((p / 64 == 0 || p / 64
                        == 31) && p % 64 < x)),
            decreases 64 - x,
        {
            let ghost before = self@.screen;
            self.screen[x] = true;
            self.screen[31 * 64 + x] = true;
            assert forall|p: int| 0 <= p < 2048 implies #[trigger] self@.screen[p] == (pre.screen[p] || ((p
                / 64 == 0 || p / 64 == 31) && p % 64 < x + 1)) by {
                lemma_pixel_index(p, x as int, 0);
                lemma_pixel_index(p, x as int, 31);
                assert(before[p] == (pre.screen[p] || ((p / 64 == 0 || p / 64 == 31) && p % 64
                    < x)));
            }
            x += 1;
        }
        let mut y: usize = 0;
        while y < 32
            invariant
                y <= 32,
                self.depth <= 16,
                pre.screen.len() == 2048,
                self@ == pre.with_screen(self@.screen),
                forall|p: int|
                    0 <= p < 2048 ==> #[trigger] self@.screen[p] == (pre.screen[p] || p / 64 == 0 || p / 64
                        == 31 || ((p % 64 == 0 || p % 64 == 63) && p / 64 < y)),
            decreases 32 - y,
        {
            let ghost before = self@.screen;
            self.screen[y * 64] = true;
            self.screen[y * 64 + 63] = true;
            assert forall|p: int| 0 <= p < 2048 implies #[trigger] self@.screen[p] == (pre.screen[p] || p / 64
                == 0 || p / 64 == 31 || ((p % 64 == 0 || p % 64 == 63) && p / 64 < y + 1)) by {
                lemma_pixel_index(p, 0, y as int);
                lemma_pixel_index(p, 63, y as int);
                assert(before[p] == (pre.screen[p] || p / 64 == 0 || p / 64 == 31 || ((p % 64 == 0
                    || p % 64 == 63) && p / 64 < y)));
            }
            y += 1;
        }
        assert forall|p: int| 0 <= p < 2048 implies #[trigger] self@.screen[p] == (pre.screen[p] || on_border(
            p,
        )) by {
            assert(p / 64 < 32);
        }
        assert(self@.screen =~= pre.set_screen_border().screen);
    }

    /// `DRW` (`DXYN`): draws the `n`-row sprite at `I` with its top left
    /// corner at (`VX mod 64`, `VY mod 32`).  Each row is eight pixels, the
    /// most significant bit leftmost; a set bit inverts its pixel; columns
    /// wrap at the right edge and rows at the bottom.  `VF` is cleared
    /// first and set to 1 as soon as a pixel goes from on to off.  Fails
    /// with [`VmError::OutOfRangeAddress`] if `n` is more than 15 or the
    /// sprite lies beyond memory.
    pub fn draw(&mut self, x: u8, y: u8, n: u8) -> (result: Result<(), VmError>)
        ensures
            follows(old(self)@.draw(x, y, n), old(self)@, final(self)@, result),
    {
        proof {
            use_type_invariant(&*self);
        }
        if x >= 16 || y >= 16 || n > 15 || self.i as usize + n as usize > 4096 {
            return Err(VmError::OutOfRangeAddress);
        }
        let addr = self.i as usize;
        let ox = self.reg[x as usize] % 64;
        let oy = self.reg[y as usize] % 32;
        let ghost pre = self@;
        self.set_carry_flag(0);
        let mut collided = false;
        let mut row: u8 = 0;
        while row < n
            invariant
                row <= n <= 15,
                ox < 64,
                oy < 32,
                addr == pre.index,
                addr + n <= 4096,
                pre.wf(),
                self@ == pre.with_screen(self@.screen).with_flag(
                    if collided {
                        1
                    } else {
                        0
                    },
                ),
                collided == collides_so_far(pre, ox as int, oy as int, row as int, 0),
                forall|p: int|
                    0 <= p < 2048 ==> #[trigger] self@.screen[p] == (pre.screen[p] != hits_so_far(
                        pre,
                        ox as int,
                        oy as int,
                        row as int,
                        0,
                        p,
                    )),
            decreases n - row,
        {
            let data = self.memory[addr + row as usize];
            let mut column: u8 = 0;
            while column < 8
                invariant
                    column <= 8,
                    row < n <= 15,
                    ox < 64,
                    oy < 32,
                    addr == pre.index,
                    addr + n <= 4096,
                        pre.wf(),
                    data == pre.memory[addr + row],
                    self@ == pre.with_screen(self@.screen).with_flag(
                        if collided {
                            1
                        } else {
                            0
                        },
                    ),
                    collided == collides_so_far(
                        pre,
                        ox as int,
                        oy as int,
                        row as int,
                        column as int,
                    ),
                    forall|p: int|
                        0 <= p < 2048 ==> #[trigger] self@.screen[p] == (pre.screen[p] != hits_so_far(
                            pre,
                            ox as int,
                            oy as int,
                            row as int,
                            column as int,
                            p,
                        )),
                decreases 8 - column,
            {
                let px = (ox + column) % 64;
                let py = (oy + row) % 32;
                proof {
                    lemma_next_column(pre, ox as int, oy as int, row as int, column as int);
                }
                if (0b1000_0000u8 >> column) & data != 0 {
                    if self.toggle(px, py) {
                        self.set_carry_flag(1);
                        collided = true;
                    }
                }
                column += 1;
            }
            proof {
                lemma_next_row(pre, ox as int, oy as int, row as int);
            }
            row += 1;
        }
        proof {
            lemma_all_rows(pre, ox as int, oy as int, n as int);
            assert(self@.screen =~= pre.draw(x, y, n).unwrap().screen);
        }
        Ok(())
    }
}

} // verus!
