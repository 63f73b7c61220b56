//! What holds of the abstract machine in general, proved from the
//! definitions of its instructions.
use vstd::prelude::*;

use crate::error::VmError;
use crate::model::{first_pressed, sprite_bit, MachineState, SoundAction};
use crate::opcodes::{decode, OpCode};
use crate::vm::screen::lemma_target_pixel;

verus! {

/// The first key down at or after `from` is down, no key between `from` and
/// it is, and if the search runs to the end no key from `from` on is down.
pub proof fn lemma_first_pressed(keys: Seq<bool>, from: int)
    requires
        0 <= from <= keys.len(),
    ensures
        from <= first_pressed(keys, from) <= keys.len(),
        first_pressed(keys, from) < keys.len() ==> keys[first_pressed(keys, from)],
        forall|k: int| from <= k < first_pressed(keys, from) ==> !keys[k],
    decreases keys.len() - from,
{
    if from < keys.len() && !keys[from] {
        lemma_first_pressed(keys, from + 1);
    }
}

/// Every instruction that succeeds leaves a state of the fixed sizes, with
/// at most sixteen return addresses.
pub proof fn law_execute_keeps_sizes(state: MachineState, op: OpCode, random: u8)
    requires
        state.wf(),
    ensures
        state.execute(op, random) matches Ok(next) ==> next.wf(),
{
}

/// A step that succeeds leaves a state of the fixed sizes, and so does a
/// 60 Hz tick with sixteen keys.
pub proof fn law_ticks_keep_sizes(state: MachineState, random: u8, keys: Seq<bool>)
    requires
        state.wf(),
        keys.len() == 16,
    ensures
        state.step(random) matches Ok(next) ==> next.wf(),
        state.frame_tick(keys).wf(),
{
    if state.can_fetch() {
        let bytes = state.fetched();
        law_execute_keeps_sizes(state.after_fetch(), decode(bytes.0, bytes.1), random);
    }
}

/// The stack is last in, first out: what was pushed is what is popped next,
/// and popping it leaves the stack as it was before the push.  A push is
/// refused exactly when sixteen addresses are held, a pop exactly when
/// none is.
pub proof fn law_push_then_pop(state: MachineState, value: u16)
    requires
        state.wf(),
    ensures
        state.push(value) is Err <==> state.stack.len() == 16,
        state.push(value) is Err ==> state.push(value) == Err::<MachineState, VmError>(
            VmError::StackOverflow,
        ),
        !state.can_pop() <==> state.stack.len() == 0,
        state.push(value) matches Ok(pushed) ==> pushed.can_pop() && pushed.stack.last() == value
            && pushed.popped() == state,
{
    if state.push(value) is Ok {
        let pushed = state.push(value).unwrap();
        assert(pushed.popped().stack =~= state.stack);
        assert(pushed.popped() =~= state);
    }
}

/// The state after pushing `values` one after the other, the first one
/// first, or the error of the first push that fails.
pub open spec fn push_all(state: MachineState, values: Seq<u16>) -> Result<MachineState, VmError>
    decreases values.len(),
{
    if values.len() == 0 {
        Ok(state)
    } else {
        match state.push(values[0]) {
            Ok(pushed) => push_all(pushed, values.skip(1)),
            Err(error) => Err(error),
        }
    }
}

/// The state after popping `count` times and the addresses that came out,
/// the first one first; `None` if the stack runs empty before that.
pub open spec fn pop_all(state: MachineState, count: nat) -> Option<(MachineState, Seq<u16>)>
    decreases count,
{
    if count == 0 {
        Some((state, Seq::<u16>::empty()))
    } else if !state.can_pop() {
        None
    } else {
        match pop_all(state.popped(), (count - 1) as nat) {
            Some((rest, popped)) => Some((rest, seq![state.stack.last()] + popped)),
            None => None,
        }
    }
}

/// Pushing a run of addresses puts them on top of the stack in their
/// order, if they all fit; if they do not, the push that finds the stack
/// full fails with an overflow.
pub proof fn law_push_all(state: MachineState, values: Seq<u16>)
    requires
        state.wf(),
    ensures
        state.stack.len() + values.len() <= 16 ==> push_all(state, values) == Ok::<
            MachineState,
            VmError,
        >(MachineState { stack: state.stack + values, ..state }),
        state.stack.len() + values.len() > 16 ==> push_all(state, values) == Err::<
            MachineState,
            VmError,
        >(VmError::StackOverflow),
    decreases values.len(),
{
    if values.len() == 0 {
        assert(state.stack + values =~= state.stack);
        assert((MachineState { stack: state.stack + values, ..state }) =~= state);
    } else if state.stack.len() < 16 {
        let pushed = state.push(values[0]).unwrap();
        law_push_all(pushed, values.skip(1));
        assert(pushed.stack + values.skip(1) =~= state.stack + values);
    }
}

/// Popping as many addresses as were pushed gives them back in exact
/// reverse order and leaves the machine as it was before the pushes; one
/// more pop than the stack holds addresses has nothing to return.
pub proof fn law_pop_reverses_push(state: MachineState, values: Seq<u16>)
    requires
        state.wf(),
        state.stack.len() + values.len() <= 16,
    ensures
        push_all(state, values) matches Ok(pushed) && pop_all(pushed, values.len()) == Some(
            (state, values.reverse()),
        ),
        pop_all(MachineState { stack: Seq::<u16>::empty(), ..state }, 1) is None,
    decreases values.len(),
{
    law_push_all(state, values);
    let pushed = push_all(state, values).unwrap();
    if values.len() == 0 {
        assert(pushed =~= state);
        assert(values.reverse() =~= Seq::<u16>::empty());
    } else {
        let shorter = values.drop_last();
        law_push_all(state, shorter);
        law_pop_reverses_push(state, shorter);
        let below = push_all(state, shorter).unwrap();
        assert(pushed.stack.last() == values.last());
        assert(pushed.stack.drop_last() =~= below.stack);
        assert(pushed.popped() =~= below);
        assert(seq![values.last()] + shorter.reverse() =~= values.reverse());
    }
}

/// A call followed by a return comes back to where the call was made, with
/// the stack as it was: the depth of the stack is the number of calls that
/// have not returned.
pub proof fn law_call_then_return(state: MachineState, addr: u16)
    requires
        state.wf(),
        state.stack.len() < 16,
    ensures
        state.call(addr) matches Ok(called) && called.pc == addr && called.stack.len()
            == state.stack.len() + 1 && called.return_subroutine() == Ok::<MachineState, VmError>(
            state,
        ),
{
    let called = state.call(addr).unwrap();
    let returned = called.return_subroutine().unwrap();
    assert(returned.stack =~= state.stack);
    assert(returned =~= state);
}

/// Adding two registers wraps at 256 and sets the flag exactly on a carry.
pub proof fn law_reg_add_wraps(state: MachineState, reg_x: u8, reg_y: u8)
    requires
        state.wf(),
        reg_x < 0xF,
        reg_y < 16,
    ensures
        ({
            let x = state.reg[reg_x as int];
            let y = state.reg[reg_y as int];
            &&& state.reg_add(reg_x, reg_y) matches Ok(next)
            &&& x + y <= 255 ==> next.reg[reg_x as int] == x + y && next.reg[0xF] == 0
            &&& x + y > 255 ==> next.reg[reg_x as int] == x + y - 256 && next.reg[0xF] == 1
        }),
{
}

/// Subtracting a larger register from a smaller one wraps at 256 and
/// clears the flag; the flag is set only if the first is strictly greater.
pub proof fn law_reg_sub_wraps(state: MachineState, reg_x: u8, reg_y: u8)
    requires
        state.wf(),
        reg_x < 0xF,
        reg_y < 16,
    ensures
        ({
            let x = state.reg[reg_x as int];
            let y = state.reg[reg_y as int];
            &&& state.reg_sub(reg_x, reg_y) matches Ok(next)
            &&& x < y ==> next.reg[reg_x as int] == x - y + 256 && next.reg[0xF] == 0
            &&& x == y ==> next.reg[reg_x as int] == 0 && next.reg[0xF] == 0
            &&& x > y ==> next.reg[reg_x as int] == x - y && next.reg[0xF] == 1
        }),
{
}

/// When the destination of an arithmetic instruction is the flag register
/// itself, the flag is what stays in it.
pub proof fn law_flag_written_last(state: MachineState, reg_y: u8)
    requires
        state.wf(),
        reg_y < 16,
    ensures
        ({
            let x = state.reg[0xF];
            let y = state.reg[reg_y as int];
            &&& state.reg_add(0xF, reg_y) matches Ok(added) && added.reg[0xF] == (if x + y > 255 {
                1u8
            } else {
                0u8
            })
            &&& state.reg_sub(0xF, reg_y) matches Ok(subtracted) && subtracted.reg[0xF] == (if x
                > y {
                1u8
            } else {
                0u8
            })
            &&& state.reg_shift_right(0xF) matches Ok(shifted) && shifted.reg[0xF] == x % 2
        }),
{
}

/// The sprite has a set bit on pixel `p` exactly if one of its bits, in
/// row `r` and column `c`, lands on `p` when the columns wrap at 64 and the
/// rows at 32, each on its own.
pub proof fn law_sprite_wraps(state: MachineState, ox: int, oy: int, n: int, p: int)
    requires
        0 <= ox < 64,
        0 <= oy < 32,
        0 <= n <= 15,
        0 <= p < 2048,
    ensures
        state.sprite_hits(ox, oy, n, p) <==> exists|r: int, c: int|
            0 <= r < n && 0 <= c < 8 && p == (ox + c) % 64 + 64 * ((oy + r) % 32) && #[trigger] sprite_bit(
                state.memory[state.index + r],
                c as u8,
            ),
{
    let column = (p % 64 - ox) % 64;
    let row = (p / 64 - oy) % 32;
    if state.sprite_hits(ox, oy, n, p) {
        lemma_target_pixel(ox, oy, row, column, p);
        assert(0 <= row < n && 0 <= column < 8 && p == (ox + column) % 64 + 64 * ((oy + row) % 32)
            && sprite_bit(state.memory[state.index + row], column as u8));
    }
    if exists|r: int, c: int|
        0 <= r < n && 0 <= c < 8 && p == (ox + c) % 64 + 64 * ((oy + r) % 32) && #[trigger] sprite_bit(
            state.memory[state.index + r],
            c as u8,
        ) {
        let (r, c) = choose|r: int, c: int|
            0 <= r < n && 0 <= c < 8 && p == (ox + c) % 64 + 64 * ((oy + r) % 32)
                && #[trigger] sprite_bit(state.memory[state.index + r], c as u8);
        lemma_target_pixel(ox, oy, r, c, p);
    }
}

/// Drawing a sprite twice in the same place puts the screen back as it
/// was.  (The coordinates must not come from the flag register, which the
/// first drawing overwrites.)
pub proof fn law_draw_twice_restores(state: MachineState, x: u8, y: u8, n: u8)
    requires
        state.wf(),
        x < 0xF,
        y < 0xF,
        n <= 15,
        state.index + n <= 4096,
    ensures
        state.draw(x, y, n) matches Ok(once) && once.draw(x, y, n) matches Ok(twice)
            && twice.screen == state.screen,
{
    let once = state.draw(x, y, n).unwrap();
    let twice = once.draw(x, y, n).unwrap();
    let ox = state.reg[x as int] as int % 64;
    let oy = state.reg[y as int] as int % 32;
    assert forall|p: int| 0 <= p < 2048 implies twice.screen[p] == state.screen[p] by {
        assert(once.sprite_hits(ox, oy, n as int, p) == state.sprite_hits(ox, oy, n as int, p));
    }
    assert(twice.screen =~= state.screen);
}

/// On a blank screen the first drawing of a sprite reports no collision,
/// and the second, in the same place, reports one exactly if the sprite has
/// a set bit at all, and leaves the screen blank again.
pub proof fn law_draw_twice_on_blank(state: MachineState, x: u8, y: u8, n: u8)
    requires
        state.wf(),
        x < 0xF,
        y < 0xF,
        n <= 15,
        state.index + n <= 4096,
        forall|p: int| 0 <= p < 2048 ==> !state.screen[p],
    ensures
        ({
            let ox = state.reg[x as int] as int % 64;
            let oy = state.reg[y as int] as int % 32;
            &&& state.draw(x, y, n) matches Ok(once)
            &&& once.reg[0xF] == 0
            &&& once.draw(x, y, n) matches Ok(twice)
            &&& twice.screen == state.screen
            &&& twice.reg[0xF] == 1 <==> exists|p: int|
                0 <= p < 2048 && #[trigger] state.sprite_hits(ox, oy, n as int, p)
            &&& twice.reg[0xF] == 0 || twice.reg[0xF] == 1
        }),
{
    law_draw_twice_restores(state, x, y, n);
    let once = state.draw(x, y, n).unwrap();
    let ox = state.reg[x as int] as int % 64;
    let oy = state.reg[y as int] as int % 32;
    if state.sprite_collides(ox, oy, n as int) {
        let p = choose|p: int|
            0 <= p < 2048 && state.screen[p] && #[trigger] state.sprite_hits(ox, oy, n as int, p);
        assert(false);
    }
    if once.sprite_collides(ox, oy, n as int) {
        let p = choose|p: int|
            0 <= p < 2048 && once.screen[p] && #[trigger] once.sprite_hits(ox, oy, n as int, p);
        assert(state.sprite_hits(ox, oy, n as int, p));
    }
    if exists|p: int| 0 <= p < 2048 && #[trigger] state.sprite_hits(ox, oy, n as int, p) {
        let p = choose|p: int| 0 <= p < 2048 && #[trigger] state.sprite_hits(ox, oy, n as int, p);
        assert(once.screen[p]);
        assert(once.sprite_hits(ox, oy, n as int, p));
    }
}

/// The state after `ticks` 60 Hz ticks of the timers.
pub open spec fn after_ticks(state: MachineState, ticks: nat) -> MachineState
    decreases ticks,
{
    if ticks == 0 {
        state
    } else {
        after_ticks(state, (ticks - 1) as nat).run_timers()
    }
}

/// What tick number `tick`, counted from 1, asks of the sound device.
pub open spec fn action_at_tick(state: MachineState, tick: nat) -> SoundAction
    recommends
        tick >= 1,
{
    after_ticks(state, (tick - 1) as nat).timer_action()
}

/// Neither timer ever goes below zero or wraps: after `ticks` ticks each
/// holds what is left of its value, and zero once that is used up.
pub proof fn law_timers_count_down(state: MachineState, ticks: nat)
    ensures
        after_ticks(state, ticks).delay_timer == if ticks <= state.delay_timer {
            state.delay_timer - ticks
        } else {
            0
        },
        after_ticks(state, ticks).sound_timer == if ticks <= state.sound_timer {
            state.sound_timer - ticks
        } else {
            0
        },
        ticks >= 1 ==> (after_ticks(state, ticks).sound_playing <==> ticks <= state.sound_timer),
    decreases ticks,
{
    if ticks > 0 {
        law_timers_count_down(state, (ticks - 1) as nat);
    }
}

/// A sound timer set to `v` on a silent machine makes the device sound for
/// exactly `v` ticks: it is told to start at the first tick and at no
/// other, to stop at tick `v + 1` and at no other, and it is sounding after
/// each of the ticks 1 to `v` and silent after every later one.
pub proof fn law_sound_lasts(state: MachineState, tick: nat)
    requires
        !state.sound_playing,
        state.sound_timer > 0,
        tick >= 1,
    ensures
        action_at_tick(state, tick) == SoundAction::Start <==> tick == 1,
        action_at_tick(state, tick) == SoundAction::Stop <==> tick == state.sound_timer + 1,
        after_ticks(state, tick).sound_playing <==> tick <= state.sound_timer,
{
    law_timers_count_down(state, tick);
    law_timers_count_down(state, (tick - 1) as nat);
}

/// While no key is down, a step on the key-wait instruction changes
/// nothing at all, the program counter included, and a 60 Hz tick never
/// moves the program counter.  Once a key is down, the step moves past the
/// instruction and leaves the lowest index of a key that is down in the
/// destination register, and nothing else is changed.
pub proof fn law_key_wait(state: MachineState, reg: u8, random: u8, keys: Seq<bool>)
    requires
        state.wf(),
        state.can_fetch(),
        decode(state.fetched().0, state.fetched().1) == OpCode::KPR(reg),
    ensures
        reg < 16,
        state.frame_tick(keys).pc == state.pc,
        (forall|k: int| 0 <= k < 16 ==> !state.keys[k]) ==> state.step(random) == Ok::<
            MachineState,
            VmError,
        >(state),
        (exists|k: int| 0 <= k < 16 && state.keys[k]) ==> {
            let key = first_pressed(state.keys, 0);
            &&& 0 <= key < 16
            &&& state.keys[key]
            &&& forall|k: int| 0 <= k < key ==> !state.keys[k]
            &&& state.step(random) == Ok::<MachineState, VmError>(
                state.with_pc((state.pc + 2) as u16).with_reg(reg as int, key as u8),
            )
        },
{
    crate::opcodes::lemma_decode_wf(state.fetched().0, state.fetched().1);
    lemma_first_pressed(state.keys, 0);
    let key = first_pressed(state.keys, 0);
    if forall|k: int| 0 <= k < 16 ==> !state.keys[k] {
        assert(key == 16);
        let next = state.step(random).unwrap();
        assert(next =~= state);
    }
    if exists|k: int| 0 <= k < 16 && state.keys[k] {
        let k = choose|k: int| 0 <= k < 16 && state.keys[k];
        assert(key <= k);
    }
}

} // verus!
