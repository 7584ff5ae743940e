//! Properties of the machine that hold across instructions and calls.

use vstd::prelude::*;
use crate::state::{
    MachineState, NUM_V_REGS, RAM_SIZE_BYTES, SCREEN_SIZE, STACK_SIZE, START_ADDR, FONTSET_SIZE,
    fontset, initial_state, loaded_ram, timers_ticked, timers_ticked_times,
};
use crate::instruction::{
    Instruction, step, step_defined, decode, fetched_opcode, tick_defined, tick_step,
    first_pressed, sprite_covers, sprite_drawn,
};

verus! {

/// Only `CXNN` depends on the random byte: every other instruction has
/// one outcome.
pub proof fn lemma_step_ignores_random(s: MachineState, ins: Instruction, r1: u8, r2: u8)
    requires
        !(ins is Random),
    ensures
        step(s, ins, r1) == step(s, ins, r2),
{
}

/// The power-on state is well formed.
pub proof fn law_initial_state_wf()
    ensures
        initial_state().wf(),
{
}

/// Every instruction that runs keeps the state well formed: memory,
/// display, registers, stack and keypad keep their sizes and the stack
/// pointer stays within the stack.
pub proof fn law_step_preserves_wf(s: MachineState, op: u16, r: u8)
    requires
        s.wf(),
        step_defined(s, decode(op)),
    ensures
        step(s, decode(op), r).wf(),
{
    let t = step(s, decode(op), r);
    match decode(op) {
        Instruction::Draw { x, y, n } => {
            assert(t.screen.len() == SCREEN_SIZE);
        },
        Instruction::StoreRegs { x } => {
            assert(t.ram.len() == RAM_SIZE_BYTES);
        },
        Instruction::LoadRegs { x } => {
            assert(t.v.len() == NUM_V_REGS);
        },
        Instruction::ClearScreen => {
            assert(t.screen.len() == SCREEN_SIZE);
        },
        _ => {},
    }
}

/// So does every fetch-decode-execute cycle.
pub proof fn law_tick_preserves_wf(s: MachineState, r: u8)
    requires
        s.wf(),
        tick_defined(s),
    ensures
        tick_step(s, r).wf(),
{
    law_step_preserves_wf(s.advance_pc(), fetched_opcode(s), r);
}

/// A subroutine call followed by a return comes back to where the call was
/// made, with the stack as deep as before; only the stale slot above the
/// stack remembers the return address.
pub proof fn law_call_then_return(s: MachineState, nnn: u16, r1: u8, r2: u8)
    requires
        s.wf(),
        step_defined(s, Instruction::Call { nnn }),
    ensures
        step_defined(step(s, Instruction::Call { nnn }, r1), Instruction::Return),
        step(step(s, Instruction::Call { nnn }, r1), Instruction::Return, r2)
            == (MachineState { stack: s.stack.update(s.sp as int, s.pc), ..s }),
{
}

/// Drawing the same sprite twice at the same place leaves the display as
/// it was (as long as neither coordinate register is VF, which the first
/// draw overwrites).
pub proof fn law_draw_twice_restores_screen(s: MachineState, x: u8, y: u8, n: u8, r1: u8, r2: u8)
    requires
        s.wf(),
        x < 15,
        y < 15,
        step_defined(s, Instruction::Draw { x, y, n }),
    ensures
        step_defined(step(s, Instruction::Draw { x, y, n }, r1), Instruction::Draw { x, y, n }),
        step(step(s, Instruction::Draw { x, y, n }, r1), Instruction::Draw { x, y, n }, r2).screen
            == s.screen,
{
    let t = step(s, Instruction::Draw { x, y, n }, r1);
    let x0 = s.v[x as int] as int;
    let y0 = s.v[y as int] as int;
    assert(t.v[x as int] == s.v[x as int]);
    assert(t.v[y as int] == s.v[y as int]);
    assert forall|p: int| 0 <= p < SCREEN_SIZE implies
        #[trigger] sprite_covers(t, x0, y0, n as int, p) == sprite_covers(s, x0, y0, n as int, p) by {}
    assert(sprite_drawn(t, x0, y0, n as int) =~= s.screen);
}

/// Storing V0..=VX and loading them back from the same address changes
/// no register: what the load reads is what the store wrote.
pub proof fn law_store_then_load_registers(s: MachineState, x: u8, r1: u8, r2: u8)
    requires
        s.wf(),
        x < NUM_V_REGS,
        step_defined(s, Instruction::StoreRegs { x }),
    ensures
        step_defined(step(s, Instruction::StoreRegs { x }, r1), Instruction::LoadRegs { x }),
        step(step(s, Instruction::StoreRegs { x }, r1), Instruction::LoadRegs { x }, r2)
            == step(s, Instruction::StoreRegs { x }, r1),
{
    let t = step(s, Instruction::StoreRegs { x }, r1);
    assert(step(t, Instruction::LoadRegs { x }, r2).v =~= t.v);
}

/// `FX33` writes the three decimal digits of VX, most significant first.
pub proof fn law_bcd_digits(s: MachineState, x: u8, r: u8)
    requires
        s.wf(),
        x < NUM_V_REGS,
        step_defined(s, Instruction::StoreBcd { x }),
    ensures
        ({
            let t = step(s, Instruction::StoreBcd { x }, r);
            &&& t.ram[s.i as int] < 10
            &&& t.ram[s.i + 1] < 10
            &&& t.ram[s.i + 2] < 10
            &&& 100 * t.ram[s.i as int] + 10 * t.ram[s.i + 1] + t.ram[s.i + 2] == s.v[x as int]
        }),
{
}

/// `8XY4` is addition with carry: the carry in VF and the sum in VX
/// together hold the exact sum.
pub proof fn law_add_with_carry(s: MachineState, x: u8, y: u8, r: u8)
    requires
        s.wf(),
        x < 15,
        y < NUM_V_REGS,
    ensures
        ({
            let t = step(s, Instruction::AddReg { x, y }, r);
            &&& t.v[15] <= 1
            &&& 256 * t.v[15] + t.v[x as int] == s.v[x as int] + s.v[y as int]
        }),
{
}

/// `8XY5` is subtraction with borrow: VF is 1 exactly when nothing was
/// borrowed, and VX holds the difference, wrapped by the borrow.
pub proof fn law_sub_with_borrow(s: MachineState, x: u8, y: u8, r: u8)
    requires
        s.wf(),
        x < 15,
        y < NUM_V_REGS,
    ensures
        ({
            let t = step(s, Instruction::SubReg { x, y }, r);
            &&& t.v[15] <= 1
            &&& t.v[x as int] == s.v[x as int] - s.v[y as int] + 256 * (1 - t.v[15])
            &&& (t.v[15] == 1 <==> s.v[x as int] >= s.v[y as int])
        }),
{
}

/// `CXNN` never sets a bit of VX that is clear in NN, whatever the random
/// byte.
pub proof fn law_random_is_masked(s: MachineState, x: u8, nn: u8, r: u8)
    requires
        s.wf(),
        x < NUM_V_REGS,
    ensures
        step(s, Instruction::Random { x, nn }, r).v[x as int] & !nn == 0,
{
    assert((r & nn) & !nn == 0) by (bit_vector);
}

/// With no key held down, a cycle that fetches `FX0A` leaves the machine
/// exactly as it was: the instruction waits by running again.
pub proof fn law_wait_key_repeats(s: MachineState, r: u8)
    requires
        s.wf(),
        tick_defined(s),
        decode(fetched_opcode(s)) is WaitKey,
        first_pressed(s.keys) is None,
    ensures
        tick_step(s, r) == s,
{
}

/// With a key held down, a cycle that fetches `FX0A` moves on and stores
/// the lowest key held down.
pub proof fn law_wait_key_takes_lowest_key(s: MachineState, r: u8, k: int)
    requires
        s.wf(),
        tick_defined(s),
        decode(fetched_opcode(s)) is WaitKey,
        0 <= k < 16,
        s.keys[k],
        forall|j: int| 0 <= j < k ==> !s.keys[j],
    ensures
        tick_step(s, r) == s.advance_pc().set_v(decode(fetched_opcode(s))->WaitKey_x as int, k as u8),
{
    lemma_first_pressed_from(s.keys, 0, k);
}

pub proof fn lemma_first_pressed_from(keys: Seq<bool>, from: int, k: int)
    requires
        0 <= from <= k < 16,
        keys[k],
        forall|j: int| from <= j < k ==> !keys[j],
    ensures
        crate::instruction::first_pressed_from(keys, from) == Some(k),
    decreases k - from,
{
    if from < k {
        lemma_first_pressed_from(keys, from + 1, k);
    }
}

/// `FX29` points I at the five-byte glyph of the digit in VX, as long as
/// the font is where power-on put it.
pub proof fn law_font_glyph(s: MachineState, x: u8, r: u8)
    requires
        s.wf(),
        x < NUM_V_REGS,
        s.v[x as int] < 16,
        s.ram.subrange(0, FONTSET_SIZE as int) == fontset(),
    ensures
        ({
            let t = step(s, Instruction::FontChar { x }, r);
            let d = s.v[x as int] as int;
            t.ram.subrange(t.i as int, t.i + 5) == fontset().subrange(5 * d, 5 * d + 5)
        }),
{
    let t = step(s, Instruction::FontChar { x }, r);
    let d = s.v[x as int] as int;
    assert(t.i == 5 * d);
    assert forall|k: int| 0 <= k < 5 implies #[trigger] t.ram.subrange(t.i as int, t.i + 5)[k]
        == fontset().subrange(5 * d, 5 * d + 5)[k] by {
        assert(s.ram.subrange(0, FONTSET_SIZE as int)[5 * d + k] == s.ram[5 * d + k]);
    }
    assert(t.ram.subrange(t.i as int, t.i + 5) =~= fontset().subrange(5 * d, 5 * d + 5));
}

/// The power-on state holds the font at address 0.
pub proof fn law_initial_font(s: MachineState)
    requires
        s == initial_state(),
    ensures
        s.ram.subrange(0, FONTSET_SIZE as int) == fontset(),
{
    assert(s.ram.subrange(0, FONTSET_SIZE as int) =~= fontset());
}

/// Loading a program never touches memory below the program start, where
/// the font lives, and afterwards the program reads back from there.
pub proof fn law_load_keeps_low_memory(ram: Seq<u8>, data: Seq<u8>)
    requires
        ram.len() == RAM_SIZE_BYTES,
        START_ADDR + data.len() <= RAM_SIZE_BYTES,
    ensures
        loaded_ram(ram, data).subrange(0, START_ADDR as int) == ram.subrange(0, START_ADDR as int),
        loaded_ram(ram, data).subrange(START_ADDR as int, START_ADDR + data.len()) == data,
        loaded_ram(ram, data).len() == RAM_SIZE_BYTES,
{
    assert(loaded_ram(ram, data).subrange(0, START_ADDR as int) =~= ram.subrange(0, START_ADDR as int));
    assert(loaded_ram(ram, data).subrange(START_ADDR as int, START_ADDR + data.len()) =~= data);
}

/// The stack never holds more than `STACK_SIZE` return addresses.
pub proof fn law_stack_bounded(s: MachineState, ins: Instruction, r: u8)
    requires
        s.sp <= STACK_SIZE,
        step_defined(s, ins),
    ensures
        step(s, ins, r).sp <= STACK_SIZE,
{
}

/// Pushing a return address and popping it gives the address back and
/// leaves the stack as deep as before; only the stale slot keeps the value.
pub proof fn law_push_then_pop(s: MachineState, value: u16)
    requires
        s.wf(),
        s.sp < STACK_SIZE,
    ensures
        s.pushed(value).top() == value,
        s.pushed(value).popped() == (MachineState { stack: s.stack.update(s.sp as int, value), ..s }),
{
}

/// A timer tick never raises a timer, and lowers each non-zero one by one.
pub proof fn law_timers_never_increase(s: MachineState)
    ensures
        timers_ticked(s).delay_timer <= s.delay_timer,
        timers_ticked(s).sound_timer <= s.sound_timer,
        s.delay_timer > 0 ==> timers_ticked(s).delay_timer == s.delay_timer - 1,
        s.sound_timer > 0 ==> timers_ticked(s).sound_timer == s.sound_timer - 1,
{
}

/// After `n` timer ticks each timer has gone down by `n`, stopping at zero,
/// and nothing else has changed; so at most 255 ticks bring both to zero.
pub proof fn law_timers_run_down(s: MachineState, n: nat)
    ensures
        timers_ticked_times(s, n) == (MachineState {
            delay_timer: if s.delay_timer >= n { (s.delay_timer - n) as u8 } else { 0 },
            sound_timer: if s.sound_timer >= n { (s.sound_timer - n) as u8 } else { 0 },
            ..s
        }),
        n >= s.delay_timer && n >= s.sound_timer ==> {
            &&& timers_ticked_times(s, n).delay_timer == 0
            &&& timers_ticked_times(s, n).sound_timer == 0
        },
    decreases n,
{
    if n > 0 {
        law_timers_run_down(s, (n - 1) as nat);
    }
}

/// `8XYE` moves the top bit of VX into VF: VF is that bit, and VX and VF
/// together hold twice the old VX.
pub proof fn law_shift_left_carries_top_bit(s: MachineState, x: u8, r: u8)
    requires
        s.wf(),
        x < 15,
    ensures
        ({
            let t = step(s, Instruction::ShiftLeft { x }, r);
            &&& t.v[15] <= 1
            &&& (t.v[15] == 1 <==> s.v[x as int] >= 0x80)
            &&& 256 * t.v[15] + t.v[x as int] == 2 * s.v[x as int]
        }),
{
}

/// `8XY6` moves the bottom bit of VX into VF: VX and VF together hold the
/// old VX.
pub proof fn law_shift_right_carries_bottom_bit(s: MachineState, x: u8, r: u8)
    requires
        s.wf(),
        x < 15,
    ensures
        ({
            let t = step(s, Instruction::ShiftRight { x }, r);
            &&& t.v[15] <= 1
            &&& 2 * t.v[x as int] + t.v[15] == s.v[x as int]
        }),
{
}

} // verus!
