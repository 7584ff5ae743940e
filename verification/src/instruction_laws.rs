//! What each instruction does, stated field by field over the machine
//! state, and which opcode bit patterns select which instruction.

use vstd::prelude::*;
use crate::state::{
    MachineState, NUM_V_REGS, RAM_SIZE_BYTES, SCREEN_SIZE, STACK_SIZE, NUM_KEYS, START_ADDR, FONTSET_SIZE,
    initial_state, loaded_ram,
};
use crate::instruction::{
    Instruction, decode, step, step_defined, fetched_opcode, tick_step, tick_defined, lemma_opcode_fields,
};

verus! {

// ---------------------------------------------------------------------------
// Opcodes

/// Masking an opcode keeps its leading digit and the digits under the mask.
proof fn lemma_opcode_masks(op: u16)
    by (bit_vector)
    ensures
        op & 0xF000 == (op / 0x1000) * 0x1000,
        op & 0xF00F == (op / 0x1000) * 0x1000 + op % 16,
        op & 0xF0FF == (op / 0x1000) * 0x1000 + ((op / 0x10) % 16) * 0x10 + op % 16,
        (op & 0x0F00) >> 8 < 16,
        (op & 0x00F0) >> 4 < 16,
        op & 0x000F < 16,
{
}

/// The opcode table: which bit pattern selects which instruction, and
/// where its operands sit (X in bits 8..12, Y in bits 4..8, N in bits 0..4,
/// NN in bits 0..8, NNN in bits 0..12).
pub proof fn law_decode_table(op: u16)
    ensures
        ({
            let x = ((op & 0x0F00) >> 8) as u8;
            let y = ((op & 0x00F0) >> 4) as u8;
            let n = (op & 0x000F) as u8;
            let nn = (op & 0x00FF) as u8;
            let nnn = op & 0x0FFF;
            &&& op == 0x0000 ==> decode(op) == Instruction::Nop
            &&& op == 0x00E0 ==> decode(op) == Instruction::ClearScreen
            &&& op == 0x00EE ==> decode(op) == Instruction::Return
            &&& op & 0xF000 == 0x1000 ==> decode(op) == Instruction::Jump { nnn }
            &&& op & 0xF000 == 0x2000 ==> decode(op) == Instruction::Call { nnn }
            &&& op & 0xF000 == 0x3000 ==> decode(op) == Instruction::SkipEqImm { x, nn }
            &&& op & 0xF000 == 0x4000 ==> decode(op) == Instruction::SkipNeImm { x, nn }
            &&& op & 0xF00F == 0x5000 ==> decode(op) == Instruction::SkipEqReg { x, y }
            &&& op & 0xF000 == 0x6000 ==> decode(op) == Instruction::SetImm { x, nn }
            &&& op & 0xF000 == 0x7000 ==> decode(op) == Instruction::AddImm { x, nn }
            &&& op & 0xF00F == 0x8000 ==> decode(op) == Instruction::SetReg { x, y }
            &&& op & 0xF00F == 0x8001 ==> decode(op) == Instruction::Or { x, y }
            &&& op & 0xF00F == 0x8002 ==> decode(op) == Instruction::And { x, y }
            &&& op & 0xF00F == 0x8003 ==> decode(op) == Instruction::Xor { x, y }
            &&& op & 0xF00F == 0x8004 ==> decode(op) == Instruction::AddReg { x, y }
            &&& op & 0xF00F == 0x8005 ==> decode(op) == Instruction::SubReg { x, y }
            &&& op & 0xF00F == 0x8006 ==> decode(op) == Instruction::ShiftRight { x }
            &&& op & 0xF00F == 0x8007 ==> decode(op) == Instruction::SubRev { x, y }
            &&& op & 0xF00F == 0x800E ==> decode(op) == Instruction::ShiftLeft { x }
            &&& op & 0xF00F == 0x9000 ==> decode(op) == Instruction::SkipNeReg { x, y }
            &&& op & 0xF000 == 0xA000 ==> decode(op) == Instruction::SetIndex { nnn }
            &&& op & 0xF000 == 0xB000 ==> decode(op) == Instruction::JumpOffset { nnn }
            &&& op & 0xF000 == 0xC000 ==> decode(op) == Instruction::Random { x, nn }
            &&& op & 0xF000 == 0xD000 ==> decode(op) == Instruction::Draw { x, y, n }
            &&& op & 0xF0FF == 0xE09E ==> decode(op) == Instruction::SkipKeyPressed { x }
            &&& op & 0xF0FF == 0xE0A1 ==> decode(op) == Instruction::SkipKeyReleased { x }
            &&& op & 0xF0FF == 0xF007 ==> decode(op) == Instruction::GetDelay { x }
            &&& op & 0xF0FF == 0xF00A ==> decode(op) == Instruction::WaitKey { x }
            &&& op & 0xF0FF == 0xF015 ==> decode(op) == Instruction::SetDelay { x }
            &&& op & 0xF0FF == 0xF018 ==> decode(op) == Instruction::SetSound { x }
            &&& op & 0xF0FF == 0xF01E ==> decode(op) == Instruction::AddIndex { x }
            &&& op & 0xF0FF == 0xF029 ==> decode(op) == Instruction::FontChar { x }
            &&& op & 0xF0FF == 0xF033 ==> decode(op) == Instruction::StoreBcd { x }
            &&& op & 0xF0FF == 0xF055 ==> decode(op) == Instruction::StoreRegs { x }
            &&& op & 0xF0FF == 0xF065 ==> decode(op) == Instruction::LoadRegs { x }
        }),
{
    lemma_opcode_fields(op);
    lemma_opcode_masks(op);
}

/// Every opcode outside the table is unknown.
pub proof fn law_decode_unknown(op: u16)
    ensures
        (op & 0xF000 == 0x0000 && op != 0x0000 && op != 0x00E0 && op != 0x00EE)
            ==> decode(op) is Unknown,
        (op & 0xF000 == 0x5000 && op & 0x000F != 0) ==> decode(op) is Unknown,
        (op & 0xF000 == 0x8000 && (op & 0x000F) > 7 && op & 0x000F != 0xE) ==> decode(op) is Unknown,
        (op & 0xF000 == 0x9000 && op & 0x000F != 0) ==> decode(op) is Unknown,
        (op & 0xF000 == 0xE000 && op & 0x00FF != 0x9E && op & 0x00FF != 0xA1) ==> decode(op) is Unknown,
        (op & 0xF000 == 0xF000 && op & 0x00FF != 0x07 && op & 0x00FF != 0x0A && op & 0x00FF != 0x15
            && op & 0x00FF != 0x18 && op & 0x00FF != 0x1E && op & 0x00FF != 0x29
            && op & 0x00FF != 0x33 && op & 0x00FF != 0x55 && op & 0x00FF != 0x65)
            ==> decode(op) is Unknown,
{
    lemma_opcode_fields(op);
    lemma_opcode_masks(op);
    assert(op & 0x00FF == ((op / 0x10) % 16) * 0x10 + op % 16) by (bit_vector);
}

/// The opcode is stored big-endian: its high byte at the program counter,
/// its low byte right after.
pub proof fn law_fetch_is_big_endian(s: MachineState)
    requires
        s.wf(),
        s.pc + 1 < RAM_SIZE_BYTES,
    ensures
        fetched_opcode(s) >> 8 == s.ram[s.pc as int] as u16,
        fetched_opcode(s) & 0xFF == s.ram[s.pc + 1] as u16,
{
    let h = s.ram[s.pc as int] as u16;
    let l = s.ram[s.pc + 1] as u16;
    assert(fetched_opcode(s) == h * 256 + l);
    assert(((h * 256 + l) as u16) >> 8 == h && ((h * 256 + l) as u16) & 0xFF == l) by (bit_vector)
        requires
            h < 256,
            l < 256,
    ;
}

/// A program loaded into a fresh machine is where execution begins: the
/// first opcode fetched is the program's first two bytes.
pub proof fn law_execution_starts_at_program(data: Seq<u8>)
    requires
        2 <= data.len(),
        START_ADDR + data.len() <= RAM_SIZE_BYTES,
    ensures
        ({
            let s = MachineState { ram: loaded_ram(initial_state().ram, data), ..initial_state() };
            fetched_opcode(s) == data[0] * 256 + data[1]
        }),
{
}

// ---------------------------------------------------------------------------
// Control flow

/// `0000` changes nothing.
pub proof fn law_nop(s: MachineState, r: u8)
    ensures
        step(s, Instruction::Nop, r) == s,
{
}

/// `1NNN` sets the program counter to NNN and changes nothing else.
pub proof fn law_jump(s: MachineState, nnn: u16, r: u8)
    ensures
        step(s, Instruction::Jump { nnn }, r) == (MachineState { pc: nnn, ..s }),
{
}

/// `BNNN` jumps to V0 + NNN.
pub proof fn law_jump_offset(s: MachineState, nnn: u16, r: u8)
    requires
        s.wf(),
        nnn < 0x1000,
    ensures
        step(s, Instruction::JumpOffset { nnn }, r) == (MachineState { pc: (s.v[0] + nnn) as u16, ..s }),
        step(s, Instruction::JumpOffset { nnn }, r).pc == s.v[0] + nnn,
{
}

/// `2NNN` saves the current program counter on top of the stack and jumps
/// to NNN; nothing else changes.
pub proof fn law_call(s: MachineState, nnn: u16, r: u8)
    requires
        s.wf(),
        s.sp < STACK_SIZE,
    ensures
        ({
            let t = step(s, Instruction::Call { nnn }, r);
            &&& t.pc == nnn
            &&& t.sp == s.sp + 1
            &&& t.stack.len() == STACK_SIZE
            &&& t.stack[s.sp as int] == s.pc
            &&& forall|k: int| 0 <= k < STACK_SIZE && k != s.sp ==> t.stack[k] == s.stack[k]
            &&& t == (MachineState { pc: t.pc, sp: t.sp, stack: t.stack, ..s })
        }),
{
}

/// `00EE` jumps to the most recent saved address and drops it from the
/// stack; nothing else changes.
pub proof fn law_return(s: MachineState, r: u8)
    requires
        s.wf(),
        1 <= s.sp,
    ensures
        ({
            let t = step(s, Instruction::Return, r);
            &&& t.pc == s.stack[s.sp - 1]
            &&& t.sp == s.sp - 1
            &&& t == (MachineState { pc: t.pc, sp: t.sp, ..s })
        }),
{
}

/// The conditional skips move the program counter past the next
/// instruction exactly when their condition holds, and change nothing else.
pub proof fn law_skips(s: MachineState, x: u8, y: u8, nn: u8, r: u8)
    requires
        s.wf(),
        x < NUM_V_REGS,
        y < NUM_V_REGS,
    ensures
        ({
            let skipped = MachineState { pc: (s.pc + 2) as u16, ..s };
            let vx = s.v[x as int];
            let vy = s.v[y as int];
            &&& step(s, Instruction::SkipEqImm { x, nn }, r) == if vx == nn { skipped } else { s }
            &&& step(s, Instruction::SkipNeImm { x, nn }, r) == if vx != nn { skipped } else { s }
            &&& step(s, Instruction::SkipEqReg { x, y }, r) == if vx == vy { skipped } else { s }
            &&& step(s, Instruction::SkipNeReg { x, y }, r) == if vx != vy { skipped } else { s }
            &&& vx < 16 ==> step(s, Instruction::SkipKeyPressed { x }, r)
                == if s.keys[vx as int] { skipped } else { s }
            &&& vx < 16 ==> step(s, Instruction::SkipKeyReleased { x }, r)
                == if !s.keys[vx as int] { skipped } else { s }
        }),
{
}

// ---------------------------------------------------------------------------
// Registers

/// `6XNN` sets VX to NN and `7XNN` adds NN to VX modulo 256 (VF untouched);
/// nothing else changes.
pub proof fn law_immediates(s: MachineState, x: u8, nn: u8, r: u8)
    requires
        s.wf(),
        x < NUM_V_REGS,
    ensures
        step(s, Instruction::SetImm { x, nn }, r) == (MachineState { v: s.v.update(x as int, nn), ..s }),
        step(s, Instruction::AddImm { x, nn }, r)
            == (MachineState { v: s.v.update(x as int, ((s.v[x as int] + nn) % 256) as u8), ..s }),
{
}

/// `8XY0`..`8XY3` write VY, VX | VY, VX & VY and VX ^ VY to VX, leaving
/// every other register, VF included, and the rest of the machine alone.
pub proof fn law_register_logic(s: MachineState, x: u8, y: u8, r: u8)
    requires
        s.wf(),
        x < NUM_V_REGS,
        y < NUM_V_REGS,
    ensures
        ({
            let vx = s.v[x as int];
            let vy = s.v[y as int];
            &&& step(s, Instruction::SetReg { x, y }, r) == (MachineState { v: s.v.update(x as int, vy), ..s })
            &&& step(s, Instruction::Or { x, y }, r) == (MachineState { v: s.v.update(x as int, vx | vy), ..s })
            &&& step(s, Instruction::And { x, y }, r) == (MachineState { v: s.v.update(x as int, vx & vy), ..s })
            &&& step(s, Instruction::Xor { x, y }, r) == (MachineState { v: s.v.update(x as int, vx ^ vy), ..s })
        }),
{
}

/// The arithmetic instructions `8XY4`..`8XYE` write only VX and VF.
pub proof fn law_arithmetic_frame(s: MachineState, x: u8, y: u8, r: u8, ins: Instruction)
    requires
        s.wf(),
        x < NUM_V_REGS,
        y < NUM_V_REGS,
        ins == (Instruction::AddReg { x, y }) || ins == (Instruction::SubReg { x, y })
            || ins == (Instruction::SubRev { x, y }) || ins == (Instruction::ShiftRight { x })
            || ins == (Instruction::ShiftLeft { x }),
    ensures
        ({
            let t = step(s, ins, r);
            &&& t == (MachineState { v: t.v, ..s })
            &&& t.v.len() == NUM_V_REGS
            &&& forall|j: int| 0 <= j < NUM_V_REGS && j != x && j != 15 ==> t.v[j] == s.v[j]
        }),
{
}

/// `8XY7` is subtraction in reverse order with borrow: VF is 1 exactly
/// when VY >= VX, and VX holds VY - VX, wrapped by the borrow.
pub proof fn law_sub_rev_with_borrow(s: MachineState, x: u8, y: u8, r: u8)
    requires
        s.wf(),
        x < 15,
        y < NUM_V_REGS,
    ensures
        ({
            let t = step(s, Instruction::SubRev { x, y }, r);
            &&& t.v[15] <= 1
            &&& (t.v[15] == 1 <==> s.v[y as int] >= s.v[x as int])
            &&& t.v[x as int] == s.v[y as int] - s.v[x as int] + 256 * (1 - t.v[15])
        }),
{
}

/// `CXNN` sets VX to the random byte masked by NN and changes nothing else.
pub proof fn law_random(s: MachineState, x: u8, nn: u8, r: u8)
    requires
        s.wf(),
        x < NUM_V_REGS,
    ensures
        step(s, Instruction::Random { x, nn }, r) == (MachineState { v: s.v.update(x as int, r & nn), ..s }),
{
}

// ---------------------------------------------------------------------------
// Timers, index register, keys, memory

/// `FX07` reads the delay timer into VX, `FX15` sets the delay timer and
/// `FX18` the sound timer from VX; nothing else changes.
pub proof fn law_timer_instructions(s: MachineState, x: u8, r: u8)
    requires
        s.wf(),
        x < NUM_V_REGS,
    ensures
        step(s, Instruction::GetDelay { x }, r) == (MachineState { v: s.v.update(x as int, s.delay_timer), ..s }),
        step(s, Instruction::SetDelay { x }, r) == (MachineState { delay_timer: s.v[x as int], ..s }),
        step(s, Instruction::SetSound { x }, r) == (MachineState { sound_timer: s.v[x as int], ..s }),
{
}

/// Setting the delay timer from VX and reading it back into VY copies VX
/// to VY, whatever the sound timer holds.
pub proof fn law_set_then_get_delay(s: MachineState, x: u8, y: u8, r1: u8, r2: u8)
    requires
        s.wf(),
        x < NUM_V_REGS,
        y < NUM_V_REGS,
    ensures
        step(step(s, Instruction::SetDelay { x }, r1), Instruction::GetDelay { x: y }, r2).v[y as int] == s.v[x as int],
        step(step(s, Instruction::SetDelay { x }, r1), Instruction::GetDelay { x: y }, r2).sound_timer == s.sound_timer,
{
}

/// `ANNN` sets I to NNN, `FX1E` adds VX to I modulo 2^16 and `FX29` sets I
/// to five times VX; nothing else changes.
pub proof fn law_index_instructions(s: MachineState, x: u8, nnn: u16, r: u8)
    requires
        s.wf(),
        x < NUM_V_REGS,
    ensures
        step(s, Instruction::SetIndex { nnn }, r) == (MachineState { i: nnn, ..s }),
        step(s, Instruction::AddIndex { x }, r) == (MachineState { i: ((s.i + s.v[x as int]) % 0x10000) as u16, ..s }),
        step(s, Instruction::FontChar { x }, r) == (MachineState { i: (5 * s.v[x as int]) as u16, ..s }),
        step(s, Instruction::FontChar { x }, r).i == 5 * s.v[x as int],
{
}

/// `FX0A` with a key held stores the lowest such key in VX; with none it
/// steps the program counter back so the instruction runs again.
pub proof fn law_wait_key(s: MachineState, x: u8, r: u8)
    requires
        s.wf(),
        x < NUM_V_REGS,
    ensures
        (forall|k: int| 0 <= k < 16 ==> !s.keys[k])
            ==> step(s, Instruction::WaitKey { x }, r) == (MachineState { pc: (s.pc - 2) as u16, ..s }),
        forall|k: int| 0 <= k < 16 && #[trigger] s.keys[k] && (forall|j: int| 0 <= j < k ==> !s.keys[j])
            ==> step(s, Instruction::WaitKey { x }, r) == (MachineState { v: s.v.update(x as int, k as u8), ..s }),
{
    if forall|k: int| 0 <= k < 16 ==> !s.keys[k] {
        lemma_none_pressed_from(s.keys, 0);
    }
    assert forall|k: int| 0 <= k < 16 && #[trigger] s.keys[k] && (forall|j: int| 0 <= j < k ==> !s.keys[j])
        implies step(s, Instruction::WaitKey { x }, r) == (MachineState { v: s.v.update(x as int, k as u8), ..s }) by {
        crate::laws::lemma_first_pressed_from(s.keys, 0, k);
    }
}

proof fn lemma_none_pressed_from(keys: Seq<bool>, from: int)
    requires
        0 <= from <= 16,
        forall|k: int| 0 <= k < 16 ==> !keys[k],
    ensures
        crate::instruction::first_pressed_from(keys, from) is None,
    decreases 16 - from,
{
    if from < 16 {
        lemma_none_pressed_from(keys, from + 1);
    }
}

/// `FX55` copies V0..=VX to memory at I..=I+X, leaving the rest of memory
/// and the machine alone.
pub proof fn law_store_registers(s: MachineState, x: u8, r: u8)
    requires
        s.wf(),
        x < NUM_V_REGS,
        s.i + x < RAM_SIZE_BYTES,
    ensures
        ({
            let t = step(s, Instruction::StoreRegs { x }, r);
            &&& t == (MachineState { ram: t.ram, ..s })
            &&& t.ram.len() == RAM_SIZE_BYTES
            &&& forall|k: int| 0 <= k <= x ==> t.ram[s.i + k] == s.v[k]
            &&& forall|a: int| 0 <= a < RAM_SIZE_BYTES && !(s.i <= a <= s.i + x) ==> t.ram[a] == s.ram[a]
        }),
{
    let t = step(s, Instruction::StoreRegs { x }, r);
    assert forall|k: int| 0 <= k <= x implies t.ram[s.i + k] == s.v[k] by {
        assert(s.i + k - s.i == k);
    }
}

/// `FX65` loads V0..=VX from memory at I..=I+X, leaving the higher
/// registers and the rest of the machine alone.
pub proof fn law_load_registers(s: MachineState, x: u8, r: u8)
    requires
        s.wf(),
        x < NUM_V_REGS,
        s.i + x < RAM_SIZE_BYTES,
    ensures
        ({
            let t = step(s, Instruction::LoadRegs { x }, r);
            &&& t == (MachineState { v: t.v, ..s })
            &&& t.v.len() == NUM_V_REGS
            &&& forall|k: int| 0 <= k <= x ==> t.v[k] == s.ram[s.i + k]
            &&& forall|k: int| x < k < NUM_V_REGS ==> t.v[k] == s.v[k]
        }),
{
}

// ---------------------------------------------------------------------------
// The machine as a whole

/// Power-on: execution starts at address 0x200, the index register, the
/// stack, the timers and all registers are zero, the display is dark, no
/// key is down, and memory above the font is zero.
pub proof fn law_power_on_state()
    ensures
        ({
            let s = initial_state();
            &&& s.wf()
            &&& s.pc == 0x200
            &&& s.i == 0
            &&& s.sp == 0
            &&& s.delay_timer == 0
            &&& s.sound_timer == 0
            &&& forall|j: int| 0 <= j < NUM_V_REGS ==> s.v[j] == 0
            &&& forall|k: int| 0 <= k < STACK_SIZE ==> s.stack[k] == 0
            &&& forall|k: int| 0 <= k < NUM_KEYS ==> !s.keys[k]
            &&& forall|p: int| 0 <= p < SCREEN_SIZE ==> !s.screen[p]
            &&& forall|a: int| FONTSET_SIZE <= a < RAM_SIZE_BYTES ==> s.ram[a] == 0
        }),
{
}

/// Loading a program writes exactly the program's bytes from address
/// 0x200 on and leaves every other byte of memory as it was.
pub proof fn law_load(ram: Seq<u8>, data: Seq<u8>)
    requires
        ram.len() == RAM_SIZE_BYTES,
        0x200 + data.len() <= RAM_SIZE_BYTES,
    ensures
        loaded_ram(ram, data).len() == RAM_SIZE_BYTES,
        forall|k: int| 0 <= k < data.len() ==> loaded_ram(ram, data)[0x200 + k] == data[k],
        forall|a: int| 0 <= a < RAM_SIZE_BYTES && !(0x200 <= a < 0x200 + data.len())
            ==> #[trigger] loaded_ram(ram, data)[a] == ram[a],
{
    assert forall|k: int| 0 <= k < data.len() implies loaded_ram(ram, data)[0x200 + k] == data[k] by {
        assert(0x200 + k - 0x200 == k);
    }
}

/// `00E0` darkens every pixel and changes nothing else.
pub proof fn law_clear_screen(s: MachineState, r: u8)
    ensures
        ({
            let t = step(s, Instruction::ClearScreen, r);
            &&& t == (MachineState { screen: t.screen, ..s })
            &&& t.screen.len() == SCREEN_SIZE
            &&& forall|p: int| 0 <= p < SCREEN_SIZE ==> !t.screen[p]
        }),
{
}

/// A cycle runs the instruction whose opcode sits at the program counter,
/// with the program counter already moved two bytes past it; so a cycle
/// that fetches `0000` only advances the program counter by two.
pub proof fn law_tick(s: MachineState, r: u8)
    requires
        s.wf(),
        s.pc + 1 < RAM_SIZE_BYTES,
    ensures
        tick_step(s, r) == step(MachineState { pc: (s.pc + 2) as u16, ..s },
            decode(((s.ram[s.pc as int] as u16) << 8) | (s.ram[s.pc + 1] as u16)), r),
        s.ram[s.pc as int] == 0 && s.ram[s.pc + 1] == 0 ==> tick_step(s, r) == (MachineState { pc: (s.pc + 2) as u16, ..s }),
{
    let h = s.ram[s.pc as int] as u16;
    let l = s.ram[s.pc + 1] as u16;
    assert((h << 8) | l == h * 256 + l) by (bit_vector)
        requires
            h < 256,
            l < 256,
    ;
}

/// When each instruction can run: the stack must have room for a call and
/// an entry for a return; a skip must not carry the program counter past
/// 0xFFFF; key indices must name one of the sixteen keys; a sprite, a BCD
/// triple and a register block must lie in memory; waiting for a key with
/// none down must be able to step the program counter back; unknown
/// opcodes never run; everything else always runs.
pub proof fn law_when_instructions_run(s: MachineState, x: u8, y: u8, n: u8, nn: u8, nnn: u16)
    requires
        s.wf(),
        x < NUM_V_REGS,
        y < NUM_V_REGS,
    ensures
        step_defined(s, Instruction::Call { nnn }) <==> s.sp < 16,
        step_defined(s, Instruction::Return) <==> 1 <= s.sp,
        step_defined(s, Instruction::SkipEqImm { x, nn }) <==> (s.v[x as int] != nn || s.pc <= 0xFFFD),
        step_defined(s, Instruction::SkipNeImm { x, nn }) <==> (s.v[x as int] == nn || s.pc <= 0xFFFD),
        step_defined(s, Instruction::SkipEqReg { x, y }) <==> (s.v[x as int] != s.v[y as int] || s.pc <= 0xFFFD),
        step_defined(s, Instruction::SkipNeReg { x, y }) <==> (s.v[x as int] == s.v[y as int] || s.pc <= 0xFFFD),
        step_defined(s, Instruction::SkipKeyPressed { x })
            <==> (s.v[x as int] < 16 && (!s.keys[s.v[x as int] as int] || s.pc <= 0xFFFD)),
        step_defined(s, Instruction::SkipKeyReleased { x })
            <==> (s.v[x as int] < 16 && (s.keys[s.v[x as int] as int] || s.pc <= 0xFFFD)),
        step_defined(s, Instruction::Draw { x, y, n }) <==> (n == 0 || s.i + n <= 4096),
        step_defined(s, Instruction::StoreBcd { x }) <==> s.i + 2 < 4096,
        step_defined(s, Instruction::StoreRegs { x }) <==> s.i + x < 4096,
        step_defined(s, Instruction::LoadRegs { x }) <==> s.i + x < 4096,
        step_defined(s, Instruction::WaitKey { x })
            <==> ((exists|k: int| 0 <= k < 16 && #[trigger] s.keys[k]) || s.pc >= 2),
        !step_defined(s, Instruction::Unknown),
        step_defined(s, Instruction::Nop) && step_defined(s, Instruction::ClearScreen),
        step_defined(s, Instruction::Jump { nnn }) && step_defined(s, Instruction::JumpOffset { nnn }),
        step_defined(s, Instruction::SetImm { x, nn }) && step_defined(s, Instruction::AddImm { x, nn }),
        step_defined(s, Instruction::SetReg { x, y }) && step_defined(s, Instruction::Or { x, y }),
        step_defined(s, Instruction::And { x, y }) && step_defined(s, Instruction::Xor { x, y }),
        step_defined(s, Instruction::AddReg { x, y }) && step_defined(s, Instruction::SubReg { x, y }),
        step_defined(s, Instruction::SubRev { x, y }) && step_defined(s, Instruction::ShiftRight { x }),
        step_defined(s, Instruction::ShiftLeft { x }) && step_defined(s, Instruction::SetIndex { nnn }),
        step_defined(s, Instruction::Random { x, nn }) && step_defined(s, Instruction::GetDelay { x }),
        step_defined(s, Instruction::SetDelay { x }) && step_defined(s, Instruction::SetSound { x }),
        step_defined(s, Instruction::AddIndex { x }) && step_defined(s, Instruction::FontChar { x }),
{
    if exists|k: int| 0 <= k < 16 && #[trigger] s.keys[k] {
        let k = choose|k: int| 0 <= k < 16 && #[trigger] s.keys[k];
        lemma_some_pressed_from(s.keys, 0, k);
    } else {
        lemma_none_pressed_from(s.keys, 0);
    }
}

proof fn lemma_some_pressed_from(keys: Seq<bool>, from: int, k: int)
    requires
        0 <= from <= k < 16,
        keys[k],
    ensures
        crate::instruction::first_pressed_from(keys, from) is Some,
    decreases k - from,
{
    if from < k && !keys[from] {
        lemma_some_pressed_from(keys, from + 1, k);
    }
}

/// A cycle can run exactly when the opcode lies in memory and its
/// instruction can run with the program counter moved past it.
pub proof fn law_when_tick_runs(s: MachineState)
    ensures
        tick_defined(s) <==> (s.pc + 1 < RAM_SIZE_BYTES
            && step_defined(MachineState { pc: (s.pc + 2) as u16, ..s }, decode(fetched_opcode(s)))),
{
}

} // verus!
