//! The CHIP-8 instruction set: how a 16-bit opcode decodes, what each
//! instruction does to the machine state, and when it can run at all.

use vstd::prelude::*;
use crate::state::{
    MachineState, SCREEN_WIDTH, SCREEN_HEIGHT, SCREEN_SIZE, RAM_SIZE_BYTES, STACK_SIZE, NUM_KEYS,
    blank_screen,
};

verus! {

/// A decoded instruction. `x` and `y` name registers, `n`, `nn` and `nnn`
/// are the 4-, 8- and 12-bit immediates of the opcode.
pub enum Instruction {
    /// `0000`: do nothing.
    Nop,
    /// `00E0`: clear the display.
    ClearScreen,
    /// `00EE`: return from a subroutine.
    Return,
    /// `1NNN`: jump to NNN.
    Jump { nnn: u16 },
    /// `2NNN`: call the subroutine at NNN.
    Call { nnn: u16 },
    /// `3XNN`: skip the next instruction if VX == NN.
    SkipEqImm { x: u8, nn: u8 },
    /// `4XNN`: skip the next instruction if VX != NN.
    SkipNeImm { x: u8, nn: u8 },
    /// `5XY0`: skip the next instruction if VX == VY.
    SkipEqReg { x: u8, y: u8 },
    /// `6XNN`: VX = NN.
    SetImm { x: u8, nn: u8 },
    /// `7XNN`: VX += NN, wrapping, VF untouched.
    AddImm { x: u8, nn: u8 },
    /// `8XY0`: VX = VY.
    SetReg { x: u8, y: u8 },
    /// `8XY1`: VX |= VY.
    Or { x: u8, y: u8 },
    /// `8XY2`: VX &= VY.
    And { x: u8, y: u8 },
    /// `8XY3`: VX ^= VY.
    Xor { x: u8, y: u8 },
    /// `8XY4`: VX += VY, VF = carry.
    AddReg { x: u8, y: u8 },
    /// `8XY5`: VX -= VY, VF = not borrow.
    SubReg { x: u8, y: u8 },
    /// `8XY6`: VX >>= 1, VF = the bit shifted out.
    ShiftRight { x: u8 },
    /// `8XY7`: VX = VY - VX, VF = not borrow.
    SubRev { x: u8, y: u8 },
    /// `8XYE`: VX <<= 1, VF = the bit shifted out.
    ShiftLeft { x: u8 },
    /// `9XY0`: skip the next instruction if VX != VY.
    SkipNeReg { x: u8, y: u8 },
    /// `ANNN`: I = NNN.
    SetIndex { nnn: u16 },
    /// `BNNN`: jump to V0 + NNN.
    JumpOffset { nnn: u16 },
    /// `CXNN`: VX = a random byte & NN.
    Random { x: u8, nn: u8 },
    /// `DXYN`: draw the N-row sprite at I at (VX, VY), VF = collision.
    Draw { x: u8, y: u8, n: u8 },
    /// `EX9E`: skip the next instruction if the key VX is down.
    SkipKeyPressed { x: u8 },
    /// `EXA1`: skip the next instruction if the key VX is up.
    SkipKeyReleased { x: u8 },
    /// `FX07`: VX = delay timer.
    GetDelay { x: u8 },
    /// `FX0A`: wait for a key; VX = the lowest key held down.
    WaitKey { x: u8 },
    /// `FX15`: delay timer = VX.
    SetDelay { x: u8 },
    /// `FX18`: sound timer = VX.
    SetSound { x: u8 },
    /// `FX1E`: I += VX, wrapping.
    AddIndex { x: u8 },
    /// `FX29`: I = address of the font glyph for VX.
    FontChar { x: u8 },
    /// `FX33`: store the three decimal digits of VX at I, I+1, I+2.
    StoreBcd { x: u8 },
    /// `FX55`: store V0..=VX at I..
    StoreRegs { x: u8 },
    /// `FX65`: load V0..=VX from I..
    LoadRegs { x: u8 },
    /// Any opcode the machine does not implement.
    Unknown,
}

/// The four hexadecimal digits of an opcode, most significant first.
pub open spec fn digit1(op: u16) -> u16 { op / 0x1000 }
pub open spec fn digit2(op: u16) -> u16 { (op / 0x100) % 16 }
pub open spec fn digit3(op: u16) -> u16 { (op / 0x10) % 16 }
pub open spec fn digit4(op: u16) -> u16 { op % 16 }

/// The decimal and hexadecimal readings of the fields of an opcode agree.
pub proof fn lemma_opcode_fields(op: u16)
    by (bit_vector)
    ensures
        (op & 0xF000) >> 12 == op / 0x1000,
        (op & 0x0F00) >> 8 == (op / 0x100) % 16,
        (op & 0x00F0) >> 4 == (op / 0x10) % 16,
        op & 0x000F == op % 16,
        op & 0x00FF == op % 0x100,
        op & 0x0FFF == op % 0x1000,
        op / 0x1000 < 16,
{
}

/// Decodes a 16-bit opcode.
pub open spec fn decode(op: u16) -> Instruction {
    let d1 = digit1(op);
    let d2 = digit2(op);
    let d3 = digit3(op);
    let d4 = digit4(op);
    let x = d2 as u8;
    let y = d3 as u8;
    let nn = (op % 0x100) as u8;
    let nnn = op % 0x1000;
    if d1 == 0 {
        if d2 == 0 && d3 == 0 && d4 == 0 {
            Instruction::Nop
        } else if d2 == 0 && d3 == 0xE && d4 == 0 {
            Instruction::ClearScreen
        } else if d2 == 0 && d3 == 0xE && d4 == 0xE {
            Instruction::Return
        } else {
            Instruction::Unknown
        }
    } else if d1 == 1 {
        Instruction::Jump { nnn }
    } else if d1 == 2 {
        Instruction::Call { nnn }
    } else if d1 == 3 {
        Instruction::SkipEqImm { x, nn }
    } else if d1 == 4 {
        Instruction::SkipNeImm { x, nn }
    } else if d1 == 5 {
        if d4 == 0 { Instruction::SkipEqReg { x, y } } else { Instruction::Unknown }
    } else if d1 == 6 {
        Instruction::SetImm { x, nn }
    } else if d1 == 7 {
        Instruction::AddImm { x, nn }
    } else if d1 == 8 {
        if d4 == 0 {
            Instruction::SetReg { x, y }
        } else if d4 == 1 {
            Instruction::Or { x, y }
        } else if d4 == 2 {
            Instruction::And { x, y }
        } else if d4 == 3 {
            Instruction::Xor { x, y }
        } else if d4 == 4 {
            Instruction::AddReg { x, y }
        } else if d4 == 5 {
            Instruction::SubReg { x, y }
        } else if d4 == 6 {
            Instruction::ShiftRight { x }
        } else if d4 == 7 {
            Instruction::SubRev { x, y }
        } else if d4 == 0xE {
            Instruction::ShiftLeft { x }
        } else {
            Instruction::Unknown
        }
    } else if d1 == 9 {
        if d4 == 0 { Instruction::SkipNeReg { x, y } } else { Instruction::Unknown }
    } else if d1 == 0xA {
        Instruction::SetIndex { nnn }
    } else if d1 == 0xB {
        Instruction::JumpOffset { nnn }
    } else if d1 == 0xC {
        Instruction::Random { x, nn }
    } else if d1 == 0xD {
        Instruction::Draw { x, y, n: d4 as u8 }
    } else if d1 == 0xE {
        if d3 == 9 && d4 == 0xE {
            Instruction::SkipKeyPressed { x }
        } else if d3 == 0xA && d4 == 1 {
            Instruction::SkipKeyReleased { x }
        } else {
            Instruction::Unknown
        }
    } else {
        if d3 == 0 && d4 == 7 {
            Instruction::GetDelay { x }
        } else if d3 == 0 && d4 == 0xA {
            Instruction::WaitKey { x }
        } else if d3 == 1 && d4 == 5 {
            Instruction::SetDelay { x }
        } else if d3 == 1 && d4 == 8 {
            Instruction::SetSound { x }
        } else if d3 == 1 && d4 == 0xE {
            Instruction::AddIndex { x }
        } else if d3 == 2 && d4 == 9 {
            Instruction::FontChar { x }
        } else if d3 == 3 && d4 == 3 {
            Instruction::StoreBcd { x }
        } else if d3 == 5 && d4 == 5 {
            Instruction::StoreRegs { x }
        } else if d3 == 6 && d4 == 5 {
            Instruction::LoadRegs { x }
        } else {
            Instruction::Unknown
        }
    }
}

// ---------------------------------------------------------------------------
// Sprites

/// Whether pixel `col` (0 is the leftmost) of a sprite row is set.
pub open spec fn pixel_set(bits: u8, col: int) -> bool {
    bits & (0x80u8 >> (col as u16)) != 0
}

/// The sprite row that lands on the display row of pixel `p` when the
/// sprite's top edge is at `y0` (sprites wrap around the display).
pub open spec fn sprite_row(p: int, y0: int) -> int {
    (p / SCREEN_WIDTH as int - y0) % (SCREEN_HEIGHT as int)
}

/// The sprite column that lands on the display column of pixel `p` when
/// the sprite's left edge is at `x0`.
pub open spec fn sprite_col(p: int, x0: int) -> int {
    (p % SCREEN_WIDTH as int - x0) % (SCREEN_WIDTH as int)
}

/// Whether the `n`-row sprite stored at `s.i`, drawn with its top-left
/// corner at `(x0, y0)`, has a set pixel on display pixel `p`.
pub open spec fn sprite_covers(s: MachineState, x0: int, y0: int, n: int, p: int) -> bool {
    let r = sprite_row(p, y0);
    let c = sprite_col(p, x0);
    &&& c < 8
    &&& r < n
    &&& pixel_set(s.ram[s.i + r], c)
}

/// Whether drawing that sprite turns off a pixel that was lit.
pub open spec fn sprite_collides(s: MachineState, x0: int, y0: int, n: int) -> bool {
    exists|p: int| 0 <= p < SCREEN_SIZE && #[trigger] sprite_covers(s, x0, y0, n, p) && s.screen[p]
}

/// The display after XOR-ing that sprite onto it.
pub open spec fn sprite_drawn(s: MachineState, x0: int, y0: int, n: int) -> Seq<bool> {
    Seq::new(SCREEN_SIZE as nat, |p: int| s.screen[p] != sprite_covers(s, x0, y0, n, p))
}

/// Going back `b` steps from `a` on a clock of `m` hours lands on `c`
/// exactly when going forward `c` steps from `b` lands on `a`.
pub proof fn lemma_mod_offset(a: int, b: int, c: int, m: int)
    requires
        0 < m,
        0 <= a < m,
        0 <= b,
        0 <= c < m,
    ensures
        ((a - b) % m == c) <==> (a == (b + c) % m),
{
    let d = (b + c) % m;
    let k = (b + c) / m;
    vstd::arithmetic::div_mod::lemma_fundamental_div_mod(b + c, m);
    assert(0 <= d < m);
    assert(a - b == (a - d + c) + (-k) * m) by (nonlinear_arith)
        requires
            b + c == m * k + d,
    ;
    vstd::arithmetic::div_mod::lemma_mod_multiples_vanish(-k, a - d + c, m);
    assert((a - b) % m == (a - d + c) % m);
    let e = a - d + c;
    let j = e / m;
    vstd::arithmetic::div_mod::lemma_fundamental_div_mod(e, m);
    assert(e == m * j + e % m);
    if e % m == c {
        assert(a - d == m * j);
        if j > 0 {
            assert(m * j >= m) by (nonlinear_arith) requires j > 0, m > 0;
        } else if j < 0 {
            assert(m * j <= -m) by (nonlinear_arith) requires j < 0, m > 0;
        } else {
            assert(m * j == 0) by (nonlinear_arith) requires j == 0;
        }
        assert(a == d);
    }
    if a == d {
        assert(e == c);
        vstd::arithmetic::div_mod::lemma_fundamental_div_mod_converse(c, m, 0, c);
        assert(e % m == c);
    }
}

/// The pixels of the display that sprite pixel `(row, col)` lands on, and
/// no other, have that row and column as their sprite coordinates.
pub proof fn lemma_sprite_position(p: int, x0: int, y0: int, row: int, col: int)
    requires
        0 <= p < SCREEN_SIZE,
        0 <= x0,
        0 <= y0,
        0 <= row < SCREEN_HEIGHT,
        0 <= col < SCREEN_WIDTH,
    ensures
        (sprite_row(p, y0) == row && sprite_col(p, x0) == col)
            <==> p == SCREEN_WIDTH * ((y0 + row) % (SCREEN_HEIGHT as int)) + (x0 + col) % (SCREEN_WIDTH as int),
{
    let q = p / 64;
    let r = p % 64;
    vstd::arithmetic::div_mod::lemma_fundamental_div_mod(p, 64);
    assert(0 <= q < 32);
    lemma_mod_offset(r, x0, col, 64);
    lemma_mod_offset(q, y0, row, 32);
    let yr = (y0 + row) % 32;
    let xc = (x0 + col) % 64;
    assert(0 <= xc < 64);
    if p == 64 * yr + xc {
        vstd::arithmetic::div_mod::lemma_fundamental_div_mod_converse(p, 64, yr, xc);
    }
}

// ---------------------------------------------------------------------------
// Keys

/// The lowest key at index `k` or above that is held down.
pub open spec fn first_pressed_from(keys: Seq<bool>, k: int) -> Option<int>
    decreases NUM_KEYS - k,
{
    if k >= NUM_KEYS || k < 0 {
        None
    } else if keys[k] {
        Some(k)
    } else {
        first_pressed_from(keys, k + 1)
    }
}

/// The lowest key that is held down.
pub open spec fn first_pressed(keys: Seq<bool>) -> Option<int> {
    first_pressed_from(keys, 0)
}

// ---------------------------------------------------------------------------
// Semantics

/// Whether `ins` runs in state `s` without faulting: the opcode is known,
/// the stack neither underflows nor overflows, every memory and keypad
/// index is in range, and the program counter does not leave `u16`.
pub open spec fn step_defined(s: MachineState, ins: Instruction) -> bool {
    match ins {
        Instruction::Return => 1 <= s.sp <= STACK_SIZE,
        Instruction::Call { .. } => s.sp < STACK_SIZE,
        Instruction::SkipEqImm { x, nn } => s.v[x as int] == nn ==> s.pc + 2 <= u16::MAX,
        Instruction::SkipNeImm { x, nn } => s.v[x as int] != nn ==> s.pc + 2 <= u16::MAX,
        Instruction::SkipEqReg { x, y } => s.v[x as int] == s.v[y as int] ==> s.pc + 2 <= u16::MAX,
        Instruction::SkipNeReg { x, y } => s.v[x as int] != s.v[y as int] ==> s.pc + 2 <= u16::MAX,
        Instruction::Draw { n, .. } => n == 0 || s.i + n <= RAM_SIZE_BYTES,
        Instruction::SkipKeyPressed { x } => {
            &&& s.v[x as int] < NUM_KEYS
            &&& s.keys[s.v[x as int] as int] ==> s.pc + 2 <= u16::MAX
        },
        Instruction::SkipKeyReleased { x } => {
            &&& s.v[x as int] < NUM_KEYS
            &&& !s.keys[s.v[x as int] as int] ==> s.pc + 2 <= u16::MAX
        },
        Instruction::WaitKey { .. } => first_pressed(s.keys) is Some || s.pc >= 2,
        Instruction::StoreBcd { .. } => s.i + 2 < RAM_SIZE_BYTES,
        Instruction::StoreRegs { x } => s.i + x < RAM_SIZE_BYTES,
        Instruction::LoadRegs { x } => s.i + x < RAM_SIZE_BYTES,
        Instruction::Unknown => false,
        _ => true,
    }
}

/// The state after executing `ins` in state `s`; `rnd` is the random byte
/// that `Random` consumes (every other instruction ignores it).
pub open spec fn step(s: MachineState, ins: Instruction, rnd: u8) -> MachineState {
    match ins {
        Instruction::Nop => s,
        Instruction::ClearScreen => MachineState { screen: blank_screen(), ..s },
        Instruction::Return => MachineState { pc: s.top(), ..s.popped() },
        Instruction::Jump { nnn } => MachineState { pc: nnn, ..s },
        Instruction::Call { nnn } => MachineState { pc: nnn, ..s.pushed(s.pc) },
        Instruction::SkipEqImm { x, nn } => s.skip_if(s.v[x as int] == nn),
        Instruction::SkipNeImm { x, nn } => s.skip_if(s.v[x as int] != nn),
        Instruction::SkipEqReg { x, y } => s.skip_if(s.v[x as int] == s.v[y as int]),
        Instruction::SetImm { x, nn } => s.set_v(x as int, nn),
        Instruction::AddImm { x, nn } => s.set_v(x as int, ((s.v[x as int] + nn) % 256) as u8),
        Instruction::SetReg { x, y } => s.set_v(x as int, s.v[y as int]),
        Instruction::Or { x, y } => s.set_v(x as int, s.v[x as int] | s.v[y as int]),
        Instruction::And { x, y } => s.set_v(x as int, s.v[x as int] & s.v[y as int]),
        Instruction::Xor { x, y } => s.set_v(x as int, s.v[x as int] ^ s.v[y as int]),
        Instruction::AddReg { x, y } => {
            let sum = s.v[x as int] + s.v[y as int];
            s.set_v_flag(x as int, (sum % 256) as u8, if sum > u8::MAX { 1 } else { 0 })
        },
        Instruction::SubReg { x, y } => {
            let diff = s.v[x as int] - s.v[y as int];
            s.set_v_flag(x as int, (diff % 256) as u8, if diff < 0 { 0 } else { 1 })
        },
        Instruction::ShiftRight { x } => {
            let vx = s.v[x as int];
            s.set_v_flag(x as int, vx / 2, vx % 2)
        },
        Instruction::SubRev { x, y } => {
            let diff = s.v[y as int] - s.v[x as int];
            s.set_v_flag(x as int, (diff % 256) as u8, if diff < 0 { 0 } else { 1 })
        },
        Instruction::ShiftLeft { x } => {
            let vx = s.v[x as int];
            s.set_v_flag(x as int, ((vx * 2) % 256) as u8, if vx >= 0x80 { 1 } else { 0 })
        },
        Instruction::SkipNeReg { x, y } => s.skip_if(s.v[x as int] != s.v[y as int]),
        Instruction::SetIndex { nnn } => MachineState { i: nnn, ..s },
        Instruction::JumpOffset { nnn } => MachineState { pc: (s.v[0] + nnn) as u16, ..s },
        Instruction::Random { x, nn } => s.set_v(x as int, rnd & nn),
        Instruction::Draw { x, y, n } => {
            let x0 = s.v[x as int] as int;
            let y0 = s.v[y as int] as int;
            MachineState {
                screen: sprite_drawn(s, x0, y0, n as int),
                v: s.v.update(15, if sprite_collides(s, x0, y0, n as int) { 1 } else { 0 }),
                ..s
            }
        },
        Instruction::SkipKeyPressed { x } => s.skip_if(s.keys[s.v[x as int] as int]),
        Instruction::SkipKeyReleased { x } => s.skip_if(!s.keys[s.v[x as int] as int]),
        Instruction::GetDelay { x } => s.set_v(x as int, s.delay_timer),
        Instruction::WaitKey { x } => match first_pressed(s.keys) {
            Some(k) => s.set_v(x as int, k as u8),
            None => MachineState { pc: (s.pc - 2) as u16, ..s },
        },
        Instruction::SetDelay { x } => MachineState { delay_timer: s.v[x as int], ..s },
        Instruction::SetSound { x } => MachineState { sound_timer: s.v[x as int], ..s },
        Instruction::AddIndex { x } => MachineState { i: ((s.i + s.v[x as int]) % 0x10000) as u16, ..s },
        Instruction::FontChar { x } => MachineState { i: (s.v[x as int] * 5) as u16, ..s },
        Instruction::StoreBcd { x } => {
            let raw = s.v[x as int];
            MachineState {
                ram: s.ram
                    .update(s.i as int, raw / 100 % 10)
                    .update(s.i + 1, raw / 10 % 10)
                    .update(s.i + 2, raw % 10),
                ..s
            }
        },
        Instruction::StoreRegs { x } => MachineState {
            ram: Seq::new(s.ram.len(), |a: int|
                if s.i <= a <= s.i + x { s.v[a - s.i] } else { s.ram[a] }),
            ..s
        },
        Instruction::LoadRegs { x } => MachineState {
            v: Seq::new(s.v.len(), |r: int| if r <= x { s.ram[s.i + r] } else { s.v[r] }),
            ..s
        },
        Instruction::Unknown => s,
    }
}

/// The opcode stored big-endian at the program counter.
pub open spec fn fetched_opcode(s: MachineState) -> u16 {
    (s.ram[s.pc as int] * 256 + s.ram[s.pc + 1]) as u16
}

/// Whether one fetch-decode-execute cycle runs without faulting.
pub open spec fn tick_defined(s: MachineState) -> bool {
    &&& s.pc + 1 < RAM_SIZE_BYTES
    &&& step_defined(s.advance_pc(), decode(fetched_opcode(s)))
}

/// One fetch-decode-execute cycle: the program counter moves past the
/// opcode before the instruction runs.
pub open spec fn tick_step(s: MachineState, rnd: u8) -> MachineState {
    step(s.advance_pc(), decode(fetched_opcode(s)), rnd)
}

} // verus!
