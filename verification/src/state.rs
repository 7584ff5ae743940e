//! The mathematical model of a CHIP-8 machine: what every instruction reads
//! and writes, written over sequences and machine integers.

use vstd::prelude::*;

verus! {

/// Width of the display in pixels.
pub const SCREEN_WIDTH: usize = 64;
/// Height of the display in pixels.
pub const SCREEN_HEIGHT: usize = 32;
/// Number of pixels on the display (`SCREEN_WIDTH * SCREEN_HEIGHT`).
pub const SCREEN_SIZE: usize = 2048;

/// Bytes of addressable memory.
pub const RAM_SIZE_BYTES: usize = 4096;
/// General purpose registers V0..VF.
pub const NUM_V_REGS: usize = 16;
/// Depth of the return-address stack.
pub const STACK_SIZE: usize = 16;
/// Buttons on the hexadecimal keypad.
pub const NUM_KEYS: usize = 16;

/// Where programs are loaded and where execution starts.
pub const START_ADDR: u16 = 0x200;

/// Bytes taken by the built-in font (sixteen glyphs of five bytes each).
pub const FONTSET_SIZE: usize = 80;

/// The abstract state of the machine.
#[verifier::ext_equal]
pub struct MachineState {
    /// Address of the next instruction.
    pub pc: u16,
    /// Main memory.
    pub ram: Seq<u8>,
    /// Pixels, row by row; `true` is lit.
    pub screen: Seq<bool>,
    /// Registers V0..VF; VF doubles as the flag register.
    pub v: Seq<u8>,
    /// The index register I.
    pub i: u16,
    /// Number of return addresses on the stack.
    pub sp: u16,
    /// The return-address stack; slots at or above `sp` are stale.
    pub stack: Seq<u16>,
    /// Which keypad buttons are held down.
    pub keys: Seq<bool>,
    pub delay_timer: u8,
    pub sound_timer: u8,
}

impl MachineState {
    /// Every component has its fixed size and the stack pointer is within the stack.
    pub open spec fn wf(self) -> bool {
        &&& self.ram.len() == RAM_SIZE_BYTES
        &&& self.screen.len() == SCREEN_SIZE
        &&& self.v.len() == NUM_V_REGS
        &&& self.stack.len() == STACK_SIZE
        &&& self.keys.len() == NUM_KEYS
        &&& self.sp <= STACK_SIZE
    }

    /// The state with the program counter moved forward by one instruction.
    pub open spec fn advance_pc(self) -> MachineState {
        MachineState { pc: (self.pc + 2) as u16, ..self }
    }

    /// The state with register `x` set to `val`.
    pub open spec fn set_v(self, x: int, val: u8) -> MachineState {
        MachineState { v: self.v.update(x, val), ..self }
    }

    /// The state with register `x` set to `val`, and then VF set to `flag`.
    pub open spec fn set_v_flag(self, x: int, val: u8, flag: u8) -> MachineState {
        MachineState { v: self.v.update(x, val).update(15, flag), ..self }
    }

    /// The state with `value` pushed on the return-address stack.
    pub open spec fn pushed(self, value: u16) -> MachineState {
        MachineState { stack: self.stack.update(self.sp as int, value), sp: (self.sp + 1) as u16, ..self }
    }

    /// The most recent return address on the stack.
    pub open spec fn top(self) -> u16 {
        self.stack[self.sp - 1]
    }

    /// The state with the most recent return address popped (its slot
    /// keeps the stale value).
    pub open spec fn popped(self) -> MachineState {
        MachineState { sp: (self.sp - 1) as u16, ..self }
    }

    /// The state that skips the next instruction when `cond` holds.
    pub open spec fn skip_if(self, cond: bool) -> MachineState {
        if cond {
            self.advance_pc()
        } else {
            self
        }
    }
}

/// The built-in hexadecimal font: glyph `d` occupies bytes `5 * d .. 5 * d + 5`.
pub open spec fn fontset() -> Seq<u8> {
    seq![
        0xF0u8, 0x90, 0x90, 0x90, 0xF0, // 0
        0x20, 0x60, 0x20, 0x20, 0x70, // 1
        0xF0, 0x10, 0xF0, 0x80, 0xF0, // 2
        0xF0, 0x10, 0xF0, 0x10, 0xF0, // 3
        0x90, 0x90, 0xF0, 0x10, 0x10, // 4
        0xF0, 0x80, 0xF0, 0x10, 0xF0, // 5
        0xF0, 0x80, 0xF0, 0x90, 0xF0, // 6
        0xF0, 0x10, 0x20, 0x40, 0x40, // 7
        0xF0, 0x90, 0xF0, 0x90, 0xF0, // 8
        0xF0, 0x90, 0xF0, 0x10, 0xF0, // 9
        0xF0, 0x90, 0xF0, 0x90, 0x90, // A
        0xE0, 0x90, 0xE0, 0x90, 0xE0, // B
        0xF0, 0x80, 0x80, 0x80, 0xF0, // C
        0xE0, 0x90, 0x90, 0x90, 0xE0, // D
        0xF0, 0x80, 0xF0, 0x80, 0xF0, // E
        0xF0, 0x80, 0xF0, 0x80, 0x80, // F
    ]
}

/// A blank display.
pub open spec fn blank_screen() -> Seq<bool> {
    Seq::new(SCREEN_SIZE as nat, |p: int| false)
}

/// The power-on state: the font at address 0, the rest of memory zeroed,
/// a blank display, all registers, timers and keys cleared, and the
/// program counter at the program start.
pub open spec fn initial_state() -> MachineState {
    MachineState {
        pc: START_ADDR,
        ram: Seq::new(RAM_SIZE_BYTES as nat, |a: int| if a < FONTSET_SIZE { fontset()[a] } else { 0u8 }),
        screen: blank_screen(),
        v: Seq::new(NUM_V_REGS as nat, |r: int| 0u8),
        i: 0,
        sp: 0,
        stack: Seq::new(STACK_SIZE as nat, |k: int| 0u16),
        keys: Seq::new(NUM_KEYS as nat, |k: int| false),
        delay_timer: 0,
        sound_timer: 0,
    }
}

/// The memory after a program image is copied to the program start.
pub open spec fn loaded_ram(ram: Seq<u8>, data: Seq<u8>) -> Seq<u8> {
    Seq::new(ram.len(), |a: int|
        if START_ADDR <= a < START_ADDR + data.len() { data[a - START_ADDR] } else { ram[a] })
}

/// Each timer counts down by one, stopping at zero.
pub open spec fn timers_ticked(s: MachineState) -> MachineState {
    MachineState {
        delay_timer: if s.delay_timer > 0 { (s.delay_timer - 1) as u8 } else { 0 },
        sound_timer: if s.sound_timer > 0 { (s.sound_timer - 1) as u8 } else { 0 },
        ..s
    }
}

/// The state after `n` timer ticks.
pub open spec fn timers_ticked_times(s: MachineState, n: nat) -> MachineState
    decreases n,
{
    if n == 0 {
        s
    } else {
        timers_ticked(timers_ticked_times(s, (n - 1) as nat))
    }
}

/// The positions `(x, y)` of the lit pixels among the first `n` pixels of
/// `screen`, in display order.
pub open spec fn lit_positions(screen: Seq<bool>, n: nat) -> Seq<(usize, usize)>
    decreases n,
{
    if n == 0 {
        Seq::empty()
    } else {
        let p = n - 1;
        let before = lit_positions(screen, (n - 1) as nat);
        if screen[p] {
            before.push(((p % SCREEN_WIDTH as int) as usize, (p / SCREEN_WIDTH as int) as usize))
        } else {
            before
        }
    }
}

} // verus!
