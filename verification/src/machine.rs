//! The executable emulator.

use vstd::prelude::*;
use crate::state::{
    MachineState, SCREEN_WIDTH, SCREEN_HEIGHT, SCREEN_SIZE, RAM_SIZE_BYTES, NUM_V_REGS,
    STACK_SIZE, NUM_KEYS, START_ADDR, FONTSET_SIZE, fontset, initial_state, timers_ticked,
    loaded_ram, lit_positions,
};
use crate::instruction::{
    Instruction, decode, digit1, step, step_defined, pixel_set, sprite_row, sprite_col, sprite_covers,
    sprite_collides, sprite_drawn, first_pressed, first_pressed_from, fetched_opcode,
    tick_defined, tick_step, lemma_opcode_fields, lemma_sprite_position,
};

verus! {

/// A random byte from the thread-local generator.
///
/// Calls `rand::random::<u8>()`, which draws from rand's thread-local
/// generator. Nothing is claimed of the byte: any value may come back, and
/// two calls may differ. The call panics only when the operating system's
/// random source fails to seed the generator, which no argument controls.
#[verifier::external_body]
fn random_byte() -> u8 {
    rand::random::<u8>()
}

/// The built-in font, glyph after glyph.
fn fontset_bytes() -> (font: [u8; FONTSET_SIZE])
    ensures
        font@ == fontset(),
{
    let font: [u8; FONTSET_SIZE] = [
        0xF0, 0x90, 0x90, 0x90, 0xF0, // 0
        0x20, 0x60, 0x20, 0x20, 0x70, // 1
        0xF0, 0x10, 0xF0, 0x80, 0xF0, // 2
        0xF0, 0x10, 0xF0, 0x10, 0xF0, // 3
        0x90, 0x90, 0xF0, 0x10, 0x10, // 4
        0xF0, 0x80, 0xF0, 0x10, 0xF0, // 5
        0xF0, 0x80, 0xF0, 0x90, 0xF0, // 6
        0xF0, 0x10, 0x20, 0x40, 0x40, // 7
        0xF0, 0x90, 0xF0, 0x90, 0xF0, // 8
        0xF0, 0x90, 0xF0, 0x10, 0xF0, // 9
        0xF0, 0x90, 0xF0, 0x90, 0x90, // A
        0xE0, 0x90, 0xE0, 0x90, 0xE0, // B
        0xF0, 0x80, 0x80, 0x80, 0xF0, // C
        0xE0, 0x90, 0x90, 0x90, 0xE0, // D
        0xF0, 0x80, 0xF0, 0x80, 0xF0, // E
        0xF0, 0x80, 0xF0, 0x80, 0x80, // F
    ];
    assert(font@ =~= fontset());
    font
}

/// The shifts of the ALU instructions, read arithmetically.
proof fn lemma_shift_bits(v: u8)
    by (bit_vector)
    ensures
        v & 1 == v % 2,
        v >> 1 == v / 2,
        v << 1 == ((v * 2) % 256) as u8,
        v >> 7 == (if v >= 0x80 { 1u8 } else { 0u8 }),
{
}

/// Whether sprite pixel `(sprite_row(p), sprite_col(p))` of a draw is set and
/// comes before `(row, col)` in drawing order.
spec fn drawn_before(s: MachineState, x0: int, y0: int, n: int, p: int, row: int, col: int) -> bool {
    &&& sprite_covers(s, x0, y0, n, p)
    &&& (sprite_row(p, y0) < row || (sprite_row(p, y0) == row && sprite_col(p, x0) < col))
}

/// Drawing sprite pixel `(row, col)` touches display pixel `p0` and no other.
proof fn lemma_draw_progress(s: MachineState, x0: int, y0: int, n: int, row: int, col: int, p0: int)
    requires
        0 <= x0 < 256,
        0 <= y0 < 256,
        0 <= row < n,
        n < 16,
        0 <= col < 8,
        p0 == SCREEN_WIDTH * ((y0 + row) % (SCREEN_HEIGHT as int)) + (x0 + col) % (SCREEN_WIDTH as int),
    ensures
        0 <= p0 < SCREEN_SIZE,
        forall|p: int| 0 <= p < SCREEN_SIZE && p != p0 ==>
            drawn_before(s, x0, y0, n, p, row, col + 1) == drawn_before(s, x0, y0, n, p, row, col),
        !drawn_before(s, x0, y0, n, p0, row, col),
        drawn_before(s, x0, y0, n, p0, row, col + 1) == pixel_set(s.ram[s.i + row], col),
{
    assert forall|p: int| 0 <= p < SCREEN_SIZE && p != p0 implies
        drawn_before(s, x0, y0, n, p, row, col + 1) == drawn_before(s, x0, y0, n, p, row, col) by {
        lemma_sprite_position(p, x0, y0, row, col);
    }
    lemma_sprite_position(p0, x0, y0, row, col);
}

/// A CHIP-8 machine.
pub struct Emulator {
    program_counter: u16,
    ram: [u8; RAM_SIZE_BYTES],
    screen: [bool; SCREEN_SIZE],
    v_regs: [u8; NUM_V_REGS],
    i_reg: u16,
    stack_ptr: u16,
    stack: [u16; STACK_SIZE],
    keys: [bool; NUM_KEYS],
    delay_timer: u8,
    sound_timer: u8,
}

impl View for Emulator {
    type V = MachineState;

    closed spec fn view(&self) -> MachineState {
        MachineState {
            pc: self.program_counter,
            ram: self.ram@,
            screen: self.screen@,
            v: self.v_regs@,
            i: self.i_reg,
            sp: self.stack_ptr,
            stack: self.stack@,
            keys: self.keys@,
            delay_timer: self.delay_timer,
            sound_timer: self.sound_timer,
        }
    }
}

impl Emulator {
    /// The stack pointer never passes the end of the stack.
    #[verifier::type_invariant]
    spec fn stack_in_bounds(self) -> bool {
        self.stack_ptr <= STACK_SIZE
    }

    /// Copies the font to the start of memory.
    fn load_font(&mut self)
        ensures
            final(self)@ == (MachineState {
                ram: Seq::new(RAM_SIZE_BYTES as nat, |a: int|
                    if a < FONTSET_SIZE { fontset()[a] } else { old(self)@.ram[a] }),
                ..old(self)@
            }),
    {
        proof {
            use_type_invariant(&*self);
        }
        let font = fontset_bytes();
        let mut k: usize = 0;
        while k < FONTSET_SIZE
            invariant
                self.stack_ptr <= STACK_SIZE,
                k <= FONTSET_SIZE,
                font@ == fontset(),
                self@ == (MachineState {
                    ram: Seq::new(RAM_SIZE_BYTES as nat, |a: int|
                        if a < k { fontset()[a] } else { old(self)@.ram[a] }),
                    ..old(self)@
                }),
            decreases FONTSET_SIZE - k,
        {
            self.ram[k] = font[k];
            k += 1;
            assert(self@.ram =~= Seq::new(RAM_SIZE_BYTES as nat, |a: int|
                if a < k { fontset()[a] } else { old(self)@.ram[a] }));
        }
    }

    /// A machine in the power-on state, with the font loaded.
    pub fn new() -> (emulator: Self)
        ensures
            emulator@.wf(),
            emulator@ == initial_state(),
    {
        let mut emulator = Emulator {
            program_counter: START_ADDR,
            ram: [0; RAM_SIZE_BYTES],
            screen: [false; SCREEN_SIZE],
            v_regs: [0; NUM_V_REGS],
            i_reg: 0,
            stack_ptr: 0,
            stack: [0; STACK_SIZE],
            keys: [false; NUM_KEYS],
            delay_timer: 0,
            sound_timer: 0,
        };
        emulator.load_font();
        assert(emulator@.ram =~= initial_state().ram);
        assert(emulator@.screen =~= initial_state().screen);
        assert(emulator@.v =~= initial_state().v);
        assert(emulator@.stack =~= initial_state().stack);
        assert(emulator@.keys =~= initial_state().keys);
        emulator
    }

    /// Puts the machine back in the power-on state, as `new` makes it.
    pub fn reset(&mut self)
        ensures
            final(self)@.wf(),
            final(self)@ == initial_state(),
    {
        proof {
            use_type_invariant(&*self);
        }
        self.program_counter = START_ADDR;
        self.ram = [0; RAM_SIZE_BYTES];
        self.screen = [false; SCREEN_SIZE];
        self.v_regs = [0; NUM_V_REGS];
        self.i_reg = 0;
        self.stack_ptr = 0;
        self.stack = [0; STACK_SIZE];
        self.keys = [false; NUM_KEYS];
        self.delay_timer = 0;
        self.sound_timer = 0;
        self.load_font();
        assert(self@.ram =~= initial_state().ram);
        assert(self@.screen =~= initial_state().screen);
        assert(self@.v =~= initial_state().v);
        assert(self@.stack =~= initial_state().stack);
        assert(self@.keys =~= initial_state().keys);
    }
}


impl Emulator {
    /// DXYN: XOR the `n`-row sprite stored at I onto the display at
    /// (VX, VY), wrapping around the edges; VF records whether any lit pixel
    /// went dark.
    fn draw_sprite(&mut self, x: usize, y: usize, n: u16)
        requires
            x < NUM_V_REGS,
            y < NUM_V_REGS,
            n < 16,
            n == 0 || old(self)@.i + n <= RAM_SIZE_BYTES,
        ensures
            final(self)@ == ({
                let s = old(self)@;
                let x0 = s.v[x as int] as int;
                let y0 = s.v[y as int] as int;
                MachineState {
                    screen: sprite_drawn(s, x0, y0, n as int),
                    v: s.v.update(15, if sprite_collides(s, x0, y0, n as int) { 1 } else { 0 }),
                    ..s
                }
            }),
    {
        proof {
            use_type_invariant(&*self);
        }
        let ghost s0 = self@;
        let x_coord = self.v_regs[x] as u16;
        let y_coord = self.v_regs[y] as u16;
        let ghost x0 = x_coord as int;
        let ghost y0 = y_coord as int;
        let ghost nn = n as int;

        let sprite_rows = n;

        let mut did_flip = false;

        let mut row_idx: u16 = 0;
        while row_idx < sprite_rows
            invariant
                self.stack_ptr <= STACK_SIZE,
                sprite_rows == n,
                row_idx <= n,
                n < 16,
                n == 0 || s0.i + n <= RAM_SIZE_BYTES,
                x0 == s0.v[x as int],
                y0 == s0.v[y as int],
                x_coord == x0,
                y_coord == y0,
                nn == n,
                self@ == (MachineState { screen: self@.screen, ..s0 }),
                forall|p: int| 0 <= p < SCREEN_SIZE ==>
                    self@.screen[p] == (s0.screen[p] != drawn_before(s0, x0, y0, nn, p, row_idx as int, 0)),
                did_flip ==> exists|p: int| 0 <= p < SCREEN_SIZE
                    && #[trigger] drawn_before(s0, x0, y0, nn, p, row_idx as int, 0) && s0.screen[p],
                !did_flip ==> forall|p: int| 0 <= p < SCREEN_SIZE
                    && #[trigger] drawn_before(s0, x0, y0, nn, p, row_idx as int, 0) ==> !s0.screen[p],
            decreases n - row_idx,
        {
            let addr = self.i_reg + row_idx;
            let pixels = self.ram[addr as usize]; // the 8 pixels of this row, leftmost in the top bit

            let mut pixel_idx: u16 = 0;
            while pixel_idx < 8
                invariant
                    self.stack_ptr <= STACK_SIZE,
                    row_idx < n,
                    pixel_idx <= 8,
                    n < 16,
                    x0 == s0.v[x as int],
                    y0 == s0.v[y as int],
                    x_coord == x0,
                    y_coord == y0,
                    nn == n,
                    pixels == s0.ram[s0.i + row_idx],
                    self@ == (MachineState { screen: self@.screen, ..s0 }),
                    forall|p: int| 0 <= p < SCREEN_SIZE ==>
                        self@.screen[p] == (s0.screen[p] != drawn_before(s0, x0, y0, nn, p, row_idx as int, pixel_idx as int)),
                    did_flip ==> exists|p: int| 0 <= p < SCREEN_SIZE
                        && #[trigger] drawn_before(s0, x0, y0, nn, p, row_idx as int, pixel_idx as int) && s0.screen[p],
                    !did_flip ==> forall|p: int| 0 <= p < SCREEN_SIZE
                        && #[trigger] drawn_before(s0, x0, y0, nn, p, row_idx as int, pixel_idx as int) ==> !s0.screen[p],
                decreases 8 - pixel_idx,
            {
                let ghost before = self@.screen;
                let ghost flip_before = did_flip;
                // Sprites wrap around the edges of the display
                let px = (x_coord + pixel_idx) as usize % SCREEN_WIDTH;
                let py = (y_coord + row_idx) as usize % SCREEN_HEIGHT;
                let screen_idx = SCREEN_WIDTH * py + px;
                proof {
                    lemma_draw_progress(s0, x0, y0, nn, row_idx as int, pixel_idx as int, screen_idx as int);
                }
                // Only set pixels of the sprite toggle the display
                if pixels & (0b1000_0000u8 >> pixel_idx) != 0 {
                    did_flip = did_flip || self.screen[screen_idx];
                    self.screen[screen_idx] = !self.screen[screen_idx];
                }
                proof {
                    let p0 = screen_idx as int;
                    let r = row_idx as int;
                    let c = pixel_idx as int;
                    assert(pixel_set(s0.ram[s0.i + r], c) == (pixels & (0b1000_0000u8 >> pixel_idx) != 0));
                    if did_flip && !flip_before {
                        assert(drawn_before(s0, x0, y0, nn, p0, r, c + 1) && s0.screen[p0]);
                    }
                    if did_flip && flip_before {
                        let w = choose|p: int| 0 <= p < SCREEN_SIZE
                            && #[trigger] drawn_before(s0, x0, y0, nn, p, r, c) && s0.screen[p];
                        assert(drawn_before(s0, x0, y0, nn, w, r, c + 1));
                    }
                    if !did_flip {
                        assert forall|p: int| 0 <= p < SCREEN_SIZE
                            && #[trigger] drawn_before(s0, x0, y0, nn, p, r, c + 1) implies !s0.screen[p] by {
                            if p != p0 {
                                assert(drawn_before(s0, x0, y0, nn, p, r, c));
                            }
                        }
                    }
                }
                pixel_idx += 1;
            }
            proof {
                let r = row_idx as int;
                assert forall|p: int| 0 <= p < SCREEN_SIZE implies
                    drawn_before(s0, x0, y0, nn, p, r, 8) == drawn_before(s0, x0, y0, nn, p, r + 1, 0) by {}
                if did_flip {
                    let w = choose|p: int| 0 <= p < SCREEN_SIZE
                        && #[trigger] drawn_before(s0, x0, y0, nn, p, r, 8) && s0.screen[p];
                    assert(drawn_before(s0, x0, y0, nn, w, r + 1, 0));
                }
            }
            row_idx += 1;
        }

        proof {
            assert forall|p: int| 0 <= p < SCREEN_SIZE implies
                drawn_before(s0, x0, y0, nn, p, nn, 0) == sprite_covers(s0, x0, y0, nn, p) by {}
            if did_flip {
                let w = choose|p: int| 0 <= p < SCREEN_SIZE
                    && #[trigger] drawn_before(s0, x0, y0, nn, p, nn, 0) && s0.screen[p];
                assert(sprite_covers(s0, x0, y0, nn, w));
            }
            assert(self@.screen =~= sprite_drawn(s0, x0, y0, nn));
        }
        self.v_regs[0xF] = if did_flip { 1 } else { 0 };
    }
}


impl Emulator {
    /// Pushes a return address.
    fn push(&mut self, value: u16)
        requires
            old(self)@.sp < STACK_SIZE,
        ensures
            final(self)@ == old(self)@.pushed(value),
    {
        proof {
            use_type_invariant(&*self);
        }
        self.stack[self.stack_ptr as usize] = value;
        self.stack_ptr += 1;
    }

    /// Pops the most recent return address.
    fn pop(&mut self) -> (value: u16)
        requires
            1 <= old(self)@.sp <= STACK_SIZE,
        ensures
            value == old(self)@.top(),
            final(self)@ == old(self)@.popped(),
    {
        proof {
            use_type_invariant(&*self);
        }
        self.stack_ptr -= 1;
        self.stack[self.stack_ptr as usize]
    }

    /// Reads the big-endian opcode at the program counter and moves past it.
    fn fetch(&mut self) -> (op: u16)
        requires
            old(self)@.pc + 1 < RAM_SIZE_BYTES,
        ensures
            op == fetched_opcode(old(self)@),
            final(self)@ == old(self)@.advance_pc(),
    {
        proof {
            use_type_invariant(&*self);
        }
        let high_byte = self.ram[self.program_counter as usize] as u16;
        let low_byte = self.ram[(self.program_counter + 1) as usize] as u16;

        self.program_counter += 2;

        proof {
            assert((high_byte << 8) | low_byte == high_byte * 256 + low_byte) by (bit_vector)
                requires
                    high_byte < 256,
                    low_byte < 256,
            ;
        }
        (high_byte << 8) | low_byte
    }

    /// FX0A: VX = the lowest key held down; with no key down the program
    /// counter steps back so that the instruction runs again.
    fn wait_key(&mut self, x: usize)
        requires
            x < NUM_V_REGS,
            first_pressed(old(self)@.keys) is Some || old(self)@.pc >= 2,
        ensures
            final(self)@ == match first_pressed(old(self)@.keys) {
                Some(k) => old(self)@.set_v(x as int, k as u8),
                None => MachineState { pc: (old(self)@.pc - 2) as u16, ..old(self)@ },
            },
    {
        proof {
            use_type_invariant(&*self);
        }
        let ghost s0 = self@;
        let mut pressed = false;

        let mut i: usize = 0;
        while i < NUM_KEYS
            invariant_except_break
                self.stack_ptr <= STACK_SIZE,
                x < NUM_V_REGS,
                i <= NUM_KEYS,
                !pressed,
                self@ == s0,
                first_pressed(s0.keys) == first_pressed_from(s0.keys, i as int),
            ensures
                pressed ==> (first_pressed(s0.keys) matches Some(k) && self@ == s0.set_v(x as int, k as u8)),
                !pressed ==> first_pressed(s0.keys) is None && self@ == s0,
            decreases NUM_KEYS - i,
        {
            if self.keys[i] {
                self.v_regs[x] = i as u8;
                pressed = true;
                break;
            }
            i += 1;
        }

        // Repeats this instruction
        if !pressed {
            self.program_counter -= 2;
        }
    }

    /// FX33: the hundreds, tens and ones of VX go to I, I+1 and I+2.
    fn store_bcd(&mut self, x: usize)
        requires
            x < NUM_V_REGS,
            old(self)@.i + 2 < RAM_SIZE_BYTES,
        ensures
            final(self)@ == step(old(self)@, Instruction::StoreBcd { x: x as u8 }, 0),
    {
        proof {
            use_type_invariant(&*self);
        }
        let raw = self.v_regs[x];

        let hundreds = (raw / 100) % 10;
        let tens = (raw / 10) % 10;
        let ones = raw % 10;

        let i = self.i_reg;
        self.ram[i as usize] = hundreds;
        self.ram[(i + 1) as usize] = tens;
        self.ram[(i + 2) as usize] = ones;
    }

    /// FX55: V0..=VX go to memory from address I on.
    fn store_registers(&mut self, x: usize)
        requires
            x < NUM_V_REGS,
            old(self)@.i + x < RAM_SIZE_BYTES,
        ensures
            final(self)@ == step(old(self)@, Instruction::StoreRegs { x: x as u8 }, 0),
    {
        proof {
            use_type_invariant(&*self);
        }
        let ghost s0 = self@;
        let i_addr = self.i_reg as usize;

        let mut i: usize = 0;
        while i <= x
            invariant
                self.stack_ptr <= STACK_SIZE,
                x < NUM_V_REGS,
                i <= x + 1,
                i_addr == s0.i,
                i_addr + x < RAM_SIZE_BYTES,
                self@ == (MachineState {
                    ram: Seq::new(RAM_SIZE_BYTES as nat, |a: int|
                        if i_addr <= a < i_addr + i { s0.v[a - i_addr] } else { s0.ram[a] }),
                    ..s0
                }),
            decreases x + 1 - i,
        {
            self.ram[i_addr + i] = self.v_regs[i];
            i += 1;
            assert(self@.ram =~= Seq::new(RAM_SIZE_BYTES as nat, |a: int|
                if i_addr <= a < i_addr + i { s0.v[a - i_addr] } else { s0.ram[a] }));
        }
        assert(self@.ram =~= step(s0, Instruction::StoreRegs { x: x as u8 }, 0).ram);
    }

    /// FX65: V0..=VX are loaded from memory from address I on.
    fn load_registers(&mut self, x: usize)
        requires
            x < NUM_V_REGS,
            old(self)@.i + x < RAM_SIZE_BYTES,
        ensures
            final(self)@ == step(old(self)@, Instruction::LoadRegs { x: x as u8 }, 0),
    {
        proof {
            use_type_invariant(&*self);
        }
        let ghost s0 = self@;
        let i_addr = self.i_reg as usize;

        let mut i: usize = 0;
        while i <= x
            invariant
                self.stack_ptr <= STACK_SIZE,
                x < NUM_V_REGS,
                i <= x + 1,
                i_addr == s0.i,
                i_addr + x < RAM_SIZE_BYTES,
                self@ == (MachineState {
                    v: Seq::new(NUM_V_REGS as nat, |r: int| if r < i { s0.ram[i_addr + r] } else { s0.v[r] }),
                    ..s0
                }),
            decreases x + 1 - i,
        {
            self.v_regs[i] = self.ram[i_addr + i];
            i += 1;
            assert(self@.v =~= Seq::new(NUM_V_REGS as nat, |r: int| if r < i { s0.ram[i_addr + r] } else { s0.v[r] }));
        }
        assert(self@.v =~= step(s0, Instruction::LoadRegs { x: x as u8 }, 0).v);
    }
}


impl Emulator {
    /// VX = `val`.
    fn set_register(&mut self, x: usize, val: u8)
        requires
            x < NUM_V_REGS,
        ensures
            final(self)@ == old(self)@.set_v(x as int, val),
    {
        proof {
            use_type_invariant(&*self);
        }
        self.v_regs[x] = val;
    }

    /// VX = `val`, and then VF = `flag`.
    fn set_register_and_flag(&mut self, x: usize, val: u8, flag: u8)
        requires
            x < NUM_V_REGS,
        ensures
            final(self)@ == old(self)@.set_v_flag(x as int, val, flag),
    {
        proof {
            use_type_invariant(&*self);
        }
        self.v_regs[x] = val;
        self.v_regs[0xF] = flag;
    }

    /// Skips the next instruction when `cond` holds.
    fn skip_next_if(&mut self, cond: bool)
        requires
            cond ==> old(self)@.pc + 2 <= u16::MAX,
        ensures
            final(self)@ == old(self)@.skip_if(cond),
    {
        proof {
            use_type_invariant(&*self);
        }
        if cond {
            self.program_counter += 2;
        }
    }

    /// The `8XYN` group: register-to-register arithmetic and logic.
    fn execute_alu(&mut self, op: u16)
        requires
            digit1(op) == 8,
            step_defined(old(self)@, decode(op)),
        ensures
            final(self)@ == step(old(self)@, decode(op), 0),
    {
        proof {
            use_type_invariant(&*self);
        }
        let digit2 = (op & 0x0F00) >> 8;
        let digit3 = (op & 0x00F0) >> 4;
        let digit4 = op & 0x000F;
        proof {
            lemma_opcode_fields(op);
        }
        let x = digit2 as usize;
        let y = digit3 as usize;

        match digit4 {
            // VX = VY: Set VREG X to value in VREG Y
            0 => {
                let vy = self.v_regs[y];
                self.set_register(x, vy);
            },

            // VX |= VY: Bitwise OR
            1 => {
                let v = self.v_regs[x] | self.v_regs[y];
                self.set_register(x, v);
            },

            // VX &= VY: Bitwise AND
            2 => {
                let v = self.v_regs[x] & self.v_regs[y];
                self.set_register(x, v);
            },

            // VX ^= VY: Bitwise XOR
            3 => {
                let v = self.v_regs[x] ^ self.v_regs[y];
                self.set_register(x, v);
            },

            // VX += VY: Add VREG Y to VREG X. On overflow the flag register VF is set to 1
            4 => {
                let vx = self.v_regs[x];
                let vy = self.v_regs[y];
                let sum = vx.wrapping_add(vy);
                let did_overflow = vx.checked_add(vy).is_none();

                self.set_register_and_flag(x, sum, if did_overflow { 1 } else { 0 });
            },

            // VX -= VY: Subtract VREG Y from VREG X. On underflow VF is set to 0, else to 1
            5 => {
                let vx = self.v_regs[x];
                let vy = self.v_regs[y];
                let diff = vx.wrapping_sub(vy);
                let did_underflow = vx < vy;

                self.set_register_and_flag(x, diff, if did_underflow { 0 } else { 1 });
            },

            // VX >>= 1: Right shift VREG X by 1, storing the dropped rightmost bit into VF
            6 => {
                let vx = self.v_regs[x];
                proof {
                    lemma_shift_bits(vx);
                }
                let rightmost_bit = vx & 1;

                self.set_register_and_flag(x, vx >> 1, rightmost_bit);
            },

            // VX = VY - VX: Subtract the registers, but in the opposite order
            7 => {
                let vx = self.v_regs[x];
                let vy = self.v_regs[y];
                let diff = vy.wrapping_sub(vx);
                let did_underflow = vy < vx;

                self.set_register_and_flag(x, diff, if did_underflow { 0 } else { 1 });
            },

            // VX <<= 1: Left shift VREG X by 1, storing the dropped leftmost bit into VF
            0xE => {
                let vx = self.v_regs[x];
                proof {
                    lemma_shift_bits(vx);
                }
                let leftmost_bit = vx >> 7;

                self.set_register_and_flag(x, vx << 1, leftmost_bit);
            },

            // Other 8XYN opcodes decode to `Unknown`, which `requires` rules out.
            _ => {},
        }
    }

    /// The `FXNN` group: timers, keypad wait, the index register and
    /// register/memory transfers.
    fn execute_misc(&mut self, op: u16)
        requires
            digit1(op) == 0xF,
            step_defined(old(self)@, decode(op)),
        ensures
            final(self)@ == step(old(self)@, decode(op), 0),
    {
        proof {
            use_type_invariant(&*self);
        }
        let digit2 = (op & 0x0F00) >> 8;
        let digit3 = (op & 0x00F0) >> 4;
        let digit4 = op & 0x000F;
        proof {
            lemma_opcode_fields(op);
        }
        let x = digit2 as usize;

        match (digit3, digit4) {
            // VX = DT: Store value of delay timer in VREG X
            (0, 7) => {
                let dt = self.delay_timer;
                self.set_register(x, dt);
            },

            // WAIT KEY: Block until the player presses any key. The (lowest) pressed key is stored in VREG X.
            (0, 0xA) => {
                self.wait_key(x);
            },

            // DT = VX: Store value in VREG X in delay timer
            (1, 5) => {
                self.delay_timer = self.v_regs[x];
            },

            // ST = VX: Store value in VREG X in sound timer
            (1, 8) => {
                self.sound_timer = self.v_regs[x];
            },

            // I += VX: Add value in VREG X to IREG. Wraps on overflow.
            (1, 0xE) => {
                self.i_reg = self.i_reg.wrapping_add(self.v_regs[x] as u16);
            },

            // I = FONT: Set IREG to address of font sprite index in VREG X.
            (2, 9) => {
                let which_sprite = self.v_regs[x] as u16;
                self.i_reg = 0 + which_sprite * 5; // Sprites are 5 bytes each and stored starting at 0x0
            },

            // BCD: Store value in VREG X as a BCD in RAM. One byte is used for each digit in base 10, so this will always use 3 bytes.
            (3, 3) => {
                self.store_bcd(x);
            },

            // STORE V0 - VX: Stores values from VREG's 0 to X (inclusive) into RAM (starting from IREG address)
            (5, 5) => {
                self.store_registers(x);
            },

            // LOAD V0 - VX: Loads values from RAM starting from IREG address into VREG's 0 to X (inclusive)
            (6, 5) => {
                self.load_registers(x);
            },

            // Other FXNN opcodes decode to `Unknown`, which `requires` rules out.
            (_, _) => {},
        }
    }

    /// Decodes and executes `op`; `random` is the byte that `CXNN` masks
    /// (the other instructions ignore it).
    pub fn execute_with_random(&mut self, op: u16, random: u8)
        requires
            step_defined(old(self)@, decode(op)),
        ensures
            final(self)@.wf(),
            final(self)@ == step(old(self)@, decode(op), random),
    {
        proof {
            use_type_invariant(&*self);
        }
        // Extract each nibble from opcode
        let digit1 = (op & 0xF000) >> 12;
        let digit2 = (op & 0x0F00) >> 8;
        let digit3 = (op & 0x00F0) >> 4;
        let digit4 = op & 0x000F;
        proof {
            lemma_opcode_fields(op);
        }

        match (digit1, digit2, digit3, digit4) {
            // NOP: Do nothing
            (0, 0, 0, 0) => {},

            // CLS: Clear screen
            (0, 0, 0xE, 0) => {
                self.screen = [false; SCREEN_SIZE];
                assert(self@.screen =~= crate::state::blank_screen());
            },

            // RET: Return to address after done running subroutine
            (0, 0, 0xE, 0xE) => {
                let ret_addr = self.pop();
                self.program_counter = ret_addr;
            },

            // JMP: Move PC to address encoded in last 3 nibbles (NNN)
            (1, _, _, _) => {
                let nnn = op & 0x0FFF;
                self.program_counter = nnn;
            },

            // CALL: Save current PC, then jump to given NNN address (to start subroutine)
            (2, _, _, _) => {
                let nnn = op & 0x0FFF;
                let pc = self.program_counter;
                self.push(pc);
                self.program_counter = nnn;
            },

            // SKIP VX == NN: Skip next line if value in VREG X == NN
            (3, _, _, _) => {
                let x = digit2 as usize;
                let nn = (op & 0x00FF) as u8;
                let cond = self.v_regs[x] == nn;
                self.skip_next_if(cond);
            },

            // SKIP VX != NN: Skip next line if value in VREG X != NN
            (4, _, _, _) => {
                let x = digit2 as usize;
                let nn = (op & 0x00FF) as u8;
                let cond = self.v_regs[x] != nn;
                self.skip_next_if(cond);
            },

            // SKIP VX == VY: Skip next line if value in VREG X == value in VREG Y
            (5, _, _, 0) => {
                let x = digit2 as usize;
                let y = digit3 as usize;
                let cond = self.v_regs[x] == self.v_regs[y];
                self.skip_next_if(cond);
            },

            // VX = NN: Set VREG X to NN
            (6, _, _, _) => {
                let x = digit2 as usize;
                let nn = (op & 0x00FF) as u8;
                self.set_register(x, nn);
            },

            // VX += NN: Add NN to VREG X, wrapping on overflow
            (7, _, _, _) => {
                let x = digit2 as usize;
                let nn = (op & 0x00FF) as u8;
                let v = self.v_regs[x].wrapping_add(nn);
                self.set_register(x, v);
            },

            // 8XYN: register arithmetic and logic
            (8, _, _, _) => {
                self.execute_alu(op);
                proof {
                    crate::laws::lemma_step_ignores_random(old(self)@, decode(op), 0, random);
                }
            },

            // SKIP VX != VY: Skip next line if value in VREG X != value in VREG Y
            (9, _, _, 0) => {
                let x = digit2 as usize;
                let y = digit3 as usize;
                let cond = self.v_regs[x] != self.v_regs[y];
                self.skip_next_if(cond);
            },

            // I = NNN: Set IREG (mostly used as pointer to address in RAM) to NNN
            (0xA, _, _, _) => {
                let nnn = op & 0x0FFF;
                self.i_reg = nnn;
            },

            // JMP V0 + NNN: Move PC to value in V0 plus NNN
            (0xB, _, _, _) => {
                let nnn = op & 0x0FFF;
                self.program_counter = (self.v_regs[0] as u16) + nnn;
            },

            // VX = rand() & NN: Set VREG X to a random byte masked by NN
            (0xC, _, _, _) => {
                let x = digit2 as usize;
                let nn = (op & 0x00FF) as u8;
                self.set_register(x, random & nn);
            },

            // DRAW: Draw a sprite at X and Y coordinates of screen. The height of the sprite is given by the last nibble.
            // Sprites are stored row by row beginning at the address in IREG.
            // If any pixel is flipped, the VF is set.
            (0xD, _, _, _) => {
                self.draw_sprite(digit2 as usize, digit3 as usize, digit4);
            },

            // SKIP KEY PRESS: Skip if the input stored in VREG X is pressed
            (0xE, _, 9, 0xE) => {
                let x = digit2 as usize;
                let input_idx = self.v_regs[x];
                let cond = self.keys[input_idx as usize];
                self.skip_next_if(cond);
            },

            // SKIP KEY RELEASE: Skip if the input stored in VREG X is NOT pressed
            (0xE, _, 0xA, 1) => {
                let x = digit2 as usize;
                let input_idx = self.v_regs[x];
                let cond = !self.keys[input_idx as usize];
                self.skip_next_if(cond);
            },

            // FXNN: timers, keypad wait, index register and memory transfers
            (0xF, _, _, _) => {
                self.execute_misc(op);
                proof {
                    crate::laws::lemma_step_ignores_random(old(self)@, decode(op), 0, random);
                }
            },

            // Opcodes the machine does not implement decode to `Unknown`,
            // which `requires` rules out.
            (_, _, _, _) => {},
        }
    }
}

impl Emulator {
    /// Decodes and executes `op`, drawing a random byte for `CXNN`.
    fn execute(&mut self, op: u16)
        requires
            step_defined(old(self)@, decode(op)),
        ensures
            exists|r: u8| final(self)@ == #[trigger] step(old(self)@, decode(op), r),
    {
        proof {
            use_type_invariant(&*self);
        }
        let random = if (op & 0xF000) >> 12 == 0xC { random_byte() } else { 0 };
        self.execute_with_random(op, random);
    }

    /// One fetch-decode-execute cycle. Only `CXNN` leaves a choice: it
    /// masks a byte drawn at random.
    pub fn tick(&mut self)
        requires
            tick_defined(old(self)@),
        ensures
            final(self)@.wf(),
            exists|r: u8| final(self)@ == #[trigger] tick_step(old(self)@, r),
            !(decode(fetched_opcode(old(self)@)) is Random) ==> final(self)@ == tick_step(old(self)@, 0),
    {
        proof {
            use_type_invariant(&*self);
        }
        // Fetch
        let opcode = self.fetch();

        // Decode and execute
        self.execute(opcode);

        proof {
            let r = choose|r: u8| self@ == #[trigger] step(old(self)@.advance_pc(), decode(opcode), r);
            assert(self@ == tick_step(old(self)@, r));
            if !(decode(opcode) is Random) {
                crate::laws::lemma_step_ignores_random(old(self)@.advance_pc(), decode(opcode), r, 0);
            }
        }
    }

    /// Counts both timers down by one, stopping at zero.
    pub fn tick_timers(&mut self)
        ensures
            final(self)@.wf(),
            final(self)@ == timers_ticked(old(self)@),
    {
        proof {
            use_type_invariant(&*self);
        }
        if self.delay_timer > 0 {
            self.delay_timer -= 1;
        }

        if self.sound_timer > 0 {
            self.sound_timer -= 1;
        }
    }

    /// The display, row after row, `SCREEN_WIDTH` pixels per row.
    pub fn get_display(&self) -> (display: &[bool])
        ensures
            self@.wf(),
            display@ == self@.screen,
    {
        proof {
            use_type_invariant(self);
        }
        &self.screen
    }

    /// Records whether keypad button `idx` is held down.
    pub fn keypress(&mut self, idx: usize, pressed: bool)
        requires
            idx < NUM_KEYS,
        ensures
            final(self)@.wf(),
            final(self)@ == (MachineState { keys: old(self)@.keys.update(idx as int, pressed), ..old(self)@ }),
    {
        proof {
            use_type_invariant(&*self);
        }
        self.keys[idx] = pressed;
    }

    /// Copies a program image into memory at the program start.
    pub fn load(&mut self, data: &[u8])
        requires
            START_ADDR + data@.len() <= RAM_SIZE_BYTES,
        ensures
            final(self)@.wf(),
            final(self)@ == (MachineState { ram: loaded_ram(old(self)@.ram, data@), ..old(self)@ }),
    {
        proof {
            use_type_invariant(&*self);
        }
        let ghost s0 = self@;
        let start = START_ADDR as usize;
        let end = (START_ADDR as usize) + data.len();

        let mut k: usize = 0;
        while start + k < end
            invariant
                self.stack_ptr <= STACK_SIZE,
                start == START_ADDR,
                end == start + data@.len(),
                end <= RAM_SIZE_BYTES,
                start + k <= end,
                self@ == (MachineState {
                    ram: Seq::new(RAM_SIZE_BYTES as nat, |a: int|
                        if start <= a < start + k { data@[a - start] } else { s0.ram[a] }),
                    ..s0
                }),
            decreases end - (start + k),
        {
            self.ram[start + k] = data[k];
            k += 1;
            assert(self@.ram =~= Seq::new(RAM_SIZE_BYTES as nat, |a: int|
                if start <= a < start + k { data@[a - start] } else { s0.ram[a] }));
        }
        assert(self@.ram =~= loaded_ram(s0.ram, data@));
    }

    /// The positions `(x, y)` of the lit pixels, in display order.
    pub fn lit_pixels(&self) -> (positions: Vec<(usize, usize)>)
        ensures
            self@.wf(),
            positions@ == lit_positions(self@.screen, SCREEN_SIZE as nat),
    {
        proof {
            use_type_invariant(self);
        }
        let mut positions: Vec<(usize, usize)> = Vec::new();
        let mut idx: usize = 0;
        while idx < SCREEN_SIZE
            invariant
                self.stack_ptr <= STACK_SIZE,
                idx <= SCREEN_SIZE,
                positions@ == lit_positions(self@.screen, idx as nat),
            decreases SCREEN_SIZE - idx,
        {
            // Skip if pixel is black
            if self.screen[idx] {
                // Get 2D position from index
                let x_coord = idx % SCREEN_WIDTH;
                let y_coord = idx / SCREEN_WIDTH;
                positions.push((x_coord, y_coord));
            }
            idx += 1;
        }
        positions
    }
}

impl Emulator {
    /// Whether some keypad button is held down.
    fn any_key_pressed(&self) -> (pressed: bool)
        ensures
            pressed == (first_pressed(self@.keys) is Some),
    {
        proof {
            use_type_invariant(self);
        }
        let mut i: usize = 0;
        while i < NUM_KEYS
            invariant
                self.stack_ptr <= STACK_SIZE,
                i <= NUM_KEYS,
                first_pressed(self@.keys) == first_pressed_from(self@.keys, i as int),
            decreases NUM_KEYS - i,
        {
            if self.keys[i] {
                return true;
            }
            i += 1;
        }
        false
    }

    /// Whether `op` runs without faulting with the program counter at `pc`
    /// and everything else as it is now.
    fn instruction_defined(&self, pc: u16, op: u16) -> (ok: bool)
        ensures
            ok == step_defined(MachineState { pc, ..self@ }, decode(op)),
    {
        proof {
            use_type_invariant(self);
        }
        let digit1 = (op & 0xF000) >> 12;
        let digit2 = (op & 0x0F00) >> 8;
        let digit3 = (op & 0x00F0) >> 4;
        let digit4 = op & 0x000F;
        proof {
            lemma_opcode_fields(op);
        }
        let x = digit2 as usize;
        let y = digit3 as usize;
        let nn = (op & 0x00FF) as u8;
        let can_skip = pc <= u16::MAX - 2;

        match (digit1, digit2, digit3, digit4) {
            (0, 0, 0, 0) => true,
            (0, 0, 0xE, 0) => true,
            (0, 0, 0xE, 0xE) => 1 <= self.stack_ptr && self.stack_ptr as usize <= STACK_SIZE,
            (0, _, _, _) => false,
            (1, _, _, _) => true,
            (2, _, _, _) => (self.stack_ptr as usize) < STACK_SIZE,
            (3, _, _, _) => self.v_regs[x] != nn || can_skip,
            (4, _, _, _) => self.v_regs[x] == nn || can_skip,
            (5, _, _, 0) => self.v_regs[x] != self.v_regs[y] || can_skip,
            (5, _, _, _) => false,
            (6, _, _, _) => true,
            (7, _, _, _) => true,
            (8, _, _, _) => digit4 <= 7 || digit4 == 0xE,
            (9, _, _, 0) => self.v_regs[x] == self.v_regs[y] || can_skip,
            (9, _, _, _) => false,
            (0xA, _, _, _) => true,
            (0xB, _, _, _) => true,
            (0xC, _, _, _) => true,
            (0xD, _, _, _) => digit4 == 0 || self.i_reg as usize + digit4 as usize <= RAM_SIZE_BYTES,
            (0xE, _, 9, 0xE) => {
                let k = self.v_regs[x] as usize;
                k < NUM_KEYS && (!self.keys[k] || can_skip)
            },
            (0xE, _, 0xA, 1) => {
                let k = self.v_regs[x] as usize;
                k < NUM_KEYS && (self.keys[k] || can_skip)
            },
            (0xE, _, _, _) => false,
            (0xF, _, 0, 7) => true,
            (0xF, _, 0, 0xA) => self.any_key_pressed() || pc >= 2,
            (0xF, _, 1, 5) => true,
            (0xF, _, 1, 8) => true,
            (0xF, _, 1, 0xE) => true,
            (0xF, _, 2, 9) => true,
            (0xF, _, 3, 3) => (self.i_reg as usize) + 2 < RAM_SIZE_BYTES,
            (0xF, _, 5, 5) => (self.i_reg as usize) + x < RAM_SIZE_BYTES,
            (0xF, _, 6, 5) => (self.i_reg as usize) + x < RAM_SIZE_BYTES,
            (_, _, _, _) => false,
        }
    }

    /// Whether the next `tick` runs without faulting: the opcode lies in
    /// memory, is one the machine implements, and touches only valid stack
    /// slots, memory, keys and program addresses.
    pub fn can_tick(&self) -> (ok: bool)
        ensures
            self@.wf(),
            ok == tick_defined(self@),
    {
        proof {
            use_type_invariant(self);
        }
        if (self.program_counter as usize) + 1 >= RAM_SIZE_BYTES {
            return false;
        }
        let high_byte = self.ram[self.program_counter as usize] as u16;
        let low_byte = self.ram[(self.program_counter + 1) as usize] as u16;
        proof {
            assert((high_byte << 8) | low_byte == high_byte * 256 + low_byte) by (bit_vector)
                requires
                    high_byte < 256,
                    low_byte < 256,
            ;
        }
        let op = (high_byte << 8) | low_byte;
        self.instruction_defined(self.program_counter + 2, op)
    }
}

impl Emulator {
    /// The address of the next instruction.
    pub fn program_counter(&self) -> (pc: u16)
        ensures
            self@.wf(),
            pc == self@.pc,
    {
        proof {
            use_type_invariant(self);
        }
        self.program_counter
    }

    /// The index register I.
    pub fn index_register(&self) -> (i: u16)
        ensures
            self@.wf(),
            i == self@.i,
    {
        proof {
            use_type_invariant(self);
        }
        self.i_reg
    }

    /// Registers V0..VF.
    pub fn registers(&self) -> (v: &[u8])
        ensures
            self@.wf(),
            v@ == self@.v,
    {
        proof {
            use_type_invariant(self);
        }
        &self.v_regs
    }

    /// The whole memory.
    pub fn memory(&self) -> (ram: &[u8])
        ensures
            self@.wf(),
            ram@ == self@.ram,
    {
        proof {
            use_type_invariant(self);
        }
        &self.ram
    }

    /// The number of return addresses on the stack.
    pub fn stack_pointer(&self) -> (sp: u16)
        ensures
            self@.wf(),
            sp == self@.sp,
    {
        proof {
            use_type_invariant(self);
        }
        self.stack_ptr
    }

    /// The delay timer.
    pub fn delay_timer(&self) -> (dt: u8)
        ensures
            self@.wf(),
            dt == self@.delay_timer,
    {
        proof {
            use_type_invariant(self);
        }
        self.delay_timer
    }

    /// The sound timer; the buzzer sounds while it is non-zero.
    pub fn sound_timer(&self) -> (st: u8)
        ensures
            self@.wf(),
            st == self@.sound_timer,
    {
        proof {
            use_type_invariant(self);
        }
        self.sound_timer
    }
}

} // verus!
