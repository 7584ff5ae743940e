//! What drawing does to the display, and which pixels are reported lit,
//! stated over rows, columns and bits.

use vstd::prelude::*;
use crate::state::{MachineState, NUM_V_REGS, RAM_SIZE_BYTES, SCREEN_SIZE, SCREEN_WIDTH, SCREEN_HEIGHT, lit_positions};
use crate::instruction::{
    Instruction, step, pixel_set, sprite_row, sprite_col, sprite_covers, lemma_sprite_position,
};

verus! {

/// Whether pixel `col` (0 is the leftmost) of the sprite row `bits` is set:
/// the pixels are the bits of the byte, most significant first.
pub open spec fn sprite_bit(bits: u8, col: int) -> bool {
    (bits >> ((7 - col) as u8)) & 1u8 == 1u8
}

/// The display pixel that sprite pixel `(row, col)` lands on when the
/// sprite's top-left corner is at `(x0, y0)`: coordinates wrap around the
/// display edges, and pixels are numbered row by row.
pub open spec fn landing(x0: int, y0: int, row: int, col: int) -> int {
    SCREEN_WIDTH * ((y0 + row) % (SCREEN_HEIGHT as int)) + (x0 + col) % (SCREEN_WIDTH as int)
}

/// Whether `(row, col)` is a set pixel of the `n`-row sprite stored at I.
pub open spec fn sprite_hits(s: MachineState, n: int, row: int, col: int) -> bool {
    &&& 0 <= row < n
    &&& 0 <= col < 8
    &&& sprite_bit(s.ram[s.i + row], col)
}

proof fn lemma_pixel_bit(b: u8, c: u8)
    by (bit_vector)
    requires
        c < 8,
    ensures
        (b & (0x80u8 >> (c as u16)) != 0) == ((b >> ((7 - c) as u8)) & 1u8 == 1u8),
{
}

/// A set sprite pixel covers exactly the display pixel it lands on.
proof fn lemma_hit_covers(s: MachineState, x0: int, y0: int, n: int, row: int, col: int)
    requires
        0 <= x0,
        0 <= y0,
        0 <= n < 16,
        0 <= row < n,
        0 <= col < 8,
    ensures
        0 <= landing(x0, y0, row, col) < SCREEN_SIZE,
        sprite_covers(s, x0, y0, n, landing(x0, y0, row, col)) == sprite_hits(s, n, row, col),
{
    let p = landing(x0, y0, row, col);
    lemma_sprite_position(p, x0, y0, row, col);
    lemma_pixel_bit(s.ram[s.i + row], col as u8);
}

/// A covered display pixel is where some set sprite pixel lands.
proof fn lemma_covers_hit(s: MachineState, x0: int, y0: int, n: int, p: int)
    requires
        0 <= x0,
        0 <= y0,
        0 <= n < 16,
        0 <= p < SCREEN_SIZE,
        sprite_covers(s, x0, y0, n, p),
    ensures
        sprite_hits(s, n, sprite_row(p, y0), sprite_col(p, x0)),
        landing(x0, y0, sprite_row(p, y0), sprite_col(p, x0)) == p,
{
    let row = sprite_row(p, y0);
    let col = sprite_col(p, x0);
    lemma_sprite_position(p, x0, y0, row, col);
    lemma_pixel_bit(s.ram[s.i + row], col as u8);
}

/// `DXYN` toggles every display pixel that a set pixel of the N-row sprite
/// at I lands on when drawn at (VX, VY), and no other pixel. VF becomes 1
/// exactly when one of those pixels was lit before (a collision), and 0
/// otherwise; no other register and nothing else changes.
pub proof fn law_draw(s: MachineState, x: u8, y: u8, n: u8, r: u8)
    requires
        s.wf(),
        x < NUM_V_REGS,
        y < NUM_V_REGS,
        n < 16,
        n == 0 || s.i + n <= RAM_SIZE_BYTES,
    ensures
        ({
            let t = step(s, Instruction::Draw { x, y, n }, r);
            let x0 = s.v[x as int] as int;
            let y0 = s.v[y as int] as int;
            &&& t == (MachineState { screen: t.screen, v: t.v, ..s })
            &&& t.screen.len() == SCREEN_SIZE
            &&& t.v.len() == NUM_V_REGS
            &&& forall|row: int, col: int| #[trigger] sprite_hits(s, n as int, row, col) ==> {
                &&& 0 <= landing(x0, y0, row, col) < SCREEN_SIZE
                &&& t.screen[landing(x0, y0, row, col)] == !s.screen[landing(x0, y0, row, col)]
            }
            &&& forall|p: int| 0 <= p < SCREEN_SIZE
                && (forall|row: int, col: int| #[trigger] sprite_hits(s, n as int, row, col)
                    ==> landing(x0, y0, row, col) != p)
                ==> #[trigger] t.screen[p] == s.screen[p]
            &&& t.v[15] <= 1
            &&& (t.v[15] == 1 <==> exists|row: int, col: int| #[trigger] sprite_hits(s, n as int, row, col)
                && s.screen[landing(x0, y0, row, col)])
            &&& forall|j: int| 0 <= j < 15 ==> t.v[j] == s.v[j]
        }),
{
    let t = step(s, Instruction::Draw { x, y, n }, r);
    let x0 = s.v[x as int] as int;
    let y0 = s.v[y as int] as int;
    let nn = n as int;
    assert forall|row: int, col: int| #[trigger] sprite_hits(s, nn, row, col) implies {
        &&& 0 <= landing(x0, y0, row, col) < SCREEN_SIZE
        &&& t.screen[landing(x0, y0, row, col)] == !s.screen[landing(x0, y0, row, col)]
    } by {
        lemma_hit_covers(s, x0, y0, nn, row, col);
    }
    assert forall|p: int| 0 <= p < SCREEN_SIZE
        && (forall|row: int, col: int| #[trigger] sprite_hits(s, nn, row, col) ==> landing(x0, y0, row, col) != p)
        implies #[trigger] t.screen[p] == s.screen[p] by {
        if sprite_covers(s, x0, y0, nn, p) {
            lemma_covers_hit(s, x0, y0, nn, p);
            assert(sprite_hits(s, nn, sprite_row(p, y0), sprite_col(p, x0)));
        }
    }
    let collision = exists|row: int, col: int| #[trigger] sprite_hits(s, nn, row, col)
        && s.screen[landing(x0, y0, row, col)];
    if collision {
        let (row, col) = choose|row: int, col: int| #[trigger] sprite_hits(s, nn, row, col)
            && s.screen[landing(x0, y0, row, col)];
        lemma_hit_covers(s, x0, y0, nn, row, col);
        let p = landing(x0, y0, row, col);
        assert(sprite_covers(s, x0, y0, nn, p) && s.screen[p]);
    }
    if crate::instruction::sprite_collides(s, x0, y0, nn) {
        let p = choose|p: int| 0 <= p < SCREEN_SIZE && #[trigger] sprite_covers(s, x0, y0, nn, p) && s.screen[p];
        lemma_covers_hit(s, x0, y0, nn, p);
        assert(sprite_hits(s, nn, sprite_row(p, y0), sprite_col(p, x0)));
    }
}

/// The lit positions are exactly the lit pixels: every position `(x, y)`
/// reported is on the display, lies among the first `n` pixels and is lit
/// there (pixel `SCREEN_WIDTH * y + x`), and every lit pixel `p` among the
/// first `n` is reported as `(p % SCREEN_WIDTH, p / SCREEN_WIDTH)`.
pub proof fn law_lit_positions(screen: Seq<bool>, n: nat)
    requires
        screen.len() == SCREEN_SIZE,
        n <= SCREEN_SIZE,
    ensures
        forall|k: int| 0 <= k < lit_positions(screen, n).len() ==> {
            let (x, y) = #[trigger] lit_positions(screen, n)[k];
            &&& x < SCREEN_WIDTH
            &&& y < SCREEN_HEIGHT
            &&& SCREEN_WIDTH * y + x < n
            &&& screen[SCREEN_WIDTH * y + x]
        },
        forall|p: int| 0 <= p < n && #[trigger] screen[p] ==>
            lit_positions(screen, n).contains(((p % SCREEN_WIDTH as int) as usize, (p / SCREEN_WIDTH as int) as usize)),
        forall|k1: int, k2: int| 0 <= k1 < k2 < lit_positions(screen, n).len() ==>
            SCREEN_WIDTH * (#[trigger] lit_positions(screen, n)[k1]).1 + lit_positions(screen, n)[k1].0
                < SCREEN_WIDTH * (#[trigger] lit_positions(screen, n)[k2]).1 + lit_positions(screen, n)[k2].0,
    decreases n,
{
    if n > 0 {
        let m = (n - 1) as nat;
        law_lit_positions(screen, m);
        let before = lit_positions(screen, m);
        let now = lit_positions(screen, n);
        let q = n - 1;
        assert(0 <= q % 64 < 64 && 0 <= q / 64 < 32 && 64 * (q / 64) + q % 64 == q);
        assert forall|k: int| 0 <= k < now.len() implies {
            let (x, y) = #[trigger] now[k];
            &&& x < SCREEN_WIDTH
            &&& y < SCREEN_HEIGHT
            &&& SCREEN_WIDTH * y + x < n
            &&& screen[SCREEN_WIDTH * y + x]
        } by {
            if k < before.len() {
                assert(now[k] == before[k]);
            }
        }
        assert forall|p: int| 0 <= p < n && #[trigger] screen[p] implies
            now.contains(((p % SCREEN_WIDTH as int) as usize, (p / SCREEN_WIDTH as int) as usize)) by {
            let e = ((p % SCREEN_WIDTH as int) as usize, (p / SCREEN_WIDTH as int) as usize);
            if p < q {
                let k = choose|k: int| 0 <= k < before.len() && before[k] == e;
                assert(now[k] == e);
            } else {
                assert(now[now.len() - 1] == e);
            }
        }
        assert forall|k1: int, k2: int| 0 <= k1 < k2 < now.len() implies
            SCREEN_WIDTH * (#[trigger] now[k1]).1 + now[k1].0 < SCREEN_WIDTH * (#[trigger] now[k2]).1 + now[k2].0 by {
            if k2 < before.len() {
                assert(now[k1] == before[k1] && now[k2] == before[k2]);
            } else {
                assert(now[k1] == before[k1]);
            }
        }
    }
}

} // verus!
