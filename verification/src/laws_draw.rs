//! What drawing and clearing do to the screen, stated pixel by pixel.
use vstd::prelude::*;
use crate::state::{step, step_defined, op_kind, op_x, op_y, op_n, CpuState, sprite_bit};
use crate::screen::lemma_sprite_cells_distinct;

verus! {

/// The two ways of reading bit `7 - k` of a byte agree: masking with
/// `0x80 >> k` and shifting right by `7 - k`.
pub proof fn lemma_row_bit(row: u8, k: u8)
    requires
        k < 8,
    ensures
        ((row as u16) & (0x80u16 >> (k as u16)) != 0u16) == ((row >> ((7u8 - k) as u8)) & 1u8 == 1u8),
{
    assert(k < 8 ==> (((row as u16) & (0x80u16 >> (k as u16)) != 0u16) == ((row >> ((7u8 - k) as u8))
        & 1u8 == 1u8))) by (bit_vector);
}

/// `DXYN` pixel by pixel: for every sprite cell (row `yl < N`, column
/// `xl < 8`) whose screen index `VX + xl + (VY + yl) * 64` is below 2048,
/// that pixel is flipped (white to black, anything else to white) exactly
/// when bit `7 - xl` of the byte at `I + yl` is set, and kept otherwise.
/// No other pixel changes. VF ends 1 when some set cell turned a white
/// pixel black and 0 otherwise; the counter moves two bytes.
pub proof fn lemma_draw_pixels(s: CpuState, op: u16)
    requires
        step_defined(s, op),
        op_kind(op) == 13,
    ensures
        ({
            let t = step(s, op, 0);
            let vx = s.register[op_x(op)] as int;
            let vy = s.register[op_y(op)] as int;
            let h = op_n(op);
            &&& forall|yl: int, xl: int|
                #![trigger s.memory[s.i + yl], t.pixels[vx + xl + (vy + yl) * 64]]
                0 <= yl < h && 0 <= xl < 8 && vx + xl + (vy + yl) * 64 < 2048 ==> t.pixels[vx + xl
                    + (vy + yl) * 64] == if (s.memory[s.i + yl] >> ((7 - xl) as u8)) & 1u8 == 1u8 {
                    if s.pixels[vx + xl + (vy + yl) * 64] == (255u8, 255u8, 255u8) {
                        (0u8, 0u8, 0u8)
                    } else {
                        (255u8, 255u8, 255u8)
                    }
                } else {
                    s.pixels[vx + xl + (vy + yl) * 64]
                }
            &&& forall|p: int|
                0 <= p < 2048 && #[trigger] t.pixels[p] != s.pixels[p] ==> exists|yl: int, xl: int|
                    0 <= yl < h && 0 <= xl < 8 && p == vx + xl + (vy + yl) * 64 && (#[trigger] (
                    s.memory[s.i + yl] >> ((7 - xl) as u8)) & 1u8) == 1u8
            &&& t.register[15] == 1 <==> exists|yl: int, xl: int|
                0 <= yl < h && 0 <= xl < 8 && vx + xl + (vy + yl) * 64 < 2048 && (#[trigger] (
                    s.memory[s.i + yl] >> ((7 - xl) as u8)) & 1u8) == 1u8 && s.pixels[vx + xl + (
                vy + yl) * 64] == (255u8, 255u8, 255u8)
            &&& t.register[15] <= 1
            &&& t.pixels.len() == s.pixels.len()
            &&& t.pc == s.pc + 2
            &&& t.draw_flag
        }),
{
    let t = step(s, op, 0);
    let vx = s.register[op_x(op)];
    let vy = s.register[op_y(op)];
    let h = op_n(op);
    assert forall|yl: int, xl: int|
        0 <= yl < h && 0 <= xl < 8 implies #[trigger] sprite_bit(s.memory[s.i + yl], xl) == ((
        s.memory[s.i + yl] >> ((7 - xl) as u8)) & 1u8 == 1u8) by {
        lemma_row_bit(s.memory[s.i + yl], xl as u8);
    }
    assert forall|yl: int, xl: int|
        #![trigger s.memory[s.i + yl], t.pixels[vx + xl + (vy + yl) * 64]]
        0 <= yl < h && 0 <= xl < 8 && vx + xl + (vy + yl) * 64 < 2048 implies t.pixels[vx + xl + (
        vy + yl) * 64] == if (s.memory[s.i + yl] >> ((7 - xl) as u8)) & 1u8 == 1u8 {
        if s.pixels[vx + xl + (vy + yl) * 64] == (255u8, 255u8, 255u8) {
            (0u8, 0u8, 0u8)
        } else {
            (255u8, 255u8, 255u8)
        }
    } else {
        s.pixels[vx + xl + (vy + yl) * 64]
    } by {
        let p = vx + xl + (vy + yl) * 64;
        assert(sprite_bit(s.memory[s.i + yl], xl) == ((s.memory[s.i + yl] >> ((7 - xl) as u8))
            & 1u8 == 1u8));
        if crate::state::sprite_covers(s.memory, s.i, vx, vy, h, p) {
            let (a, b) = choose|a: int, b: int|
                #[trigger] crate::state::sprite_hits(s.memory, s.i, vx, vy, h, a, b, p);
            if !sprite_bit(s.memory[s.i + yl], xl) {
                lemma_sprite_cells_distinct(s.memory, s.i, vx, vy, h, a, b, a, b, p);
                assert(a == yl && b == xl);
            }
        } else {
            if sprite_bit(s.memory[s.i + yl], xl) {
                assert(crate::state::sprite_hits(s.memory, s.i, vx, vy, h, yl, xl, p));
            }
        }
    }
    assert forall|p: int|
        0 <= p < 2048 && #[trigger] t.pixels[p] != s.pixels[p] implies exists|yl: int, xl: int|
        0 <= yl < h && 0 <= xl < 8 && p == vx + xl + (vy + yl) * 64 && (#[trigger] (s.memory[s.i
            + yl] >> ((7 - xl) as u8)) & 1u8) == 1u8 by {
        let (a, b) = choose|a: int, b: int|
            #[trigger] crate::state::sprite_hits(s.memory, s.i, vx, vy, h, a, b, p);
        assert(sprite_bit(s.memory[s.i + a], b));
    }
    if t.register[15] == 1 {
        let p = choose|p: int|
            0 <= p < s.pixels.len() && #[trigger] crate::state::sprite_covers(
                s.memory,
                s.i,
                vx,
                vy,
                h,
                p,
            ) && s.pixels[p] == (255u8, 255u8, 255u8);
        let (a, b) = choose|a: int, b: int|
            #[trigger] crate::state::sprite_hits(s.memory, s.i, vx, vy, h, a, b, p);
        assert(sprite_bit(s.memory[s.i + a], b));
    } else {
        assert forall|yl: int, xl: int|
            0 <= yl < h && 0 <= xl < 8 && vx + xl + (vy + yl) * 64 < 2048 && (#[trigger] (
                s.memory[s.i + yl] >> ((7 - xl) as u8)) & 1u8) == 1u8 implies s.pixels[vx + xl + (
            vy + yl) * 64] != (255u8, 255u8, 255u8) by {
            let p = vx + xl + (vy + yl) * 64;
            assert(sprite_bit(s.memory[s.i + yl], xl));
            assert(crate::state::sprite_hits(s.memory, s.i, vx, vy, h, yl, xl, p));
            assert(crate::state::sprite_covers(s.memory, s.i, vx, vy, h, p));
        }
    }
}

/// Clearing (`0NN0`, in particular `00E0`) turns every pixel white, asks
/// for a redraw, moves the counter two bytes and changes nothing else.
pub proof fn lemma_clear_screen(s: CpuState, op: u16)
    requires
        step_defined(s, op),
        op_kind(op) == 0,
        op_n(op) == 0,
    ensures
        step(s, op, 0).pixels.len() == s.pixels.len(),
        forall|p: int| 0 <= p < s.pixels.len() ==> #[trigger] step(s, op, 0).pixels[p] == (
            255u8,
            255u8,
            255u8,
        ),
        step(s, op, 0) == (CpuState {
            pixels: step(s, op, 0).pixels,
            pc: s.pc + 2,
            draw_flag: true,
            ..s
        }),
{
}

} // verus!
