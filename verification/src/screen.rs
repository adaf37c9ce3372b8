//! Screen operations: clearing and sprite drawing.
use vstd::prelude::*;
use crate::state::{
    Pixel, white, black, flipped, sprite_bit, sprite_pos, sprite_hits, sprite_covers,
    drawn_pixels, sprite_collides, SCREEN_PIXELS, MEMORY_SIZE,
};

verus! {

/// Sprite cell (`yl`, `xl`) hits `p` and comes before cell (`ly`, `lx`)
/// in drawing order (row by row, left to right).
pub open spec fn hit_before(
    memory: Seq<u8>,
    i: u8,
    vx: u8,
    vy: u8,
    height: int,
    ly: int,
    lx: int,
    p: int,
) -> bool {
    exists|yl: int, xl: int|
        #[trigger] sprite_hits(memory, i, vx, vy, height, yl, xl, p) && (yl < ly || (yl == ly
            && xl < lx))
}

/// Two set cells of one sprite never land on the same screen index.
pub proof fn lemma_sprite_cells_distinct(
    memory: Seq<u8>,
    i: u8,
    vx: u8,
    vy: u8,
    height: int,
    yl1: int,
    xl1: int,
    yl2: int,
    xl2: int,
    p: int,
)
    requires
        sprite_hits(memory, i, vx, vy, height, yl1, xl1, p),
        sprite_hits(memory, i, vx, vy, height, yl2, xl2, p),
    ensures
        yl1 == yl2,
        xl1 == xl2,
{
}

/// Turns every pixel white.
pub fn whiten(pixels: &mut Vec<Pixel>)
    ensures
        final(pixels)@ == Seq::new(old(pixels)@.len(), |p: int| white()),
{
    let n = pixels.len();
    let mut p: usize = 0;
    while p < n
        invariant
            p <= n,
            n == pixels@.len(),
            n == old(pixels)@.len(),
            forall|j: int| 0 <= j < p ==> pixels@[j] == white(),
        decreases n - p,
    {
        pixels.set(p, (255u8, 255u8, 255u8));
        p = p + 1;
    }
    assert(pixels@ =~= Seq::new(old(pixels)@.len(), |p: int| white()));
}

/// Draws the `height`-row sprite stored at `memory[i..]` with its top-left
/// corner at (`vx`, `vy`): each set sprite cell flips the pixel it lands
/// on, cells beyond the last screen index are dropped. Returns whether a
/// white pixel was turned black.
pub fn draw_sprite(
    pixels: &mut Vec<Pixel>,
    memory: &Vec<u8>,
    i: u8,
    vx: u8,
    vy: u8,
    height: u16,
) -> (collided: bool)
    requires
        old(pixels)@.len() == SCREEN_PIXELS,
        memory@.len() == MEMORY_SIZE,
        height < 16,
    ensures
        final(pixels)@ == drawn_pixels(old(pixels)@, memory@, i, vx, vy, height as int),
        collided == sprite_collides(old(pixels)@, memory@, i, vx, vy, height as int),
{
    let ghost old_pixels = pixels@;
    let ghost h = height as int;
    let mut collided = false;
    let mut yline: u16 = 0;
    while yline < height
        invariant
            yline <= height,
            height < 16,
            memory@.len() == MEMORY_SIZE,
            pixels@.len() == SCREEN_PIXELS,
            old_pixels.len() == SCREEN_PIXELS,
            h == height as int,
            forall|p: int|
                0 <= p < SCREEN_PIXELS ==> #[trigger] pixels@[p] == if hit_before(
                    memory@,
                    i,
                    vx,
                    vy,
                    h,
                    yline as int,
                    0,
                    p,
                ) {
                    flipped(old_pixels[p])
                } else {
                    old_pixels[p]
                },
            collided == exists|p: int|
                0 <= p < SCREEN_PIXELS && #[trigger] hit_before(
                    memory@,
                    i,
                    vx,
                    vy,
                    h,
                    yline as int,
                    0,
                    p,
                ) && old_pixels[p] == white(),
        decreases height - yline,
    {
        let row: u16 = memory[(i as u16 + yline) as usize] as u16;
        let mut xline: u16 = 0;
        while xline < 8
            invariant
                xline <= 8,
                yline < height,
                height < 16,
                memory@.len() == MEMORY_SIZE,
                pixels@.len() == SCREEN_PIXELS,
                old_pixels.len() == SCREEN_PIXELS,
                h == height as int,
                row == memory@[i + yline] as u16,
                forall|p: int|
                    0 <= p < SCREEN_PIXELS ==> #[trigger] pixels@[p] == if hit_before(
                        memory@,
                        i,
                        vx,
                        vy,
                        h,
                        yline as int,
                        xline as int,
                        p,
                    ) {
                        flipped(old_pixels[p])
                    } else {
                        old_pixels[p]
                    },
                collided == exists|p: int|
                    0 <= p < SCREEN_PIXELS && #[trigger] hit_before(
                        memory@,
                        i,
                        vx,
                        vy,
                        h,
                        yline as int,
                        xline as int,
                        p,
                    ) && old_pixels[p] == white(),
            decreases 8 - xline,
        {
            let ghost pre = pixels@;
            let ghost pre_collided = collided;
            let ghost yl = yline as int;
            let ghost xl = xline as int;
            let set = (row & (0x80u16 >> xline)) != 0;
            assert(set == sprite_bit(memory@[i + yl], xl));
            let pos: usize = ((vx as u16 + xline) + ((vy as u16 + yline) * 64)) as usize;
            assert(pos as int == sprite_pos(vx, vy, yl, xl));
            if set && pos < SCREEN_PIXELS {
                assert(sprite_hits(memory@, i, vx, vy, h, yl, xl, pos as int));
                assert(!hit_before(memory@, i, vx, vy, h, yl, xl, pos as int)) by {
                    if hit_before(memory@, i, vx, vy, h, yl, xl, pos as int) {
                        let (a, b) = choose|a: int, b: int|
                            #[trigger] sprite_hits(memory@, i, vx, vy, h, a, b, pos as int) && (a
                                < yl || (a == yl && b < xl));
                        lemma_sprite_cells_distinct(
                            memory@,
                            i,
                            vx,
                            vy,
                            h,
                            a,
                            b,
                            yl,
                            xl,
                            pos as int,
                        );
                    }
                }
                let c = pixels[pos];
                if c.0 == 255 && c.1 == 255 && c.2 == 255 {
                    pixels.set(pos, (0u8, 0u8, 0u8));
                    collided = true;
                } else {
                    pixels.set(pos, (255u8, 255u8, 255u8));
                }
            }
            proof {
                assert forall|p: int|
                    hit_before(memory@, i, vx, vy, h, yl, xl + 1, p) == (hit_before(
                        memory@,
                        i,
                        vx,
                        vy,
                        h,
                        yl,
                        xl,
                        p,
                    ) || sprite_hits(memory@, i, vx, vy, h, yl, xl, p)) by {
                    if hit_before(memory@, i, vx, vy, h, yl, xl + 1, p) {
                        let (a, b) = choose|a: int, b: int|
                            #[trigger] sprite_hits(memory@, i, vx, vy, h, a, b, p) && (a < yl || (a
                                == yl && b < xl + 1));
                        if !(a == yl && b == xl) {
                            assert(hit_before(memory@, i, vx, vy, h, yl, xl, p));
                        }
                    }
                    if sprite_hits(memory@, i, vx, vy, h, yl, xl, p) {
                        assert(hit_before(memory@, i, vx, vy, h, yl, xl + 1, p));
                    }
                    if hit_before(memory@, i, vx, vy, h, yl, xl, p) {
                        let (a, b) = choose|a: int, b: int|
                            #[trigger] sprite_hits(memory@, i, vx, vy, h, a, b, p) && (a < yl || (a
                                == yl && b < xl));
                        assert(sprite_hits(memory@, i, vx, vy, h, a, b, p));
                    }
                }
                assert forall|p: int|
                    sprite_hits(memory@, i, vx, vy, h, yl, xl, p) implies p == pos && set by {}
                if collided {
                    if !pre_collided {
                        assert(old_pixels[pos as int] == white());
                        assert(hit_before(memory@, i, vx, vy, h, yl, xl + 1, pos as int));
                    } else {
                        let q = choose|q: int|
                            0 <= q < SCREEN_PIXELS && #[trigger] hit_before(
                                memory@,
                                i,
                                vx,
                                vy,
                                h,
                                yl,
                                xl,
                                q,
                            ) && old_pixels[q] == white();
                        assert(hit_before(memory@, i, vx, vy, h, yl, xl + 1, q));
                    }
                } else {
                    assert forall|q: int|
                        0 <= q < SCREEN_PIXELS && #[trigger] hit_before(
                            memory@,
                            i,
                            vx,
                            vy,
                            h,
                            yl,
                            xl + 1,
                            q,
                        ) implies old_pixels[q] != white() by {
                        if !hit_before(memory@, i, vx, vy, h, yl, xl, q) {
                            assert(sprite_hits(memory@, i, vx, vy, h, yl, xl, q));
                        }
                    }
                }
                assert forall|p: int| 0 <= p < SCREEN_PIXELS implies #[trigger] pixels@[p] == if hit_before(
                    memory@,
                    i,
                    vx,
                    vy,
                    h,
                    yl,
                    xl + 1,
                    p,
                ) {
                    flipped(old_pixels[p])
                } else {
                    old_pixels[p]
                } by {
                    assert(pre[p] == if hit_before(memory@, i, vx, vy, h, yl, xl, p) {
                        flipped(old_pixels[p])
                    } else {
                        old_pixels[p]
                    });
                }
            }
            xline = xline + 1;
        }
        proof {
            let yl = yline as int;
            assert forall|p: int|
                hit_before(memory@, i, vx, vy, h, yl + 1, 0, p) == hit_before(
                    memory@,
                    i,
                    vx,
                    vy,
                    h,
                    yl,
                    8,
                    p,
                ) by {
                if hit_before(memory@, i, vx, vy, h, yl + 1, 0, p) {
                    let (a, b) = choose|a: int, b: int|
                        #[trigger] sprite_hits(memory@, i, vx, vy, h, a, b, p) && (a < yl + 1 || (a
                            == yl + 1 && b < 0));
                    assert(hit_before(memory@, i, vx, vy, h, yl, 8, p));
                }
                if hit_before(memory@, i, vx, vy, h, yl, 8, p) {
                    let (a, b) = choose|a: int, b: int|
                        #[trigger] sprite_hits(memory@, i, vx, vy, h, a, b, p) && (a < yl || (a
                            == yl && b < 8));
                    assert(hit_before(memory@, i, vx, vy, h, yl + 1, 0, p));
                }
            }
            if collided {
                let q = choose|q: int|
                    0 <= q < SCREEN_PIXELS && #[trigger] hit_before(
                        memory@,
                        i,
                        vx,
                        vy,
                        h,
                        yl,
                        8,
                        q,
                    ) && old_pixels[q] == white();
                assert(hit_before(memory@, i, vx, vy, h, yl + 1, 0, q));
            } else {
                assert forall|q: int|
                    0 <= q < SCREEN_PIXELS && #[trigger] hit_before(
                        memory@,
                        i,
                        vx,
                        vy,
                        h,
                        yl + 1,
                        0,
                        q,
                    ) implies old_pixels[q] != white() by {
                    assert(hit_before(memory@, i, vx, vy, h, yl, 8, q));
                }
            }
        }
        yline = yline + 1;
    }
    proof {
        assert forall|p: int|
            hit_before(memory@, i, vx, vy, h, h, 0, p) == sprite_covers(
                memory@,
                i,
                vx,
                vy,
                h,
                p,
            ) by {
            if sprite_covers(memory@, i, vx, vy, h, p) {
                let (a, b) = choose|a: int, b: int|
                    #[trigger] sprite_hits(memory@, i, vx, vy, h, a, b, p);
                assert(hit_before(memory@, i, vx, vy, h, h, 0, p));
            }
        }
        assert(pixels@ =~= drawn_pixels(old_pixels, memory@, i, vx, vy, h));
        if collided {
            let q = choose|q: int|
                0 <= q < SCREEN_PIXELS && #[trigger] hit_before(memory@, i, vx, vy, h, h, 0, q)
                    && old_pixels[q] == white();
            assert(sprite_covers(memory@, i, vx, vy, h, q));
        }
    }
    collided
}

} // verus!
