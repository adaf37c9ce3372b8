//! Properties that hold of every state and every instruction.
use vstd::prelude::*;
use crate::state::{
    step, step_defined, op_kind, op_x, op_y, op_n, op_nn, CpuState, flipped, white, black,
    initial_state,
};
use crate::ops::lemma_held_scan;

verus! {

/// Every instruction keeps the machine's shape: memory, register file,
/// stack, keypad and screen keep their sizes.
pub proof fn lemma_step_preserves_wf(s: CpuState, op: u16, rnd: u8)
    requires
        step_defined(s, op),
    ensures
        step(s, op, rnd).wf(),
{
    if op_kind(op) != 12 {
        lemma_step_ignores_random(s, op, rnd, 0);
    }
    lemma_held_scan(s.keys, 16);
    let t = step(s, op, rnd);
    if op_kind(op) == 13 {
        assert(t.pixels.len() == s.pixels.len());
    } else if op_kind(op) == 15 {
        assert(t.memory.len() == s.memory.len());
        assert(t.register.len() == s.register.len());
    }
}

/// A fresh machine has the machine's shape and an all-black screen.
pub proof fn lemma_initial_state(rom: Seq<u8>, size: int)
    ensures
        initial_state(rom, size).wf(),
        initial_state(rom, size).monochrome(),
{
}

/// Only `CXNN` depends on the random byte: every other instruction gives
/// the same state whatever byte is drawn.
pub proof fn lemma_step_ignores_random(s: CpuState, op: u16, r1: u8, r2: u8)
    requires
        op_kind(op) != 12,
    ensures
        step(s, op, r1) == step(s, op, r2),
{
}

/// `CXNN` only sets bits of VX that are set in `NN`, whatever byte is drawn.
pub proof fn lemma_random_is_masked(s: CpuState, op: u16, rnd: u8)
    requires
        step_defined(s, op),
        op_kind(op) == 12,
    ensures
        step(s, op, rnd).register[op_x(op)] & op_nn(op) == step(s, op, rnd).register[op_x(op)],
{
    let nn = op_nn(op);
    assert((rnd & nn) & nn == rnd & nn) by (bit_vector);
}

/// `CXNN` can give every value within the mask: when the drawn byte has no
/// bit outside `NN`, VX becomes exactly that byte, and only VX and the
/// counter (two bytes on) change. Two drawn bytes that agree on the bits
/// of `NN` give the same state.
pub proof fn lemma_random_reaches_masked_values(s: CpuState, op: u16, r1: u8, r2: u8)
    requires
        step_defined(s, op),
        op_kind(op) == 12,
    ensures
        r1 & op_nn(op) == r1 ==> step(s, op, r1) == (CpuState {
            register: s.register.update(op_x(op), r1),
            pc: s.pc + 2,
            ..s
        }),
        r1 & op_nn(op) == r2 & op_nn(op) ==> step(s, op, r1) == step(s, op, r2),
{
}

/// A screen that is all black and white stays so under every instruction.
pub proof fn lemma_step_preserves_monochrome(s: CpuState, op: u16, rnd: u8)
    requires
        step_defined(s, op),
        s.monochrome(),
    ensures
        step(s, op, rnd).monochrome(),
{
    if op_kind(op) != 12 {
        lemma_step_ignores_random(s, op, rnd, 0);
    }
    let t = step(s, op, rnd);
    assert forall|p: int| 0 <= p < t.pixels.len() implies #[trigger] t.pixels[p] == white()
        || t.pixels[p] == black() by {
        if op_kind(op) == 13 || (op_kind(op) == 0 && op_n(op) == 0) {
        } else {
            assert(t.pixels[p] == s.pixels[p]);
        }
    }
}

/// Drawing the same sprite twice in a row leaves a black-and-white screen
/// as it was, provided neither coordinate register is VF (which the first
/// draw overwrites).
pub proof fn lemma_draw_twice_restores(s: CpuState, op: u16)
    requires
        step_defined(s, op),
        op_kind(op) == 13,
        op_x(op) != 15,
        op_y(op) != 15,
        s.monochrome(),
    ensures
        step(step(s, op, 0), op, 0).pixels == s.pixels,
{
    let t = step(s, op, 0);
    let u = step(t, op, 0);
    assert(t.register[op_x(op)] == s.register[op_x(op)]);
    assert(t.register[op_y(op)] == s.register[op_y(op)]);
    assert forall|p: int| 0 <= p < s.pixels.len() implies #[trigger] u.pixels[p] == s.pixels[p] by {
        assert(s.pixels[p] == white() || s.pixels[p] == black());
    }
    assert(u.pixels =~= s.pixels);
}

/// A return right after a call restores the stack pointer and lands four
/// bytes past the call: the call saves the address after itself and the
/// return moves two bytes beyond the saved address. The return can always
/// run when the counter has room.
pub proof fn lemma_call_then_return(s: CpuState, call: u16, ret: u16)
    requires
        step_defined(s, call),
        op_kind(call) == 2,
        ret == 0x00EE,
        s.pc + 4 <= usize::MAX,
    ensures
        step_defined(step(s, call, 0), ret),
        step(step(s, call, 0), ret, 0).pc == s.pc + 4,
        step(step(s, call, 0), ret, 0).sp == s.sp,
{
    lemma_step_preserves_wf(s, call, 0);
}

/// `FX33` writes the decimal digits of VX: hundreds, tens and units, each
/// below ten, which together give VX back.
pub proof fn lemma_bcd_digits(s: CpuState, op: u16)
    requires
        step_defined(s, op),
        op_kind(op) == 15,
        op_nn(op) == 0x33,
    ensures
        ({
            let t = step(s, op, 0);
            let a = s.i as int;
            &&& t.memory[a] < 10 && t.memory[a + 1] < 10 && t.memory[a + 2] < 10
            &&& t.memory[a] * 100 + t.memory[a + 1] * 10 + t.memory[a + 2] == s.register[op_x(op)]
        }),
{
}

/// `8XY4` (X not F): the new VX and the carry in VF together make the full
/// sum of the old VX and VY.
pub proof fn lemma_add_carry(s: CpuState, op: u16)
    requires
        step_defined(s, op),
        op_kind(op) == 8,
        op_n(op) == 4,
        op_x(op) != 15,
    ensures
        step(s, op, 0).register[op_x(op)] + 256 * step(s, op, 0).register[15]
            == s.register[op_x(op)] + s.register[op_y(op)],
        step(s, op, 0).register[15] <= 1,
{
}

/// `8XY5` (X not F): the new VX is the old VX minus VY, plus 256 when VF
/// reports a borrow.
pub proof fn lemma_sub_borrow(s: CpuState, op: u16)
    requires
        step_defined(s, op),
        op_kind(op) == 8,
        op_n(op) == 5,
        op_x(op) != 15,
    ensures
        step(s, op, 0).register[op_x(op)] == s.register[op_x(op)] - s.register[op_y(op)] + 256
            * step(s, op, 0).register[15],
        step(s, op, 0).register[15] <= 1,
{
}

/// Storing V0..VX with `FX55` and loading them back with `FX65` from the
/// same address gives the registers back unchanged.
pub proof fn lemma_store_then_load(s: CpuState, store: u16, load: u16)
    requires
        step_defined(s, store),
        op_kind(store) == 15,
        op_nn(store) == 0x55,
        op_kind(load) == 15,
        op_nn(load) == 0x65,
        op_x(load) == op_x(store),
    ensures
        step(CpuState { i: s.i, ..step(s, store, 0) }, load, 0).register == s.register,
{
    let t = step(s, store, 0);
    let u = step(CpuState { i: s.i, ..t }, load, 0);
    assert(u.register =~= s.register);
}

} // verus!
