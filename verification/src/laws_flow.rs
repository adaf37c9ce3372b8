//! What the control-flow instructions do to the program counter and the
//! stack: skips, jumps, calls and returns.
use vstd::prelude::*;
use crate::state::{step, step_defined, op_kind, op_x, op_y, op_n, CpuState};
use crate::laws::lemma_step_preserves_wf;

verus! {

/// The conditional skips move the counter four bytes when their condition
/// holds and two when it does not, and change nothing else:
/// `3XNN` VX == NN, `4XNN` VX != NN, `5XY0` VX == VY, `9XY0` VX != VY,
/// `EX9E` the key at index X held, `EXA1` that key not held.
pub proof fn lemma_skips(s: CpuState, op: u16)
    requires
        step_defined(s, op),
        op_kind(op) == 3 || op_kind(op) == 4 || op_kind(op) == 5 || op_kind(op) == 9 || op_kind(op)
            == 14,
    ensures
        ({
            let t = step(s, op, 0);
            let vx = s.register[op_x(op)] as int;
            let vy = s.register[op_y(op)] as int;
            let nn = op as int % 256;
            let key = s.keys[op_x(op)] as int;
            let cond = if op_kind(op) == 3 {
                vx == nn
            } else if op_kind(op) == 4 {
                vx != nn
            } else if op_kind(op) == 5 {
                vx == vy
            } else if op_kind(op) == 9 {
                vx != vy
            } else if nn == 0x9E {
                key != 0
            } else {
                key == 0
            };
            &&& cond ==> t.pc == s.pc + 4
            &&& !cond ==> t.pc == s.pc + 2
            &&& t == (CpuState { pc: t.pc, ..s })
        }),
{
}

/// `1NNN` sets the counter to the low twelve bits of the opcode and `BNNN`
/// to the low byte of the opcode plus V0, modulo 256; nothing else changes.
pub proof fn lemma_jumps(s: CpuState, op: u16)
    requires
        step_defined(s, op),
        op_kind(op) == 1 || op_kind(op) == 11,
    ensures
        op_kind(op) == 1 ==> step(s, op, 0).pc == op as int % 4096,
        op_kind(op) == 11 ==> step(s, op, 0).pc == (op as int % 256 + s.register[0]) % 256,
        step(s, op, 0) == (CpuState { pc: step(s, op, 0).pc, ..s }),
{
}

/// `2NNN` writes the address after the call (`pc + 2`) into stack slot
/// `sp`, leaves every other slot as it was, raises `sp` by one and jumps
/// to `NNN`; nothing else changes.
pub proof fn lemma_call(s: CpuState, op: u16)
    requires
        step_defined(s, op),
        op_kind(op) == 2,
    ensures
        ({
            let t = step(s, op, 0);
            &&& t.stack.len() == s.stack.len()
            &&& t.stack[s.sp] == s.pc + 2
            &&& forall|k: int| 0 <= k < s.stack.len() && k != s.sp ==> #[trigger] t.stack[k]
                == s.stack[k]
            &&& t.sp == s.sp + 1
            &&& t.pc == op as int % 4096
            &&& t == (CpuState { stack: t.stack, sp: t.sp, pc: t.pc, ..s })
        }),
{
}

/// `00EE` lowers `sp` by one and continues two bytes past the address in
/// stack slot `sp - 1`; the stack and everything else stay as they were.
pub proof fn lemma_return(s: CpuState, op: u16)
    requires
        step_defined(s, op),
        op_kind(op) == 0,
        op_n(op) == 14,
    ensures
        step(s, op, 0).pc == s.stack[s.sp - 1] + 2,
        step(s, op, 0).sp == s.sp - 1,
        step(s, op, 0) == (CpuState { sp: s.sp - 1, pc: s.stack[s.sp - 1] + 2, ..s }),
{
}

/// Two nested calls followed by two returns: the inner return lands four
/// bytes past the inner call's target, the outer return four bytes past
/// the outer call, with `sp` back where it was. Every step can run.
pub proof fn lemma_nested_calls(s: CpuState, outer: u16, inner: u16)
    requires
        step_defined(s, outer),
        op_kind(outer) == 2,
        op_kind(inner) == 2,
        s.sp + 2 <= 16,
        s.pc + 4 <= usize::MAX,
    ensures
        ({
            let a = step(s, outer, 0);
            let b = step(a, inner, 0);
            let c = step(b, 0x00EE, 0);
            let d = step(c, 0x00EE, 0);
            &&& step_defined(a, inner) && step_defined(b, 0x00EE) && step_defined(c, 0x00EE)
            &&& c.pc == a.pc + 4
            &&& c.sp == s.sp + 1
            &&& d.pc == s.pc + 4
            &&& d.sp == s.sp
        }),
{
    let a = step(s, outer, 0);
    lemma_step_preserves_wf(s, outer, 0);
    let b = step(a, inner, 0);
    assert(step_defined(a, inner));
    lemma_step_preserves_wf(a, inner, 0);
    assert(step_defined(b, 0x00EE));
    let c = step(b, 0x00EE, 0);
    lemma_step_preserves_wf(b, 0x00EE, 0);
    assert(step_defined(c, 0x00EE));
}

} // verus!
