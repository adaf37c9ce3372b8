//! What the register instructions (`6XNN`, `7XNN`, `8XYN`) compute,
//! stated over the old and new register values.
use vstd::prelude::*;
use crate::state::{step, step_defined, op_kind, op_x, op_y, op_n, CpuState};

verus! {

/// `6XNN` puts the low byte of the opcode in VX and `7XNN` adds it to VX
/// modulo 256 (VF untouched unless X is F); no other register and no other
/// part of the machine changes except the counter, which moves two bytes.
pub proof fn lemma_set_and_add_immediate(s: CpuState, op: u16)
    requires
        step_defined(s, op),
        op_kind(op) == 6 || op_kind(op) == 7,
    ensures
        ({
            let t = step(s, op, 0);
            let x = op_x(op);
            &&& op_kind(op) == 6 ==> t.register[x] == op as int % 256
            &&& op_kind(op) == 7 ==> t.register[x] == (s.register[x] + op as int % 256) % 256
            &&& forall|k: int| 0 <= k < 16 && k != x ==> #[trigger] t.register[k] == s.register[k]
            &&& t.register.len() == s.register.len()
            &&& t == (CpuState { register: t.register, pc: s.pc + 2, ..s })
        }),
{
}

/// `8XYN` over the old values VX and VY of registers X and Y:
/// - `8XY0` VX becomes VY; `8XY1` VX | VY; `8XY2` VX & VY; `8XY3` VX ^ VY;
///   no other register changes.
/// - `8XY4` VF becomes 1 when VX + VY exceeds 255, else 0; for X not F the
///   new VX plus 256 times VF is VX + VY.
/// - `8XY5` VF becomes 1 when VX < VY, else 0; for X not F the new VX is
///   VX - VY plus 256 times VF.
/// - `8XY6` for X not F: twice the new VX plus VF is VX (VF is the bit
///   shifted out); for X equal to F, VF ends 0.
/// - `8XY7` VF becomes 1 when VY < VX, else 0; for Y not F the new VY is
///   VY - VX plus 256 times VF; VX is left alone unless it is VF.
/// - `8XYE` for X not F: 256 times VF plus the new VX is twice VX; for X
///   equal to F, VF ends 2 when VX >= 128 and 0 otherwise.
/// Only the written registers change (X, or Y for `8XY7`, and VF where a
/// flag is set), and apart from the registers only the counter changes,
/// by two bytes.
pub proof fn lemma_alu_results(s: CpuState, op: u16)
    requires
        step_defined(s, op),
        op_kind(op) == 8,
    ensures
        ({
            let t = step(s, op, 0);
            let x = op_x(op);
            let y = op_y(op);
            let n = op_n(op);
            let vx = s.register[x];
            let vy = s.register[y];
            let written = if n == 7 {
                y
            } else {
                x
            };
            &&& n == 0 ==> t.register[x] == vy
            &&& n == 1 ==> t.register[x] == vx | vy
            &&& n == 2 ==> t.register[x] == vx & vy
            &&& n == 3 ==> t.register[x] == vx ^ vy
            &&& n <= 3 ==> forall|k: int|
                0 <= k < 16 && k != x ==> #[trigger] t.register[k] == s.register[k]
            &&& n == 4 ==> t.register[15] == (if vx + vy > 255 {
                1int
            } else {
                0int
            })
            &&& (n == 4 && x != 15) ==> t.register[x] + 256 * t.register[15] == vx + vy
            &&& n == 5 ==> t.register[15] == (if vx < vy {
                1int
            } else {
                0int
            })
            &&& (n == 5 && x != 15) ==> t.register[x] == vx - vy + 256 * t.register[15]
            &&& (n == 6 && x != 15) ==> 2 * t.register[x] + t.register[15] == vx && t.register[15]
                <= 1
            &&& (n == 6 && x == 15) ==> t.register[15] == 0
            &&& n == 7 ==> t.register[15] == (if vy < vx {
                1int
            } else {
                0int
            })
            &&& (n == 7 && y != 15) ==> t.register[y] == vy - vx + 256 * t.register[15]
            &&& (n == 14 && x != 15) ==> 256 * t.register[15] + t.register[x] == 2 * vx
                && t.register[15] <= 1
            &&& (n == 14 && x == 15) ==> t.register[15] == (if vx >= 128 {
                2int
            } else {
                0int
            })
            &&& forall|k: int|
                0 <= k < 16 && k != written && k != 15 ==> #[trigger] t.register[k]
                    == s.register[k]
            &&& t.register.len() == s.register.len()
            &&& t == (CpuState { register: t.register, pc: s.pc + 2, ..s })
        }),
{
}

} // verus!
