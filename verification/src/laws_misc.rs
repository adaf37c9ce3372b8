//! What the `ANNN` and `FXNN` instructions, the fetch, the timer tick and
//! a fresh machine are, stated over plain values.
use vstd::prelude::*;
use crate::state::{
    step, step_defined, op_kind, op_x, op_y, op_n, op_nn, op_nnn, CpuState, fetched, tick,
    initial_state, last_held, first_held,
};

verus! {

/// An opcode is its four nibbles: kind, X, Y and N, each below 16; `NN` is
/// the low byte and `NNN` the low twelve bits.
pub proof fn lemma_opcode_fields(op: u16)
    ensures
        0 <= op_kind(op) < 16 && 0 <= op_x(op) < 16 && 0 <= op_y(op) < 16 && 0 <= op_n(op) < 16,
        op as int == op_kind(op) * 4096 + op_x(op) * 256 + op_y(op) * 16 + op_n(op),
        op_nn(op) as int == op_y(op) * 16 + op_n(op),
        op_nnn(op) == op_x(op) * 256 + op_y(op) * 16 + op_n(op),
{
}

/// The fetched word has the byte at `pc` as its high byte and the byte at
/// `pc + 1` as its low byte.
pub proof fn lemma_fetch_bytes(s: CpuState)
    requires
        s.wf(),
        s.pc + 1 < s.memory.len(),
    ensures
        fetched(s) as int / 256 == s.memory[s.pc],
        fetched(s) as int % 256 == s.memory[s.pc + 1],
{
}

/// A fresh machine holds the program bytes from address 512 on, zero
/// between the font and the program and after the program, zero
/// registers, timers, index and stack pointer, an all-black screen, the
/// counter at 512 and a redraw pending.
pub proof fn lemma_fresh_machine(rom: Seq<u8>, size: int)
    requires
        0 <= size < 3584,
        size <= rom.len(),
    ensures
        ({
            let s = initial_state(rom, size);
            &&& forall|k: int| 0 <= k < size ==> #[trigger] s.memory[512 + k] == rom[k]
            &&& forall|a: int| 80 <= a < 512 ==> #[trigger] s.memory[a] == 0
            &&& forall|a: int| 512 + size <= a < 4096 ==> #[trigger] s.memory[a] == 0
            &&& forall|k: int| 0 <= k < 16 ==> #[trigger] s.register[k] == 0
            &&& forall|p: int| 0 <= p < 2048 ==> #[trigger] s.pixels[p] == (0u8, 0u8, 0u8)
            &&& s.pc == 512 && s.sp == 0 && s.i == 0
            &&& s.delay_register == 0 && s.sound_register == 0 && s.draw_flag
        }),
{
}

/// A tick lowers each non-zero timer by one, leaves zero timers at zero,
/// clears the redraw request and changes nothing else.
pub proof fn lemma_tick(s: CpuState)
    ensures
        s.delay_register > 0 ==> tick(s).delay_register == s.delay_register - 1,
        s.delay_register == 0 ==> tick(s).delay_register == 0,
        s.sound_register > 0 ==> tick(s).sound_register == s.sound_register - 1,
        s.sound_register == 0 ==> tick(s).sound_register == 0,
        tick(s) == (CpuState {
            delay_register: tick(s).delay_register,
            sound_register: tick(s).sound_register,
            draw_flag: false,
            ..s
        }),
{
}

/// `ANNN` sets `I` to the low byte of the opcode; `FX07` copies the delay
/// timer into V7; `FX15` loads the delay timer from V5 and `FX18` the
/// sound timer from V8 (the register named by the low nibble); `FX29`
/// sets `I` to five times VX. Each changes only what it names and moves
/// the counter two bytes.
pub proof fn lemma_index_and_timers(s: CpuState, op: u16)
    requires
        step_defined(s, op),
        op_kind(op) == 10 || (op_kind(op) == 15 && (op_nn(op) == 0x07 || op_nn(op) == 0x15
            || op_nn(op) == 0x18 || op_nn(op) == 0x29)),
    ensures
        ({
            let t = step(s, op, 0);
            let vx = s.register[op_x(op)];
            &&& op_kind(op) == 10 ==> t == (CpuState { i: (op as int % 256) as u8, pc: s.pc + 2, ..s })
            &&& (op_kind(op) == 15 && op_nn(op) == 0x07) ==> t == (CpuState {
                register: s.register.update(7, s.delay_register),
                pc: s.pc + 2,
                ..s
            })
            &&& (op_kind(op) == 15 && op_nn(op) == 0x15) ==> t == (CpuState {
                delay_register: s.register[5],
                pc: s.pc + 2,
                ..s
            })
            &&& (op_kind(op) == 15 && op_nn(op) == 0x18) ==> t == (CpuState {
                sound_register: s.register[8],
                pc: s.pc + 2,
                ..s
            })
            &&& (op_kind(op) == 15 && op_nn(op) == 0x29) ==> t.i == 5 * vx && t == (CpuState {
                i: t.i,
                pc: s.pc + 2,
                ..s
            })
        }),
{
}

/// `FX1E` adds `I` and VX: VF becomes 1 when the sum exceeds 255 and 0
/// otherwise, whatever it held before; for X not F the new VX plus 256
/// times VF is `I` plus the old VX. `I` itself and every other register
/// stay as they were; the counter moves two bytes.
pub proof fn lemma_add_to_index(s: CpuState, op: u16)
    requires
        step_defined(s, op),
        op_kind(op) == 15,
        op_nn(op) == 0x1E,
    ensures
        ({
            let t = step(s, op, 0);
            let x = op_x(op);
            &&& t.register[15] == (if s.i + s.register[x] > 255 {
                1int
            } else {
                0int
            })
            &&& x != 15 ==> t.register[x] + 256 * t.register[15] == s.i + s.register[x]
            &&& forall|k: int| 0 <= k < 16 && k != x && k != 15 ==> #[trigger] t.register[k]
                == s.register[k]
            &&& t.register.len() == s.register.len()
            &&& t == (CpuState { register: t.register, pc: s.pc + 2, ..s })
        }),
{
}

/// `FX33` writes only the three bytes at `I`..`I + 2`; `FX55` writes V0..VX
/// to memory at `I`..`I + X`, leaves every other byte and the registers as
/// they were and advances `I` by `X + 1` modulo 256; `FX65` loads V0..VX
/// from memory at `I`..`I + X`, leaves the other registers and memory as
/// they were and advances `I` the same way.
pub proof fn lemma_memory_transfers(s: CpuState, op: u16)
    requires
        step_defined(s, op),
        op_kind(op) == 15,
        op_nn(op) == 0x33 || op_nn(op) == 0x55 || op_nn(op) == 0x65,
    ensures
        ({
            let t = step(s, op, 0);
            let x = op_x(op);
            let i = s.i as int;
            &&& t.memory.len() == s.memory.len() && t.register.len() == s.register.len()
            &&& op_nn(op) == 0x33 ==> (forall|a: int|
                0 <= a < s.memory.len() && !(i <= a <= i + 2) ==> #[trigger] t.memory[a]
                    == s.memory[a]) && t == (CpuState { memory: t.memory, pc: s.pc + 2, ..s })
            &&& op_nn(op) == 0x55 ==> (forall|k: int|
                0 <= k <= x ==> #[trigger] t.memory[i + k] == s.register[k]) && (forall|a: int|
                0 <= a < s.memory.len() && !(i <= a <= i + x) ==> #[trigger] t.memory[a]
                    == s.memory[a]) && t.i == (i + x + 1) % 256 && t == (CpuState {
                memory: t.memory,
                i: t.i,
                pc: s.pc + 2,
                ..s
            })
            &&& op_nn(op) == 0x65 ==> (forall|k: int|
                0 <= k <= x ==> #[trigger] t.register[k] == s.memory[i + k]) && (forall|k: int|
                x < k < 16 ==> #[trigger] t.register[k] == s.register[k]) && t.i == (i + x + 1)
                % 256 && t == (CpuState { register: t.register, i: t.i, pc: s.pc + 2, ..s })
        }),
{
}

/// The highest held key below `n` is held and no key above it below `n`
/// is; with none held the scan gives -1.
pub proof fn lemma_last_held(keys: Seq<u8>, n: int)
    requires
        0 <= n <= keys.len(),
    ensures
        -1 <= last_held(keys, n) < n,
        last_held(keys, n) >= 0 ==> keys[last_held(keys, n)] != 0,
        forall|k: int| last_held(keys, n) < k < n ==> #[trigger] keys[k] == 0,
    decreases n,
{
    if n > 0 {
        lemma_last_held(keys, n - 1);
    }
}

/// The lowest held key from `from` on is held and no key before it from
/// `from` on is; with none held the scan gives 16.
pub proof fn lemma_first_held(keys: Seq<u8>, from: int)
    requires
        0 <= from <= 16,
        keys.len() == 16,
    ensures
        from <= first_held(keys, from) <= 16,
        first_held(keys, from) < 16 ==> keys[first_held(keys, from)] != 0,
        forall|k: int| from <= k < first_held(keys, from) ==> #[trigger] keys[k] == 0,
    decreases 16 - from,
{
    if from < 16 {
        lemma_first_held(keys, from + 1);
    }
}

/// `FX0A` with no key held moves the counter two bytes and changes nothing
/// else. With some key held, VX becomes the highest held key and the
/// counter moves by `2 * (17 - f)` bytes where `f` is the lowest held key;
/// nothing else changes.
pub proof fn lemma_wait_key(s: CpuState, op: u16)
    requires
        step_defined(s, op),
        op_kind(op) == 15,
        op_nn(op) == 0x0A,
    ensures
        ({
            let t = step(s, op, 0);
            let x = op_x(op);
            &&& (forall|k: int| 0 <= k < 16 ==> #[trigger] s.keys[k] == 0) ==> t == (CpuState {
                pc: s.pc + 2,
                ..s
            })
            &&& (exists|k: int| 0 <= k < 16 && #[trigger] s.keys[k] != 0) ==> {
                &&& 0 <= t.register[x] < 16
                &&& s.keys[t.register[x] as int] != 0
                &&& forall|k: int| t.register[x] < k < 16 ==> #[trigger] s.keys[k] == 0
                &&& exists|f: int|
                    0 <= f < 16 && s.keys[f] != 0 && (forall|k: int|
                        0 <= k < f ==> #[trigger] s.keys[k] == 0) && t.pc == s.pc + 2 * (17 - f)
                &&& t == (CpuState { register: s.register.update(x, t.register[x]), pc: t.pc, ..s })
            }
        }),
{
    lemma_last_held(s.keys, 16);
    lemma_first_held(s.keys, 0);
    let t = step(s, op, 0);
    if exists|k: int| 0 <= k < 16 && #[trigger] s.keys[k] != 0 {
        let k = choose|k: int| 0 <= k < 16 && #[trigger] s.keys[k] != 0;
        assert(last_held(s.keys, 16) >= 0);
        let f = first_held(s.keys, 0);
        assert(f < 16);
        assert(t.register =~= s.register.update(op_x(op), t.register[op_x(op)]));
    } else {
        if last_held(s.keys, 16) >= 0 {
            assert(s.keys[last_held(s.keys, 16)] != 0);
        }
    }
}

/// Which instructions run to completion, for a well-formed machine whose
/// counter has room: a return needs a non-empty stack whose top plus two
/// fits; a call needs a free stack slot; `8XYN` needs N in 0..=7 or E;
/// `EXNN` needs NN = 9E or A1; `FXNN` needs NN among 07, 0A, 15, 18, 1E,
/// and 29 with 5 * VX below 256, 33 with `I` at most 253, 55 or 65 with
/// `I + X` at most 255. Every other opcode always runs.
pub proof fn lemma_runs_exactly_when(s: CpuState, op: u16)
    requires
        s.wf(),
        s.pc + 34 <= usize::MAX,
    ensures
        step_defined(s, op) <==> ({
            let k = op as int / 4096;
            let n = op as int % 16;
            let nn = op as int % 256;
            let x = (op as int / 256) % 16;
            &&& (k == 0 && n == 14) ==> 1 <= s.sp <= 16 && s.stack[s.sp - 1] + 2 <= usize::MAX
            &&& k == 2 ==> s.sp < 16
            &&& k == 8 ==> n <= 7 || n == 14
            &&& k == 14 ==> nn == 0x9E || nn == 0xA1
            &&& k == 15 ==> nn == 0x07 || nn == 0x0A || nn == 0x15 || nn == 0x18 || nn == 0x1E
                || (nn == 0x29 && s.register[x] * 5 <= 255) || (nn == 0x33 && s.i <= 253) || ((nn
                == 0x55 || nn == 0x65) && s.i + x <= 255)
        }),
{
    lemma_first_held(s.keys, 0);
}

} // verus!
