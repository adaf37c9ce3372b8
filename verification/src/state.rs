//! The mathematical model of the machine and the meaning of each instruction.
use vstd::prelude::*;

verus! {

/// Bytes of addressable memory.
pub const MEMORY_SIZE: usize = 4096;

/// Address at which a program is loaded and at which execution starts.
pub const PROGRAM_START: usize = 512;

/// Largest program that fits above the interpreter area (exclusive bound).
pub const MAX_PROGRAM_SIZE: u64 = 3584;

/// Number of general registers V0..VF.
pub const NUM_REGISTERS: usize = 16;

/// Number of return-address slots.
pub const STACK_DEPTH: usize = 16;

/// Number of keys on the hexadecimal keypad.
pub const NUM_KEYS: usize = 16;

/// Screen width in pixels.
pub const SCREEN_WIDTH: usize = 64;

/// Screen height in pixels.
pub const SCREEN_HEIGHT: usize = 32;

/// Number of pixels on the screen (width times height).
pub const SCREEN_PIXELS: usize = 2048;

/// A pixel as an RGB triple.
pub type Pixel = (u8, u8, u8);

/// The colour of a lit pixel after a screen clear.
pub open spec fn white() -> Pixel {
    (255u8, 255u8, 255u8)
}

/// The colour of every pixel of a freshly built machine.
pub open spec fn black() -> Pixel {
    (0u8, 0u8, 0u8)
}

/// What drawing over a pixel turns it into: white becomes black, anything
/// else becomes white.
pub open spec fn flipped(c: Pixel) -> Pixel {
    if c == white() {
        black()
    } else {
        white()
    }
}

/// The abstract state of the machine.
#[verifier::ext_equal]
pub struct CpuState {
    pub memory: Seq<u8>,
    pub register: Seq<u8>,
    pub sound_register: u8,
    pub delay_register: u8,
    pub pc: int,
    pub sp: int,
    pub stack: Seq<usize>,
    pub i: u8,
    pub keys: Seq<u8>,
    pub pixels: Seq<Pixel>,
    pub draw_flag: bool,
}

/// The high nibble of an opcode: which instruction family it belongs to.
pub open spec fn op_kind(op: u16) -> int {
    op as int / 4096
}

/// The second nibble (`X`): usually a register index.
pub open spec fn op_x(op: u16) -> int {
    (op as int / 256) % 16
}

/// The third nibble (`Y`): usually a register index.
pub open spec fn op_y(op: u16) -> int {
    (op as int / 16) % 16
}

/// The low nibble (`N`).
pub open spec fn op_n(op: u16) -> int {
    op as int % 16
}

/// The low byte (`NN`).
pub open spec fn op_nn(op: u16) -> u8 {
    (op as int % 256) as u8
}

/// The low twelve bits (`NNN`): an address.
pub open spec fn op_nnn(op: u16) -> int {
    op as int % 4096
}

/// An integer reduced to a byte, wrapping around modulo 256.
pub open spec fn wrap(v: int) -> u8 {
    (v % 256) as u8
}

/// The two bytes at `pc` read as one big-endian instruction word.
pub open spec fn fetched(s: CpuState) -> u16 {
    (s.memory[s.pc] as int * 256 + s.memory[s.pc + 1] as int) as u16
}

impl CpuState {
    /// The shape every reachable state has: fixed sizes of memory, register
    /// file, stack, keypad and screen, and machine-sized counters.
    pub open spec fn wf(self) -> bool {
        &&& self.memory.len() == MEMORY_SIZE
        &&& self.register.len() == NUM_REGISTERS
        &&& self.stack.len() == STACK_DEPTH
        &&& self.keys.len() == NUM_KEYS
        &&& self.pixels.len() == SCREEN_PIXELS
        &&& 0 <= self.pc <= usize::MAX
        &&& 0 <= self.sp <= usize::MAX
    }

    /// Every pixel is black or white.
    pub open spec fn monochrome(self) -> bool {
        forall|p: int| 0 <= p < self.pixels.len() ==> #[trigger] self.pixels[p] == white()
            || self.pixels[p] == black()
    }

    pub open spec fn with_pc(self, pc: int) -> CpuState {
        CpuState { pc, ..self }
    }

    pub open spec fn advanced(self, by: int) -> CpuState {
        self.with_pc(self.pc + by)
    }

    /// Skips the next instruction when `cond` holds, else moves to it.
    pub open spec fn skip_if(self, cond: bool) -> CpuState {
        self.advanced(if cond { 4 } else { 2 })
    }

    pub open spec fn with_register(self, k: int, v: u8) -> CpuState {
        CpuState { register: self.register.update(k, v), ..self }
    }
}


/// Bit `xl` of a sprite row, counted from the most significant bit
/// (`xl == 0` is the leftmost pixel).
pub open spec fn sprite_bit(row: u8, xl: int) -> bool {
    (row as u16) & (0x80u16 >> (xl as u16)) != 0u16
}

/// The screen index of sprite cell (`xl`, `yl`) drawn at (`vx`, `vy`).
pub open spec fn sprite_pos(vx: u8, vy: u8, yl: int, xl: int) -> int {
    vx + xl + (vy + yl) * 64
}

/// Cell (`xl`, `yl`) of the `height`-row sprite read from `memory` at
/// `i` is set and falls on screen index `p`.
pub open spec fn sprite_hits(
    memory: Seq<u8>,
    i: u8,
    vx: u8,
    vy: u8,
    height: int,
    yl: int,
    xl: int,
    p: int,
) -> bool {
    &&& 0 <= yl < height
    &&& 0 <= xl < 8
    &&& sprite_bit(memory[i + yl], xl)
    &&& p == sprite_pos(vx, vy, yl, xl)
}

/// Some set cell of the sprite falls on screen index `p`.
pub open spec fn sprite_covers(memory: Seq<u8>, i: u8, vx: u8, vy: u8, height: int, p: int) -> bool {
    exists|yl: int, xl: int| #[trigger] sprite_hits(memory, i, vx, vy, height, yl, xl, p)
}

/// The screen after drawing the sprite: every covered pixel is flipped,
/// every other pixel is kept.
pub open spec fn drawn_pixels(
    pixels: Seq<Pixel>,
    memory: Seq<u8>,
    i: u8,
    vx: u8,
    vy: u8,
    height: int,
) -> Seq<Pixel> {
    Seq::new(
        pixels.len(),
        |p: int|
            if sprite_covers(memory, i, vx, vy, height, p) {
                flipped(pixels[p])
            } else {
                pixels[p]
            },
    )
}

/// Drawing the sprite turns some white pixel black.
pub open spec fn sprite_collides(
    pixels: Seq<Pixel>,
    memory: Seq<u8>,
    i: u8,
    vx: u8,
    vy: u8,
    height: int,
) -> bool {
    exists|p: int|
        0 <= p < pixels.len() && #[trigger] sprite_covers(memory, i, vx, vy, height, p)
            && pixels[p] == white()
}

/// Index of the highest-numbered held key among keys `0..n`, or -1.
pub open spec fn last_held(keys: Seq<u8>, n: int) -> int
    decreases n,
{
    if n <= 0 {
        -1
    } else if keys[n - 1] != 0 {
        n - 1
    } else {
        last_held(keys, n - 1)
    }
}

/// Index of the lowest-numbered held key among keys `from..16`, or 16.
pub open spec fn first_held(keys: Seq<u8>, from: int) -> int
    decreases 16 - from,
{
    if from >= 16 {
        16
    } else if keys[from] != 0 {
        from
    } else {
        first_held(keys, from + 1)
    }
}

/// `00E0` and every `0..0` opcode: the whole screen turns white.
pub open spec fn clear_screen(s: CpuState) -> CpuState {
    CpuState {
        pixels: Seq::new(s.pixels.len(), |p: int| white()),
        draw_flag: true,
        pc: s.pc + 2,
        ..s
    }
}

/// `00EE`: pop a return address and continue after it.
pub open spec fn return_from_call(s: CpuState) -> CpuState {
    CpuState { sp: s.sp - 1, pc: s.stack[s.sp - 1] + 2, ..s }
}

/// `2NNN`: push the address of the call and jump to `NNN`.
pub open spec fn call(s: CpuState, op: u16) -> CpuState {
    CpuState {
        stack: s.stack.update(s.sp, (s.pc + 2) as usize),
        sp: s.sp + 1,
        pc: op_nnn(op),
        ..s
    }
}

/// The `8XYN` register-to-register operations (the program counter aside).
pub open spec fn alu(s: CpuState, op: u16) -> CpuState {
    let x = op_x(op);
    let y = op_y(op);
    let n = op_n(op);
    let vx = s.register[x];
    let vy = s.register[y];
    if n == 0 {
        s.with_register(x, vy)
    } else if n == 1 {
        s.with_register(x, vx | vy)
    } else if n == 2 {
        s.with_register(x, vx & vy)
    } else if n == 3 {
        s.with_register(x, vx ^ vy)
    } else if n == 4 {
        s.with_register(x, wrap(vx + vy)).with_register(15, if vx + vy > 255 { 1 } else { 0 })
    } else if n == 5 {
        s.with_register(x, wrap(vx - vy)).with_register(15, if vx < vy { 1 } else { 0 })
    } else if n == 6 {
        let t = s.with_register(15, vx % 2);
        t.with_register(x, t.register[x] / 2)
    } else if n == 7 {
        s.with_register(y, wrap(vy - vx)).with_register(15, if vy < vx { 1 } else { 0 })
    } else if n == 14 {
        let t = s.with_register(15, vx / 128);
        t.with_register(x, wrap(t.register[x] * 2))
    } else {
        s
    }
}

/// `DXYN`: draw the `N`-row sprite at `I` at (VX, VY); VF tells whether a
/// white pixel was turned black.
pub open spec fn draw(s: CpuState, op: u16) -> CpuState {
    let vx = s.register[op_x(op)];
    let vy = s.register[op_y(op)];
    let h = op_n(op);
    CpuState {
        pixels: drawn_pixels(s.pixels, s.memory, s.i, vx, vy, h),
        register: s.register.update(
            15,
            if sprite_collides(s.pixels, s.memory, s.i, vx, vy, h) {
                1u8
            } else {
                0u8
            },
        ),
        pc: s.pc + 2,
        draw_flag: true,
        ..s
    }
}

/// `FX0A`: VX takes the highest held key; the program counter moves two
/// bytes for the instruction and two more for each key index from the
/// lowest held key up to 15.
pub open spec fn wait_key(s: CpuState, op: u16) -> CpuState {
    let last = last_held(s.keys, 16);
    if last >= 0 {
        s.with_register(op_x(op), last as u8).advanced(2 * (16 - first_held(s.keys, 0)) + 2)
    } else {
        s.advanced(2)
    }
}

/// The `FXNN` operations on timers, `I` and memory.
pub open spec fn misc(s: CpuState, op: u16) -> CpuState {
    let x = op_x(op);
    let vx = s.register[x];
    let nn = op_nn(op);
    if nn == 0x07 {
        s.with_register(op_n(op), s.delay_register).advanced(2)
    } else if nn == 0x0A {
        wait_key(s, op)
    } else if nn == 0x15 {
        CpuState { delay_register: s.register[op_n(op)], ..s }.advanced(2)
    } else if nn == 0x18 {
        CpuState { sound_register: s.register[op_n(op)], ..s }.advanced(2)
    } else if nn == 0x1E {
        s.with_register(x, wrap(s.i + vx)).with_register(
            15,
            if s.i + vx > 255 {
                1
            } else {
                0
            },
        ).advanced(2)
    } else if nn == 0x29 {
        CpuState { i: wrap(vx * 5), ..s }.advanced(2)
    } else if nn == 0x33 {
        CpuState {
            memory: s.memory.update(s.i as int, vx / 100).update(s.i + 1, (vx / 10) % 10).update(
                s.i + 2,
                vx % 10,
            ),
            ..s
        }.advanced(2)
    } else if nn == 0x55 {
        CpuState {
            memory: Seq::new(
                s.memory.len(),
                |a: int|
                    if s.i <= a <= s.i + x {
                        s.register[a - s.i]
                    } else {
                        s.memory[a]
                    },
            ),
            i: wrap(s.i + x + 1),
            ..s
        }.advanced(2)
    } else if nn == 0x65 {
        CpuState {
            register: Seq::new(
                s.register.len(),
                |k: int|
                    if k <= x {
                        s.memory[s.i + k]
                    } else {
                        s.register[k]
                    },
            ),
            i: wrap(s.i + x + 1),
            ..s
        }.advanced(2)
    } else {
        s
    }
}

/// The state after executing `op`; `rnd` is the byte that `CXNN` masks.
pub open spec fn step(s: CpuState, op: u16, rnd: u8) -> CpuState {
    let k = op_kind(op);
    let x = op_x(op);
    let vx = s.register[x];
    let vy = s.register[op_y(op)];
    let nn = op_nn(op);
    if k == 0 {
        if op_n(op) == 0 {
            clear_screen(s)
        } else if op_n(op) == 14 {
            return_from_call(s)
        } else {
            s
        }
    } else if k == 1 {
        s.with_pc(op_nnn(op))
    } else if k == 2 {
        call(s, op)
    } else if k == 3 {
        s.skip_if(vx == nn)
    } else if k == 4 {
        s.skip_if(vx != nn)
    } else if k == 5 {
        s.skip_if(vx == vy)
    } else if k == 6 {
        s.with_register(x, nn).advanced(2)
    } else if k == 7 {
        s.with_register(x, wrap(vx + nn)).advanced(2)
    } else if k == 8 {
        alu(s, op).advanced(2)
    } else if k == 9 {
        s.skip_if(vx != vy)
    } else if k == 10 {
        CpuState { i: nn, ..s }.advanced(2)
    } else if k == 11 {
        s.with_pc(wrap(nn + s.register[0]) as int)
    } else if k == 12 {
        s.with_register(x, rnd & nn).advanced(2)
    } else if k == 13 {
        draw(s, op)
    } else if k == 14 {
        if nn == 0x9E {
            s.skip_if(s.keys[x] != 0)
        } else {
            s.skip_if(s.keys[x] == 0)
        }
    } else {
        misc(s, op)
    }
}

/// The opcodes that have a meaning (all others stop the machine).
pub open spec fn is_known_op(op: u16) -> bool {
    let k = op_kind(op);
    let n = op_n(op);
    let nn = op_nn(op);
    &&& k == 8 ==> (0 <= n <= 7 || n == 14)
    &&& k == 14 ==> (nn == 0x9E || nn == 0xA1)
    &&& k == 15 ==> (nn == 0x07 || nn == 0x0A || nn == 0x15 || nn == 0x18 || nn == 0x1E || nn
        == 0x29 || nn == 0x33 || nn == 0x55 || nn == 0x65)
}

/// The states on which `op` runs to completion: a known opcode, the stack
/// neither empty on return nor full on call, byte arithmetic on `I` and
/// `VX` that stays within a byte where it is not wrapping, and a program
/// counter that fits in a `usize`.
pub open spec fn step_defined(s: CpuState, op: u16) -> bool {
    let k = op_kind(op);
    let x = op_x(op);
    let nn = op_nn(op);
    &&& s.wf()
    &&& is_known_op(op)
    &&& (k == 0 && op_n(op) == 14) ==> 1 <= s.sp <= 16
    &&& k == 2 ==> (s.sp < 16 && s.pc + 2 <= usize::MAX)
    &&& (k == 15 && nn == 0x29) ==> s.register[x] * 5 <= 255
    &&& (k == 15 && nn == 0x33) ==> s.i + 2 <= 255
    &&& (k == 15 && (nn == 0x55 || nn == 0x65)) ==> s.i + x <= 255
    &&& step(s, op, 0).pc <= usize::MAX
}

/// One tick of the 60 Hz timers at the end of a cycle; the pending
/// redraw is consumed.
pub open spec fn tick(s: CpuState) -> CpuState {
    CpuState {
        delay_register: if s.delay_register > 0 {
            (s.delay_register - 1) as u8
        } else {
            0
        },
        sound_register: if s.sound_register > 0 {
            (s.sound_register - 1) as u8
        } else {
            0
        },
        draw_flag: false,
        ..s
    }
}


/// The built-in hexadecimal font: five rows for each of the digits 0..F.
pub open spec fn font() -> Seq<u8> {
    seq![
        0xF0u8, 0x90, 0x90, 0x90, 0xF0,
        0x20, 0x60, 0x20, 0x20, 0x70,
        0xF0, 0x10, 0xF0, 0x80, 0xF0,
        0xF0, 0x10, 0xF0, 0x10, 0xF0,
        0x90, 0x90, 0xF0, 0x10, 0x10,
        0xF0, 0x80, 0xF0, 0x10, 0xF0,
        0xF0, 0x80, 0xF0, 0x90, 0xF0,
        0xF0, 0x10, 0x20, 0x40, 0x40,
        0xF0, 0x90, 0xF0, 0x90, 0xF0,
        0xF0, 0x90, 0xF0, 0x10, 0xF0,
        0xF0, 0x90, 0xF0, 0x90, 0x90,
        0xE0, 0x90, 0xE0, 0x90, 0xE0,
        0xF0, 0x80, 0x80, 0x80, 0xF0,
        0xE0, 0x90, 0x90, 0x90, 0xE0,
        0xF0, 0x80, 0xF0, 0x80, 0xF0,
        0xF0, 0x80, 0xF0, 0x80, 0x80,
    ]
}

/// Memory of a fresh machine: the font at address 0, the first `size`
/// bytes of `rom` at `PROGRAM_START`, zero elsewhere.
pub open spec fn initial_memory(rom: Seq<u8>, size: int) -> Seq<u8> {
    Seq::new(
        MEMORY_SIZE as nat,
        |a: int|
            if a < 80 {
                font()[a]
            } else if PROGRAM_START <= a < PROGRAM_START + size {
                rom[a - PROGRAM_START]
            } else {
                0u8
            },
    )
}

/// A fresh machine holding the program `rom[0..size]`: registers, timers,
/// stack and keys zero, the screen black, execution at `PROGRAM_START`,
/// and a redraw pending.
pub open spec fn initial_state(rom: Seq<u8>, size: int) -> CpuState {
    CpuState {
        memory: initial_memory(rom, size),
        register: Seq::new(NUM_REGISTERS as nat, |k: int| 0u8),
        sound_register: 0,
        delay_register: 0,
        pc: PROGRAM_START as int,
        sp: 0,
        stack: Seq::new(STACK_DEPTH as nat, |k: int| 0usize),
        i: 0,
        keys: Seq::new(NUM_KEYS as nat, |k: int| 0u8),
        pixels: Seq::new(SCREEN_PIXELS as nat, |p: int| black()),
        draw_flag: true,
    }
}

} // verus!
