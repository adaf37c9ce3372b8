//! The machine itself: construction, fetch and execution.
use vstd::prelude::*;
use crate::state::{
    CpuState, Pixel, font, initial_state, initial_memory, fetched, step, step_defined, op_kind,
    is_known_op, tick, MEMORY_SIZE, PROGRAM_START, MAX_PROGRAM_SIZE, NUM_REGISTERS, STACK_DEPTH,
    NUM_KEYS, SCREEN_PIXELS,
};
use crate::screen::{whiten, draw_sprite};
use crate::ops::{store_registers, load_registers, scan_keys, lemma_held_scan};
use crate::entropy::random_byte;
use crate::laws::{
    lemma_step_preserves_wf, lemma_step_ignores_random, lemma_step_preserves_monochrome,
};

verus! {

/// The keypad: one byte per key, non-zero while the key is held.
pub struct Keyboard {
    key: Vec<u8>,
}

impl Keyboard {
    /// The held state of each key.
    pub closed spec fn keys(&self) -> Seq<u8> {
        self.key@
    }
}

/// A CHIP-8 machine.
pub struct CPU {
    pub memory: Vec<u8>,
    pub register: Vec<u8>,
    pub sound_register: u8,
    pub delay_register: u8,
    pub pc: usize,
    pub sp: usize,
    pub stack: Vec<usize>,
    pub i: u8,
    pub keyboard: Keyboard,
    pub pixels: Vec<Pixel>,
    pub draw_flag: bool,
}

impl View for CPU {
    type V = CpuState;

    open spec fn view(&self) -> CpuState {
        CpuState {
            memory: self.memory@,
            register: self.register@,
            sound_register: self.sound_register,
            delay_register: self.delay_register,
            pc: self.pc as int,
            sp: self.sp as int,
            stack: self.stack@,
            i: self.i,
            keys: self.keyboard.keys(),
            pixels: self.pixels@,
            draw_flag: self.draw_flag,
        }
    }
}

/// What one cycle did: the instruction it ran, whether the screen should
/// be redrawn, and whether the sound timer just ran out.
#[derive(Debug, Clone, Copy, PartialEq, Eq)]
pub struct Cycle {
    pub opcode: u16,
    pub redraw: bool,
    pub beep: bool,
}

/// Why a cycle could not run.
#[derive(Debug, Clone, Copy, PartialEq, Eq)]
pub enum Fault {
    /// The program counter leaves no room for a two-byte instruction in
    /// memory.
    AddressOutOfRange,
    /// The fetched word is not an instruction.
    UnknownOpcode(u16),
    /// The instruction cannot complete on this state: return with an
    /// empty stack, call with a full one, byte arithmetic on `I` or `VX`
    /// leaving the byte, a program counter past `usize::MAX`, or a machine
    /// whose memory, registers, stack, keypad or screen has the wrong size.
    BadState(u16),
}

/// Whether `opcode` is an instruction.
pub fn is_known_opcode(opcode: u16) -> (b: bool)
    ensures
        b == is_known_op(opcode),
{
    let kind = opcode / 0x1000;
    let n = opcode % 16;
    let nn = opcode % 256;
    if kind == 8 {
        n <= 7 || n == 14
    } else if kind == 14 {
        nn == 0x9E || nn == 0xA1
    } else if kind == 15 {
        nn == 0x07 || nn == 0x0A || nn == 0x15 || nn == 0x18 || nn == 0x1E || nn == 0x29 || nn
            == 0x33 || nn == 0x55 || nn == 0x65
    } else {
        true
    }
}

/// A vector of `n` copies of `v`.
fn repeat<T: Copy>(n: usize, v: T) -> (r: Vec<T>)
    ensures
        r@ == Seq::new(n as nat, |k: int| v),
{
    let mut r: Vec<T> = Vec::new();
    let mut k: usize = 0;
    while k < n
        invariant
            k <= n,
            r@ == Seq::new(k as nat, |j: int| v),
        decreases n - k,
    {
        r.push(v);
        k = k + 1;
    }
    r
}

/// The font table as bytes.
fn font_table() -> (t: [u8; 80])
    ensures
        t@ == font(),
{
    let t: [u8; 80] = [
        0xF0, 0x90, 0x90, 0x90, 0xF0,
        0x20, 0x60, 0x20, 0x20, 0x70,
        0xF0, 0x10, 0xF0, 0x80, 0xF0,
        0xF0, 0x10, 0xF0, 0x10, 0xF0,
        0x90, 0x90, 0xF0, 0x10, 0x10,
        0xF0, 0x80, 0xF0, 0x10, 0xF0,
        0xF0, 0x80, 0xF0, 0x90, 0xF0,
        0xF0, 0x10, 0x20, 0x40, 0x40,
        0xF0, 0x90, 0xF0, 0x90, 0xF0,
        0xF0, 0x90, 0xF0, 0x10, 0xF0,
        0xF0, 0x90, 0xF0, 0x90, 0x90,
        0xE0, 0x90, 0xE0, 0x90, 0xE0,
        0xF0, 0x80, 0x80, 0x80, 0xF0,
        0xE0, 0x90, 0x90, 0x90, 0xE0,
        0xF0, 0x80, 0xF0, 0x80, 0xF0,
        0xF0, 0x80, 0xF0, 0x80, 0x80,
    ];
    assert(t@ =~= font());
    t
}

impl CPU {
    /// The shape every machine built by `new` keeps.
    pub open spec fn wf(&self) -> bool {
        self@.wf()
    }

    /// Builds a machine that holds the first `fsize` bytes of `binary` at
    /// `PROGRAM_START` and the font at address 0.
    pub fn new(binary: Vec<u8>, fsize: u64) -> (cpu: CPU)
        requires
            fsize < MAX_PROGRAM_SIZE,
            fsize <= binary.len(),
        ensures
            cpu@ == initial_state(binary@, fsize as int),
            cpu.wf(),
    {
        let table = font_table();
        let size = fsize as usize;
        let mut memory: Vec<u8> = Vec::new();
        let mut a: usize = 0;
        while a < MEMORY_SIZE
            invariant
                a <= MEMORY_SIZE,
                size == fsize,
                size < MAX_PROGRAM_SIZE,
                size <= binary.len(),
                table@ == font(),
                memory@.len() == a,
                forall|j: int| 0 <= j < a ==> memory@[j] == initial_memory(binary@, fsize as int)[j],
            decreases MEMORY_SIZE - a,
        {
            let b: u8 = if a < 80 {
                table[a]
            } else if PROGRAM_START <= a && a < PROGRAM_START + size {
                binary[a - PROGRAM_START]
            } else {
                0
            };
            memory.push(b);
            a = a + 1;
        }
        let cpu = CPU {
            memory,
            register: repeat(NUM_REGISTERS, 0u8),
            sound_register: 0,
            delay_register: 0,
            pc: PROGRAM_START,
            sp: 0,
            stack: repeat(STACK_DEPTH, 0usize),
            i: 0,
            keyboard: Keyboard { key: repeat(NUM_KEYS, 0u8) },
            pixels: repeat(SCREEN_PIXELS, (0u8, 0u8, 0u8)),
            draw_flag: true,
        };
        assert(cpu@ =~= initial_state(binary@, fsize as int));
        cpu
    }

    /// Reads the two-byte instruction at `pc`, high byte first.
    pub fn fetch_opcode(&mut self) -> (r: Result<u16, ()>)
        requires
            old(self).pc + 1 < old(self).memory@.len(),
        ensures
            *final(self) == *old(self),
            r == Ok::<u16, ()>(fetched(old(self)@)),
    {
        let len = self.memory.len();
        let hi = self.memory[self.pc] as u16;
        let lo = self.memory[self.pc + 1] as u16;
        Ok(hi * 256 + lo)
    }

    /// Executes `opcode`; `random` is the byte that `CXNN` masks with `NN`.
    pub fn execute(&mut self, opcode: u16, random: u8)
        requires
            step_defined(old(self)@, opcode),
        ensures
            final(self)@ == step(old(self)@, opcode, random),
            final(self).wf(),
    {
        proof {
            lemma_step_preserves_wf(self@, opcode, random);
            if op_kind(opcode) != 12 {
                lemma_step_ignores_random(self@, opcode, random, 0);
            }
        }
        let kind = opcode / 0x1000;
        if kind == 0 {
            self.exec_system(opcode);
        } else if kind == 1 || kind == 2 || kind == 11 {
            self.exec_jump(opcode);
        } else if kind == 3 || kind == 4 || kind == 5 || kind == 9 || kind == 14 {
            self.exec_skip(opcode);
        } else if kind == 6 || kind == 7 || kind == 12 {
            self.exec_load(opcode, random);
        } else if kind == 8 {
            self.exec_alu(opcode);
        } else if kind == 13 {
            self.exec_draw(opcode);
        } else {
            self.exec_misc(opcode);
        }
    }

    /// `00E0`-style clear and `00EE` return; other `0NNN` do nothing.
    fn exec_system(&mut self, opcode: u16)
        requires
            step_defined(old(self)@, opcode),
            op_kind(opcode) == 0,
        ensures
            final(self)@ == step(old(self)@, opcode, 0),
    {
        let n = opcode % 16;
        if n == 0 {
            whiten(&mut self.pixels);
            self.draw_flag = true;
            self.pc = self.pc + 2;
        } else if n == 14 {
            self.sp = self.sp - 1;
            self.pc = self.stack[self.sp] + 2;
        }
    }

    /// `1NNN` jump, `2NNN` call, `BNNN` jump to `NN + V0` (within a byte).
    fn exec_jump(&mut self, opcode: u16)
        requires
            step_defined(old(self)@, opcode),
            op_kind(opcode) == 1 || op_kind(opcode) == 2 || op_kind(opcode) == 11,
        ensures
            final(self)@ == step(old(self)@, opcode, 0),
    {
        let kind = opcode / 0x1000;
        let nnn = (opcode % 4096) as usize;
        if kind == 1 {
            self.pc = nnn;
        } else if kind == 2 {
            let ret = self.pc + 2;
            self.stack.set(self.sp, ret);
            self.sp = self.sp + 1;
            self.pc = nnn;
        } else {
            let nn = opcode % 256;
            let target = (nn + self.register[0] as u16) % 256;
            self.pc = target as usize;
        }
    }

    /// The conditional skips `3XNN`, `4XNN`, `5XY0`, `9XY0`, `EX9E`, `EXA1`.
    fn exec_skip(&mut self, opcode: u16)
        requires
            step_defined(old(self)@, opcode),
            op_kind(opcode) == 3 || op_kind(opcode) == 4 || op_kind(opcode) == 5 || op_kind(
                opcode,
            ) == 9 || op_kind(opcode) == 14,
        ensures
            final(self)@ == step(old(self)@, opcode, 0),
    {
        let kind = opcode / 0x1000;
        let x = ((opcode / 256) % 16) as usize;
        let y = ((opcode / 16) % 16) as usize;
        let nn = (opcode % 256) as u8;
        let vx = self.register[x];
        let vy = self.register[y];
        let skip = if kind == 3 {
            vx == nn
        } else if kind == 4 {
            vx != nn
        } else if kind == 5 {
            vx == vy
        } else if kind == 9 {
            vx != vy
        } else if nn == 0x9E {
            self.keyboard.key[x] != 0
        } else {
            self.keyboard.key[x] == 0
        };
        if skip {
            self.pc = self.pc + 4;
        } else {
            self.pc = self.pc + 2;
        }
    }

    /// `6XNN` set, `7XNN` add without carry, `CXNN` random masked by `NN`.
    fn exec_load(&mut self, opcode: u16, random: u8)
        requires
            step_defined(old(self)@, opcode),
            op_kind(opcode) == 6 || op_kind(opcode) == 7 || op_kind(opcode) == 12,
        ensures
            final(self)@ == step(old(self)@, opcode, random),
    {
        let kind = opcode / 0x1000;
        let x = ((opcode / 256) % 16) as usize;
        let nn = (opcode % 256) as u8;
        let v = if kind == 6 {
            nn
        } else if kind == 7 {
            ((self.register[x] as u16 + nn as u16) % 256) as u8
        } else {
            random & nn
        };
        self.register.set(x, v);
        self.pc = self.pc + 2;
    }

    /// The `8XYN` register-to-register operations.
    #[verifier::spinoff_prover]
    #[verifier::rlimit(40)]
    fn exec_alu(&mut self, opcode: u16)
        requires
            step_defined(old(self)@, opcode),
            op_kind(opcode) == 8,
        ensures
            final(self)@ == step(old(self)@, opcode, 0),
    {
        let x = ((opcode / 256) % 16) as usize;
        let y = ((opcode / 16) % 16) as usize;
        let n = opcode % 16;
        let vx = self.register[x];
        let vy = self.register[y];
        self.pc = self.pc + 2;
        if n == 0 {
            self.register.set(x, vy);
        } else if n == 1 {
            self.register.set(x, vx | vy);
        } else if n == 2 {
            self.register.set(x, vx & vy);
        } else if n == 3 {
            self.register.set(x, vx ^ vy);
        } else if n == 4 {
            let sum = vx as u16 + vy as u16;
            self.register.set(x, (sum % 256) as u8);
            self.register.set(15, if sum > 255 { 1 } else { 0 });
        } else if n == 5 {
            let diff = (vx as u16 + 256 - vy as u16) % 256;
            self.register.set(x, diff as u8);
            self.register.set(15, if vx < vy { 1 } else { 0 });
        } else if n == 6 {
            self.register.set(15, vx % 2);
            let cur = self.register[x];
            self.register.set(x, cur / 2);
        } else if n == 7 {
            let diff = (vy as u16 + 256 - vx as u16) % 256;
            self.register.set(y, diff as u8);
            self.register.set(15, if vy < vx { 1 } else { 0 });
        } else {
            self.register.set(15, vx / 128);
            let cur = self.register[x];
            self.register.set(x, ((cur as u16 * 2) % 256) as u8);
        }
    }

    /// `DXYN`: draws a sprite and records in VF whether it erased a pixel.
    fn exec_draw(&mut self, opcode: u16)
        requires
            step_defined(old(self)@, opcode),
            op_kind(opcode) == 13,
        ensures
            final(self)@ == step(old(self)@, opcode, 0),
    {
        let x = ((opcode / 256) % 16) as usize;
        let y = ((opcode / 16) % 16) as usize;
        let height = opcode % 16;
        let vx = self.register[x];
        let vy = self.register[y];
        let collided = draw_sprite(&mut self.pixels, &self.memory, self.i, vx, vy, height);
        self.register.set(15, if collided { 1 } else { 0 });
        self.pc = self.pc + 2;
        self.draw_flag = true;
    }

    /// `ANNN` and the `FXNN` operations on timers, `I`, memory and keys.
    fn exec_misc(&mut self, opcode: u16)
        requires
            step_defined(old(self)@, opcode),
            op_kind(opcode) == 10 || op_kind(opcode) == 15,
        ensures
            final(self)@ == step(old(self)@, opcode, 0),
    {
        let kind = opcode / 0x1000;
        let x = ((opcode / 256) % 16) as usize;
        let n = (opcode % 16) as usize;
        let nn = (opcode % 256) as u8;
        if kind == 10 {
            self.i = nn;
            self.pc = self.pc + 2;
        } else if nn == 0x0A {
            let (last, advance) = scan_keys(&self.keyboard.key);
            match last {
                Some(k) => {
                    self.register.set(x, k);
                },
                None => {},
            }
            self.pc = self.pc + advance;
        } else {
            let vx = self.register[x];
            if nn == 0x07 {
                self.register.set(n, self.delay_register);
            } else if nn == 0x15 {
                self.delay_register = self.register[n];
            } else if nn == 0x18 {
                self.sound_register = self.register[n];
            } else if nn == 0x1E {
                let sum = self.i as u16 + vx as u16;
                self.register.set(x, (sum % 256) as u8);
                self.register.set(15, if sum > 255 { 1 } else { 0 });
            } else if nn == 0x29 {
                self.i = vx * 5;
            } else if nn == 0x33 {
                let base = self.i as usize;
                self.memory.set(base, vx / 100);
                self.memory.set(base + 1, (vx / 10) % 10);
                self.memory.set(base + 2, vx % 10);
            } else if nn == 0x55 {
                store_registers(&mut self.memory, &self.register, self.i, x);
                self.i = ((self.i as u16 + x as u16 + 1) % 256) as u8;
            } else {
                load_registers(&mut self.register, &self.memory, self.i, x);
                self.i = ((self.i as u16 + x as u16 + 1) % 256) as u8;
            }
            self.pc = self.pc + 2;
        }
    }

    /// Executes `opcode`, drawing a random byte for `CXNN`.
    pub fn parse_instruction(&mut self, opcode: u16)
        requires
            step_defined(old(self)@, opcode),
        ensures
            exists|r: u8| final(self)@ == #[trigger] step(old(self)@, opcode, r),
            op_kind(opcode) != 12 ==> final(self)@ == step(old(self)@, opcode, 0),
            final(self).wf(),
    {
        let r = if opcode / 0x1000 == 12 {
            random_byte()
        } else {
            0
        };
        self.execute(opcode, r);
    }

    /// Whether `opcode` runs to completion on this machine.
    pub fn can_execute(&self, opcode: u16) -> (b: bool)
        ensures
            b == step_defined(self@, opcode),
    {
        if !(self.memory.len() == MEMORY_SIZE && self.register.len() == NUM_REGISTERS
            && self.stack.len() == STACK_DEPTH && self.keyboard.key.len() == NUM_KEYS
            && self.pixels.len() == SCREEN_PIXELS) {
            return false;
        }
        if !is_known_opcode(opcode) {
            return false;
        }
        proof {
            lemma_held_scan(self@.keys, 16);
        }
        let kind = opcode / 0x1000;
        let n = opcode % 16;
        let nn = (opcode % 256) as u8;
        let x = ((opcode / 256) % 16) as usize;
        let y = ((opcode / 16) % 16) as usize;
        let vx = self.register[x];
        let vy = self.register[y];
        let room = usize::MAX - self.pc;
        if kind == 0 {
            if n == 0 {
                room >= 2
            } else if n == 14 {
                1 <= self.sp && self.sp <= STACK_DEPTH && self.stack[self.sp - 1] <= usize::MAX
                    - 2
            } else {
                true
            }
        } else if kind == 1 || kind == 11 {
            true
        } else if kind == 2 {
            self.sp < STACK_DEPTH && room >= 2
        } else if kind == 3 || kind == 4 || kind == 5 || kind == 9 || kind == 14 {
            let skip = if kind == 3 {
                vx == nn
            } else if kind == 4 {
                vx != nn
            } else if kind == 5 {
                vx == vy
            } else if kind == 9 {
                vx != vy
            } else if nn == 0x9E {
                self.keyboard.key[x] != 0
            } else {
                self.keyboard.key[x] == 0
            };
            if skip {
                room >= 4
            } else {
                room >= 2
            }
        } else if kind == 15 {
            if nn == 0x0A {
                let (_, advance) = scan_keys(&self.keyboard.key);
                room >= advance
            } else if nn == 0x29 {
                vx as u16 * 5 <= 255 && room >= 2
            } else if nn == 0x33 {
                self.i <= 253 && room >= 2
            } else if nn == 0x55 || nn == 0x65 {
                self.i as usize + x <= 255 && room >= 2
            } else {
                room >= 2
            }
        } else {
            room >= 2
        }
    }

    /// One cycle of the machine: fetch the instruction at `pc`, execute it,
    /// then tick the delay and sound timers and consume the pending redraw.
    /// On a fault the machine is left as it was.
    pub fn run_cycle(&mut self) -> (r: Result<Cycle, Fault>)
        ensures
            final(self).wf() == old(self).wf(),
            old(self)@.monochrome() ==> final(self)@.monochrome(),
            !(old(self).pc + 1 < old(self).memory@.len()) ==> r is Err && r->Err_0
                == Fault::AddressOutOfRange && *final(self) == *old(self),
            old(self).pc + 1 < old(self).memory@.len() && !is_known_op(fetched(old(self)@))
                ==> r is Err && r->Err_0 == Fault::UnknownOpcode(fetched(old(self)@))
                && *final(self) == *old(self),
            old(self).pc + 1 < old(self).memory@.len() && is_known_op(fetched(old(self)@))
                && !step_defined(old(self)@, fetched(old(self)@)) ==> r is Err && r->Err_0
                == Fault::BadState(fetched(old(self)@)) && *final(self) == *old(self),
            old(self).pc + 1 < old(self).memory@.len() && step_defined(
                old(self)@,
                fetched(old(self)@),
            ) ==> r is Ok && r->Ok_0.opcode == fetched(old(self)@) && exists|rnd: u8|
                {
                    let after = #[trigger] step(old(self)@, fetched(old(self)@), rnd);
                    &&& final(self)@ == tick(after)
                    &&& r->Ok_0.redraw == after.draw_flag
                    &&& r->Ok_0.beep == (after.sound_register == 1)
                },
    {
        if !(self.pc < self.memory.len() && self.pc + 1 < self.memory.len()) {
            return Err(Fault::AddressOutOfRange);
        }
        let opcode = match self.fetch_opcode() {
            Ok(op) => op,
            Err(_) => {
                return Err(Fault::AddressOutOfRange);
            },
        };
        if !is_known_opcode(opcode) {
            return Err(Fault::UnknownOpcode(opcode));
        }
        if !self.can_execute(opcode) {
            return Err(Fault::BadState(opcode));
        }
        let ghost before = self@;
        self.parse_instruction(opcode);
        let ghost after = self@;
        proof {
            let r = choose|r: u8| after == step(before, opcode, r);
            if before.monochrome() {
                lemma_step_preserves_monochrome(before, opcode, r);
            }
        }
        let redraw = self.draw_flag;
        let beep = self.sound_register == 1;
        if self.delay_register > 0 {
            self.delay_register = self.delay_register - 1;
        }
        if self.sound_register > 0 {
            self.sound_register = self.sound_register - 1;
        }
        self.draw_flag = false;
        Ok(Cycle { opcode, redraw, beep })
    }
}

} // verus!
