//! Block transfers between registers and memory, and the keypad scan.
use vstd::prelude::*;
use crate::state::{last_held, first_held, MEMORY_SIZE, NUM_REGISTERS, NUM_KEYS};

verus! {

/// Copies V0..=VX into memory starting at address `i`.
pub fn store_registers(memory: &mut Vec<u8>, register: &Vec<u8>, i: u8, x: usize)
    requires
        old(memory)@.len() == MEMORY_SIZE,
        register@.len() == NUM_REGISTERS,
        x < NUM_REGISTERS,
        i + x <= 255,
    ensures
        final(memory)@ == Seq::new(
            old(memory)@.len(),
            |a: int|
                if i <= a <= i + x {
                    register@[a - i]
                } else {
                    old(memory)@[a]
                },
        ),
{
    let ghost before = memory@;
    let mut k: usize = 0;
    while k <= x
        invariant
            x < NUM_REGISTERS,
            i + x <= 255,
            k <= x + 1,
            register@.len() == NUM_REGISTERS,
            before.len() == MEMORY_SIZE,
            memory@.len() == MEMORY_SIZE,
            forall|a: int|
                0 <= a < MEMORY_SIZE ==> #[trigger] memory@[a] == if i <= a < i + k {
                    register@[a - i]
                } else {
                    before[a]
                },
        decreases x + 1 - k,
    {
        memory.set((i as usize) + k, register[k]);
        k = k + 1;
    }
    assert(memory@ =~= Seq::new(
        before.len(),
        |a: int|
            if i <= a <= i + x {
                register@[a - i]
            } else {
                before[a]
            },
    ));
}

/// Loads V0..=VX from memory starting at address `i`.
pub fn load_registers(register: &mut Vec<u8>, memory: &Vec<u8>, i: u8, x: usize)
    requires
        old(register)@.len() == NUM_REGISTERS,
        memory@.len() == MEMORY_SIZE,
        x < NUM_REGISTERS,
        i + x <= 255,
    ensures
        final(register)@ == Seq::new(
            old(register)@.len(),
            |k: int|
                if k <= x {
                    memory@[i + k]
                } else {
                    old(register)@[k]
                },
        ),
{
    let ghost before = register@;
    let mut k: usize = 0;
    while k <= x
        invariant
            x < NUM_REGISTERS,
            i + x <= 255,
            k <= x + 1,
            memory@.len() == MEMORY_SIZE,
            before.len() == NUM_REGISTERS,
            register@.len() == NUM_REGISTERS,
            forall|j: int|
                0 <= j < NUM_REGISTERS ==> #[trigger] register@[j] == if j < k {
                    memory@[i + j]
                } else {
                    before[j]
                },
        decreases x + 1 - k,
    {
        let v = memory[(i as usize) + k];
        register.set(k, v);
        k = k + 1;
    }
    assert(register@ =~= Seq::new(
        before.len(),
        |j: int|
            if j <= x {
                memory@[i + j]
            } else {
                before[j]
            },
    ));
}

/// Relates the two scans of the keypad: before index `k`, some key is held
/// exactly when the lowest held key lies below `k`, and otherwise the
/// lowest held key is the lowest one at or above `k`.
pub proof fn lemma_held_scan(keys: Seq<u8>, k: int)
    requires
        0 <= k <= 16,
        keys.len() == NUM_KEYS,
    ensures
        last_held(keys, k) >= 0 ==> 0 <= first_held(keys, 0) < k && last_held(keys, k) < k,
        last_held(keys, k) < 0 ==> first_held(keys, 0) == first_held(keys, k),
    decreases k,
{
    if k > 0 {
        lemma_held_scan(keys, k - 1);
    }
}

/// Scans the keypad from key 0 to key 15. Returns the highest held key, if
/// any, and how far the program counter moves: two bytes, plus two for
/// every key index from the lowest held key up to 15.
pub fn scan_keys(keys: &Vec<u8>) -> (r: (Option<u8>, usize))
    requires
        keys@.len() == NUM_KEYS,
    ensures
        last_held(keys@, 16) >= 0 ==> r.0 == Some(last_held(keys@, 16) as u8) && r.1 == 2 * (16
            - first_held(keys@, 0)) + 2,
        last_held(keys@, 16) < 0 ==> r.0 is None && r.1 == 2,
{
    let mut pressed = false;
    let mut last: Option<u8> = None;
    let mut advance: usize = 0;
    let mut k: usize = 0;
    while k < NUM_KEYS
        invariant
            k <= NUM_KEYS,
            keys@.len() == NUM_KEYS,
            pressed == (last_held(keys@, k as int) >= 0),
            pressed ==> last == Some(last_held(keys@, k as int) as u8) && advance == 2 * (k
                - first_held(keys@, 0)),
            !pressed ==> last is None && advance == 0,
        decreases NUM_KEYS - k,
    {
        proof {
            lemma_held_scan(keys@, k as int);
            lemma_held_scan(keys@, k + 1);
        }
        if keys[k] != 0 {
            last = Some(k as u8);
            pressed = true;
        }
        if pressed {
            advance = advance + 2;
        }
        k = k + 1;
    }
    proof {
        lemma_held_scan(keys@, 16);
    }
    (last, advance + 2)
}

} // verus!
