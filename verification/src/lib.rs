//! A CHIP-8 interpreter core: memory, registers, stack, keypad and a
//! 64 x 32 screen, with every instruction given an exact meaning over a
//! mathematical model of the machine.

pub mod state;
pub mod screen;
pub mod ops;
pub mod cpu;
pub mod laws;
pub mod laws_draw;
pub mod laws_alu;
pub mod laws_flow;
pub mod laws_misc;
mod entropy;
