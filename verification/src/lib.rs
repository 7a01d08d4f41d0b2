//! A CHIP-8 interpreter core: machine state, instruction semantics, sprite
//! drawing and the key-wait state machine, each executable function proved
//! against a mathematical model of the machine.

pub mod alu;
pub mod control;
pub mod cpu;
pub mod decode;
pub mod fault;
pub mod font;
pub mod keymap;
pub mod machine;
pub mod misc;
pub mod sprite;
pub mod theorems;
