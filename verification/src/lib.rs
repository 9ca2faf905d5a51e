//! A CHIP-8 virtual machine: memory, registers, call stack, timers, keypad and
//! framebuffer, driven one instruction at a time.

pub mod fault;
pub mod font;
pub mod frame;
pub mod input;
pub mod instruction;
pub mod keyboard;
pub mod laws;
pub mod machine;
pub mod model;
mod random;
pub mod render;
pub mod screen;
pub mod stack;
