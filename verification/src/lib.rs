//! A CHIP-8 virtual CPU core.
//!
//! * [`cpu`] holds the machine itself: [`cpu::Chip8`], with loading, the
//!   cycle and the keypad.
//! * [`instructions`] and [`draw`] hold the instructions, one method of the
//!   machine each.
//! * [`opcode`] reads instruction words: operand fields and the decoding
//!   table.
//! * [`model`] says what the machine is and does, as mathematics; every
//!   method of the machine is proved against it.
//! * [`theorems`] proves what follows from the model.
//! * [`font`] holds the built-in font.
//! * [`keymap`] and [`screen`] serve a front end: the keyboard layout, and the
//!   squares to paint for a framebuffer.

pub mod cpu;
pub mod draw;
pub mod font;
pub mod instructions;
pub mod keymap;
pub mod model;
pub mod opcode;
mod random;
pub mod screen;
pub mod theorems;
