//! A cycle-accurate instruction-set simulator for the PIC16F88.
pub mod alu;
pub mod color;
pub mod geometry;
pub mod hex;
pub mod ident;
pub mod inst;
pub mod probe;
pub mod reg;
pub mod stack;
mod text;
pub mod vm;
