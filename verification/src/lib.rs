//! A simulator for a small 16-bit word-addressed architecture: a register
//! file, a 65536-word memory, a program counter, a fetch-decode-execute
//! engine, and a disassembler that renders instruction words as text.
//! A command layer around the engine understands RUN, HALT, STEP, and LOAD.

pub mod command;
pub mod cpu;
pub mod disassemble;
