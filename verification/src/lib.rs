//! An instruction-set simulator for an 8-bit microcontroller: an
//! opcode matcher and field decoder that turn a stream of 16-bit
//! program words into typed instructions, and an execution engine that
//! applies them to a modeled processor state. The program counter and
//! program memory are byte-addressed; one word is two bytes.
//!
//! Every fatal condition (an unmatched or corrupt encoding, an
//! unmapped program counter, an instruction without execution
//! semantics) is a distinct error value, never a silent skip.

pub mod avrcore;
pub mod disassembler;
pub mod hexreader;
pub mod instructions;
pub mod render;
