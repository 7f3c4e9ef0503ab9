//! Validation of encoded game-cheat instructions.
//!
//! A cheat is a named, ordered sequence of instructions, each made of an
//! opcode and two fixed-width hexadecimal data blocks. The library checks
//! every instruction against opcode-independent structural rules and against
//! the rule bound to its opcode, collects every diagnostic together with the
//! zero-based line it came from, and reduces the diagnostics to one overall
//! verdict by worst-case reduction (Error > Warning > Pass).

pub mod blocks;
pub mod cheat;
pub mod check;
pub mod checks;
pub mod errors;
pub mod laws;
