//! The data model: opcodes, instructions and cheats.
//!
//! Instructions are produced by an external parser and are immutable here.
//! A well-formed instruction has two blocks of exactly 8 hexadecimal digits
//! each; violations are detected and reported by the validator, never
//! rejected at construction, because reporting them is the validator's job.

use vstd::prelude::*;

use crate::check::Rule;

verus! {

/// The closed set of instruction kinds. Every opcode is bound to exactly one
/// validation rule by `check::get_checker`.
#[derive(Debug, Clone, Copy, PartialEq, Eq)]
pub enum Opcode {
    WriteWord,
    WriteShort,
    WriteByte,
    Reset,
    EndCond,
    SetOffsetPtr,
    Repeat,
    EndRepeat,
    SetOffsetImmediate,
    AddToDxData,
    SetDxData,
    CopyDxByte,
    CopyDxShort,
    CopyDxWord,
    LoadDxByte,
    LoadDxShort,
    LoadDxWord,
    AddOffset,
    BtnCode,
    EqWord,
    LtWord,
    GtWord,
    NeWord,
    PatchCode,
    MemoryCopy,
    EqShort,
    LtShort,
    GtShort,
    NeShort,
}

/// The name a cheat is presented under.
#[derive(Debug, Clone)]
pub struct Descriptor {
    pub name: String,
}

/// One cheat line: an opcode, its two data blocks, and the rule it was bound
/// to at construction time.
#[derive(Debug, Clone)]
pub struct Instruction {
    pub opcode: Opcode,
    pub block_a: String,
    pub block_b: String,
    pub checker: Rule,
}

/// A descriptor plus an ordered sequence of instructions. Order is
/// significant: reported line numbers are zero-based positions in this
/// sequence.
#[derive(Debug, Clone)]
pub struct Cheat {
    pub descriptor: Descriptor,
    pub instructions: Vec<Instruction>,
}

} // verus!
