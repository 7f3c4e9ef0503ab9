//! The opcode-specific rules.
//!
//! Each rule encodes one structural invariant family of the cheat encoding.
//! A rule judges a single instruction and returns a single result; when a
//! block is not 8 characters long the rule stands aside and returns Pass,
//! since the opcode-independent pre-checker already reports the length
//! violation and the rule's bit-layout reading would be meaningless.

use vstd::prelude::*;

use crate::blocks::{spec_zeros_range, zeros_range};
use crate::check::{Checker, CheckResult, CheckResultView};
use crate::cheat::Opcode;
use crate::errors;

verus! {

/// Write-size consistency: a write narrower than a word must not carry data
/// in the digits beyond its declared width. A short write uses only the low
/// 16 bits of `block_b` (the last 4 digits), a byte write only the low
/// 8 bits (the last 2 digits); nonzero digits above that are reported as a
/// likely-benign warning. A word write uses the whole block and always
/// passes.
#[derive(Debug, Clone, Copy, PartialEq, Eq)]
pub struct WriteChecker;

impl Checker for WriteChecker {
    open spec fn spec_check(&self, instr: Opcode, block_a: Seq<char>, block_b: Seq<char>) -> CheckResultView {
        if block_b.len() == 8 {
            match instr {
                Opcode::WriteShort => if spec_zeros_range(block_b, 0, 4) {
                    CheckResultView::Pass
                } else {
                    errors::spec_write_width_warning()
                },
                Opcode::WriteByte => if spec_zeros_range(block_b, 0, 6) {
                    CheckResultView::Pass
                } else {
                    errors::spec_write_width_warning()
                },
                _ => CheckResultView::Pass,
            }
        } else {
            CheckResultView::Pass
        }
    }

    fn check(&self, instr: Opcode, block_a: &str, block_b: &str) -> (r: CheckResult) {
        if block_b.unicode_len() != 8 {
            return CheckResult::Pass;
        }
        match instr {
            Opcode::WriteShort => if zeros_range(block_b, 0, 4) {
                CheckResult::Pass
            } else {
                errors::write_width_warning()
            },
            Opcode::WriteByte => if zeros_range(block_b, 0, 6) {
                CheckResult::Pass
            } else {
                errors::write_width_warning()
            },
            _ => CheckResult::Pass,
        }
    }
}

/// Boundary-field shape: a reset or condition-boundary instruction carries
/// no payload in its second block, so every digit of `block_b` must be `0`.
/// A nonzero digit there makes the instruction structurally incoherent and
/// is reported as an error.
#[derive(Debug, Clone, Copy, PartialEq, Eq)]
pub struct ResetChecker;

impl Checker for ResetChecker {
    open spec fn spec_check(&self, instr: Opcode, block_a: Seq<char>, block_b: Seq<char>) -> CheckResultView {
        if block_b.len() == 8 && !spec_zeros_range(block_b, 0, 8) {
            errors::spec_boundary_field()
        } else {
            CheckResultView::Pass
        }
    }

    fn check(&self, instr: Opcode, block_a: &str, block_b: &str) -> (r: CheckResult) {
        if block_b.unicode_len() == 8 && !zeros_range(block_b, 0, 8) {
            errors::boundary_field()
        } else {
            CheckResult::Pass
        }
    }
}

/// Zero padding after the opcode field: in this family the opcode occupies
/// the two leading digits of `block_a` and the encoding requires the six
/// digits that follow to be `0`. Nonzero padding is ignored by consumers of
/// the code, so it is reported as a likely-benign warning.
#[derive(Debug, Clone, Copy, PartialEq, Eq)]
pub struct ZeroAfterOpcodeChecker;

impl Checker for ZeroAfterOpcodeChecker {
    open spec fn spec_check(&self, instr: Opcode, block_a: Seq<char>, block_b: Seq<char>) -> CheckResultView {
        if block_a.len() == 8 && !spec_zeros_range(block_a, 2, 8) {
            errors::spec_padding_warning()
        } else {
            CheckResultView::Pass
        }
    }

    fn check(&self, instr: Opcode, block_a: &str, block_b: &str) -> (r: CheckResult) {
        if block_a.unicode_len() == 8 && !zeros_range(block_a, 2, 8) {
            errors::padding_warning()
        } else {
            CheckResult::Pass
        }
    }
}

} // verus!
