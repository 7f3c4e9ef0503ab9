//! The diagnostic catalog: one constructor per reportable condition.
//!
//! Each error carries a small integer code and a human-readable message; the
//! mapping from condition to (code, message) lives here alone, so it can be
//! swapped (for example for localization) without touching the checking
//! logic. Every constructor has a spec-level twin that pins the exact code
//! and message it produces.

use vstd::prelude::*;

use crate::check::{CheckResult, CheckResultView};

verus! {

/// Code of the overall verdict when any detail is an error.
pub const COMPILED_WITH_ERRORS: usize = 0;

/// Code reported when `block_a` is not exactly 8 characters long.
pub const WRONG_LENGTH_A: usize = 1;

/// Code reported when `block_b` is not exactly 8 characters long.
pub const WRONG_LENGTH_B: usize = 2;

/// Code reported when `block_a` is not a well-formed base-16 number.
pub const INVALID_HEX_A: usize = 3;

/// Code reported when `block_b` is not a well-formed base-16 number.
pub const INVALID_HEX_B: usize = 4;

/// Code reported when a boundary instruction carries a nonzero field.
pub const BOUNDARY_FIELD: usize = 5;

pub open spec fn spec_wrong_length_a() -> CheckResultView {
    CheckResultView::Error(WRONG_LENGTH_A as int, "wrong length, block A"@)
}

pub open spec fn spec_wrong_length_b() -> CheckResultView {
    CheckResultView::Error(WRONG_LENGTH_B as int, "wrong length, block B"@)
}

pub open spec fn spec_invalid_hex_a() -> CheckResultView {
    CheckResultView::Error(INVALID_HEX_A as int, "invalid hex, block A"@)
}

pub open spec fn spec_invalid_hex_b() -> CheckResultView {
    CheckResultView::Error(INVALID_HEX_B as int, "invalid hex, block B"@)
}

pub open spec fn spec_boundary_field() -> CheckResultView {
    CheckResultView::Error(BOUNDARY_FIELD as int, "nonzero field in boundary instruction"@)
}

pub open spec fn spec_write_width_warning() -> CheckResultView {
    CheckResultView::Warning("write data exceeds the opcode's declared width"@)
}

pub open spec fn spec_padding_warning() -> CheckResultView {
    CheckResultView::Warning("nonzero padding after the opcode field"@)
}

pub open spec fn spec_compiled_with_errors() -> CheckResultView {
    CheckResultView::Error(COMPILED_WITH_ERRORS as int, "Instruction compiled with errors."@)
}

pub open spec fn spec_compiled_with_warnings() -> CheckResultView {
    CheckResultView::Warning("Instruction compiled with warnings."@)
}

pub fn wrong_length_a() -> (r: CheckResult)
    ensures
        r@ == spec_wrong_length_a(),
{
    CheckResult::Error(WRONG_LENGTH_A, "wrong length, block A".to_owned())
}

pub fn wrong_length_b() -> (r: CheckResult)
    ensures
        r@ == spec_wrong_length_b(),
{
    CheckResult::Error(WRONG_LENGTH_B, "wrong length, block B".to_owned())
}

pub fn invalid_hex_a() -> (r: CheckResult)
    ensures
        r@ == spec_invalid_hex_a(),
{
    CheckResult::Error(INVALID_HEX_A, "invalid hex, block A".to_owned())
}

pub fn invalid_hex_b() -> (r: CheckResult)
    ensures
        r@ == spec_invalid_hex_b(),
{
    CheckResult::Error(INVALID_HEX_B, "invalid hex, block B".to_owned())
}

pub fn boundary_field() -> (r: CheckResult)
    ensures
        r@ == spec_boundary_field(),
{
    CheckResult::Error(BOUNDARY_FIELD, "nonzero field in boundary instruction".to_owned())
}

pub fn write_width_warning() -> (r: CheckResult)
    ensures
        r@ == spec_write_width_warning(),
{
    CheckResult::Warning("write data exceeds the opcode's declared width".to_owned())
}

pub fn padding_warning() -> (r: CheckResult)
    ensures
        r@ == spec_padding_warning(),
{
    CheckResult::Warning("nonzero padding after the opcode field".to_owned())
}

pub fn compiled_with_errors() -> (r: CheckResult)
    ensures
        r@ == spec_compiled_with_errors(),
{
    CheckResult::Error(COMPILED_WITH_ERRORS, "Instruction compiled with errors.".to_owned())
}

pub fn compiled_with_warnings() -> (r: CheckResult)
    ensures
        r@ == spec_compiled_with_warnings(),
{
    CheckResult::Warning("Instruction compiled with warnings.".to_owned())
}

} // verus!
