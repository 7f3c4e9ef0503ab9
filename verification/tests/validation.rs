use cheat_check::check::{check_cheat, get_checker, AlwaysPassChecker, CheckResult, Checker, DetailedResult, Rule};
use cheat_check::cheat::{Cheat, Descriptor, Instruction, Opcode};
use cheat_check::checks::{ResetChecker, WriteChecker, ZeroAfterOpcodeChecker};
use cheat_check::errors;

fn instruction(opcode: Opcode, block_a: &str, block_b: &str) -> Instruction {
    Instruction {
        opcode,
        block_a: block_a.to_string(),
        block_b: block_b.to_string(),
        checker: get_checker(opcode),
    }
}

fn cheat(instructions: Vec<Instruction>) -> Cheat {
    Cheat {
        descriptor: Descriptor {
            name: "[Test Cheat]".to_string(),
        },
        instructions,
    }
}

fn check(block_a: &str, block_b: &str) -> CheckResult {
    let instr = instruction(Opcode::WriteWord, block_a, block_b);
    let (result, _) = check_cheat(&cheat(vec![instr]));
    result
}

#[test]
fn pass_check() {
    assert_eq!(CheckResult::Pass, check("0AF2CD18", "CFF2AD4C"));
}

#[test]
fn fail_check() {
    assert_ne!(CheckResult::Pass, check("0GZA7F9C", "A4B8LF7J8L82JK"));
}

#[test]
fn empty_cheat_passes_with_no_details() {
    let (overall, details) = check_cheat(&cheat(vec![]));
    assert_eq!(CheckResult::Pass, overall);
    assert!(details.is_empty());
}

#[test]
fn clean_instruction_has_single_pass_detail() {
    let instr = instruction(Opcode::WriteWord, "0AF2CD18", "CFF2AD4C");
    let (overall, details) = check_cheat(&cheat(vec![instr]));
    assert_eq!(CheckResult::Pass, overall);
    assert_eq!(1, details.len());
    assert_eq!(CheckResult::Pass, details[0].res_type);
    assert_eq!(0, details[0].cheat_line);
}

#[test]
fn malformed_blocks_report_every_violation() {
    // block_a has the right length but invalid digits; block_b has the wrong
    // length and invalid digits.
    let instr = instruction(Opcode::WriteWord, "0GZA7F9C", "A4B8LF7J8L82JK");
    let (overall, details) = check_cheat(&cheat(vec![instr]));
    assert_eq!(
        CheckResult::Error(
            errors::COMPILED_WITH_ERRORS,
            "Instruction compiled with errors.".to_string()
        ),
        overall
    );
    let types: Vec<&CheckResult> = details.iter().map(|d| &d.res_type).collect();
    assert!(types.contains(&&CheckResult::Error(
        errors::WRONG_LENGTH_B,
        "wrong length, block B".to_string()
    )));
    assert!(types.contains(&&CheckResult::Error(
        errors::INVALID_HEX_A,
        "invalid hex, block A".to_string()
    )));
    assert!(types.contains(&&CheckResult::Error(
        errors::INVALID_HEX_B,
        "invalid hex, block B".to_string()
    )));
    // block_a is 8 characters, so no wrong-length error for it.
    assert!(details.iter().all(|d| d.res_type
        != CheckResult::Error(errors::WRONG_LENGTH_A, "wrong length, block A".to_string())));
    assert!(details.iter().all(|d| d.cheat_line == 0));
}

#[test]
fn wrong_length_block_a_reported() {
    let instr = instruction(Opcode::EqWord, "123", "CFF2AD4C");
    let (overall, details) = check_cheat(&cheat(vec![instr]));
    assert_eq!(
        CheckResult::Error(
            errors::COMPILED_WITH_ERRORS,
            "Instruction compiled with errors.".to_string()
        ),
        overall
    );
    // "123" is well-formed hexadecimal, so the only error is the length.
    assert_eq!(2, details.len());
    assert_eq!(
        CheckResult::Error(errors::WRONG_LENGTH_A, "wrong length, block A".to_string()),
        details[0].res_type
    );
    assert_eq!(CheckResult::Pass, details[1].res_type);
}

#[test]
fn empty_block_is_wrong_length_and_invalid_hex() {
    let instr = instruction(Opcode::EqWord, "", "CFF2AD4C");
    let (_, details) = check_cheat(&cheat(vec![instr]));
    let types: Vec<&CheckResult> = details.iter().map(|d| &d.res_type).collect();
    assert!(types.contains(&&CheckResult::Error(
        errors::WRONG_LENGTH_A,
        "wrong length, block A".to_string()
    )));
    assert!(types.contains(&&CheckResult::Error(
        errors::INVALID_HEX_A,
        "invalid hex, block A".to_string()
    )));
}

#[test]
fn second_line_errors_leave_first_line_clean() {
    let good = instruction(Opcode::WriteWord, "0AF2CD18", "CFF2AD4C");
    let bad = instruction(Opcode::WriteWord, "0AF2CD18", "ZZZZZZZZ");
    let (overall, details) = check_cheat(&cheat(vec![good, bad]));
    assert_eq!(
        CheckResult::Error(
            errors::COMPILED_WITH_ERRORS,
            "Instruction compiled with errors.".to_string()
        ),
        overall
    );
    assert!(details
        .iter()
        .filter(|d| d.cheat_line == 0)
        .all(|d| !matches!(d.res_type, CheckResult::Error(_, _))));
    assert!(details
        .iter()
        .filter(|d| d.cheat_line == 1)
        .any(|d| matches!(d.res_type, CheckResult::Error(_, _))));
}

#[test]
fn line_numbers_follow_instruction_order() {
    let first = instruction(Opcode::WriteWord, "0AF2CD18", "CFF2AD4C");
    let second = instruction(Opcode::WriteWord, "123", "CFF2AD4C");
    let third = instruction(Opcode::WriteWord, "0AF2CD18", "CFF2AD4C");
    let (_, details) = check_cheat(&cheat(vec![first, second, third]));
    // One detail per clean line, two for the malformed one, in order.
    assert_eq!(vec![0, 1, 1, 2], details.iter().map(|d| d.cheat_line).collect::<Vec<usize>>());
}

#[test]
fn short_write_with_wide_data_warns() {
    let instr = instruction(Opcode::WriteShort, "0AF2CD18", "00012345");
    let (overall, details) = check_cheat(&cheat(vec![instr]));
    assert_eq!(
        CheckResult::Warning("Instruction compiled with warnings.".to_string()),
        overall
    );
    assert_eq!(1, details.len());
    assert_eq!(
        CheckResult::Warning("write data exceeds the opcode's declared width".to_string()),
        details[0].res_type
    );
}

#[test]
fn short_write_within_width_passes() {
    let instr = instruction(Opcode::WriteShort, "0AF2CD18", "0000ABCD");
    let (overall, _) = check_cheat(&cheat(vec![instr]));
    assert_eq!(CheckResult::Pass, overall);
}

#[test]
fn byte_write_width_rule() {
    let narrow = instruction(Opcode::WriteByte, "0AF2CD18", "000000FF");
    let wide = instruction(Opcode::WriteByte, "0AF2CD18", "00000100");
    let (overall_narrow, _) = check_cheat(&cheat(vec![narrow]));
    let (overall_wide, _) = check_cheat(&cheat(vec![wide]));
    assert_eq!(CheckResult::Pass, overall_narrow);
    assert_eq!(
        CheckResult::Warning("Instruction compiled with warnings.".to_string()),
        overall_wide
    );
}

#[test]
fn boundary_instruction_with_payload_errors() {
    let instr = instruction(Opcode::Reset, "D2000000", "00000001");
    let (overall, details) = check_cheat(&cheat(vec![instr]));
    assert_eq!(
        CheckResult::Error(
            errors::COMPILED_WITH_ERRORS,
            "Instruction compiled with errors.".to_string()
        ),
        overall
    );
    assert_eq!(1, details.len());
    assert_eq!(
        CheckResult::Error(
            errors::BOUNDARY_FIELD,
            "nonzero field in boundary instruction".to_string()
        ),
        details[0].res_type
    );
}

#[test]
fn boundary_instruction_with_zero_payload_passes() {
    let instr = instruction(Opcode::EndCond, "D0000000", "00000000");
    let (overall, _) = check_cheat(&cheat(vec![instr]));
    assert_eq!(CheckResult::Pass, overall);
}

#[test]
fn nonzero_padding_after_opcode_warns() {
    let padded = instruction(Opcode::Repeat, "C0000001", "00000005");
    let clean = instruction(Opcode::Repeat, "C0000000", "00000005");
    let (overall_padded, details) = check_cheat(&cheat(vec![padded]));
    let (overall_clean, _) = check_cheat(&cheat(vec![clean]));
    assert_eq!(
        CheckResult::Warning("Instruction compiled with warnings.".to_string()),
        overall_padded
    );
    assert_eq!(
        CheckResult::Warning("nonzero padding after the opcode field".to_string()),
        details[0].res_type
    );
    assert_eq!(CheckResult::Pass, overall_clean);
}

#[test]
fn error_outranks_warning_in_aggregation() {
    let warning_line = instruction(Opcode::WriteShort, "0AF2CD18", "00012345");
    let error_line = instruction(Opcode::Reset, "D2000000", "00000001");
    let (overall, _) = check_cheat(&cheat(vec![warning_line, error_line]));
    assert_eq!(
        CheckResult::Error(
            errors::COMPILED_WITH_ERRORS,
            "Instruction compiled with errors.".to_string()
        ),
        overall
    );
}

#[test]
fn comparison_opcodes_always_pass_their_rule() {
    let instr = instruction(Opcode::NeShort, "F0012345", "FFFFFFFF");
    let (overall, _) = check_cheat(&cheat(vec![instr]));
    assert_eq!(CheckResult::Pass, overall);
}

#[test]
fn registry_groups_opcodes_by_shape() {
    assert_eq!(Rule::Write(WriteChecker), get_checker(Opcode::WriteWord));
    assert_eq!(Rule::Write(WriteChecker), get_checker(Opcode::WriteByte));
    assert_eq!(Rule::Reset(ResetChecker), get_checker(Opcode::SetOffsetPtr));
    assert_eq!(
        Rule::ZeroAfterOpcode(ZeroAfterOpcodeChecker),
        get_checker(Opcode::BtnCode)
    );
    assert_eq!(Rule::AlwaysPass(AlwaysPassChecker), get_checker(Opcode::PatchCode));
    assert_eq!(Rule::AlwaysPass(AlwaysPassChecker), get_checker(Opcode::MemoryCopy));
}

#[test]
fn always_pass_checker_passes_anything() {
    let result = AlwaysPassChecker.check(Opcode::PatchCode, "not hex at all", "");
    assert_eq!(CheckResult::Pass, result);
}

#[test]
fn rule_stands_aside_on_wrong_length_blocks() {
    // The pre-checker owns length violations; the boundary rule does not
    // also fire on a block it cannot read as a bit layout.
    let instr = instruction(Opcode::Reset, "D2000000", "123");
    let (overall, details) = check_cheat(&cheat(vec![instr]));
    assert_eq!(
        CheckResult::Error(
            errors::COMPILED_WITH_ERRORS,
            "Instruction compiled with errors.".to_string()
        ),
        overall
    );
    assert_eq!(2, details.len());
    assert_eq!(
        CheckResult::Error(errors::WRONG_LENGTH_B, "wrong length, block B".to_string()),
        details[0].res_type
    );
    assert_eq!(CheckResult::Pass, details[1].res_type);
}

#[test]
fn detailed_result_keeps_its_parts() {
    let detail = DetailedResult::new(CheckResult::Warning("w".to_string()), 7);
    assert_eq!(CheckResult::Warning("w".to_string()), detail.res_type);
    assert_eq!(7, detail.cheat_line);
}
