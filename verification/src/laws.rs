//! The laws of the validation pipeline, stated and proved over the spec
//! model that `check_cheat`'s contract is written in.

use vstd::prelude::*;

use crate::blocks::spec_valid_hex;
use crate::check::{
    spec_details, spec_has_error, spec_has_warning, spec_instruction_details,
    spec_instruction_results, spec_overall, spec_pre_check, spec_severity, CheckResultView, Checker,
    DetailedResultView,
};
use crate::cheat::Instruction;
use crate::errors;

verus! {

/// Every detail's line number is in range: at least zero and below the
/// number of instructions.
pub proof fn lemma_details_line_range(instrs: Seq<Instruction>)
    ensures
        forall|j: int|
            0 <= j < spec_details(instrs).len() ==> 0 <= (#[trigger] spec_details(instrs)[j]).cheat_line
                < instrs.len(),
    decreases instrs.len(),
{
    if instrs.len() > 0 {
        lemma_details_line_range(instrs.drop_last());
        let prefix = spec_details(instrs.drop_last());
        let blk = spec_instruction_details(instrs.last(), instrs.len() - 1);
        assert forall|j: int| 0 <= j < spec_details(instrs).len() implies 0 <= (
        #[trigger] spec_details(instrs)[j]).cheat_line < instrs.len() by {
            if j < prefix.len() {
                assert(spec_details(instrs)[j] == prefix[j]);
            } else {
                assert(spec_details(instrs)[j] == blk[j - prefix.len()]);
                assert(blk[j - prefix.len()].cheat_line == instrs.len() - 1);
            }
        }
    }
}

/// Every detail of instruction `i`'s block appears in the cheat's details.
pub proof fn lemma_block_in_details(instrs: Seq<Instruction>, i: int, k: int)
    requires
        0 <= i < instrs.len(),
        0 <= k < spec_instruction_details(instrs[i], i).len(),
    ensures
        spec_details(instrs).contains(spec_instruction_details(instrs[i], i)[k]),
    decreases instrs.len(),
{
    let prefix = spec_details(instrs.drop_last());
    let blk = spec_instruction_details(instrs.last(), instrs.len() - 1);
    let x = spec_instruction_details(instrs[i], i)[k];
    if i == instrs.len() - 1 {
        assert(instrs.last() == instrs[i]);
        assert(spec_details(instrs)[prefix.len() + k] == blk[k]);
        assert(blk[k] == x);
    } else {
        assert(instrs.drop_last()[i] == instrs[i]);
        lemma_block_in_details(instrs.drop_last(), i, k);
        let j = choose|j: int| 0 <= j < prefix.len() && prefix[j] == x;
        assert(spec_details(instrs)[j] == x);
    }
}

/// Every detail carrying line number `i` comes from instruction `i`'s block.
pub proof fn lemma_line_details(instrs: Seq<Instruction>, i: int, j: int)
    requires
        0 <= j < spec_details(instrs).len(),
        spec_details(instrs)[j].cheat_line == i,
    ensures
        0 <= i < instrs.len(),
        spec_instruction_details(instrs[i], i).contains(spec_details(instrs)[j]),
    decreases instrs.len(),
{
    lemma_details_line_range(instrs);
    let prefix = spec_details(instrs.drop_last());
    let blk = spec_instruction_details(instrs.last(), instrs.len() - 1);
    if j < prefix.len() {
        assert(spec_details(instrs)[j] == prefix[j]);
        lemma_line_details(instrs.drop_last(), i, j);
        assert(instrs.drop_last()[i] == instrs[i]);
    } else {
        let k = j - prefix.len();
        assert(spec_details(instrs)[j] == blk[k]);
        assert(blk[k].cheat_line == instrs.len() - 1);
        assert(instrs.last() == instrs[i]);
        assert(spec_instruction_details(instrs[i], i)[k] == spec_details(instrs)[j]);
    }
}

/// A cheat with no instructions validates to Pass with an empty details
/// sequence.
pub proof fn law_empty_cheat(instrs: Seq<Instruction>)
    requires
        instrs.len() == 0,
    ensures
        spec_details(instrs) == Seq::<DetailedResultView>::empty(),
        spec_overall(spec_details(instrs)) == CheckResultView::Pass,
{
}

/// A structurally clean instruction whose rule passes contributes only Pass
/// details: no error and no warning is attached to its line.
pub proof fn law_clean_line(instrs: Seq<Instruction>, i: int)
    requires
        0 <= i < instrs.len(),
        instrs[i].block_a@.len() == 8,
        instrs[i].block_b@.len() == 8,
        spec_valid_hex(instrs[i].block_a@),
        spec_valid_hex(instrs[i].block_b@),
        instrs[i].checker.spec_check(instrs[i].opcode, instrs[i].block_a@, instrs[i].block_b@)
            is Pass,
    ensures
        forall|j: int|
            0 <= j < spec_details(instrs).len() && (#[trigger] spec_details(instrs)[j]).cheat_line
                == i ==> spec_details(instrs)[j].res_type is Pass,
{
    let blk = spec_instruction_details(instrs[i], i);
    let full = spec_instruction_results(instrs[i]);
    assert(spec_pre_check(instrs[i].block_a@, instrs[i].block_b@)
        =~= Seq::<CheckResultView>::empty());
    assert(full.len() == 1);
    assert forall|j: int|
        0 <= j < spec_details(instrs).len() && (#[trigger] spec_details(instrs)[j]).cheat_line
            == i implies spec_details(instrs)[j].res_type is Pass by {
        lemma_line_details(instrs, i, j);
        let k = choose|k: int| 0 <= k < blk.len() && blk[k] == spec_details(instrs)[j];
        assert(blk[k].res_type == full[k]);
        assert(full[0] is Pass);
    }
}

/// A block of the wrong length flags an error detail on its line, and the
/// overall verdict is the generic compilation error.
pub proof fn law_wrong_length_flags_error(instrs: Seq<Instruction>, i: int)
    requires
        0 <= i < instrs.len(),
        instrs[i].block_a@.len() != 8 || instrs[i].block_b@.len() != 8,
    ensures
        exists|j: int|
            0 <= j < spec_details(instrs).len() && (#[trigger] spec_details(instrs)[j]).cheat_line
                == i && spec_details(instrs)[j].res_type is Error,
        spec_overall(spec_details(instrs)) == errors::spec_compiled_with_errors(),
{
    let a = instrs[i].block_a@;
    let b = instrs[i].block_b@;
    let pre = spec_pre_check(a, b);
    let full = spec_instruction_results(instrs[i]);
    let blk = spec_instruction_details(instrs[i], i);
    if a.len() != 8 {
        assert(pre[0] == errors::spec_wrong_length_a());
    } else {
        assert(pre[0] == errors::spec_wrong_length_b());
    }
    assert(full[0] == pre[0]);
    assert(blk[0].res_type == full[0] && blk[0].cheat_line == i);
    lemma_block_in_details(instrs, i, 0);
    let x = blk[0];
    let j = choose|j: int| 0 <= j < spec_details(instrs).len() && spec_details(instrs)[j] == x;
    assert((#[trigger] spec_details(instrs)[j]).cheat_line == i
        && spec_details(instrs)[j].res_type is Error);
    assert(spec_has_error(spec_details(instrs)));
}

/// A block that is not well-formed hexadecimal flags an invalid-hex error
/// detail on its line, and the overall verdict is the generic compilation
/// error.
pub proof fn law_invalid_hex_flags_error(instrs: Seq<Instruction>, i: int)
    requires
        0 <= i < instrs.len(),
        !spec_valid_hex(instrs[i].block_a@) || !spec_valid_hex(instrs[i].block_b@),
    ensures
        exists|j: int|
            0 <= j < spec_details(instrs).len() && (#[trigger] spec_details(instrs)[j]).cheat_line
                == i && (spec_details(instrs)[j].res_type == errors::spec_invalid_hex_a()
                || spec_details(instrs)[j].res_type == errors::spec_invalid_hex_b()),
        spec_overall(spec_details(instrs)) == errors::spec_compiled_with_errors(),
{
    let a = instrs[i].block_a@;
    let b = instrs[i].block_b@;
    let pre = spec_pre_check(a, b);
    let full = spec_instruction_results(instrs[i]);
    let blk = spec_instruction_details(instrs[i], i);
    let idx: int = (if a.len() != 8 { 1int } else { 0int }) + (if b.len() != 8 { 1int } else { 0int });
    if !spec_valid_hex(a) {
        assert(pre[idx] == errors::spec_invalid_hex_a());
    } else {
        assert(pre[idx] == errors::spec_invalid_hex_b());
    }
    assert(full[idx] == pre[idx]);
    assert(blk[idx].res_type == full[idx] && blk[idx].cheat_line == i);
    lemma_block_in_details(instrs, i, idx);
    let x = blk[idx];
    let j = choose|j: int| 0 <= j < spec_details(instrs).len() && spec_details(instrs)[j] == x;
    assert((#[trigger] spec_details(instrs)[j]).cheat_line == i);
    assert(spec_details(instrs)[j].res_type is Error);
    assert(spec_has_error(spec_details(instrs)));
}

/// Worst-case reduction: the overall verdict is Error exactly when some
/// detail is an error; otherwise it is Warning exactly when some detail is a
/// warning; otherwise it is Pass. The Error and Warning verdicts carry the
/// fixed generic messages.
pub proof fn law_worst_case_reduction(details: Seq<DetailedResultView>)
    ensures
        spec_overall(details) is Error <==> spec_has_error(details),
        !spec_has_error(details) ==> (spec_overall(details) is Warning <==> spec_has_warning(
            details,
        )),
        spec_overall(details) is Pass <==> (!spec_has_error(details) && !spec_has_warning(
            details,
        )),
        spec_has_error(details) ==> spec_overall(details) == errors::spec_compiled_with_errors(),
        !spec_has_error(details) && spec_has_warning(details) ==> spec_overall(details)
            == errors::spec_compiled_with_warnings(),
{
}

/// The overall verdict is the worst severity among the details: no detail
/// outranks it, and when there is any detail at all, some detail reaches it.
pub proof fn law_overall_is_worst_severity(details: Seq<DetailedResultView>)
    ensures
        forall|j: int|
            0 <= j < details.len() ==> spec_severity((#[trigger] details[j]).res_type)
                <= spec_severity(spec_overall(details)),
        details.len() > 0 ==> exists|j: int|
            0 <= j < details.len() && spec_severity((#[trigger] details[j]).res_type)
                == spec_severity(spec_overall(details)),
{
    if spec_has_error(details) {
        let j = choose|j: int| 0 <= j < details.len() && details[j].res_type is Error;
        assert(spec_severity(details[j].res_type) == spec_severity(spec_overall(details)));
    } else if spec_has_warning(details) {
        let j = choose|j: int| 0 <= j < details.len() && details[j].res_type is Warning;
        assert(spec_severity(details[j].res_type) == spec_severity(spec_overall(details)));
    } else if details.len() > 0 {
        assert(spec_severity(details[0].res_type) == spec_severity(spec_overall(details)));
    }
}

/// Line numbering: every detail carries the zero-based index of the
/// instruction that produced it — it is in range and belongs to that
/// instruction's block — and, conversely, every detail of every
/// instruction's block appears in the cheat's details, regardless of how
/// many details the instruction produced.
pub proof fn law_line_numbering(instrs: Seq<Instruction>)
    ensures
        forall|j: int|
            0 <= j < spec_details(instrs).len() ==> 0 <= (#[trigger] spec_details(instrs)[j]).cheat_line
                < instrs.len(),
        forall|j: int|
            0 <= j < spec_details(instrs).len() ==> spec_instruction_details(
                instrs[(#[trigger] spec_details(instrs)[j]).cheat_line],
                spec_details(instrs)[j].cheat_line,
            ).contains(spec_details(instrs)[j]),
        forall|i: int, k: int|
            0 <= i < instrs.len() && 0 <= k < spec_instruction_details(instrs[i], i).len()
                ==> spec_details(instrs).contains(#[trigger] spec_instruction_details(instrs[i], i)[k]),
{
    lemma_details_line_range(instrs);
    assert forall|j: int| 0 <= j < spec_details(instrs).len() implies spec_instruction_details(
        instrs[(#[trigger] spec_details(instrs)[j]).cheat_line],
        spec_details(instrs)[j].cheat_line,
    ).contains(spec_details(instrs)[j]) by {
        lemma_line_details(instrs, spec_details(instrs)[j].cheat_line, j);
    }
    assert forall|i: int, k: int|
        0 <= i < instrs.len() && 0 <= k < spec_instruction_details(instrs[i], i).len()
        implies spec_details(instrs).contains(
        #[trigger] spec_instruction_details(instrs[i], i)[k]) by {
        lemma_block_in_details(instrs, i, k);
    }
}

} // verus!
