//! The validation pipeline: result model, rule registry, structural
//! pre-checker and the aggregating validator.
//!
//! `check_cheat` runs, for every instruction in order, the opcode-independent
//! pre-checker and then the rule bound to the instruction, tags each result
//! with the instruction's zero-based line, and reduces all results to one
//! overall verdict by worst-case reduction (Error > Warning > Pass).

use vstd::prelude::*;

use crate::blocks::{is_valid_hex, spec_valid_hex};
use crate::cheat::{Cheat, Instruction, Opcode};
use crate::checks::{ResetChecker, WriteChecker, ZeroAfterOpcodeChecker};
use crate::errors;

verus! {

/// A three-state outcome: Pass (no data), Warning(message) or
/// Error(code, message). Ordered for aggregation: Error > Warning > Pass.
#[derive(Debug, PartialEq, Eq, Clone)]
pub enum CheckResult {
    Pass,
    Warning(String),
    Error(usize, String),
}

/// The mathematical model of a `CheckResult`: the same three variants over
/// sequence-of-character messages and unbounded integers.
pub enum CheckResultView {
    Pass,
    Warning(Seq<char>),
    Error(int, Seq<char>),
}

impl View for CheckResult {
    type V = CheckResultView;

    open spec fn view(&self) -> CheckResultView {
        match self {
            CheckResult::Pass => CheckResultView::Pass,
            CheckResult::Warning(m) => CheckResultView::Warning(m@),
            CheckResult::Error(c, m) => CheckResultView::Error(*c as int, m@),
        }
    }
}

/// A `CheckResult` tagged with the zero-based line of the instruction that
/// produced it.
#[derive(Debug, PartialEq, Eq, Clone)]
pub struct DetailedResult {
    pub res_type: CheckResult,
    pub cheat_line: usize,
}

/// The mathematical model of a `DetailedResult`.
pub struct DetailedResultView {
    pub res_type: CheckResultView,
    pub cheat_line: int,
}

impl View for DetailedResult {
    type V = DetailedResultView;

    open spec fn view(&self) -> DetailedResultView {
        DetailedResultView { res_type: self.res_type@, cheat_line: self.cheat_line as int }
    }
}

impl DetailedResult {
    pub fn new(res_type: CheckResult, line: usize) -> (r: DetailedResult)
        ensures
            r.res_type == res_type,
            r.cheat_line == line,
    {
        DetailedResult { res_type, cheat_line: line }
    }
}

/// A validation rule: judges one instruction and returns a single result.
/// `spec_check` is the rule's mathematical meaning; `check` computes it.
pub trait Checker {
    spec fn spec_check(&self, instr: Opcode, block_a: Seq<char>, block_b: Seq<char>) -> CheckResultView;

    fn check(&self, instr: Opcode, block_a: &str, block_b: &str) -> (r: CheckResult)
        ensures
            r@ == self.spec_check(instr, block_a@, block_b@),
    ;
}

/// The explicit no-op rule for opcodes with no structural constraint beyond
/// the universal pre-check.
#[derive(Debug, Clone, Copy, PartialEq, Eq)]
pub struct AlwaysPassChecker;

impl Checker for AlwaysPassChecker {
    open spec fn spec_check(&self, instr: Opcode, block_a: Seq<char>, block_b: Seq<char>) -> CheckResultView {
        CheckResultView::Pass
    }

    fn check(&self, instr: Opcode, block_a: &str, block_b: &str) -> (r: CheckResult) {
        CheckResult::Pass
    }
}

/// The closed set of rules an opcode can be bound to, dispatched by a single
/// match. Carrying the rule as a tagged value keeps the rule set closed and
/// known at build time.
#[derive(Debug, Clone, Copy, PartialEq, Eq)]
pub enum Rule {
    AlwaysPass(AlwaysPassChecker),
    Write(WriteChecker),
    Reset(ResetChecker),
    ZeroAfterOpcode(ZeroAfterOpcodeChecker),
}

impl Checker for Rule {
    open spec fn spec_check(&self, instr: Opcode, block_a: Seq<char>, block_b: Seq<char>) -> CheckResultView {
        match self {
            Rule::AlwaysPass(c) => c.spec_check(instr, block_a, block_b),
            Rule::Write(c) => c.spec_check(instr, block_a, block_b),
            Rule::Reset(c) => c.spec_check(instr, block_a, block_b),
            Rule::ZeroAfterOpcode(c) => c.spec_check(instr, block_a, block_b),
        }
    }

    fn check(&self, instr: Opcode, block_a: &str, block_b: &str) -> (r: CheckResult) {
        match self {
            Rule::AlwaysPass(c) => c.check(instr, block_a, block_b),
            Rule::Write(c) => c.check(instr, block_a, block_b),
            Rule::Reset(c) => c.check(instr, block_a, block_b),
            Rule::ZeroAfterOpcode(c) => c.check(instr, block_a, block_b),
        }
    }
}

/// The registry mapping: every opcode resolves to exactly one rule, grouped
/// by shared encoding shape, with no fallthrough arm.
pub open spec fn spec_rule_for(opcode: Opcode) -> Rule {
    match opcode {
        Opcode::WriteWord | Opcode::WriteShort | Opcode::WriteByte => Rule::Write(WriteChecker),
        Opcode::Reset | Opcode::EndCond | Opcode::SetOffsetPtr => Rule::Reset(ResetChecker),
        Opcode::Repeat
        | Opcode::EndRepeat
        | Opcode::SetOffsetImmediate
        | Opcode::AddToDxData
        | Opcode::SetDxData
        | Opcode::CopyDxByte
        | Opcode::CopyDxShort
        | Opcode::CopyDxWord
        | Opcode::LoadDxByte
        | Opcode::LoadDxShort
        | Opcode::LoadDxWord
        | Opcode::AddOffset
        | Opcode::BtnCode => Rule::ZeroAfterOpcode(ZeroAfterOpcodeChecker),
        Opcode::EqWord
        | Opcode::LtWord
        | Opcode::GtWord
        | Opcode::NeWord
        | Opcode::PatchCode
        | Opcode::MemoryCopy
        | Opcode::EqShort
        | Opcode::LtShort
        | Opcode::GtShort
        | Opcode::NeShort => Rule::AlwaysPass(AlwaysPassChecker),
    }
}

/// Total, pure registry lookup: binds each opcode to its validation rule.
pub fn get_checker(opcode: Opcode) -> (r: Rule)
    ensures
        r == spec_rule_for(opcode),
{
    match opcode {
        Opcode::WriteWord | Opcode::WriteShort | Opcode::WriteByte => Rule::Write(WriteChecker),
        Opcode::Reset | Opcode::EndCond | Opcode::SetOffsetPtr => Rule::Reset(ResetChecker),
        Opcode::Repeat
        | Opcode::EndRepeat
        | Opcode::SetOffsetImmediate
        | Opcode::AddToDxData
        | Opcode::SetDxData
        | Opcode::CopyDxByte
        | Opcode::CopyDxShort
        | Opcode::CopyDxWord
        | Opcode::LoadDxByte
        | Opcode::LoadDxShort
        | Opcode::LoadDxWord
        | Opcode::AddOffset
        | Opcode::BtnCode => Rule::ZeroAfterOpcode(ZeroAfterOpcodeChecker),
        Opcode::EqWord
        | Opcode::LtWord
        | Opcode::GtWord
        | Opcode::NeWord
        | Opcode::PatchCode
        | Opcode::MemoryCopy
        | Opcode::EqShort
        | Opcode::LtShort
        | Opcode::GtShort
        | Opcode::NeShort => Rule::AlwaysPass(AlwaysPassChecker),
    }
}

/// The models of a sequence of results, element by element.
pub open spec fn results_view(s: Seq<CheckResult>) -> Seq<CheckResultView> {
    Seq::new(s.len(), |i: int| s[i]@)
}

/// The models of a sequence of detailed results, element by element.
pub open spec fn details_view(s: Seq<DetailedResult>) -> Seq<DetailedResultView> {
    Seq::new(s.len(), |i: int| s[i]@)
}

/// What the structural pre-checker emits for blocks `a` and `b`: the four
/// checks run unconditionally and independently, in this fixed order.
pub open spec fn spec_pre_check(a: Seq<char>, b: Seq<char>) -> Seq<CheckResultView> {
    (if a.len() != 8 { seq![errors::spec_wrong_length_a()] } else { Seq::<CheckResultView>::empty() })
    + (if b.len() != 8 { seq![errors::spec_wrong_length_b()] } else { Seq::<CheckResultView>::empty() })
    + (if !spec_valid_hex(a) { seq![errors::spec_invalid_hex_a()] } else { Seq::<CheckResultView>::empty() })
    + (if !spec_valid_hex(b) { seq![errors::spec_invalid_hex_b()] } else { Seq::<CheckResultView>::empty() })
}

/// Opcode-independent structural checks: both blocks must be exactly
/// 8 characters and well-formed base-16 numbers. Appends every violation to
/// `results`; a single instruction may contribute up to four errors here.
fn check_instruction_pre(instruction: &Instruction, results: &mut Vec<CheckResult>)
    ensures
        results_view(final(results)@) == results_view(old(results)@)
            + spec_pre_check(instruction.block_a@, instruction.block_b@),
{
    if instruction.block_a.as_str().unicode_len() != 8 {
        results.push(errors::wrong_length_a());
    }
    if instruction.block_b.as_str().unicode_len() != 8 {
        results.push(errors::wrong_length_b());
    }
    if !is_valid_hex(instruction.block_a.as_str()) {
        results.push(errors::invalid_hex_a());
    }
    if !is_valid_hex(instruction.block_b.as_str()) {
        results.push(errors::invalid_hex_b());
    }
    assert(results_view(results@) =~= results_view(old(results)@)
        + spec_pre_check(instruction.block_a@, instruction.block_b@));
}

/// Everything one instruction contributes, in the order produced: the
/// pre-check results first, then the single result of its bound rule.
pub open spec fn spec_instruction_results(i: Instruction) -> Seq<CheckResultView> {
    spec_pre_check(i.block_a@, i.block_b@).push(
        i.checker.spec_check(i.opcode, i.block_a@, i.block_b@),
    )
}

/// One instruction's results wrapped as details tagged with `line`.
pub open spec fn spec_instruction_details(i: Instruction, line: int) -> Seq<DetailedResultView> {
    spec_instruction_results(i).map_values(
        |r: CheckResultView| DetailedResultView { res_type: r, cheat_line: line },
    )
}

/// The full details sequence of a cheat: every instruction's details, in
/// sequence order, each tagged with the instruction's zero-based position.
pub open spec fn spec_details(instrs: Seq<Instruction>) -> Seq<DetailedResultView>
    decreases instrs.len(),
{
    if instrs.len() == 0 {
        Seq::<DetailedResultView>::empty()
    } else {
        spec_details(instrs.drop_last())
            + spec_instruction_details(instrs.last(), instrs.len() - 1)
    }
}

/// The aggregation order of the outcome set: Error > Warning > Pass.
pub open spec fn spec_severity(r: CheckResultView) -> int {
    match r {
        CheckResultView::Pass => 0,
        CheckResultView::Warning(_) => 1,
        CheckResultView::Error(_, _) => 2,
    }
}

/// Some detail is an error.
pub open spec fn spec_has_error(details: Seq<DetailedResultView>) -> bool {
    exists|i: int| 0 <= i < details.len() && details[i].res_type is Error
}

/// Some detail is a warning.
pub open spec fn spec_has_warning(details: Seq<DetailedResultView>) -> bool {
    exists|i: int| 0 <= i < details.len() && details[i].res_type is Warning
}

/// Worst-case reduction of a details sequence: Error if any detail is an
/// error, else Warning if any detail is a warning, else Pass. The overall
/// verdict carries a fixed, generic message; the specific diagnosis lives in
/// the per-line details.
pub open spec fn spec_overall(details: Seq<DetailedResultView>) -> CheckResultView {
    if spec_has_error(details) {
        errors::spec_compiled_with_errors()
    } else if spec_has_warning(details) {
        errors::spec_compiled_with_warnings()
    } else {
        CheckResultView::Pass
    }
}

/// Appending one instruction to the validated prefix appends exactly that
/// instruction's details block.
proof fn lemma_details_take_step(instrs: Seq<Instruction>, n: int)
    requires
        0 <= n < instrs.len(),
    ensures
        spec_details(instrs.take(n + 1)) == spec_details(instrs.take(n))
            + spec_instruction_details(instrs[n], n),
{
    assert(instrs.take(n + 1).drop_last() =~= instrs.take(n));
    assert(instrs.take(n + 1).last() == instrs[n]);
}

fn any_error(results: &Vec<DetailedResult>) -> (r: bool)
    ensures
        r == spec_has_error(details_view(results@)),
{
    let n = results.len();
    let mut i: usize = 0;
    while i < n
        invariant
            n == results@.len(),
            i <= n,
            forall|j: int| 0 <= j < i ==> !(#[trigger] details_view(results@)[j].res_type is Error),
        decreases n - i,
    {
        if let CheckResult::Error(_, _) = &results[i].res_type {
            assert(details_view(results@)[i as int].res_type is Error);
            return true;
        }
        i = i + 1;
    }
    false
}

fn any_warning(results: &Vec<DetailedResult>) -> (r: bool)
    ensures
        r == spec_has_warning(details_view(results@)),
{
    let n = results.len();
    let mut i: usize = 0;
    while i < n
        invariant
            n == results@.len(),
            i <= n,
            forall|j: int| 0 <= j < i ==> !(#[trigger] details_view(results@)[j].res_type is Warning),
        decreases n - i,
    {
        if let CheckResult::Warning(_) = &results[i].res_type {
            assert(details_view(results@)[i as int].res_type is Warning);
            return true;
        }
        i = i + 1;
    }
    false
}

/// The sole entry point: validates every instruction of `cheat` and returns
/// the overall verdict together with the full, ordered diagnostic list.
///
/// There is no failure path: every anomaly becomes a detail entry, an empty
/// instruction sequence validates as Pass, and the overall verdict is the
/// worst-case reduction of the details.
pub fn check_cheat(cheat: &Cheat) -> (r: (CheckResult, Vec<DetailedResult>))
    ensures
        details_view(r.1@) == spec_details(cheat.instructions@),
        r.0@ == spec_overall(spec_details(cheat.instructions@)),
{
    let mut results: Vec<DetailedResult> = Vec::new();
    let n = cheat.instructions.len();
    assert(cheat.instructions@.take(0) =~= Seq::<Instruction>::empty());
    assert(details_view(results@) =~= spec_details(cheat.instructions@.take(0)));
    let mut line: usize = 0;
    while line < n
        invariant
            n == cheat.instructions@.len(),
            line <= n,
            details_view(results@) == spec_details(cheat.instructions@.take(line as int)),
        decreases n - line,
    {
        let instr = &cheat.instructions[line];
        let mut current: Vec<CheckResult> = Vec::new();
        check_instruction_pre(instr, &mut current);
        let result = instr.checker.check(
            instr.opcode,
            instr.block_a.as_str(),
            instr.block_b.as_str(),
        );
        current.push(result);

        let ghost full = spec_instruction_results(*instr);
        let ghost block = spec_instruction_details(*instr, line as int);
        let ghost done = details_view(results@);
        let ghost m = full.len();
        assert(results_view(current@) =~= full);
        assert(full.skip(0) =~= full);
        assert(done + block.take(0) =~= done);

        while current.len() > 0
            invariant
                full == spec_instruction_results(*instr),
                block == spec_instruction_details(*instr, line as int),
                m == full.len(),
                current@.len() <= m,
                results_view(current@) == full.skip(m - current@.len()),
                details_view(results@) == done + block.take(m - current@.len()),
            decreases current.len(),
        {
            let ghost taken = m - current@.len();
            let ghost cur0 = current@;
            let res = current.remove(0);
            assert(res@ == results_view(cur0)[0]);
            assert(res@ == full[taken]);
            assert(current@ =~= cur0.skip(1));
            assert forall|j: int| 0 <= j < current@.len() implies #[trigger] results_view(
                current@,
            )[j] == full.skip(taken + 1)[j] by {
                assert(current@[j] == cur0[j + 1]);
                assert(results_view(cur0)[j + 1] == cur0[j + 1]@);
                assert(full.skip(taken)[j + 1] == full[taken + 1 + j]);
                assert(full.skip(taken + 1)[j] == full[taken + 1 + j]);
            };
            assert(results_view(current@) =~= full.skip(taken + 1));
            let ghost results0 = results@;
            assert(details_view(results0).len() == results0.len());
            results.push(DetailedResult::new(res, line));
            assert(block[taken] == (DetailedResultView { res_type: full[taken], cheat_line: line as int }));
            assert forall|j: int| 0 <= j < results@.len() implies #[trigger] details_view(
                results@,
            )[j] == (done + block.take(taken + 1))[j] by {
                assert(block.len() == m);
                assert(block.take(taken).len() == taken);
                assert(block.take(taken + 1).len() == taken + 1);
                assert(results0.len() == done.len() + taken);
                if j < done.len() {
                    assert(results@[j] == results0[j]);
                    assert(details_view(results0)[j] == results0[j]@);
                    assert((done + block.take(taken))[j] == done[j]);
                    assert((done + block.take(taken + 1))[j] == done[j]);
                } else if j < results0.len() {
                    assert(results@[j] == results0[j]);
                    assert(details_view(results0)[j] == results0[j]@);
                    assert((done + block.take(taken))[j] == block.take(taken)[j - done.len()]);
                    assert(block.take(taken)[j - done.len()] == block[j - done.len()]);
                    assert((done + block.take(taken + 1))[j] == block.take(taken + 1)[j - done.len()]);
                    assert(block.take(taken + 1)[j - done.len()] == block[j - done.len()]);
                } else {
                    assert(j == results0.len());
                    assert(results@[j]@ == (DetailedResultView { res_type: res@, cheat_line: line as int }));
                    assert((done + block.take(taken + 1))[j] == block.take(taken + 1)[j - done.len()]);
                    assert(block.take(taken + 1)[taken] == block[taken]);
                }
            };
            assert(details_view(results@) =~= done + block.take(taken + 1));
        }
        assert(block.take(m as int) =~= block);

        proof {
            lemma_details_take_step(cheat.instructions@, line as int);
        }
        line = line + 1;
    }
    assert(cheat.instructions@.take(n as int) =~= cheat.instructions@);

    let final_res = if any_error(&results) {
        errors::compiled_with_errors()
    } else if any_warning(&results) {
        errors::compiled_with_warnings()
    } else {
        CheckResult::Pass
    };
    (final_res, results)
}

} // verus!
