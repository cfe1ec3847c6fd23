use vstd::prelude::*;

use crate::ast::{FormatExpr, Instruction, Line, ParseError, Program, ProgramModel, Spacing, Token};
use crate::parse::spec_parse_program;

verus! {

/// The instruction for one line: the line's text as-is; its spacing
/// value where it gave one, else the numeric literal `0.0`; a clone of
/// its format identifier where it gave one, else the program's resolved
/// default expression.
pub open spec fn spec_emit_line(default_format: FormatExpr, l: Line) -> Instruction {
    Instruction {
        text: l.text,
        spacing: match l.spacing {
            Some(s) => Spacing::Given(s),
            None => Spacing::Zero,
        },
        format: match l.format {
            Some(id) => FormatExpr::CloneOf(id),
            None => default_format,
        },
    }
}

/// The instructions of a whole program: one per line, in declaration
/// order, with no reordering, coalescing or deduplication.
pub open spec fn spec_emit(p: ProgramModel) -> Seq<Instruction> {
    Seq::new(p.lines.len(), |i: int| spec_emit_line(p.default_format, p.lines[i]))
}

/// The whole pipeline on a token stream: the emitted instructions of
/// the parsed program, or the parse error.  A failing parse yields no
/// partial output.
pub open spec fn spec_layout(t: Seq<Token>) -> Result<Seq<Instruction>, ParseError> {
    match spec_parse_program(t) {
        Ok(p) => Ok(spec_emit(p)),
        Err(e) => Err(e),
    }
}

/// Emit the instruction for one line.
pub fn emit_line(default_format: &FormatExpr, l: &Line) -> (r: Instruction)
    ensures
        r == spec_emit_line(*default_format, *l),
{
    let text = l.text.clone();
    let spacing = match &l.spacing {
        Some(s) => Spacing::Given(s.clone()),
        None => Spacing::Zero,
    };
    let format = match &l.format {
        Some(id) => FormatExpr::CloneOf(id.clone()),
        None => default_format.clone(),
    };
    Instruction { text, spacing, format }
}

/// Walk the parsed program and emit one builder instruction per line,
/// in declaration order.  A line that omitted its spacing gets the
/// literal `0.0`; one that omitted its format gets the resolved
/// default.
pub fn emit(p: &Program) -> (r: Vec<Instruction>)
    ensures
        r@ == spec_emit(p@),
        r@.len() == p.lines@.len(),
        forall|i: int|
            0 <= i < r@.len() ==> r@[i] == spec_emit_line(p.default_format, p.lines@[i]),
        forall|i: int|
            0 <= i < r@.len() && p.lines@[i].spacing is None ==> (#[trigger] r@[i]).spacing
                is Zero,
        forall|i: int|
            0 <= i < r@.len() && p.lines@[i].format is None ==> (#[trigger] r@[i]).format
                == p.default_format,
{
    let mut out: Vec<Instruction> = Vec::new();
    let n = p.lines.len();
    let mut i: usize = 0;
    while i < n
        invariant
            n == p.lines@.len(),
            i <= n,
            out@.len() == i,
            forall|j: int|
                0 <= j < i ==> out@[j] == spec_emit_line(p.default_format, p.lines@[j]),
        decreases n - i,
    {
        let inst = emit_line(&p.default_format, &p.lines[i]);
        out.push(inst);
        i = i + 1;
    }
    proof {
        assert(out@ =~= spec_emit(p@));
    }
    out
}

/// Compile a token stream: parse it as a program and emit its
/// instruction list.  Either the whole input is compiled, or the first
/// error aborts the run with no output.
pub fn layout(tokens: &Vec<Token>) -> (r: Result<Vec<Instruction>, ParseError>)
    ensures
        match r {
            Ok(instrs) => spec_layout(tokens@) == Ok::<_, ParseError>(instrs@),
            Err(e) => spec_layout(tokens@) == Err::<Seq<Instruction>, _>(e),
        },
        r matches Ok(instrs) ==> (spec_parse_program(tokens@) matches Ok(p) && instrs@.len()
            == p.lines.len()),
{
    match Program::parse(tokens) {
        Err(e) => Err(e),
        Ok(p) => Ok(emit(&p)),
    }
}

/// The pipeline holds no hidden state: its result is a function of the
/// token stream alone, so any two runs on the same input — each pinned
/// by `layout`'s contract to `spec_layout` of that input — return
/// identical instruction sequences.
pub proof fn lemma_layout_idempotent(
    t: Seq<Token>,
    r1: Result<Seq<Instruction>, ParseError>,
    r2: Result<Seq<Instruction>, ParseError>,
)
    requires
        r1 == spec_layout(t),
        r2 == spec_layout(t),
    ensures
        r1 == r2,
{
}

} // verus!
