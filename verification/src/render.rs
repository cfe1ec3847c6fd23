use vstd::prelude::*;

use vstd::string::StringExecFns;

use crate::ast::{Either, FormatExpr, Instruction, Line, Spacing};
use crate::emit::spec_emit_line;

verus! {

/// The source text of a value: a literal or identifier verbatim, a
/// reference with its `&` prefix restored.
pub open spec fn spec_render_value(e: Either) -> Seq<char> {
    match e {
        Either::Lit(s) => s@,
        Either::Ident(s) => s@,
        Either::Reference(s) => "&"@ + s@,
    }
}

/// The source text of a spacing expression: the given value, or the
/// numeric literal `0.0` where the line gave none.
pub open spec fn spec_render_spacing(s: Spacing) -> Seq<char> {
    match s {
        Spacing::Given(e) => spec_render_value(e),
        Spacing::Zero => "0.0"@,
    }
}

/// The source text of a format expression: a clone of the named
/// identifier, or the zero-value constructor call.
pub open spec fn spec_render_format(f: FormatExpr) -> Seq<char> {
    match f {
        FormatExpr::CloneOf(id) => id@ + ".clone()"@,
        FormatExpr::DefaultCtor => "Default::default()"@,
    }
}

/// The source text of one builder instruction: a single `append` call
/// on the job being built.
pub open spec fn spec_render_instruction(i: Instruction) -> Seq<char> {
    "job.append("@ + spec_render_value(i.text) + ", "@ + spec_render_spacing(i.spacing) + ", "@
        + spec_render_format(i.format) + ");"@
}

/// The builder calls of `instrs` from index `i` on, one line each.
pub open spec fn spec_render_job_lines(instrs: Seq<Instruction>, i: int) -> Seq<char>
    decreases instrs.len() - i,
{
    if i < 0 || i >= instrs.len() {
        Seq::empty()
    } else {
        spec_render_instruction(instrs[i]) + "\n"@ + spec_render_job_lines(instrs, i + 1)
    }
}

/// The source text of the whole emitted block: build a fresh job,
/// append every run in order, hand the job back.
pub open spec fn spec_render_job(instrs: Seq<Instruction>) -> Seq<char> {
    "{\nlet mut job = LayoutJob::default();\n"@ + spec_render_job_lines(instrs, 0) + "job\n}"@
}

impl Either {
    /// The source text of this value.
    pub fn to_code(&self) -> (r: String)
        ensures
            r@ == spec_render_value(*self),
    {
        match self {
            Either::Lit(s) => s.clone(),
            Either::Ident(s) => s.clone(),
            Either::Reference(s) => {
                let mut out = String::from_str("&");
                out.append(s.as_str());
                out
            },
        }
    }
}

impl Spacing {
    /// The source text of this spacing expression.
    pub fn to_code(&self) -> (r: String)
        ensures
            r@ == spec_render_spacing(*self),
    {
        match self {
            Spacing::Given(e) => e.to_code(),
            Spacing::Zero => String::from_str("0.0"),
        }
    }
}

impl FormatExpr {
    /// The source text of this format expression.
    pub fn to_code(&self) -> (r: String)
        ensures
            r@ == spec_render_format(*self),
    {
        match self {
            FormatExpr::CloneOf(id) => {
                let mut out = id.clone();
                out.append(".clone()");
                out
            },
            FormatExpr::DefaultCtor => String::from_str("Default::default()"),
        }
    }
}

impl Instruction {
    /// The source text of this instruction: one `append` call.
    pub fn to_code(&self) -> (r: String)
        ensures
            r@ == spec_render_instruction(*self),
    {
        let mut out = String::from_str("job.append(");
        let text_code = self.text.to_code();
        out.append(text_code.as_str());
        out.append(", ");
        let spacing_code = self.spacing.to_code();
        out.append(spacing_code.as_str());
        out.append(", ");
        let format_code = self.format.to_code();
        out.append(format_code.as_str());
        out.append(");");
        out
    }
}

/// Render every instruction to its source text, one string per
/// instruction, in order.
pub fn render_program(instrs: &Vec<Instruction>) -> (r: Vec<String>)
    ensures
        r@.len() == instrs@.len(),
        forall|i: int|
            0 <= i < r@.len() ==> (#[trigger] r@[i])@ == spec_render_instruction(instrs@[i]),
{
    let mut out: Vec<String> = Vec::new();
    let n = instrs.len();
    let mut i: usize = 0;
    while i < n
        invariant
            n == instrs@.len(),
            i <= n,
            out@.len() == i,
            forall|j: int|
                0 <= j < i ==> (#[trigger] out@[j])@ == spec_render_instruction(instrs@[j]),
        decreases n - i,
    {
        let inst = &instrs[i];
        let code = inst.to_code();
        out.push(code);
        i = i + 1;
    }
    out
}

/// Render the whole emitted block: the braced expression that builds a
/// fresh layout job, appends every run in order, and yields the job.
pub fn render_job(instrs: &Vec<Instruction>) -> (r: String)
    ensures
        r@ == spec_render_job(instrs@),
{
    let mut body = String::new();
    proof {
        assert(Seq::<char>::empty() + spec_render_job_lines(instrs@, 0) =~= spec_render_job_lines(
            instrs@,
            0,
        ));
    }
    let n = instrs.len();
    let mut i: usize = 0;
    while i < n
        invariant
            n == instrs@.len(),
            i <= n,
            body@ + spec_render_job_lines(instrs@, i as int) == spec_render_job_lines(instrs@, 0),
        decreases n - i,
    {
        let ghost body0 = body@;
        let inst = &instrs[i];
        let code = inst.to_code();
        body.append(code.as_str());
        body.append("\n");
        proof {
            assert(spec_render_job_lines(instrs@, i as int) == spec_render_instruction(instrs@[i as int])
                + "\n"@ + spec_render_job_lines(instrs@, i + 1));
            assert(((body0 + code@) + "\n"@) + spec_render_job_lines(instrs@, i + 1) =~= body0 + ((
            spec_render_instruction(instrs@[i as int]) + "\n"@) + spec_render_job_lines(
                instrs@,
                i + 1,
            )));
        }
        i = i + 1;
    }
    proof {
        assert(body@ + Seq::<char>::empty() =~= body@);
    }
    let mut out = String::from_str("{\nlet mut job = LayoutJob::default();\n");
    out.append(body.as_str());
    out.append("job\n}");
    out
}

/// A line that omits its spacing is emitted with exactly the spacing
/// literal `0.0`, whatever the line and the program's default format.
pub proof fn lemma_omitted_spacing_renders_zero(default_format: FormatExpr, l: Line)
    requires
        l.spacing is None,
    ensures
        spec_emit_line(default_format, l).spacing is Zero,
        spec_render_spacing(spec_emit_line(default_format, l).spacing) == "0.0"@,
{
}

} // verus!
