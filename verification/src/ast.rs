use vstd::prelude::*;

verus! {

/// One token of the input stream, as the host toolchain hands it over.
///
/// Literals are kept verbatim (a string literal keeps its quotes, a
/// number keeps its spelling); identifiers keep their name; the five
/// punctuation marks of the grammar are carried as bare tags.
#[derive(Debug, PartialEq, Eq)]
pub enum Token {
    /// A literal token, verbatim source text.
    Lit(String),
    /// A bare identifier.
    Ident(String),
    /// The punctuation mark `&`.
    Amp,
    /// The punctuation mark `;`.
    Semi,
    /// The punctuation mark `,`.
    Comma,
    /// The punctuation mark `<`.
    Lt,
    /// The punctuation mark `>`.
    Gt,
}

/// A parsed value: exactly one of three shapes, immutable once parsed.
#[derive(Debug, PartialEq, Eq)]
pub enum Either {
    /// A literal token, embedded verbatim.
    Lit(String),
    /// A bare name, used by value.
    Ident(String),
    /// An `&`-prefixed name, used by reference.
    Reference(String),
}

impl Clone for Either {
    fn clone(&self) -> (r: Self)
        ensures
            r == *self,
    {
        match self {
            Either::Lit(s) => Either::Lit(s.clone()),
            Either::Ident(s) => Either::Ident(s.clone()),
            Either::Reference(s) => Either::Reference(s.clone()),
        }
    }
}

/// One line of the program: a mandatory text value, an optional spacing
/// value, and an optional format reference (an identifier).
#[derive(Debug, PartialEq, Eq)]
pub struct Line {
    pub text: Either,
    pub spacing: Option<Either>,
    pub format: Option<String>,
}

/// The expression emitted in a format position: either a clone of a
/// named identifier, or the zero-value constructor of the format type.
#[derive(Debug, PartialEq, Eq)]
pub enum FormatExpr {
    /// `name.clone()` for the named identifier.
    CloneOf(String),
    /// `Default::default()`.
    DefaultCtor,
}

impl Clone for FormatExpr {
    fn clone(&self) -> (r: Self)
        ensures
            r == *self,
    {
        match self {
            FormatExpr::CloneOf(s) => FormatExpr::CloneOf(s.clone()),
            FormatExpr::DefaultCtor => FormatExpr::DefaultCtor,
        }
    }
}

/// A whole parsed program: the resolved default format and the lines in
/// declaration order.
#[derive(Debug, PartialEq, Eq)]
pub struct Program {
    pub default_format: FormatExpr,
    pub lines: Vec<Line>,
}

/// The mathematical shape of a [`Program`]: the same fields with the
/// lines as a sequence.
pub struct ProgramModel {
    pub default_format: FormatExpr,
    pub lines: Seq<Line>,
}

impl View for Program {
    type V = ProgramModel;

    open spec fn view(&self) -> ProgramModel {
        ProgramModel { default_format: self.default_format, lines: self.lines@ }
    }
}

/// The spacing expression of an emitted instruction.
#[derive(Debug, PartialEq, Eq)]
pub enum Spacing {
    /// The spacing value the line gave.
    Given(Either),
    /// The numeric literal `0.0`, substituted where the line gave none.
    Zero,
}

/// One emitted builder instruction: a single `append(text, spacing,
/// format)` call on the layout-job builder.
#[derive(Debug, PartialEq, Eq)]
pub struct Instruction {
    pub text: Either,
    pub spacing: Spacing,
    pub format: FormatExpr,
}

/// The token class a syntax error was waiting for.
#[derive(Debug, Clone, Copy, PartialEq, Eq, Structural)]
pub enum Expected {
    /// A bare identifier.
    Ident,
    /// The punctuation mark `;`.
    Semi,
    /// The punctuation mark `,`.
    Comma,
    /// The punctuation mark `>`.
    Gt,
}

/// A fatal parse failure.  Every error aborts the whole compilation:
/// no instructions are emitted for a failing input.
#[derive(Debug, Clone, Copy, PartialEq, Eq, Structural)]
pub enum ParseError {
    /// The token stream does not match the grammar: the token class
    /// named by `expected` was required at position `pos`.
    SyntaxError { pos: usize, expected: Expected },
    /// The line starting at position `pos` lacks its mandatory leading
    /// text value.
    MissingRequiredField { pos: usize },
}

} // verus!
