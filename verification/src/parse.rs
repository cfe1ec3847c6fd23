use vstd::prelude::*;

use crate::ast::{Either, Expected, FormatExpr, Line, ParseError, Program, ProgramModel, Token};

verus! {

/// Classifier decision: does a value (a literal, a bare identifier, or
/// `&` followed by an identifier) start at position `pos`?  The three
/// classes are token-disjoint, so one or two tokens of lookahead settle
/// it.
pub open spec fn value_starts_at(t: Seq<Token>, pos: int) -> bool {
    &&& 0 <= pos
    &&& {
        ||| (pos < t.len() && (t[pos] is Lit || t[pos] is Ident))
        ||| (pos < t.len() && t[pos] is Amp && pos + 1 < t.len() && t[pos + 1] is Ident)
    }
}

/// Parse one value at `pos`: the value and the position after it, or
/// `None` when no value starts there (nothing is consumed on that
/// path, so callers may treat the position as optional).
pub open spec fn spec_parse_value(t: Seq<Token>, pos: int) -> Option<(Either, int)> {
    if 0 <= pos < t.len() {
        match t[pos] {
            Token::Lit(s) => Some((Either::Lit(s), pos + 1)),
            Token::Ident(s) => Some((Either::Ident(s), pos + 1)),
            Token::Amp => if pos + 1 < t.len() && t[pos + 1] is Ident {
                Some((Either::Reference(t[pos + 1]->Ident_0), pos + 2))
            } else {
                None
            },
            _ => None,
        }
    } else {
        None
    }
}

/// Parse one line construct at `pos`: a mandatory leading value, an
/// optional spacing value (present exactly when the classifier sees a
/// value at the current position), and an optional `< identifier >`
/// format reference.  A missing leading value is fatal
/// (`MissingRequiredField`); a malformed bracket is fatal
/// (`SyntaxError` naming the expected token and its position).
pub open spec fn spec_parse_line(t: Seq<Token>, pos: int) -> Result<(Line, int), ParseError> {
    match spec_parse_value(t, pos) {
        None => Err(ParseError::MissingRequiredField { pos: pos as usize }),
        Some((text, p1)) => {
            let (spacing, p2): (Option<Either>, int) = match spec_parse_value(t, p1) {
                Some((s, p)) => (Some(s), p),
                None => (None, p1),
            };
            if p2 < t.len() && t[p2] is Lt {
                if p2 + 1 < t.len() && t[p2 + 1] is Ident {
                    if p2 + 2 < t.len() && t[p2 + 2] is Gt {
                        Ok(
                            (
                                Line {
                                    text,
                                    spacing,
                                    format: Some(t[p2 + 1]->Ident_0),
                                },
                                p2 + 3,
                            ),
                        )
                    } else {
                        Err(
                            ParseError::SyntaxError {
                                pos: (p2 + 2) as usize,
                                expected: Expected::Gt,
                            },
                        )
                    }
                } else {
                    Err(
                        ParseError::SyntaxError {
                            pos: (p2 + 1) as usize,
                            expected: Expected::Ident,
                        },
                    )
                }
            } else {
                Ok((Line { text, spacing, format: None }, p2))
            }
        },
    }
}

/// Parse a comma-separated, optionally comma-terminated sequence of
/// lines from `pos` to the end of the input.  Zero lines are valid.
pub open spec fn spec_parse_lines(t: Seq<Token>, pos: int) -> Result<
    (Seq<Line>, int),
    ParseError,
>
    decreases t.len() - pos,
{
    if pos >= t.len() {
        Ok((Seq::empty(), pos))
    } else {
        match spec_parse_line(t, pos) {
            Err(e) => Err(e),
            Ok((line, p1)) => if p1 >= t.len() {
                Ok((seq![line], p1))
            } else if t[p1] is Comma {
                match spec_parse_lines(t, p1 + 1) {
                    Err(e) => Err(e),
                    Ok((rest, p2)) => Ok((seq![line] + rest, p2)),
                }
            } else {
                Err(ParseError::SyntaxError { pos: p1 as usize, expected: Expected::Comma })
            },
        }
    }
}

/// Resolve the default format from the optional header identifier:
/// a clone of the named identifier when a header was given, the
/// zero-value constructor when none was.
pub open spec fn spec_resolve_default(header: Option<String>) -> FormatExpr {
    match header {
        Some(id) => FormatExpr::CloneOf(id),
        None => FormatExpr::DefaultCtor,
    }
}

/// Parse a whole program: an optional `identifier ;` header (taken
/// exactly when the first token is a bare identifier, whose delimiter
/// is then required), followed by the lines.
pub open spec fn spec_parse_program(t: Seq<Token>) -> Result<ProgramModel, ParseError> {
    if t.len() > 0 && t[0] is Ident {
        if t.len() > 1 && t[1] is Semi {
            match spec_parse_lines(t, 2) {
                Err(e) => Err(e),
                Ok((lines, _p)) => Ok(
                    ProgramModel {
                        default_format: spec_resolve_default(Some(t[0]->Ident_0)),
                        lines,
                    },
                ),
            }
        } else {
            Err(ParseError::SyntaxError { pos: 1, expected: Expected::Semi })
        }
    } else {
        match spec_parse_lines(t, 0) {
            Err(e) => Err(e),
            Ok((lines, _p)) => Ok(
                ProgramModel { default_format: spec_resolve_default(None), lines },
            ),
        }
    }
}

impl Either {
    /// Classifier lookahead: reports whether a value starts at `pos`,
    /// consuming nothing either way.
    pub fn peek(tokens: &Vec<Token>, pos: usize) -> (r: bool)
        ensures
            r == value_starts_at(tokens@, pos as int),
    {
        if pos < tokens.len() {
            match &tokens[pos] {
                Token::Lit(_) => true,
                Token::Ident(_) => true,
                Token::Amp => if pos + 1 < tokens.len() {
                    match &tokens[pos + 1] {
                        Token::Ident(_) => true,
                        _ => false,
                    }
                } else {
                    false
                },
                _ => false,
            }
        } else {
            false
        }
    }

    /// Parse one value at `pos`.  `None` means no value starts there;
    /// the position is then left for the caller to treat as optional.
    pub fn parse(tokens: &Vec<Token>, pos: usize) -> (r: Option<(Either, usize)>)
        ensures
            match r {
                Some((v, p)) => {
                    &&& spec_parse_value(tokens@, pos as int) == Some((v, p as int))
                    &&& pos < p <= tokens@.len()
                },
                None => spec_parse_value(tokens@, pos as int) is None,
            },
    {
        if pos < tokens.len() {
            match &tokens[pos] {
                Token::Lit(s) => Some((Either::Lit(s.clone()), pos + 1)),
                Token::Ident(s) => Some((Either::Ident(s.clone()), pos + 1)),
                Token::Amp => if pos + 1 < tokens.len() {
                    match &tokens[pos + 1] {
                        Token::Ident(s) => Some((Either::Reference(s.clone()), pos + 2)),
                        _ => None,
                    }
                } else {
                    None
                },
                _ => None,
            }
        } else {
            None
        }
    }
}

impl Line {
    /// Parse one line construct at `pos`.
    pub fn parse(tokens: &Vec<Token>, pos: usize) -> (r: Result<(Line, usize), ParseError>)
        ensures
            match r {
                Ok((line, p)) => {
                    &&& spec_parse_line(tokens@, pos as int) == Ok::<_, ParseError>(
                        (line, p as int),
                    )
                    &&& pos < p <= tokens@.len()
                },
                Err(e) => spec_parse_line(tokens@, pos as int) == Err::<(Line, int), _>(e),
            },
    {
        match Either::parse(tokens, pos) {
            None => Err(ParseError::MissingRequiredField { pos }),
            Some((text, p1)) => {
                let spacing: Option<Either>;
                let p2: usize;
                match Either::parse(tokens, p1) {
                    Some((s, p)) => {
                        spacing = Some(s);
                        p2 = p;
                    },
                    None => {
                        spacing = None;
                        p2 = p1;
                    },
                }
                let lt_next: bool = if p2 < tokens.len() {
                    match &tokens[p2] {
                        Token::Lt => true,
                        _ => false,
                    }
                } else {
                    false
                };
                if lt_next {
                    if p2 + 1 < tokens.len() {
                        match &tokens[p2 + 1] {
                            Token::Ident(s) => {
                                let gt_closes: bool = if p2 + 2 < tokens.len() {
                                    match &tokens[p2 + 2] {
                                        Token::Gt => true,
                                        _ => false,
                                    }
                                } else {
                                    false
                                };
                                if gt_closes {
                                    Ok(
                                        (
                                            Line { text, spacing, format: Some(s.clone()) },
                                            p2 + 3,
                                        ),
                                    )
                                } else {
                                    Err(
                                        ParseError::SyntaxError {
                                            pos: p2 + 2,
                                            expected: Expected::Gt,
                                        },
                                    )
                                }
                            },
                            _ => Err(
                                ParseError::SyntaxError { pos: p2 + 1, expected: Expected::Ident },
                            ),
                        }
                    } else {
                        Err(ParseError::SyntaxError { pos: p2 + 1, expected: Expected::Ident })
                    }
                } else {
                    Ok((Line { text, spacing, format: None }, p2))
                }
            },
        }
    }
}

/// Resolve the default format from the optional header identifier.
/// With a header the default is a clone of the named identifier; with
/// none it is the zero-value constructor — independent of how many
/// lines end up using it.
pub fn resolve_default(header: Option<String>) -> (r: FormatExpr)
    ensures
        r == spec_resolve_default(header),
        header matches Some(id) ==> r == FormatExpr::CloneOf(id),
        header is None ==> r == FormatExpr::DefaultCtor,
{
    match header {
        Some(id) => FormatExpr::CloneOf(id),
        None => FormatExpr::DefaultCtor,
    }
}

impl Program {
    /// Parse the comma-separated lines from `pos` to the end of the
    /// input.
    fn parse_lines(tokens: &Vec<Token>, pos: usize) -> (r: Result<
        (Vec<Line>, usize),
        ParseError,
    >)
        requires
            pos <= tokens@.len(),
        ensures
            match r {
                Ok((lines, p)) => {
                    &&& spec_parse_lines(tokens@, pos as int) == Ok::<_, ParseError>(
                        (lines@, p as int),
                    )
                    &&& pos <= p <= tokens@.len()
                },
                Err(e) => spec_parse_lines(tokens@, pos as int) == Err::<(Seq<Line>, int), _>(e),
            },
        decreases tokens@.len() - pos,
    {
        if pos >= tokens.len() {
            let empty: Vec<Line> = Vec::new();
            proof {
                assert(empty@ =~= Seq::<Line>::empty());
            }
            return Ok((empty, pos));
        }
        match Line::parse(tokens, pos) {
            Err(e) => Err(e),
            Ok((line, p1)) => {
                if p1 >= tokens.len() {
                    let ghost line_g = line;
                    let mut one: Vec<Line> = Vec::new();
                    one.push(line);
                    proof {
                        assert(one@ =~= seq![line_g]);
                    }
                    Ok((one, p1))
                } else {
                    let comma_next: bool = match &tokens[p1] {
                        Token::Comma => true,
                        _ => false,
                    };
                    if comma_next {
                        match Self::parse_lines(tokens, p1 + 1) {
                            Err(e) => Err(e),
                            Ok((rest, p2)) => {
                                let ghost line_g = line;
                                let ghost rest_s = rest@;
                                let mut lines = rest;
                                lines.insert(0, line);
                                proof {
                                    assert(lines@ =~= seq![line_g] + rest_s);
                                }
                                Ok((lines, p2))
                            },
                        }
                    } else {
                        Err(ParseError::SyntaxError { pos: p1, expected: Expected::Comma })
                    }
                }
            },
        }
    }

    /// Parse a whole program: the optional default-format header, then
    /// the lines.  An empty input is a valid program with zero lines.
    pub fn parse(tokens: &Vec<Token>) -> (r: Result<Program, ParseError>)
        ensures
            match r {
                Ok(p) => spec_parse_program(tokens@) == Ok::<_, ParseError>(p@),
                Err(e) => spec_parse_program(tokens@) == Err::<ProgramModel, _>(e),
            },
    {
        let header: Option<String>;
        let start: usize;
        if tokens.len() > 0 {
            match &tokens[0] {
                Token::Ident(name) => {
                    let semi_next: bool = if tokens.len() > 1 {
                        match &tokens[1] {
                            Token::Semi => true,
                            _ => false,
                        }
                    } else {
                        false
                    };
                    if semi_next {
                        header = Some(name.clone());
                        start = 2;
                    } else {
                        return Err(ParseError::SyntaxError { pos: 1, expected: Expected::Semi });
                    }
                },
                _ => {
                    header = None;
                    start = 0;
                },
            }
        } else {
            header = None;
            start = 0;
        }
        let default_format = resolve_default(header);
        match Self::parse_lines(tokens, start) {
            Err(e) => Err(e),
            Ok((lines, _end)) => Ok(Program { default_format, lines }),
        }
    }
}

} // verus!
