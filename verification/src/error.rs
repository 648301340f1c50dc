//! The error taxonomy: lexical, syntactic, lowering and runtime faults.
//! Each error carries the context a caller needs to reproduce it: the
//! offending token category, or the operator or name and the value kinds
//! involved. Faults are reported as values, never as panics.

use vstd::prelude::*;

use crate::token::TokenKind;

verus! {

/// The kind of a runtime value, used in operand-kind error reports.
#[derive(Clone, Copy, PartialEq, Eq, Structural, Debug)]
pub enum ValueKind {
    Nil,
    Bool,
    I32,
    F32,
    Chars,
    Func,
}

/// An arithmetic operator, as reported in operand-kind errors.
#[derive(Clone, Copy, PartialEq, Eq, Structural, Debug)]
pub enum ArithmeticOp {
    Add,
    Sub,
    Mul,
    Div,
}

/// A relational or logical operator, as reported in operand-kind errors.
#[derive(Clone, Copy, PartialEq, Eq, Structural, Debug)]
pub enum RelationalOp {
    Equal,
    LessThan,
    GreaterThan,
    NotEqual,
    LessThanEqual,
    GreaterThanEqual,
    Not,
    And,
    Or,
}

/// A fault found while reading, parsing, lowering or running a program.
#[derive(Debug)]
pub enum Error {
    /// A character literal reached the end of the input before its
    /// closing quote.
    UnterminatedChar,
    /// A string literal reached the end of the input before its closing
    /// quote.
    UnterminatedString,
    /// A character literal whose body is not exactly one byte.
    BadCharLiteral,
    /// Malformed numeric text: an integer too large for 32 bits, or a
    /// numeric lexeme with more than one point.
    BadNumber,
    /// A bare `!` not followed by `=`.
    LoneBang,
    /// A token with no entry in the binding-power table reached the
    /// expression parser.
    MissingBindingPower(TokenKind),
    /// A token with no prefix handler began an expression.
    MissingPrefix(TokenKind),
    /// A token with no infix handler continued an expression.
    MissingInfix(TokenKind),
    /// A specific token was required and a different one was found.
    Expected { expected: TokenKind, found: TokenKind },
    /// The parser's nesting budget ran out.
    ParseDepth,
    /// A parse tree had a shape the lowering pass cannot accept.
    LowerShape,
    /// A variable name was not found in the current or global scope.
    UndefinedVariable(Vec<u8>),
    /// A function name was not found in the global scope.
    UndefinedFunction(Vec<u8>),
    /// A name resolved to something other than a function at a call site.
    NotAFunction(Vec<u8>),
    /// A call whose argument count differs from the declared arity.
    ArityMismatch { name: Vec<u8>, expected: usize, given: usize },
    /// An arithmetic operator met an operand of the wrong kind; `right`
    /// tells which side.
    ArithOperand { op: ArithmeticOp, kind: ValueKind, right: bool },
    /// A relational or logical operator met an operand of the wrong kind.
    RelOperand { op: RelationalOp, kind: ValueKind, right: bool },
    /// A string operand that does not read as a number.
    BadStringNumber,
    /// Integer division by zero.
    DivisionByZero,
    /// A 32-bit integer operation overflowed.
    Overflow,
    /// Float arithmetic is not carried out by this runtime.
    FloatUnsupported,
    /// An `if` or `while` condition that is not a boolean.
    NonBoolCondition,
    /// An assignment to a name never declared by `let`.
    UndeclaredAssign(Vec<u8>),
    /// No `main` function in the global scope.
    NoMain,
    /// The evaluation step budget ran out: runaway recursion or a loop
    /// that did not finish within the given fuel.
    StepsExhausted,
}

/// The mathematical value of an error, with sequence payloads.
pub enum ErrorV {
    UnterminatedChar,
    UnterminatedString,
    BadCharLiteral,
    BadNumber,
    LoneBang,
    MissingBindingPower(TokenKind),
    MissingPrefix(TokenKind),
    MissingInfix(TokenKind),
    Expected { expected: TokenKind, found: TokenKind },
    ParseDepth,
    LowerShape,
    UndefinedVariable(Seq<u8>),
    UndefinedFunction(Seq<u8>),
    NotAFunction(Seq<u8>),
    ArityMismatch { name: Seq<u8>, expected: nat, given: nat },
    ArithOperand { op: ArithmeticOp, kind: ValueKind, right: bool },
    RelOperand { op: RelationalOp, kind: ValueKind, right: bool },
    BadStringNumber,
    DivisionByZero,
    Overflow,
    FloatUnsupported,
    NonBoolCondition,
    UndeclaredAssign(Seq<u8>),
    NoMain,
    StepsExhausted,
}

impl View for Error {
    type V = ErrorV;

    open spec fn view(&self) -> ErrorV {
        match self {
            Error::UnterminatedChar => ErrorV::UnterminatedChar,
            Error::UnterminatedString => ErrorV::UnterminatedString,
            Error::BadCharLiteral => ErrorV::BadCharLiteral,
            Error::BadNumber => ErrorV::BadNumber,
            Error::LoneBang => ErrorV::LoneBang,
            Error::MissingBindingPower(k) => ErrorV::MissingBindingPower(*k),
            Error::MissingPrefix(k) => ErrorV::MissingPrefix(*k),
            Error::MissingInfix(k) => ErrorV::MissingInfix(*k),
            Error::Expected { expected, found } => ErrorV::Expected {
                expected: *expected,
                found: *found,
            },
            Error::ParseDepth => ErrorV::ParseDepth,
            Error::LowerShape => ErrorV::LowerShape,
            Error::UndefinedVariable(n) => ErrorV::UndefinedVariable(n@),
            Error::UndefinedFunction(n) => ErrorV::UndefinedFunction(n@),
            Error::NotAFunction(n) => ErrorV::NotAFunction(n@),
            Error::ArityMismatch { name, expected, given } => ErrorV::ArityMismatch {
                name: name@,
                expected: *expected as nat,
                given: *given as nat,
            },
            Error::ArithOperand { op, kind, right } => ErrorV::ArithOperand {
                op: *op,
                kind: *kind,
                right: *right,
            },
            Error::RelOperand { op, kind, right } => ErrorV::RelOperand {
                op: *op,
                kind: *kind,
                right: *right,
            },
            Error::BadStringNumber => ErrorV::BadStringNumber,
            Error::DivisionByZero => ErrorV::DivisionByZero,
            Error::Overflow => ErrorV::Overflow,
            Error::FloatUnsupported => ErrorV::FloatUnsupported,
            Error::NonBoolCondition => ErrorV::NonBoolCondition,
            Error::UndeclaredAssign(n) => ErrorV::UndeclaredAssign(n@),
            Error::NoMain => ErrorV::NoMain,
            Error::StepsExhausted => ErrorV::StepsExhausted,
        }
    }
}

} // verus!
