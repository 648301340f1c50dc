//! The lexical token model: a closed set of token categories, where two
//! tokens compare equal exactly when their categories match, while literal
//! and identifier payloads are carried along for later lowering.
#![allow(non_camel_case_types)]

use vstd::prelude::*;

verus! {

/// A lexical token. Identifier and string payloads are byte vectors; a
/// float literal carries its source text, since its value is only ever
/// needed again as text.
pub enum Token {
    // Brackets:
    PAREN_L,
    PAREN_R,
    BRACKET_L,
    BRACKET_R,
    BRACE_L,
    BRACE_R,
    // Separators:
    POINT,
    COMMA,
    COLON,
    SEMICOLON,
    ARROW_R,
    // Arithmetic operators:
    OP_ADD,
    OP_SUB,
    OP_MUL,
    OP_DIV,
    // Relational operators:
    OP_EQ,
    OP_LT,
    OP_GT,
    OP_NEQ,
    OP_NLT,
    OP_NGT,
    // Logical operators:
    OP_NOT,
    OP_AND,
    OP_OR,
    // Assignment:
    OP_ASSIGN,
    // Keywords:
    KW_FUNC,
    LET,
    IF,
    ELSE,
    WHILE,
    PRINT,
    RETURN,
    // Identifiers:
    ID(Vec<u8>),
    // Basic type names:
    TYPE_I32,
    TYPE_F32,
    TYPE_CHAR,
    // Literals:
    LIT_I32(i32),
    LIT_F32(Vec<u8>),
    LIT_CHAR(u8),
    LIT_STRING(Vec<u8>),
    LIT_BOOL(bool),
    // End of input:
    EOI,
}

/// The mathematical value of a token: the same categories with sequence
/// payloads, used throughout the specification functions.
pub enum TokenV {
    PAREN_L,
    PAREN_R,
    BRACKET_L,
    BRACKET_R,
    BRACE_L,
    BRACE_R,
    POINT,
    COMMA,
    COLON,
    SEMICOLON,
    ARROW_R,
    OP_ADD,
    OP_SUB,
    OP_MUL,
    OP_DIV,
    OP_EQ,
    OP_LT,
    OP_GT,
    OP_NEQ,
    OP_NLT,
    OP_NGT,
    OP_NOT,
    OP_AND,
    OP_OR,
    OP_ASSIGN,
    KW_FUNC,
    LET,
    IF,
    ELSE,
    WHILE,
    PRINT,
    RETURN,
    ID(Seq<u8>),
    TYPE_I32,
    TYPE_F32,
    TYPE_CHAR,
    LIT_I32(i32),
    LIT_F32(Seq<u8>),
    LIT_CHAR(u8),
    LIT_STRING(Seq<u8>),
    LIT_BOOL(bool),
    EOI,
}

impl View for Token {
    type V = TokenV;

    open spec fn view(&self) -> TokenV {
        match self {
            Token::PAREN_L => TokenV::PAREN_L,
            Token::PAREN_R => TokenV::PAREN_R,
            Token::BRACKET_L => TokenV::BRACKET_L,
            Token::BRACKET_R => TokenV::BRACKET_R,
            Token::BRACE_L => TokenV::BRACE_L,
            Token::BRACE_R => TokenV::BRACE_R,
            Token::POINT => TokenV::POINT,
            Token::COMMA => TokenV::COMMA,
            Token::COLON => TokenV::COLON,
            Token::SEMICOLON => TokenV::SEMICOLON,
            Token::ARROW_R => TokenV::ARROW_R,
            Token::OP_ADD => TokenV::OP_ADD,
            Token::OP_SUB => TokenV::OP_SUB,
            Token::OP_MUL => TokenV::OP_MUL,
            Token::OP_DIV => TokenV::OP_DIV,
            Token::OP_EQ => TokenV::OP_EQ,
            Token::OP_LT => TokenV::OP_LT,
            Token::OP_GT => TokenV::OP_GT,
            Token::OP_NEQ => TokenV::OP_NEQ,
            Token::OP_NLT => TokenV::OP_NLT,
            Token::OP_NGT => TokenV::OP_NGT,
            Token::OP_NOT => TokenV::OP_NOT,
            Token::OP_AND => TokenV::OP_AND,
            Token::OP_OR => TokenV::OP_OR,
            Token::OP_ASSIGN => TokenV::OP_ASSIGN,
            Token::KW_FUNC => TokenV::KW_FUNC,
            Token::LET => TokenV::LET,
            Token::IF => TokenV::IF,
            Token::ELSE => TokenV::ELSE,
            Token::WHILE => TokenV::WHILE,
            Token::PRINT => TokenV::PRINT,
            Token::RETURN => TokenV::RETURN,
            Token::ID(s) => TokenV::ID(s@),
            Token::TYPE_I32 => TokenV::TYPE_I32,
            Token::TYPE_F32 => TokenV::TYPE_F32,
            Token::TYPE_CHAR => TokenV::TYPE_CHAR,
            Token::LIT_I32(i) => TokenV::LIT_I32(*i),
            Token::LIT_F32(s) => TokenV::LIT_F32(s@),
            Token::LIT_CHAR(c) => TokenV::LIT_CHAR(*c),
            Token::LIT_STRING(s) => TokenV::LIT_STRING(s@),
            Token::LIT_BOOL(b) => TokenV::LIT_BOOL(*b),
            Token::EOI => TokenV::EOI,
        }
    }
}

/// A token's bare category, used for equality, parser dispatch and error
/// reports.
#[derive(Clone, Copy, PartialEq, Eq, Structural, Debug)]
pub enum TokenKind {
    PAREN_L,
    PAREN_R,
    BRACKET_L,
    BRACKET_R,
    BRACE_L,
    BRACE_R,
    POINT,
    COMMA,
    COLON,
    SEMICOLON,
    ARROW_R,
    OP_ADD,
    OP_SUB,
    OP_MUL,
    OP_DIV,
    OP_EQ,
    OP_LT,
    OP_GT,
    OP_NEQ,
    OP_NLT,
    OP_NGT,
    OP_NOT,
    OP_AND,
    OP_OR,
    OP_ASSIGN,
    KW_FUNC,
    LET,
    IF,
    ELSE,
    WHILE,
    PRINT,
    RETURN,
    ID,
    TYPE_I32,
    TYPE_F32,
    TYPE_CHAR,
    LIT_I32,
    LIT_F32,
    LIT_CHAR,
    LIT_STRING,
    LIT_BOOL,
    EOI,
}

/// The category of a token value.
pub open spec fn kind(t: TokenV) -> TokenKind {
    match t {
        TokenV::PAREN_L => TokenKind::PAREN_L,
        TokenV::PAREN_R => TokenKind::PAREN_R,
        TokenV::BRACKET_L => TokenKind::BRACKET_L,
        TokenV::BRACKET_R => TokenKind::BRACKET_R,
        TokenV::BRACE_L => TokenKind::BRACE_L,
        TokenV::BRACE_R => TokenKind::BRACE_R,
        TokenV::POINT => TokenKind::POINT,
        TokenV::COMMA => TokenKind::COMMA,
        TokenV::COLON => TokenKind::COLON,
        TokenV::SEMICOLON => TokenKind::SEMICOLON,
        TokenV::ARROW_R => TokenKind::ARROW_R,
        TokenV::OP_ADD => TokenKind::OP_ADD,
        TokenV::OP_SUB => TokenKind::OP_SUB,
        TokenV::OP_MUL => TokenKind::OP_MUL,
        TokenV::OP_DIV => TokenKind::OP_DIV,
        TokenV::OP_EQ => TokenKind::OP_EQ,
        TokenV::OP_LT => TokenKind::OP_LT,
        TokenV::OP_GT => TokenKind::OP_GT,
        TokenV::OP_NEQ => TokenKind::OP_NEQ,
        TokenV::OP_NLT => TokenKind::OP_NLT,
        TokenV::OP_NGT => TokenKind::OP_NGT,
        TokenV::OP_NOT => TokenKind::OP_NOT,
        TokenV::OP_AND => TokenKind::OP_AND,
        TokenV::OP_OR => TokenKind::OP_OR,
        TokenV::OP_ASSIGN => TokenKind::OP_ASSIGN,
        TokenV::KW_FUNC => TokenKind::KW_FUNC,
        TokenV::LET => TokenKind::LET,
        TokenV::IF => TokenKind::IF,
        TokenV::ELSE => TokenKind::ELSE,
        TokenV::WHILE => TokenKind::WHILE,
        TokenV::PRINT => TokenKind::PRINT,
        TokenV::RETURN => TokenKind::RETURN,
        TokenV::ID(_) => TokenKind::ID,
        TokenV::TYPE_I32 => TokenKind::TYPE_I32,
        TokenV::TYPE_F32 => TokenKind::TYPE_F32,
        TokenV::TYPE_CHAR => TokenKind::TYPE_CHAR,
        TokenV::LIT_I32(_) => TokenKind::LIT_I32,
        TokenV::LIT_F32(_) => TokenKind::LIT_F32,
        TokenV::LIT_CHAR(_) => TokenKind::LIT_CHAR,
        TokenV::LIT_STRING(_) => TokenKind::LIT_STRING,
        TokenV::LIT_BOOL(_) => TokenKind::LIT_BOOL,
        TokenV::EOI => TokenKind::EOI,
    }
}

impl Token {
    /// The category of this token.
    pub fn kind_of(&self) -> (k: TokenKind)
        ensures
            k == kind(self@),
    {
        match self {
            Token::PAREN_L => TokenKind::PAREN_L,
            Token::PAREN_R => TokenKind::PAREN_R,
            Token::BRACKET_L => TokenKind::BRACKET_L,
            Token::BRACKET_R => TokenKind::BRACKET_R,
            Token::BRACE_L => TokenKind::BRACE_L,
            Token::BRACE_R => TokenKind::BRACE_R,
            Token::POINT => TokenKind::POINT,
            Token::COMMA => TokenKind::COMMA,
            Token::COLON => TokenKind::COLON,
            Token::SEMICOLON => TokenKind::SEMICOLON,
            Token::ARROW_R => TokenKind::ARROW_R,
            Token::OP_ADD => TokenKind::OP_ADD,
            Token::OP_SUB => TokenKind::OP_SUB,
            Token::OP_MUL => TokenKind::OP_MUL,
            Token::OP_DIV => TokenKind::OP_DIV,
            Token::OP_EQ => TokenKind::OP_EQ,
            Token::OP_LT => TokenKind::OP_LT,
            Token::OP_GT => TokenKind::OP_GT,
            Token::OP_NEQ => TokenKind::OP_NEQ,
            Token::OP_NLT => TokenKind::OP_NLT,
            Token::OP_NGT => TokenKind::OP_NGT,
            Token::OP_NOT => TokenKind::OP_NOT,
            Token::OP_AND => TokenKind::OP_AND,
            Token::OP_OR => TokenKind::OP_OR,
            Token::OP_ASSIGN => TokenKind::OP_ASSIGN,
            Token::KW_FUNC => TokenKind::KW_FUNC,
            Token::LET => TokenKind::LET,
            Token::IF => TokenKind::IF,
            Token::ELSE => TokenKind::ELSE,
            Token::WHILE => TokenKind::WHILE,
            Token::PRINT => TokenKind::PRINT,
            Token::RETURN => TokenKind::RETURN,
            Token::ID(_) => TokenKind::ID,
            Token::TYPE_I32 => TokenKind::TYPE_I32,
            Token::TYPE_F32 => TokenKind::TYPE_F32,
            Token::TYPE_CHAR => TokenKind::TYPE_CHAR,
            Token::LIT_I32(_) => TokenKind::LIT_I32,
            Token::LIT_F32(_) => TokenKind::LIT_F32,
            Token::LIT_CHAR(_) => TokenKind::LIT_CHAR,
            Token::LIT_STRING(_) => TokenKind::LIT_STRING,
            Token::LIT_BOOL(_) => TokenKind::LIT_BOOL,
            Token::EOI => TokenKind::EOI,
        }
    }

    /// A throwaway identifier token, used to compare categories.
    pub fn id() -> (t: Token)
        ensures
            kind(t@) == TokenKind::ID,
    {
        Token::ID(Vec::new())
    }

    /// A throwaway integer-literal token, used to compare categories.
    pub fn lit_i32() -> (t: Token)
        ensures
            kind(t@) == TokenKind::LIT_I32,
    {
        Token::LIT_I32(0)
    }

    /// A throwaway float-literal token, used to compare categories.
    pub fn lit_f32() -> (t: Token)
        ensures
            kind(t@) == TokenKind::LIT_F32,
    {
        Token::LIT_F32(Vec::new())
    }

    /// A throwaway boolean-literal token, used to compare categories.
    pub fn bool() -> (t: Token)
        ensures
            kind(t@) == TokenKind::LIT_BOOL,
    {
        Token::LIT_BOOL(true)
    }
}

/// Copies a byte vector; the copy has the same mathematical contents.
pub fn clone_bytes(v: &Vec<u8>) -> (r: Vec<u8>)
    ensures
        r@ == v@,
{
    let r = v.clone();
    proof {
        assert(r@ =~= v@);
    }
    r
}

/// Whether two byte vectors hold the same bytes.
pub fn bytes_eq(a: &Vec<u8>, b: &Vec<u8>) -> (r: bool)
    ensures
        r == (a@ == b@),
{
    if a.len() != b.len() {
        return false;
    }
    let mut i: usize = 0;
    while i < a.len()
        invariant
            0 <= i <= a@.len(),
            a@.len() == b@.len(),
            forall|j: int| 0 <= j < i ==> a@[j] == b@[j],
        decreases a@.len() - i,
    {
        if a[i] != b[i] {
            return false;
        }
        i = i + 1;
    }
    proof {
        assert(a@ =~= b@);
    }
    true
}

impl Clone for Token {
    /// A copied token has the same mathematical value as the original.
    fn clone(&self) -> (res: Self)
        ensures
            res@ == self@,
    {
        match self {
            Token::PAREN_L => Token::PAREN_L,
            Token::PAREN_R => Token::PAREN_R,
            Token::BRACKET_L => Token::BRACKET_L,
            Token::BRACKET_R => Token::BRACKET_R,
            Token::BRACE_L => Token::BRACE_L,
            Token::BRACE_R => Token::BRACE_R,
            Token::POINT => Token::POINT,
            Token::COMMA => Token::COMMA,
            Token::COLON => Token::COLON,
            Token::SEMICOLON => Token::SEMICOLON,
            Token::ARROW_R => Token::ARROW_R,
            Token::OP_ADD => Token::OP_ADD,
            Token::OP_SUB => Token::OP_SUB,
            Token::OP_MUL => Token::OP_MUL,
            Token::OP_DIV => Token::OP_DIV,
            Token::OP_EQ => Token::OP_EQ,
            Token::OP_LT => Token::OP_LT,
            Token::OP_GT => Token::OP_GT,
            Token::OP_NEQ => Token::OP_NEQ,
            Token::OP_NLT => Token::OP_NLT,
            Token::OP_NGT => Token::OP_NGT,
            Token::OP_NOT => Token::OP_NOT,
            Token::OP_AND => Token::OP_AND,
            Token::OP_OR => Token::OP_OR,
            Token::OP_ASSIGN => Token::OP_ASSIGN,
            Token::KW_FUNC => Token::KW_FUNC,
            Token::LET => Token::LET,
            Token::IF => Token::IF,
            Token::ELSE => Token::ELSE,
            Token::WHILE => Token::WHILE,
            Token::PRINT => Token::PRINT,
            Token::RETURN => Token::RETURN,
            Token::ID(s) => Token::ID(clone_bytes(s)),
            Token::TYPE_I32 => Token::TYPE_I32,
            Token::TYPE_F32 => Token::TYPE_F32,
            Token::TYPE_CHAR => Token::TYPE_CHAR,
            Token::LIT_I32(i) => Token::LIT_I32(*i),
            Token::LIT_F32(s) => Token::LIT_F32(clone_bytes(s)),
            Token::LIT_CHAR(c) => Token::LIT_CHAR(*c),
            Token::LIT_STRING(s) => Token::LIT_STRING(clone_bytes(s)),
            Token::LIT_BOOL(b) => Token::LIT_BOOL(*b),
            Token::EOI => Token::EOI,
        }
    }
}

/// The decimal digits of a natural number, most significant first.
pub open spec fn dec_text(n: nat) -> Seq<u8>
    decreases n,
{
    if n < 10 {
        seq![(48 + n) as u8]
    } else {
        dec_text(n / 10) + seq![(48 + n % 10) as u8]
    }
}

/// The decimal text of a signed 32-bit value.
pub open spec fn i32_text(i: int) -> Seq<u8> {
    if i >= 0 {
        dec_text(i as nat)
    } else {
        seq![45u8] + dec_text((-i) as nat)
    }
}

/// The decimal digits of `n`, most significant first.
pub fn dec_digits(n: u32) -> (r: Vec<u8>)
    ensures
        r@ == dec_text(n as nat),
    decreases n,
{
    if n < 10 {
        let mut r: Vec<u8> = Vec::new();
        r.push(48 + n as u8);
        proof {
            assert(r@ =~= dec_text(n as nat));
        }
        r
    } else {
        let mut r = dec_digits(n / 10);
        r.push(48 + (n % 10) as u8);
        proof {
            assert(r@ =~= dec_text(n as nat));
        }
        r
    }
}

/// The decimal text of a signed 32-bit value.
pub fn i32_to_text(i: i32) -> (r: Vec<u8>)
    ensures
        r@ == i32_text(i as int),
{
    if i >= 0 {
        dec_digits(i as u32)
    } else {
        let m: u32 = (-(i as i64)) as u32;
        let mut r: Vec<u8> = Vec::new();
        r.push(45);
        let mut d = dec_digits(m);
        r.append(&mut d);
        proof {
            assert(r@ =~= i32_text(i as int));
        }
        r
    }
}

/// The textual form a token is written back as when an expression span is
/// sliced out of the token stream and re-read.
pub open spec fn token_text(t: TokenV) -> Seq<u8> {
    match t {
        TokenV::PAREN_L => seq![40u8],
        TokenV::PAREN_R => seq![41u8],
        TokenV::BRACKET_L => seq![91u8],
        TokenV::BRACKET_R => seq![93u8],
        TokenV::BRACE_L => seq![123u8],
        TokenV::BRACE_R => seq![125u8],
        TokenV::POINT => seq![46u8],
        TokenV::COMMA => seq![44u8],
        TokenV::COLON => seq![58u8],
        TokenV::SEMICOLON => seq![59u8],
        TokenV::ARROW_R => seq![61u8, 62u8],
        TokenV::OP_ADD => seq![43u8],
        TokenV::OP_SUB => seq![45u8],
        TokenV::OP_MUL => seq![42u8],
        TokenV::OP_DIV => seq![47u8],
        TokenV::OP_EQ => seq![61u8, 61u8],
        TokenV::OP_LT => seq![60u8],
        TokenV::OP_GT => seq![62u8],
        TokenV::OP_NEQ => seq![33u8, 61u8],
        TokenV::OP_NLT => seq![62u8, 61u8],
        TokenV::OP_NGT => seq![60u8, 61u8],
        TokenV::OP_NOT => seq![110u8, 111u8, 116u8],
        TokenV::OP_AND => seq![97u8, 110u8, 100u8],
        TokenV::OP_OR => seq![111u8, 114u8],
        TokenV::OP_ASSIGN => seq![61u8],
        TokenV::KW_FUNC => seq![102u8, 117u8, 110u8, 99u8],
        TokenV::LET => seq![108u8, 101u8, 116u8],
        TokenV::IF => seq![105u8, 102u8],
        TokenV::ELSE => seq![101u8, 108u8, 115u8, 101u8],
        TokenV::WHILE => seq![119u8, 104u8, 105u8, 108u8, 101u8],
        TokenV::PRINT => seq![112u8, 114u8, 105u8, 110u8, 116u8],
        TokenV::RETURN => seq![114u8, 101u8, 116u8, 117u8, 114u8, 110u8],
        TokenV::ID(s) => s,
        TokenV::TYPE_I32 => seq![105u8, 51u8, 50u8],
        TokenV::TYPE_F32 => seq![102u8, 51u8, 50u8],
        TokenV::TYPE_CHAR => seq![99u8, 104u8, 97u8, 114u8],
        TokenV::LIT_I32(i) => i32_text(i as int),
        TokenV::LIT_F32(s) => s,
        TokenV::LIT_CHAR(c) => seq![39u8, c, 39u8],
        TokenV::LIT_STRING(s) => seq![34u8] + s + seq![34u8],
        TokenV::LIT_BOOL(b) => if b {
            seq![116u8, 114u8, 117u8, 101u8]
        } else {
            seq![102u8, 97u8, 108u8, 115u8, 101u8]
        },
        TokenV::EOI => seq![69u8, 79u8, 73u8],
    }
}

impl Token {
    /// The textual form of this token, as used when re-reading a sliced
    /// expression span.
    pub fn string(&self) -> (r: Vec<u8>)
        ensures
            r@ == token_text(self@),
    {
        let mut r: Vec<u8> = Vec::new();
        match self {
            Token::PAREN_L => r.push(40),
            Token::PAREN_R => r.push(41),
            Token::BRACKET_L => r.push(91),
            Token::BRACKET_R => r.push(93),
            Token::BRACE_L => r.push(123),
            Token::BRACE_R => r.push(125),
            Token::POINT => r.push(46),
            Token::COMMA => r.push(44),
            Token::COLON => r.push(58),
            Token::SEMICOLON => r.push(59),
            Token::ARROW_R => {
                r.push(61);
                r.push(62);
            },
            Token::OP_ADD => r.push(43),
            Token::OP_SUB => r.push(45),
            Token::OP_MUL => r.push(42),
            Token::OP_DIV => r.push(47),
            Token::OP_EQ => {
                r.push(61);
                r.push(61);
            },
            Token::OP_LT => r.push(60),
            Token::OP_GT => r.push(62),
            Token::OP_NEQ => {
                r.push(33);
                r.push(61);
            },
            Token::OP_NLT => {
                r.push(62);
                r.push(61);
            },
            Token::OP_NGT => {
                r.push(60);
                r.push(61);
            },
            Token::OP_NOT => {
                r.push(110);
                r.push(111);
                r.push(116);
            },
            Token::OP_AND => {
                r.push(97);
                r.push(110);
                r.push(100);
            },
            Token::OP_OR => {
                r.push(111);
                r.push(114);
            },
            Token::OP_ASSIGN => r.push(61),
            Token::KW_FUNC => {
                r.push(102);
                r.push(117);
                r.push(110);
                r.push(99);
            },
            Token::LET => {
                r.push(108);
                r.push(101);
                r.push(116);
            },
            Token::IF => {
                r.push(105);
                r.push(102);
            },
            Token::ELSE => {
                r.push(101);
                r.push(108);
                r.push(115);
                r.push(101);
            },
            Token::WHILE => {
                r.push(119);
                r.push(104);
                r.push(105);
                r.push(108);
                r.push(101);
            },
            Token::PRINT => {
                r.push(112);
                r.push(114);
                r.push(105);
                r.push(110);
                r.push(116);
            },
            Token::RETURN => {
                r.push(114);
                r.push(101);
                r.push(116);
                r.push(117);
                r.push(114);
                r.push(110);
            },
            Token::ID(s) => {
                let mut c = clone_bytes(s);
                r.append(&mut c);
            },
            Token::TYPE_I32 => {
                r.push(105);
                r.push(51);
                r.push(50);
            },
            Token::TYPE_F32 => {
                r.push(102);
                r.push(51);
                r.push(50);
            },
            Token::TYPE_CHAR => {
                r.push(99);
                r.push(104);
                r.push(97);
                r.push(114);
            },
            Token::LIT_I32(i) => {
                let mut t = i32_to_text(*i);
                r.append(&mut t);
            },
            Token::LIT_F32(s) => {
                let mut c = clone_bytes(s);
                r.append(&mut c);
            },
            Token::LIT_CHAR(c) => {
                r.push(39);
                r.push(*c);
                r.push(39);
            },
            Token::LIT_STRING(s) => {
                r.push(34);
                let mut c = clone_bytes(s);
                r.append(&mut c);
                r.push(34);
            },
            Token::LIT_BOOL(b) => {
                if *b {
                    r.push(116);
                    r.push(114);
                    r.push(117);
                    r.push(101);
                } else {
                    r.push(102);
                    r.push(97);
                    r.push(108);
                    r.push(115);
                    r.push(101);
                }
            },
            Token::EOI => {
                r.push(69);
                r.push(79);
                r.push(73);
            },
        }
        proof {
            assert(r@ =~= token_text(self@));
        }
        r
    }
}

impl PartialEq for Token {
    /// Tokens are equal exactly when their categories match; payloads are
    /// irrelevant to equality.
    fn eq(&self, other: &Self) -> (r: bool) {
        self.kind_of() == other.kind_of()
    }
}

impl vstd::std_specs::cmp::PartialEqSpecImpl for Token {
    open spec fn obeys_eq_spec() -> bool {
        true
    }

    open spec fn eq_spec(&self, other: &Token) -> bool {
        kind(self@) == kind(other@)
    }
}

impl Eq for Token {}

} // verus!
