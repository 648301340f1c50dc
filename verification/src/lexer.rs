//! The lexical scanner: turns source bytes into one token at a time, on
//! demand. The scanning rules are stated as specification functions over
//! the input sequence, and the executable scanner is proved to follow
//! them exactly.

use vstd::prelude::*;

use crate::error::{Error, ErrorV};
use crate::token::{kind, Token, TokenKind, TokenV};

verus! {

/// Whitespace skipped between tokens: space, newline, tab.
pub open spec fn is_ws(c: u8) -> bool {
    c == 32 || c == 10 || c == 9
}

/// A decimal digit.
pub open spec fn is_digit(c: u8) -> bool {
    48 <= c <= 57
}

/// A byte that may continue an identifier-like lexeme: letters, digits,
/// underscore, point, and stray quote characters.
pub open spec fn is_word_char(c: u8) -> bool {
    (65 <= c <= 90) || (97 <= c <= 122) || is_digit(c) || c == 95 || c == 46 || c == 39 || c == 34
}

/// The position of the first non-whitespace byte at or after `pos`.
pub open spec fn skip_ws(s: Seq<u8>, pos: int) -> int
    recommends
        0 <= pos <= s.len(),
    decreases s.len() - pos,
{
    if 0 <= pos < s.len() && is_ws(s[pos]) {
        skip_ws(s, pos + 1)
    } else {
        pos
    }
}

/// The position right after the maximal run of word bytes starting at
/// `pos`.
pub open spec fn word_end(s: Seq<u8>, pos: int) -> int
    recommends
        0 <= pos <= s.len(),
    decreases s.len() - pos,
{
    if 0 <= pos < s.len() && is_word_char(s[pos]) {
        word_end(s, pos + 1)
    } else {
        pos
    }
}

/// The position of the first byte equal to `q` at or after `pos`, or the
/// input length if there is none.
pub open spec fn quote_end(s: Seq<u8>, pos: int, q: u8) -> int
    recommends
        0 <= pos <= s.len(),
    decreases s.len() - pos,
{
    if !(0 <= pos < s.len()) {
        s.len() as int
    } else if s[pos] == q {
        pos
    } else {
        quote_end(s, pos + 1, q)
    }
}

/// Every byte of `w` is a decimal digit.
pub open spec fn all_digits(w: Seq<u8>) -> bool {
    forall|i: int| 0 <= i < w.len() ==> is_digit(w[i])
}

/// Every byte of `w` is a decimal digit or a point.
pub open spec fn digits_and_points(w: Seq<u8>) -> bool {
    forall|i: int| 0 <= i < w.len() ==> is_digit(w[i]) || w[i] == 46
}

/// The value of a string of decimal digits.
pub open spec fn digits_val(w: Seq<u8>) -> int
    decreases w.len(),
{
    if w.len() == 0 {
        0
    } else {
        digits_val(w.drop_last()) * 10 + (w.last() - 48)
    }
}

/// How many points `w` holds.
pub open spec fn point_count(w: Seq<u8>) -> int
    decreases w.len(),
{
    if w.len() == 0 {
        0
    } else {
        point_count(w.drop_last()) + if w.last() == 46 {
            1int
        } else {
            0int
        }
    }
}

/// Classification of an identifier-like lexeme: an integer literal when
/// all digits; a float literal when digits with exactly one point; then
/// keywords, type names and boolean literals; else an identifier. A
/// numeric lexeme that does not read as a 32-bit number is malformed.
pub open spec fn classify_word(w: Seq<u8>) -> Result<TokenV, ErrorV>
    recommends
        w.len() >= 1,
{
    if all_digits(w) {
        if digits_val(w) <= i32::MAX {
            Ok(TokenV::LIT_I32(digits_val(w) as i32))
        } else {
            Err(ErrorV::BadNumber)
        }
    } else if digits_and_points(w) {
        if point_count(w) == 1 {
            Ok(TokenV::LIT_F32(w))
        } else {
            Err(ErrorV::BadNumber)
        }
    } else if w == seq![110u8, 111u8, 116u8] {
        Ok(TokenV::OP_NOT)
    } else if w == seq![97u8, 110u8, 100u8] {
        Ok(TokenV::OP_AND)
    } else if w == seq![111u8, 114u8] {
        Ok(TokenV::OP_OR)
    } else if w == seq![102u8, 117u8, 110u8, 99u8] {
        Ok(TokenV::KW_FUNC)
    } else if w == seq![108u8, 101u8, 116u8] {
        Ok(TokenV::LET)
    } else if w == seq![105u8, 102u8] {
        Ok(TokenV::IF)
    } else if w == seq![101u8, 108u8, 115u8, 101u8] {
        Ok(TokenV::ELSE)
    } else if w == seq![119u8, 104u8, 105u8, 108u8, 101u8] {
        Ok(TokenV::WHILE)
    } else if w == seq![112u8, 114u8, 105u8, 110u8, 116u8] {
        Ok(TokenV::PRINT)
    } else if w == seq![114u8, 101u8, 116u8, 117u8, 114u8, 110u8] {
        Ok(TokenV::RETURN)
    } else if w == seq![105u8, 51u8, 50u8] {
        Ok(TokenV::TYPE_I32)
    } else if w == seq![105u8, 110u8, 116u8, 51u8, 50u8] {
        Ok(TokenV::TYPE_I32)
    } else if w == seq![102u8, 51u8, 50u8] {
        Ok(TokenV::TYPE_F32)
    } else if w == seq![102u8, 108u8, 111u8, 97u8, 116u8, 51u8, 50u8] {
        Ok(TokenV::TYPE_F32)
    } else if w == seq![99u8, 104u8, 97u8, 114u8] {
        Ok(TokenV::TYPE_CHAR)
    } else if w == seq![116u8, 114u8, 117u8, 101u8] {
        Ok(TokenV::LIT_BOOL(true))
    } else if w == seq![102u8, 97u8, 108u8, 115u8, 101u8] {
        Ok(TokenV::LIT_BOOL(false))
    } else {
        Ok(TokenV::ID(w))
    }
}

/// The next token of `s` at or after `pos`, with the position right
/// after it: skip whitespace, emit end-of-input at the end, then try
/// single-byte tokens, two-byte lookahead tokens, quoted literals, and
/// finally identifier-like lexemes.
pub open spec fn next_token(s: Seq<u8>, pos: int) -> Result<(TokenV, int), ErrorV>
    recommends
        0 <= pos <= s.len(),
{
    let p = skip_ws(s, pos);
    if p >= s.len() {
        Ok((TokenV::EOI, p))
    } else {
        let c = s[p];
        if c == 40 {
            Ok((TokenV::PAREN_L, p + 1))
        } else if c == 41 {
            Ok((TokenV::PAREN_R, p + 1))
        } else if c == 91 {
            Ok((TokenV::BRACKET_L, p + 1))
        } else if c == 93 {
            Ok((TokenV::BRACKET_R, p + 1))
        } else if c == 123 {
            Ok((TokenV::BRACE_L, p + 1))
        } else if c == 125 {
            Ok((TokenV::BRACE_R, p + 1))
        } else if c == 46 {
            Ok((TokenV::POINT, p + 1))
        } else if c == 44 {
            Ok((TokenV::COMMA, p + 1))
        } else if c == 58 {
            Ok((TokenV::COLON, p + 1))
        } else if c == 59 {
            Ok((TokenV::SEMICOLON, p + 1))
        } else if c == 43 {
            Ok((TokenV::OP_ADD, p + 1))
        } else if c == 42 {
            Ok((TokenV::OP_MUL, p + 1))
        } else if c == 47 {
            Ok((TokenV::OP_DIV, p + 1))
        } else if c == 60 {
            if p + 1 < s.len() && s[p + 1] == 61 {
                Ok((TokenV::OP_NGT, p + 2))
            } else {
                Ok((TokenV::OP_LT, p + 1))
            }
        } else if c == 62 {
            if p + 1 < s.len() && s[p + 1] == 61 {
                Ok((TokenV::OP_NLT, p + 2))
            } else {
                Ok((TokenV::OP_GT, p + 1))
            }
        } else if c == 33 {
            if p + 1 < s.len() && s[p + 1] == 61 {
                Ok((TokenV::OP_NEQ, p + 2))
            } else {
                Err(ErrorV::LoneBang)
            }
        } else if c == 61 {
            if p + 1 < s.len() && s[p + 1] == 61 {
                Ok((TokenV::OP_EQ, p + 2))
            } else {
                Ok((TokenV::OP_ASSIGN, p + 1))
            }
        } else if c == 45 {
            if p + 1 < s.len() && s[p + 1] == 62 {
                Ok((TokenV::ARROW_R, p + 2))
            } else {
                Ok((TokenV::OP_SUB, p + 1))
            }
        } else if c == 39 {
            let e = quote_end(s, p + 1, 39);
            if e >= s.len() {
                Err(ErrorV::UnterminatedChar)
            } else if e != p + 2 {
                Err(ErrorV::BadCharLiteral)
            } else {
                Ok((TokenV::LIT_CHAR(s[p + 1]), e + 1))
            }
        } else if c == 34 {
            let e = quote_end(s, p + 1, 34);
            if e >= s.len() {
                Err(ErrorV::UnterminatedString)
            } else {
                Ok((TokenV::LIT_STRING(s.subrange(p + 1, e)), e + 1))
            }
        } else {
            let e = word_end(s, p + 1);
            match classify_word(s.subrange(p, e)) {
                Ok(t) => Ok((t, e)),
                Err(er) => Err(er),
            }
        }
    }
}

/// The mathematical state of a scanner: its input, its position, and the
/// lookahead token.
pub struct LexerV {
    pub input: Seq<u8>,
    pub pos: int,
    pub current: TokenV,
}

/// The scanner state after construction on `s`.
pub open spec fn lexer_init(s: Seq<u8>) -> Result<LexerV, ErrorV> {
    match next_token(s, 0) {
        Ok((t, p)) => Ok(LexerV { input: s, pos: p, current: t }),
        Err(e) => Err(e),
    }
}

/// The scanner state after one advance.
pub open spec fn lexer_adv(l: LexerV) -> Result<LexerV, ErrorV> {
    match next_token(l.input, l.pos) {
        Ok((t, p)) => Ok(LexerV { input: l.input, pos: p, current: t }),
        Err(e) => Err(e),
    }
}

/// The scanner: holds the input bytes, the scan position, and the
/// lookahead token. Construction scans the first token, so the lookahead
/// is valid before any explicit advance.
pub struct Lexer {
    input: Vec<u8>,
    pos: usize,
    current: Token,
}

impl View for Lexer {
    type V = LexerV;

    closed spec fn view(&self) -> LexerV {
        LexerV { input: self.input@, pos: self.pos as int, current: self.current@ }
    }
}

// Position of the first non-whitespace byte at or after `pos`.
fn skip_ws_exec(s: &Vec<u8>, pos: usize) -> (r: usize)
    requires
        pos <= s@.len(),
    ensures
        r as int == skip_ws(s@, pos as int),
        pos <= r <= s@.len(),
    decreases s@.len() - pos,
{
    if pos < s.len() {
        let c = s[pos];
        if c == 32 || c == 10 || c == 9 {
            skip_ws_exec(s, pos + 1)
        } else {
            pos
        }
    } else {
        pos
    }
}

// Position right after the maximal run of word bytes starting at `pos`.
fn word_end_exec(s: &Vec<u8>, pos: usize) -> (r: usize)
    requires
        pos <= s@.len(),
    ensures
        r as int == word_end(s@, pos as int),
        pos <= r <= s@.len(),
    decreases s@.len() - pos,
{
    if pos < s.len() {
        let c = s[pos];
        if (65 <= c && c <= 90) || (97 <= c && c <= 122) || (48 <= c && c <= 57) || c == 95 || c
            == 46 || c == 39 || c == 34 {
            word_end_exec(s, pos + 1)
        } else {
            pos
        }
    } else {
        pos
    }
}

// Position of the first byte equal to `q` at or after `pos`, or the
// input length.
fn quote_end_exec(s: &Vec<u8>, pos: usize, q: u8) -> (r: usize)
    requires
        pos <= s@.len(),
    ensures
        r as int == quote_end(s@, pos as int, q),
        pos <= r <= s@.len(),
    decreases s@.len() - pos,
{
    if pos < s.len() {
        if s[pos] == q {
            pos
        } else {
            quote_end_exec(s, pos + 1, q)
        }
    } else {
        pos
    }
}

proof fn lemma_digits_val_nonneg(w: Seq<u8>)
    requires
        all_digits(w),
    ensures
        digits_val(w) >= 0,
    decreases w.len(),
{
    if w.len() > 0 {
        assert(all_digits(w.drop_last()));
        lemma_digits_val_nonneg(w.drop_last());
    }
}

proof fn lemma_digits_val_take_le(w: Seq<u8>, j: int)
    requires
        all_digits(w),
        0 <= j <= w.len(),
    ensures
        digits_val(w.take(j)) <= digits_val(w),
    decreases w.len() - j,
{
    if j < w.len() {
        assert(w.take(j + 1).drop_last() =~= w.take(j));
        assert(all_digits(w.take(j)));
        lemma_digits_val_nonneg(w.take(j));
        assert(digits_val(w.take(j + 1)) == digits_val(w.take(j)) * 10 + (w[j] - 48));
        lemma_digits_val_take_le(w, j + 1);
    } else {
        assert(w.take(j) =~= w);
    }
}

/// The 32-bit value of a digit string, or the malformed-number error
/// when it does not fit.
pub fn digits_to_i32(w: &Vec<u8>) -> (r: Result<i32, Error>)
    requires
        all_digits(w@),
    ensures
        match r {
            Ok(v) => 0 <= digits_val(w@) <= i32::MAX && v as int == digits_val(w@) && v >= 0,
            Err(e) => digits_val(w@) > i32::MAX && e@ == ErrorV::BadNumber,
        },
{
    let mut acc: u64 = 0;
    let mut i: usize = 0;
    proof {
        assert(w@.take(0) =~= Seq::<u8>::empty());
    }
    while i < w.len()
        invariant
            0 <= i <= w@.len(),
            all_digits(w@),
            acc as int == digits_val(w@.take(i as int)),
            acc <= i32::MAX,
        decreases w@.len() - i,
    {
        let d = w[i];
        let acc2: u64 = acc * 10 + ((d - 48) as u64);
        proof {
            assert(w@.take(i + 1).drop_last() =~= w@.take(i as int));
            assert(digits_val(w@.take(i + 1)) == acc * 10 + (d - 48));
        }
        if acc2 > i32::MAX as u64 {
            proof {
                lemma_digits_val_take_le(w@, i + 1);
            }
            return Err(Error::BadNumber);
        }
        acc = acc2;
        i = i + 1;
    }
    proof {
        assert(w@.take(w@.len() as int) =~= w@);
    }
    Ok(acc as i32)
}

// Whether `w` reads exactly as the two given bytes.
fn eq2(w: &Vec<u8>, a: u8, b: u8) -> (r: bool)
    ensures
        r == (w@ == seq![a, b]),
{
    let r = w.len() == 2 && w[0] == a && w[1] == b;
    proof {
        if w@.len() == 2 && w@[0] == a && w@[1] == b {
            assert(w@ =~= seq![a, b]);
        }
    }
    r
}

// Whether `w` reads exactly as the three given bytes.
fn eq3(w: &Vec<u8>, a: u8, b: u8, c: u8) -> (r: bool)
    ensures
        r == (w@ == seq![a, b, c]),
{
    let r = w.len() == 3 && w[0] == a && w[1] == b && w[2] == c;
    proof {
        if w@.len() == 3 && w@[0] == a && w@[1] == b && w@[2] == c {
            assert(w@ =~= seq![a, b, c]);
        }
    }
    r
}

// Whether `w` reads exactly as the four given bytes.
fn eq4(w: &Vec<u8>, a: u8, b: u8, c: u8, d: u8) -> (r: bool)
    ensures
        r == (w@ == seq![a, b, c, d]),
{
    let r = w.len() == 4 && w[0] == a && w[1] == b && w[2] == c && w[3] == d;
    proof {
        if w@.len() == 4 && w@[0] == a && w@[1] == b && w@[2] == c && w@[3] == d {
            assert(w@ =~= seq![a, b, c, d]);
        }
    }
    r
}

// Whether `w` reads exactly as the five given bytes.
fn eq5(w: &Vec<u8>, a: u8, b: u8, c: u8, d: u8, e: u8) -> (r: bool)
    ensures
        r == (w@ == seq![a, b, c, d, e]),
{
    let r = w.len() == 5 && w[0] == a && w[1] == b && w[2] == c && w[3] == d && w[4] == e;
    proof {
        if w@.len() == 5 && w@[0] == a && w@[1] == b && w@[2] == c && w@[3] == d && w@[4] == e {
            assert(w@ =~= seq![a, b, c, d, e]);
        }
    }
    r
}

// Whether `w` reads exactly as the six given bytes.
fn eq6(w: &Vec<u8>, a: u8, b: u8, c: u8, d: u8, e: u8, f: u8) -> (r: bool)
    ensures
        r == (w@ == seq![a, b, c, d, e, f]),
{
    let r = w.len() == 6 && w[0] == a && w[1] == b && w[2] == c && w[3] == d && w[4] == e && w[5]
        == f;
    proof {
        if w@.len() == 6 && w@[0] == a && w@[1] == b && w@[2] == c && w@[3] == d && w@[4] == e
            && w@[5] == f {
            assert(w@ =~= seq![a, b, c, d, e, f]);
        }
    }
    r
}

// Whether `w` reads exactly as the seven given bytes.
fn eq7(w: &Vec<u8>, a: u8, b: u8, c: u8, d: u8, e: u8, f: u8, g: u8) -> (r: bool)
    ensures
        r == (w@ == seq![a, b, c, d, e, f, g]),
{
    let r = w.len() == 7 && w[0] == a && w[1] == b && w[2] == c && w[3] == d && w[4] == e && w[5]
        == f && w[6] == g;
    proof {
        if w@.len() == 7 && w@[0] == a && w@[1] == b && w@[2] == c && w@[3] == d && w@[4] == e
            && w@[5] == f && w@[6] == g {
            assert(w@ =~= seq![a, b, c, d, e, f, g]);
        }
    }
    r
}

// Classifies an identifier-like lexeme, following `classify_word`.
fn classify_word_exec(w: Vec<u8>) -> (r: Result<Token, Error>)
    ensures
        match r {
            Ok(t) => classify_word(w@) is Ok && t@ == classify_word(w@)->Ok_0,
            Err(e) => classify_word(w@) is Err && e@ == classify_word(w@)->Err_0,
        },
{
    let mut digits = true;
    let mut points: usize = 0;
    let mut numeric = true;
    let mut i: usize = 0;
    while i < w.len()
        invariant
            0 <= i <= w@.len(),
            digits == all_digits(w@.take(i as int)),
            numeric == digits_and_points(w@.take(i as int)),
            points as int == point_count(w@.take(i as int)),
            points <= i,
        decreases w@.len() - i,
    {
        let c = w[i];
        proof {
            assert(w@.take(i + 1).drop_last() =~= w@.take(i as int));
            assert(w@.take(i + 1).last() == w@[i as int]);
            assert(forall|j: int| 0 <= j < i + 1 ==> w@.take(i + 1)[j] == w@[j]);
        }
        if !(48 <= c && c <= 57) {
            digits = false;
            if c != 46 {
                numeric = false;
            }
        }
        if c == 46 {
            points = points + 1;
        }
        i = i + 1;
    }
    proof {
        assert(w@.take(w@.len() as int) =~= w@);
    }
    if digits {
        match digits_to_i32(&w) {
            Ok(v) => Ok(Token::LIT_I32(v)),
            Err(e) => Err(e),
        }
    } else if numeric {
        if points == 1 {
            Ok(Token::LIT_F32(w))
        } else {
            Err(Error::BadNumber)
        }
    } else if eq3(&w, 110, 111, 116) {
        Ok(Token::OP_NOT)
    } else if eq3(&w, 97, 110, 100) {
        Ok(Token::OP_AND)
    } else if eq2(&w, 111, 114) {
        Ok(Token::OP_OR)
    } else if eq4(&w, 102, 117, 110, 99) {
        Ok(Token::KW_FUNC)
    } else if eq3(&w, 108, 101, 116) {
        Ok(Token::LET)
    } else if eq2(&w, 105, 102) {
        Ok(Token::IF)
    } else if eq4(&w, 101, 108, 115, 101) {
        Ok(Token::ELSE)
    } else if eq5(&w, 119, 104, 105, 108, 101) {
        Ok(Token::WHILE)
    } else if eq5(&w, 112, 114, 105, 110, 116) {
        Ok(Token::PRINT)
    } else if eq6(&w, 114, 101, 116, 117, 114, 110) {
        Ok(Token::RETURN)
    } else if eq3(&w, 105, 51, 50) {
        Ok(Token::TYPE_I32)
    } else if eq5(&w, 105, 110, 116, 51, 50) {
        Ok(Token::TYPE_I32)
    } else if eq3(&w, 102, 51, 50) {
        Ok(Token::TYPE_F32)
    } else if eq7(&w, 102, 108, 111, 97, 116, 51, 50) {
        Ok(Token::TYPE_F32)
    } else if eq4(&w, 99, 104, 97, 114) {
        Ok(Token::TYPE_CHAR)
    } else if eq4(&w, 116, 114, 117, 101) {
        Ok(Token::LIT_BOOL(true))
    } else if eq5(&w, 102, 97, 108, 115, 101) {
        Ok(Token::LIT_BOOL(false))
    } else {
        Ok(Token::ID(w))
    }
}

// Copies the byte range `[from, to)` out of `s`.
fn copy_range(s: &Vec<u8>, from: usize, to: usize) -> (r: Vec<u8>)
    requires
        from <= to <= s@.len(),
    ensures
        r@ == s@.subrange(from as int, to as int),
{
    let mut r: Vec<u8> = Vec::new();
    let mut i = from;
    while i < to
        invariant
            from <= i <= to <= s@.len(),
            r@ == s@.subrange(from as int, i as int),
        decreases to - i,
    {
        r.push(s[i]);
        proof {
            assert(r@ =~= s@.subrange(from as int, i + 1));
        }
        i = i + 1;
    }
    r
}

/// Scans the token of `s` at or after `pos`, following `next_token`.
pub fn scan_token(s: &Vec<u8>, pos: usize) -> (r: Result<(Token, usize), Error>)
    requires
        pos <= s@.len(),
    ensures
        match r {
            Ok(tp) => next_token(s@, pos as int) is Ok && tp.0@ == next_token(
                s@,
                pos as int,
            )->Ok_0.0 && tp.1 as int == next_token(s@, pos as int)->Ok_0.1 && tp.1 <= s@.len(),
            Err(e) => next_token(s@, pos as int) is Err && e@ == next_token(s@, pos as int)->Err_0,
        },
{
    let p = skip_ws_exec(s, pos);
    if p >= s.len() {
        return Ok((Token::EOI, p));
    }
    let c = s[p];
    if c == 40 {
        Ok((Token::PAREN_L, p + 1))
    } else if c == 41 {
        Ok((Token::PAREN_R, p + 1))
    } else if c == 91 {
        Ok((Token::BRACKET_L, p + 1))
    } else if c == 93 {
        Ok((Token::BRACKET_R, p + 1))
    } else if c == 123 {
        Ok((Token::BRACE_L, p + 1))
    } else if c == 125 {
        Ok((Token::BRACE_R, p + 1))
    } else if c == 46 {
        Ok((Token::POINT, p + 1))
    } else if c == 44 {
        Ok((Token::COMMA, p + 1))
    } else if c == 58 {
        Ok((Token::COLON, p + 1))
    } else if c == 59 {
        Ok((Token::SEMICOLON, p + 1))
    } else if c == 43 {
        Ok((Token::OP_ADD, p + 1))
    } else if c == 42 {
        Ok((Token::OP_MUL, p + 1))
    } else if c == 47 {
        Ok((Token::OP_DIV, p + 1))
    } else if c == 60 {
        if p + 1 < s.len() && s[p + 1] == 61 {
            Ok((Token::OP_NGT, p + 2))
        } else {
            Ok((Token::OP_LT, p + 1))
        }
    } else if c == 62 {
        if p + 1 < s.len() && s[p + 1] == 61 {
            Ok((Token::OP_NLT, p + 2))
        } else {
            Ok((Token::OP_GT, p + 1))
        }
    } else if c == 33 {
        if p + 1 < s.len() && s[p + 1] == 61 {
            Ok((Token::OP_NEQ, p + 2))
        } else {
            Err(Error::LoneBang)
        }
    } else if c == 61 {
        if p + 1 < s.len() && s[p + 1] == 61 {
            Ok((Token::OP_EQ, p + 2))
        } else {
            Ok((Token::OP_ASSIGN, p + 1))
        }
    } else if c == 45 {
        if p + 1 < s.len() && s[p + 1] == 62 {
            Ok((Token::ARROW_R, p + 2))
        } else {
            Ok((Token::OP_SUB, p + 1))
        }
    } else if c == 39 {
        let e = quote_end_exec(s, p + 1, 39);
        if e >= s.len() {
            Err(Error::UnterminatedChar)
        } else if e != p + 2 {
            Err(Error::BadCharLiteral)
        } else {
            Ok((Token::LIT_CHAR(s[p + 1]), e + 1))
        }
    } else if c == 34 {
        let e = quote_end_exec(s, p + 1, 34);
        if e >= s.len() {
            Err(Error::UnterminatedString)
        } else {
            Ok((Token::LIT_STRING(copy_range(s, p + 1, e)), e + 1))
        }
    } else {
        let e = word_end_exec(s, p + 1);
        let w = copy_range(s, p, e);
        match classify_word_exec(w) {
            Ok(t) => Ok((t, e)),
            Err(er) => Err(er),
        }
    }
}

impl Lexer {
    /// The scan position never passes the end of the input.
    pub open spec fn wf(&self) -> bool {
        self@.pos <= self@.input.len()
    }

    /// Builds a scanner over `input` and scans the first token, so that
    /// the lookahead is valid at once. A malformed first token is the
    /// construction's error.
    pub fn new(input: Vec<u8>) -> (r: Result<Lexer, Error>)
        ensures
            match r {
                Ok(l) => lexer_init(input@) is Ok && l@ == lexer_init(input@)->Ok_0
                    && l.wf(),
                Err(e) => lexer_init(input@) is Err && e@ == lexer_init(input@)->Err_0,
            },
    {
        match scan_token(&input, 0) {
            Ok((t, p)) => Ok(Lexer { input, pos: p, current: t }),
            Err(e) => Err(e),
        }
    }

    /// How many bytes of input the scanner was given.
    pub fn input_len(&self) -> (n: usize)
        ensures
            n == self@.input.len(),
    {
        self.input.len()
    }

    /// The lookahead token, without consuming it.
    pub fn current(&self) -> (t: Token)
        ensures
            t@ == self@.current,
    {
        self.current.clone()
    }

    /// Discards the lookahead and scans the next token; at the end of
    /// the input the lookahead stays end-of-input. On a malformed token
    /// the scanner is left unchanged and the fault is returned.
    pub fn advance(&mut self) -> (r: Result<(), Error>)
        requires
            old(self).wf(),
        ensures
            final(self).wf(),
            match r {
                Ok(_) => lexer_adv(old(self)@) is Ok && final(self)@ == lexer_adv(
                    old(self)@,
                )->Ok_0,
                Err(e) => lexer_adv(old(self)@) is Err && e@ == lexer_adv(old(self)@)->Err_0
                    && final(self)@ == old(self)@,
            },
    {
        match scan_token(&self.input, self.pos) {
            Ok((t, p)) => {
                self.current = t;
                self.pos = p;
                Ok(())
            },
            Err(e) => Err(e),
        }
    }
}

} // verus!
