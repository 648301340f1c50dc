//! Laws the library states of itself, proved once and for all inputs:
//! how the scanner reads back fixed token texts, how call arity is
//! enforced, how the two-level scoping keeps a caller's frame intact,
//! and how an early return cuts a block short.

use vstd::prelude::*;

use crate::error::{ArithmeticOp, ErrorV, ValueKind};
use crate::evaluator::{
    spec_arith, spec_bind, spec_eval, spec_eval_args, spec_exec_block, spec_exec_func,
    spec_exec_stmt, ControlV, MachineV,
};
use crate::frame::{frame_lookup, FrameV};
use crate::lexer::next_token;
use crate::token::{token_text, TokenKind, TokenV};
use crate::tree::{ExprV, FuncV, StmtV};
use crate::value::ValueV;

verus! {

/// A token category with one fixed textual form: keywords, operators
/// and punctuation, excluding the bracket pair that opens and closes
/// nothing by itself in expression slices, payload-carrying tokens, and
/// end-of-input.
pub open spec fn fixed_form(t: TokenV) -> bool {
    ||| t == TokenV::PAREN_L
    ||| t == TokenV::PAREN_R
    ||| t == TokenV::BRACKET_L
    ||| t == TokenV::BRACKET_R
    ||| t == TokenV::BRACE_L
    ||| t == TokenV::BRACE_R
    ||| t == TokenV::POINT
    ||| t == TokenV::COMMA
    ||| t == TokenV::COLON
    ||| t == TokenV::SEMICOLON
    ||| t == TokenV::OP_ADD
    ||| t == TokenV::OP_SUB
    ||| t == TokenV::OP_MUL
    ||| t == TokenV::OP_DIV
    ||| t == TokenV::OP_EQ
    ||| t == TokenV::OP_LT
    ||| t == TokenV::OP_GT
    ||| t == TokenV::OP_NEQ
    ||| t == TokenV::OP_NLT
    ||| t == TokenV::OP_NGT
    ||| t == TokenV::OP_NOT
    ||| t == TokenV::OP_AND
    ||| t == TokenV::OP_OR
    ||| t == TokenV::OP_ASSIGN
    ||| t == TokenV::KW_FUNC
    ||| t == TokenV::LET
    ||| t == TokenV::IF
    ||| t == TokenV::ELSE
    ||| t == TokenV::WHILE
    ||| t == TokenV::PRINT
    ||| t == TokenV::RETURN
    ||| t == TokenV::TYPE_I32
    ||| t == TokenV::TYPE_F32
    ||| t == TokenV::TYPE_CHAR
}

/// Scanner round trip: for every token category with a fixed textual
/// form, scanning exactly that text yields one token of that category,
/// consuming the whole text, and the next scan yields end-of-input.
pub proof fn law_lexer_round_trip(t: TokenV)
    requires
        fixed_form(t),
    ensures
        next_token(token_text(t), 0) == Ok::<(TokenV, int), ErrorV>((
            t,
            token_text(t).len() as int,
        )),
        next_token(token_text(t), token_text(t).len() as int) == Ok::<(TokenV, int), ErrorV>((
            TokenV::EOI,
            token_text(t).len() as int,
        )),
{
    let s = token_text(t);
    reveal_with_fuel(crate::lexer::skip_ws, 2);
    reveal_with_fuel(crate::lexer::word_end, 8);
    reveal_with_fuel(crate::lexer::quote_end, 8);
    if t == TokenV::OP_NOT {
        let w = seq![110u8, 111u8, 116u8];
        assert(s =~= w);
        assert(crate::lexer::word_end(s, 1) == 3);
        assert(!crate::lexer::is_digit(s[0]));
        assert(!crate::lexer::digits_and_points(s));
        assert(s.subrange(0, 3) =~= w);
    } else if t == TokenV::OP_AND {
        let w = seq![97u8, 110u8, 100u8];
        assert(s =~= w);
        assert(crate::lexer::word_end(s, 1) == 3);
        assert(!crate::lexer::is_digit(s[0]));
        assert(!crate::lexer::digits_and_points(s));
        assert(s.subrange(0, 3) =~= w);
        assert(s != seq![110u8, 111u8, 116u8]);
    } else if t == TokenV::OP_OR {
        let w = seq![111u8, 114u8];
        assert(s =~= w);
        assert(crate::lexer::word_end(s, 1) == 2);
        assert(!crate::lexer::is_digit(s[0]));
        assert(!crate::lexer::digits_and_points(s));
        assert(s.subrange(0, 2) =~= w);
        assert(s != seq![110u8, 111u8, 116u8]);
        assert(s != seq![97u8, 110u8, 100u8]);
    } else if t == TokenV::KW_FUNC {
        let w = seq![102u8, 117u8, 110u8, 99u8];
        assert(s =~= w);
        assert(crate::lexer::word_end(s, 1) == 4);
        assert(!crate::lexer::is_digit(s[0]));
        assert(!crate::lexer::digits_and_points(s));
        assert(s.subrange(0, 4) =~= w);
        assert(s != seq![110u8, 111u8, 116u8]);
        assert(s != seq![97u8, 110u8, 100u8]);
        assert(s != seq![111u8, 114u8]);
    } else if t == TokenV::LET {
        let w = seq![108u8, 101u8, 116u8];
        assert(s =~= w);
        assert(crate::lexer::word_end(s, 1) == 3);
        assert(!crate::lexer::is_digit(s[0]));
        assert(!crate::lexer::digits_and_points(s));
        assert(s.subrange(0, 3) =~= w);
        assert(s != seq![110u8, 111u8, 116u8]);
        assert(s != seq![97u8, 110u8, 100u8]);
        assert(s != seq![111u8, 114u8]);
        assert(s != seq![102u8, 117u8, 110u8, 99u8]);
    } else if t == TokenV::IF {
        let w = seq![105u8, 102u8];
        assert(s =~= w);
        assert(crate::lexer::word_end(s, 1) == 2);
        assert(!crate::lexer::is_digit(s[0]));
        assert(!crate::lexer::digits_and_points(s));
        assert(s.subrange(0, 2) =~= w);
        assert(s != seq![110u8, 111u8, 116u8]);
        assert(s != seq![97u8, 110u8, 100u8]);
        assert(s != seq![111u8, 114u8]);
        assert(s != seq![102u8, 117u8, 110u8, 99u8]);
        assert(s != seq![108u8, 101u8, 116u8]);
    } else if t == TokenV::ELSE {
        let w = seq![101u8, 108u8, 115u8, 101u8];
        assert(s =~= w);
        assert(crate::lexer::word_end(s, 1) == 4);
        assert(!crate::lexer::is_digit(s[0]));
        assert(!crate::lexer::digits_and_points(s));
        assert(s.subrange(0, 4) =~= w);
        assert(s != seq![110u8, 111u8, 116u8]);
        assert(s != seq![97u8, 110u8, 100u8]);
        assert(s != seq![111u8, 114u8]);
        assert(s != seq![102u8, 117u8, 110u8, 99u8]);
        assert(s != seq![108u8, 101u8, 116u8]);
        assert(s != seq![105u8, 102u8]);
    } else if t == TokenV::WHILE {
        let w = seq![119u8, 104u8, 105u8, 108u8, 101u8];
        assert(s =~= w);
        assert(crate::lexer::word_end(s, 1) == 5);
        assert(!crate::lexer::is_digit(s[0]));
        assert(!crate::lexer::digits_and_points(s));
        assert(s.subrange(0, 5) =~= w);
        assert(s != seq![110u8, 111u8, 116u8]);
        assert(s != seq![97u8, 110u8, 100u8]);
        assert(s != seq![111u8, 114u8]);
        assert(s != seq![102u8, 117u8, 110u8, 99u8]);
        assert(s != seq![108u8, 101u8, 116u8]);
        assert(s != seq![105u8, 102u8]);
        assert(s != seq![101u8, 108u8, 115u8, 101u8]);
    } else if t == TokenV::PRINT {
        let w = seq![112u8, 114u8, 105u8, 110u8, 116u8];
        assert(s =~= w);
        assert(crate::lexer::word_end(s, 1) == 5);
        assert(!crate::lexer::is_digit(s[0]));
        assert(!crate::lexer::digits_and_points(s));
        assert(s.subrange(0, 5) =~= w);
        assert(s != seq![110u8, 111u8, 116u8]);
        assert(s != seq![97u8, 110u8, 100u8]);
        assert(s != seq![111u8, 114u8]);
        assert(s != seq![102u8, 117u8, 110u8, 99u8]);
        assert(s != seq![108u8, 101u8, 116u8]);
        assert(s != seq![105u8, 102u8]);
        assert(s != seq![101u8, 108u8, 115u8, 101u8]);
        assert(s != seq![119u8, 104u8, 105u8, 108u8, 101u8]);
    } else if t == TokenV::RETURN {
        let w = seq![114u8, 101u8, 116u8, 117u8, 114u8, 110u8];
        assert(s =~= w);
        assert(crate::lexer::word_end(s, 1) == 6);
        assert(!crate::lexer::is_digit(s[0]));
        assert(!crate::lexer::digits_and_points(s));
        assert(s.subrange(0, 6) =~= w);
        assert(s != seq![110u8, 111u8, 116u8]);
        assert(s != seq![97u8, 110u8, 100u8]);
        assert(s != seq![111u8, 114u8]);
        assert(s != seq![102u8, 117u8, 110u8, 99u8]);
        assert(s != seq![108u8, 101u8, 116u8]);
        assert(s != seq![105u8, 102u8]);
        assert(s != seq![101u8, 108u8, 115u8, 101u8]);
        assert(s != seq![119u8, 104u8, 105u8, 108u8, 101u8]);
        assert(s != seq![112u8, 114u8, 105u8, 110u8, 116u8]);
    } else if t == TokenV::TYPE_I32 {
        let w = seq![105u8, 51u8, 50u8];
        assert(s =~= w);
        assert(crate::lexer::word_end(s, 1) == 3);
        assert(!crate::lexer::is_digit(s[0]));
        assert(!crate::lexer::digits_and_points(s));
        assert(s.subrange(0, 3) =~= w);
        assert(s != seq![110u8, 111u8, 116u8]);
        assert(s != seq![97u8, 110u8, 100u8]);
        assert(s != seq![111u8, 114u8]);
        assert(s != seq![102u8, 117u8, 110u8, 99u8]);
        assert(s != seq![108u8, 101u8, 116u8]);
        assert(s != seq![105u8, 102u8]);
        assert(s != seq![101u8, 108u8, 115u8, 101u8]);
        assert(s != seq![119u8, 104u8, 105u8, 108u8, 101u8]);
        assert(s != seq![112u8, 114u8, 105u8, 110u8, 116u8]);
        assert(s != seq![114u8, 101u8, 116u8, 117u8, 114u8, 110u8]);
    } else if t == TokenV::TYPE_F32 {
        let w = seq![102u8, 51u8, 50u8];
        assert(s =~= w);
        assert(crate::lexer::word_end(s, 1) == 3);
        assert(!crate::lexer::is_digit(s[0]));
        assert(!crate::lexer::digits_and_points(s));
        assert(s.subrange(0, 3) =~= w);
        assert(s != seq![110u8, 111u8, 116u8]);
        assert(s != seq![97u8, 110u8, 100u8]);
        assert(s != seq![111u8, 114u8]);
        assert(s != seq![102u8, 117u8, 110u8, 99u8]);
        assert(s != seq![108u8, 101u8, 116u8]);
        assert(s != seq![105u8, 102u8]);
        assert(s != seq![101u8, 108u8, 115u8, 101u8]);
        assert(s != seq![119u8, 104u8, 105u8, 108u8, 101u8]);
        assert(s != seq![112u8, 114u8, 105u8, 110u8, 116u8]);
        assert(s != seq![114u8, 101u8, 116u8, 117u8, 114u8, 110u8]);
        assert(s != seq![105u8, 51u8, 50u8]);
        assert(s != seq![105u8, 110u8, 116u8, 51u8, 50u8]);
    } else if t == TokenV::TYPE_CHAR {
        let w = seq![99u8, 104u8, 97u8, 114u8];
        assert(s =~= w);
        assert(crate::lexer::word_end(s, 1) == 4);
        assert(!crate::lexer::is_digit(s[0]));
        assert(!crate::lexer::digits_and_points(s));
        assert(s.subrange(0, 4) =~= w);
        assert(s != seq![110u8, 111u8, 116u8]);
        assert(s != seq![97u8, 110u8, 100u8]);
        assert(s != seq![111u8, 114u8]);
        assert(s != seq![102u8, 117u8, 110u8, 99u8]);
        assert(s != seq![108u8, 101u8, 116u8]);
        assert(s != seq![105u8, 102u8]);
        assert(s != seq![101u8, 108u8, 115u8, 101u8]);
        assert(s != seq![119u8, 104u8, 105u8, 108u8, 101u8]);
        assert(s != seq![112u8, 114u8, 105u8, 110u8, 116u8]);
        assert(s != seq![114u8, 101u8, 116u8, 117u8, 114u8, 110u8]);
        assert(s != seq![105u8, 51u8, 50u8]);
        assert(s != seq![105u8, 110u8, 116u8, 51u8, 50u8]);
        assert(s != seq![102u8, 51u8, 50u8]);
        assert(s != seq![102u8, 108u8, 111u8, 97u8, 116u8, 51u8, 50u8]);
    }
}

/// Arity enforcement, the failing side: a call whose argument count
/// differs from the declared arity stops at once with an arity fault
/// naming the function, before any argument is evaluated.
pub proof fn law_arity_mismatch_fatal(
    n: Seq<u8>,
    args: Seq<ExprV>,
    locals: FrameV,
    m: MachineV,
    funcs: Seq<FuncV>,
    fuel: nat,
    fi: int,
    arity: int,
)
    requires
        fuel > 0,
        arity >= 0,
        frame_lookup(m.globals, n) == Some(ValueV::Func(fi, arity)),
        args.len() != arity,
    ensures
        spec_eval(ExprV::Call(n, args), locals, m, funcs, fuel) == (
            Err::<ValueV, ErrorV>(
                ErrorV::ArityMismatch { name: n, expected: arity as nat, given: args.len() },
            ),
            m,
        ),
{
}

/// Arity enforcement, the passing side: a call with exactly the
/// declared number of arguments goes through to the callee's body.
pub proof fn law_arity_match_calls(
    n: Seq<u8>,
    args: Seq<ExprV>,
    locals: FrameV,
    m: MachineV,
    funcs: Seq<FuncV>,
    fuel: nat,
    fi: int,
)
    requires
        fuel > 0,
        0 <= fi < funcs.len(),
        frame_lookup(m.globals, n) == Some(ValueV::Func(fi, args.len() as int)),
        spec_eval_args(args, 0, locals, m, funcs, fuel).0 is Ok,
    ensures
        spec_eval(ExprV::Call(n, args), locals, m, funcs, fuel) == spec_exec_func(
            funcs[fi],
            spec_eval_args(args, 0, locals, m, funcs, fuel).0->Ok_0,
            spec_eval_args(args, 0, locals, m, funcs, fuel).1,
            funcs,
            (fuel - 1) as nat,
        ),
{
}

/// Scoping, the callee's side: a call's body starts in a frame holding
/// exactly the parameters, so a name bound in the caller and not among
/// the parameters is not visible as a local of the callee.
pub proof fn law_call_frame_holds_only_params(params: Seq<Seq<u8>>, args: Seq<ValueV>, x: Seq<u8>)
    requires
        params.len() == args.len(),
        forall|i: int| 0 <= i < params.len() ==> params[i] != x,
    ensures
        frame_lookup(spec_bind(params, args), x) is None,
    decreases params.len(),
{
    if params.len() > 0 {
        assert(forall|i: int| 0 <= i < params.len() - 1 ==> params.drop_last()[i] == params[i]);
        law_call_frame_holds_only_params(params.drop_last(), args.drop_last(), x);
        let f = spec_bind(params.drop_last(), args.drop_last());
        let g = spec_bind(params, args);
        assert(g == f.push((params.last(), args.last())));
        assert(params[params.len() - 1] != x);
        assert(g.last().0 != x);
        assert(g.drop_last() =~= f);
        assert(crate::frame::last_index_of(g, x) == crate::frame::last_index_of(f, x));
    }
}

/// Scoping, the caller's side: executing a `print` or `return`
/// statement — whatever expression it holds, calls included — leaves
/// the caller's local frame exactly as it was.
pub proof fn law_calls_do_not_leak_locals(
    s: StmtV,
    locals: FrameV,
    m: MachineV,
    funcs: Seq<FuncV>,
    fuel: nat,
)
    requires
        s is Print || s is Return,
    ensures
        spec_exec_stmt(s, locals, m, funcs, fuel).1 == locals,
{
}

/// Scoping, the global side: a global declared at program scope is
/// visible inside every function body where no local shadows it.
pub proof fn law_global_visible(
    n: Seq<u8>,
    v: ValueV,
    locals: FrameV,
    m: MachineV,
    funcs: Seq<FuncV>,
    fuel: nat,
)
    requires
        frame_lookup(locals, n) is None,
        frame_lookup(m.globals, n) == Some(v),
    ensures
        spec_eval(ExprV::Var(n), locals, m, funcs, fuel) == (Ok::<ValueV, ErrorV>(v), m),
{
}

/// Return short-circuit: when a statement of a block yields the return
/// signal, the block yields exactly that outcome, and no statement
/// after it contributes anything.
pub proof fn law_return_short_circuits(
    stmts: Seq<StmtV>,
    i: int,
    locals: FrameV,
    m: MachineV,
    funcs: Seq<FuncV>,
    fuel: nat,
    v: ValueV,
)
    requires
        0 <= i < stmts.len(),
        spec_exec_stmt(stmts[i], locals, m, funcs, fuel).0 == Ok::<ControlV, ErrorV>(
            ControlV::Return(v),
        ),
    ensures
        spec_exec_block(stmts, i, locals, m, funcs, fuel) == (
            Ok::<ControlV, ErrorV>(ControlV::Return(v)),
            spec_exec_stmt(stmts[i], locals, m, funcs, fuel).1,
            spec_exec_stmt(stmts[i], locals, m, funcs, fuel).2,
        ),
{
}

/// Operand-kind fatality: an arithmetic operator with a boolean operand
/// stops with a fault naming the operator, the kind, and the side.
pub proof fn law_bool_operand_fatal(b: bool, v: ValueV, x: i32, op: ArithmeticOp)
    ensures
        spec_arith(ValueV::Bool(b), v, op) == Err::<ValueV, ErrorV>(
            ErrorV::ArithOperand { op, kind: ValueKind::Bool, right: false },
        ),
        spec_arith(ValueV::I32(x), ValueV::Bool(b), op) == Err::<ValueV, ErrorV>(
            ErrorV::ArithOperand { op, kind: ValueKind::Bool, right: true },
        ),
{
}

} // verus!
