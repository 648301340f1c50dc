//! The evaluator: computes a runtime value from an expression against a
//! local frame, the global frame, and the program's function list. The
//! whole big-step semantics is a set of specification functions; the
//! executable evaluator is proved to follow them. A step budget bounds
//! guest calls and loop turns; running out of it is a fault of its own.

use vstd::prelude::*;

use crate::error::{ArithmeticOp, Error, ErrorV, RelationalOp};
use crate::executor::Executor;
use crate::frame::{frame_lookup, frame_set, Frame, FrameV};
use crate::lexer::{all_digits, digits_to_i32, digits_val};
use crate::token::{bytes_eq, clone_bytes};
use crate::tree::{
    exprs_view, funcs_view, lemma_exprs_view_len, lemma_funcs_view_len, lemma_params_view_len,
    ExprNode, ExprV, FuncNode, FuncV, Parameter, StmtV,
};
use crate::value::{value_kind, vals_view, lemma_vals_view_len, Value, ValueV};

verus! {

/// What one statement's execution yields: go on, an early return with a
/// value, or a loop signal. No statement of the language produces the
/// loop signals today; the loop construct consumes them all the same.
pub enum Control {
    Next,
    Return(Value),
    Break,
    Continue,
}

/// The mathematical value of a control signal.
pub enum ControlV {
    Next,
    Return(ValueV),
    Break,
    Continue,
}

impl View for Control {
    type V = ControlV;

    open spec fn view(&self) -> ControlV {
        match self {
            Control::Next => ControlV::Next,
            Control::Return(v) => ControlV::Return(v@),
            Control::Break => ControlV::Break,
            Control::Continue => ControlV::Continue,
        }
    }
}

/// The shared world the interpreter threads along: the global frame and
/// the output emitted so far.
pub struct MachineV {
    pub globals: FrameV,
    pub out: Seq<ValueV>,
}

/// The number a string operand reads as: an optional minus sign and
/// decimal digits, within 32-bit range.
pub open spec fn spec_chars_num(s: Seq<u8>) -> Option<int> {
    if s.len() >= 1 && all_digits(s) && digits_val(s) <= i32::MAX {
        Some(digits_val(s))
    } else if s.len() >= 2 && s[0] == 45 && all_digits(s.skip(1)) && digits_val(s.skip(1))
        <= i32::MAX {
        Some(-digits_val(s.skip(1)))
    } else {
        None
    }
}

/// A numeric operand of an arithmetic operator: a 32-bit integer, or a
/// string that reads as one. Booleans, nil and functions are operand
/// faults naming the operator and the kind; floats are not computed
/// with.
pub open spec fn spec_num_operand(v: ValueV, op: ArithmeticOp, right: bool) -> Result<
    int,
    ErrorV,
> {
    match v {
        ValueV::I32(x) => Ok(x as int),
        ValueV::Chars(s) => match spec_chars_num(s) {
            Some(x) => Ok(x),
            None => Err(ErrorV::BadStringNumber),
        },
        ValueV::F32(_) => Err(ErrorV::FloatUnsupported),
        _ => Err(ErrorV::ArithOperand { op, kind: value_kind(v), right }),
    }
}

/// A result that must fit 32 bits.
pub open spec fn spec_fit(x: int) -> Result<ValueV, ErrorV> {
    if i32::MIN <= x <= i32::MAX {
        Ok(ValueV::I32(x as i32))
    } else {
        Err(ErrorV::Overflow)
    }
}

/// Division truncating toward zero, as 32-bit machines divide.
pub open spec fn spec_tdiv(x: int, y: int) -> int {
    let q = vstd::math::abs(x) as int / vstd::math::abs(y) as int;
    if (x < 0) == (y < 0) {
        q
    } else {
        -q
    }
}

/// What an arithmetic operator returns: both operands read as numbers,
/// the exact result must fit 32 bits, and division by zero is a fault.
pub open spec fn spec_arith(a: ValueV, b: ValueV, op: ArithmeticOp) -> Result<ValueV, ErrorV> {
    match spec_num_operand(a, op, false) {
        Err(e) => Err(e),
        Ok(x) => match spec_num_operand(b, op, true) {
            Err(e) => Err(e),
            Ok(y) => match op {
                ArithmeticOp::Add => spec_fit(x + y),
                ArithmeticOp::Sub => spec_fit(x - y),
                ArithmeticOp::Mul => spec_fit(x * y),
                ArithmeticOp::Div => {
                    if y == 0 {
                        Err(ErrorV::DivisionByZero)
                    } else {
                        spec_fit(spec_tdiv(x, y))
                    }
                },
            },
        },
    }
}

/// What a relational or logical operator returns: comparisons need two
/// 32-bit integers, the logical operators two booleans; anything else is
/// an operand fault naming the operator and the kind.
pub open spec fn spec_rel(a: ValueV, b: ValueV, op: RelationalOp) -> Result<ValueV, ErrorV> {
    match a {
        ValueV::Bool(x) => match b {
            ValueV::Bool(y) => match op {
                RelationalOp::And => Ok(ValueV::Bool(x && y)),
                RelationalOp::Or => Ok(ValueV::Bool(x || y)),
                RelationalOp::Not => Ok(ValueV::Bool(!x)),
                _ => Err(ErrorV::RelOperand { op, kind: value_kind(a), right: false }),
            },
            _ => Err(ErrorV::RelOperand { op, kind: value_kind(b), right: true }),
        },
        ValueV::I32(x) => match b {
            ValueV::I32(y) => match op {
                RelationalOp::Equal => Ok(ValueV::Bool(x == y)),
                RelationalOp::LessThan => Ok(ValueV::Bool(x < y)),
                RelationalOp::GreaterThan => Ok(ValueV::Bool(x > y)),
                RelationalOp::NotEqual => Ok(ValueV::Bool(x != y)),
                RelationalOp::LessThanEqual => Ok(ValueV::Bool(x <= y)),
                RelationalOp::GreaterThanEqual => Ok(ValueV::Bool(x >= y)),
                _ => Err(ErrorV::RelOperand { op, kind: value_kind(a), right: false }),
            },
            _ => Err(ErrorV::RelOperand { op, kind: value_kind(b), right: true }),
        },
        ValueV::F32(_) => Err(ErrorV::FloatUnsupported),
        _ => Err(ErrorV::RelOperand { op, kind: value_kind(a), right: false }),
    }
}

/// The local frame a call starts with: each parameter bound to its
/// argument, in order.
pub open spec fn spec_bind(params: Seq<Seq<u8>>, args: Seq<ValueV>) -> FrameV
    recommends
        params.len() == args.len(),
    decreases params.len(),
{
    if params.len() == 0 || args.len() == 0 {
        Seq::empty()
    } else {
        spec_bind(params.drop_last(), args.drop_last()).push((params.last(), args.last()))
    }
}

/// What evaluating an expression yields, and the world it leaves: a
/// variable reads the local frame, then the globals; a literal is
/// itself; operators evaluate left before right; a call resolves its
/// name in the globals alone, checks the arity, evaluates the arguments
/// in the caller's frame, and runs the callee in a fresh frame on one
/// unit less of the step budget.
pub open spec fn spec_eval(e: ExprV, locals: FrameV, m: MachineV, funcs: Seq<FuncV>, fuel: nat) -> (
    Result<ValueV, ErrorV>,
    MachineV,
)
    decreases fuel, 0nat, e, 0nat,
{
    match e {
        ExprV::Var(n) => match frame_lookup(locals, n) {
            Some(v) => (Ok(v), m),
            None => match frame_lookup(m.globals, n) {
                Some(v) => (Ok(v), m),
                None => (Err(ErrorV::UndefinedVariable(n)), m),
            },
        },
        ExprV::Val(v) => (Ok(v), m),
        ExprV::Add(a, b) => match spec_eval(*a, locals, m, funcs, fuel) {
            (Err(e), m1) => (Err(e), m1),
            (Ok(va), m1) => match spec_eval(*b, locals, m1, funcs, fuel) {
                (Err(e), m2) => (Err(e), m2),
                (Ok(vb), m2) => (spec_arith(va, vb, ArithmeticOp::Add), m2),
            },
        },
        ExprV::Sub(a, b) => match spec_eval(*a, locals, m, funcs, fuel) {
            (Err(e), m1) => (Err(e), m1),
            (Ok(va), m1) => match spec_eval(*b, locals, m1, funcs, fuel) {
                (Err(e), m2) => (Err(e), m2),
                (Ok(vb), m2) => (spec_arith(va, vb, ArithmeticOp::Sub), m2),
            },
        },
        ExprV::Mul(a, b) => match spec_eval(*a, locals, m, funcs, fuel) {
            (Err(e), m1) => (Err(e), m1),
            (Ok(va), m1) => match spec_eval(*b, locals, m1, funcs, fuel) {
                (Err(e), m2) => (Err(e), m2),
                (Ok(vb), m2) => (spec_arith(va, vb, ArithmeticOp::Mul), m2),
            },
        },
        ExprV::Div(a, b) => match spec_eval(*a, locals, m, funcs, fuel) {
            (Err(e), m1) => (Err(e), m1),
            (Ok(va), m1) => match spec_eval(*b, locals, m1, funcs, fuel) {
                (Err(e), m2) => (Err(e), m2),
                (Ok(vb), m2) => (spec_arith(va, vb, ArithmeticOp::Div), m2),
            },
        },
        ExprV::Equal(a, b) => match spec_eval(*a, locals, m, funcs, fuel) {
            (Err(e), m1) => (Err(e), m1),
            (Ok(va), m1) => match spec_eval(*b, locals, m1, funcs, fuel) {
                (Err(e), m2) => (Err(e), m2),
                (Ok(vb), m2) => (spec_rel(va, vb, RelationalOp::Equal), m2),
            },
        },
        ExprV::LessThan(a, b) => match spec_eval(*a, locals, m, funcs, fuel) {
            (Err(e), m1) => (Err(e), m1),
            (Ok(va), m1) => match spec_eval(*b, locals, m1, funcs, fuel) {
                (Err(e), m2) => (Err(e), m2),
                (Ok(vb), m2) => (spec_rel(va, vb, RelationalOp::LessThan), m2),
            },
        },
        ExprV::GreaterThan(a, b) => match spec_eval(*a, locals, m, funcs, fuel) {
            (Err(e), m1) => (Err(e), m1),
            (Ok(va), m1) => match spec_eval(*b, locals, m1, funcs, fuel) {
                (Err(e), m2) => (Err(e), m2),
                (Ok(vb), m2) => (spec_rel(va, vb, RelationalOp::GreaterThan), m2),
            },
        },
        ExprV::NotEqual(a, b) => match spec_eval(*a, locals, m, funcs, fuel) {
            (Err(e), m1) => (Err(e), m1),
            (Ok(va), m1) => match spec_eval(*b, locals, m1, funcs, fuel) {
                (Err(e), m2) => (Err(e), m2),
                (Ok(vb), m2) => (spec_rel(va, vb, RelationalOp::NotEqual), m2),
            },
        },
        ExprV::LessThanEqual(a, b) => match spec_eval(*a, locals, m, funcs, fuel) {
            (Err(e), m1) => (Err(e), m1),
            (Ok(va), m1) => match spec_eval(*b, locals, m1, funcs, fuel) {
                (Err(e), m2) => (Err(e), m2),
                (Ok(vb), m2) => (spec_rel(va, vb, RelationalOp::LessThanEqual), m2),
            },
        },
        ExprV::GreaterThanEqual(a, b) => match spec_eval(*a, locals, m, funcs, fuel) {
            (Err(e), m1) => (Err(e), m1),
            (Ok(va), m1) => match spec_eval(*b, locals, m1, funcs, fuel) {
                (Err(e), m2) => (Err(e), m2),
                (Ok(vb), m2) => (spec_rel(va, vb, RelationalOp::GreaterThanEqual), m2),
            },
        },
        ExprV::And(a, b) => match spec_eval(*a, locals, m, funcs, fuel) {
            (Err(e), m1) => (Err(e), m1),
            (Ok(va), m1) => match spec_eval(*b, locals, m1, funcs, fuel) {
                (Err(e), m2) => (Err(e), m2),
                (Ok(vb), m2) => (spec_rel(va, vb, RelationalOp::And), m2),
            },
        },
        ExprV::Or(a, b) => match spec_eval(*a, locals, m, funcs, fuel) {
            (Err(e), m1) => (Err(e), m1),
            (Ok(va), m1) => match spec_eval(*b, locals, m1, funcs, fuel) {
                (Err(e), m2) => (Err(e), m2),
                (Ok(vb), m2) => (spec_rel(va, vb, RelationalOp::Or), m2),
            },
        },
        ExprV::Not(a) => match spec_eval(*a, locals, m, funcs, fuel) {
            (Err(e), m1) => (Err(e), m1),
            (Ok(va), m1) => (spec_rel(va, va, RelationalOp::Not), m1),
        },
        ExprV::Call(n, args) => {
            if fuel == 0 {
                (Err(ErrorV::StepsExhausted), m)
            } else {
                match frame_lookup(m.globals, n) {
                    None => (Err(ErrorV::UndefinedFunction(n)), m),
                    Some(ValueV::Func(fi, arity)) => {
                        if args.len() != arity {
                            (
                                Err(
                                    ErrorV::ArityMismatch {
                                        name: n,
                                        expected: if arity >= 0 {
                                            arity as nat
                                        } else {
                                            0
                                        },
                                        given: args.len(),
                                    },
                                ),
                                m,
                            )
                        } else {
                            match spec_eval_args(args, 0, locals, m, funcs, fuel) {
                                (Err(e), m1) => (Err(e), m1),
                                (Ok(vals), m1) => {
                                    if 0 <= fi < funcs.len() {
                                        spec_exec_func(
                                            funcs[fi],
                                            vals,
                                            m1,
                                            funcs,
                                            (fuel - 1) as nat,
                                        )
                                    } else {
                                        (Err(ErrorV::NotAFunction(n)), m1)
                                    }
                                },
                            }
                        }
                    },
                    Some(_) => (Err(ErrorV::NotAFunction(n)), m),
                }
            }
        },
    }
}

/// The values of a run of argument expressions, evaluated left to right
/// in the caller's frame.
pub open spec fn spec_eval_args(
    es: Seq<ExprV>,
    i: int,
    locals: FrameV,
    m: MachineV,
    funcs: Seq<FuncV>,
    fuel: nat,
) -> (Result<Seq<ValueV>, ErrorV>, MachineV)
    decreases fuel, 0nat, es, es.len() - i,
{
    if i < 0 || i >= es.len() {
        (Ok(Seq::empty()), m)
    } else {
        match spec_eval(es[i], locals, m, funcs, fuel) {
            (Err(e), m1) => (Err(e), m1),
            (Ok(v), m1) => match spec_eval_args(es, i + 1, locals, m1, funcs, fuel) {
                (Err(e), m2) => (Err(e), m2),
                (Ok(rest), m2) => (Ok(seq![v] + rest), m2),
            },
        }
    }
}

/// What one statement's execution yields, with the local frame and the
/// world it leaves: `let` declares; assignment writes the local binding
/// when there is one, else the global one, else declares locally; `if`
/// and `while` demand a boolean condition; `while` spends one unit of
/// the step budget per turn; `return` carries its value out; `print`
/// appends to the output.
pub open spec fn spec_exec_stmt(
    s: StmtV,
    locals: FrameV,
    m: MachineV,
    funcs: Seq<FuncV>,
    fuel: nat,
) -> (Result<ControlV, ErrorV>, FrameV, MachineV)
    decreases fuel, 1nat, s, 0nat,
{
    match s {
        StmtV::Let { name, value } => (Ok(ControlV::Next), locals.push((name, value)), m),
        StmtV::Assign { name, expr } => match spec_eval(expr, locals, m, funcs, fuel) {
            (Err(e), m1) => (Err(e), locals, m1),
            (Ok(v), m1) => {
                if frame_lookup(locals, name) is Some {
                    (Ok(ControlV::Next), frame_set(locals, name, v), m1)
                } else if frame_lookup(m1.globals, name) is Some {
                    (
                        Ok(ControlV::Next),
                        locals,
                        MachineV { globals: frame_set(m1.globals, name, v), out: m1.out },
                    )
                } else {
                    (Ok(ControlV::Next), locals.push((name, v)), m1)
                }
            },
        },
        StmtV::If { cond, then_block, else_block } => match spec_eval(cond, locals, m, funcs, fuel) {
            (Err(e), m1) => (Err(e), locals, m1),
            (Ok(ValueV::Bool(b)), m1) => {
                if fuel == 0 {
                    (Err(ErrorV::StepsExhausted), locals, m1)
                } else if b {
                    spec_exec_block(then_block, 0, locals, m1, funcs, (fuel - 1) as nat)
                } else {
                    spec_exec_block(else_block, 0, locals, m1, funcs, (fuel - 1) as nat)
                }
            },
            (Ok(_), m1) => (Err(ErrorV::NonBoolCondition), locals, m1),
        },
        StmtV::While { cond, body } => match spec_eval(cond, locals, m, funcs, fuel) {
            (Err(e), m1) => (Err(e), locals, m1),
            (Ok(ValueV::Bool(b)), m1) => {
                if !b {
                    (Ok(ControlV::Next), locals, m1)
                } else if fuel == 0 {
                    (Err(ErrorV::StepsExhausted), locals, m1)
                } else {
                    match spec_exec_block(body, 0, locals, m1, funcs, (fuel - 1) as nat) {
                        (Err(e), l2, m2) => (Err(e), l2, m2),
                        (Ok(ControlV::Return(v)), l2, m2) => (Ok(ControlV::Return(v)), l2, m2),
                        (Ok(ControlV::Break), l2, m2) => (Ok(ControlV::Next), l2, m2),
                        (Ok(_), l2, m2) => {
                            if fuel == 0 {
                                (Err(ErrorV::StepsExhausted), l2, m2)
                            } else {
                                spec_exec_stmt(s, l2, m2, funcs, (fuel - 1) as nat)
                            }
                        },
                    }
                }
            },
            (Ok(_), m1) => (Err(ErrorV::NonBoolCondition), locals, m1),
        },
        StmtV::Return { expr } => match spec_eval(expr, locals, m, funcs, fuel) {
            (Err(e), m1) => (Err(e), locals, m1),
            (Ok(v), m1) => (Ok(ControlV::Return(v)), locals, m1),
        },
        StmtV::Print { expr } => match spec_eval(expr, locals, m, funcs, fuel) {
            (Err(e), m1) => (Err(e), locals, m1),
            (Ok(v), m1) => (
                Ok(ControlV::Next),
                locals,
                MachineV { globals: m1.globals, out: m1.out.push(v) },
            ),
        },
    }
}

/// A block runs its statements in order and stops at the first signal
/// other than going on.
pub open spec fn spec_exec_block(
    stmts: Seq<StmtV>,
    i: int,
    locals: FrameV,
    m: MachineV,
    funcs: Seq<FuncV>,
    fuel: nat,
) -> (Result<ControlV, ErrorV>, FrameV, MachineV)
    decreases fuel, 1nat, stmts, stmts.len() - i,
{
    if i < 0 || i >= stmts.len() {
        (Ok(ControlV::Next), locals, m)
    } else {
        match spec_exec_stmt(stmts[i], locals, m, funcs, fuel) {
            (Err(e), l1, m1) => (Err(e), l1, m1),
            (Ok(ControlV::Next), l1, m1) => spec_exec_block(stmts, i + 1, l1, m1, funcs, fuel),
            (Ok(c), l1, m1) => (Ok(c), l1, m1),
        }
    }
}

/// A call binds the arguments to the parameters in a fresh local frame,
/// runs the body, and returns the carried value, or nil when the body
/// falls through; an argument count differing from the declared arity is
/// a fault naming the function.
pub open spec fn spec_exec_func(f: FuncV, args: Seq<ValueV>, m: MachineV, funcs: Seq<FuncV>, fuel: nat) -> (
    Result<ValueV, ErrorV>,
    MachineV,
)
    decreases fuel, 2nat, f, 0nat,
{
    if args.len() != f.params.len() {
        (
            Err(ErrorV::ArityMismatch { name: f.name, expected: f.params.len(), given: args.len() }),
            m,
        )
    } else {
        match spec_exec_block(f.body, 0, spec_bind(f.params, args), m, funcs, fuel) {
            (Err(e), _l, m1) => (Err(e), m1),
            (Ok(ControlV::Return(v)), _l, m1) => (Ok(v), m1),
            (Ok(_), _l, m1) => (Ok(ValueV::Nil), m1),
        }
    }
}

/// Whether an executable value result agrees with a specification
/// result.
pub open spec fn val_res_matches(r: Result<Value, Error>, s: Result<ValueV, ErrorV>) -> bool {
    match r {
        Ok(v) => s is Ok && v@ == s->Ok_0,
        Err(e) => s is Err && e@ == s->Err_0,
    }
}

/// Whether an executable control result agrees with a specification
/// result.
pub open spec fn ctrl_res_matches(r: Result<Control, Error>, s: Result<ControlV, ErrorV>) -> bool {
    match r {
        Ok(c) => s is Ok && c@ == s->Ok_0,
        Err(e) => s is Err && e@ == s->Err_0,
    }
}

// Whether every byte of `v` is a decimal digit.
fn all_digits_exec(v: &Vec<u8>) -> (b: bool)
    ensures
        b == all_digits(v@),
{
    let mut i: usize = 0;
    while i < v.len()
        invariant
            0 <= i <= v@.len(),
            forall|j: int| 0 <= j < i ==> crate::lexer::is_digit(v@[j]),
        decreases v@.len() - i,
    {
        let c = v[i];
        if !(48 <= c && c <= 57) {
            return false;
        }
        i = i + 1;
    }
    true
}

// The bytes of `v` from `from` on.
fn copy_tail(v: &Vec<u8>, from: usize) -> (r: Vec<u8>)
    requires
        from <= v@.len(),
    ensures
        r@ == v@.skip(from as int),
{
    let mut r: Vec<u8> = Vec::new();
    let mut i = from;
    while i < v.len()
        invariant
            from <= i <= v@.len(),
            r@ == v@.subrange(from as int, i as int),
        decreases v@.len() - i,
    {
        r.push(v[i]);
        proof {
            assert(r@ =~= v@.subrange(from as int, i + 1));
        }
        i = i + 1;
    }
    proof {
        assert(v@.subrange(from as int, v@.len() as int) =~= v@.skip(from as int));
    }
    r
}

// The number a string operand reads as, following `spec_chars_num`.
fn chars_num(v: &Vec<u8>) -> (r: Option<i32>)
    ensures
        match r {
            Some(x) => spec_chars_num(v@) == Some(x as int),
            None => spec_chars_num(v@) is None,
        },
{
    if v.len() >= 1 && v[0] != 45 {
        if all_digits_exec(v) {
            match digits_to_i32(v) {
                Ok(x) => Some(x),
                Err(_e) => None,
            }
        } else {
            None
        }
    } else if v.len() >= 2 && v[0] == 45 {
        let rest = copy_tail(v, 1);
        if all_digits_exec(&rest) {
            match digits_to_i32(&rest) {
                Ok(x) => Some(-x),
                Err(_e) => None,
            }
        } else {
            proof {
                if all_digits(v@) {
                    assert(crate::lexer::is_digit(v@[0]));
                }
            }
            None
        }
    } else {
        None
    }
}

// A numeric operand's value, following `spec_num_operand`.
fn num_operand(v: Value, op: ArithmeticOp, right: bool) -> (r: Result<i32, Error>)
    ensures
        match r {
            Ok(x) => spec_num_operand(v@, op, right) == Ok::<int, ErrorV>(x as int),
            Err(e) => spec_num_operand(v@, op, right) is Err && e@ == spec_num_operand(
                v@,
                op,
                right,
            )->Err_0,
        },
{
    match v {
        Value::I32(x) => Ok(x),
        Value::Chars(s) => match chars_num(&s) {
            Some(x) => Ok(x),
            None => Err(Error::BadStringNumber),
        },
        Value::F32(_) => Err(Error::FloatUnsupported),
        _ => Err(Error::ArithOperand { op, kind: v.kind_of(), right }),
    }
}

// An arithmetic operator's result, following `spec_arith`.
fn arithmetic(value_a: Value, value_b: Value, op: ArithmeticOp) -> (r: Result<Value, Error>)
    ensures
        val_res_matches(r, spec_arith(value_a@, value_b@, op)),
{
    let ghost av = value_a@;
    let ghost bv = value_b@;
    let x = match num_operand(value_a, op, false) {
        Ok(x) => x,
        Err(e) => {
            return Err(e);
        },
    };
    let y = match num_operand(value_b, op, true) {
        Ok(y) => y,
        Err(e) => {
            return Err(e);
        },
    };
    match op {
        ArithmeticOp::Add => fit_i32((x as i64) + (y as i64)),
        ArithmeticOp::Sub => fit_i32((x as i64) - (y as i64)),
        ArithmeticOp::Mul => {
            let xi: i64 = x as i64;
            let yi: i64 = y as i64;
            proof {
                assert(-0x4000_0000_0000_0000 <= xi * yi <= 0x4000_0000_0000_0000)
                    by (nonlinear_arith)
                    requires
                        -0x8000_0000 <= xi <= 0x7fff_ffff,
                        -0x8000_0000 <= yi <= 0x7fff_ffff,
                ;
            }
            fit_i32(xi * yi)
        },
        ArithmeticOp::Div => {
            if y == 0 {
                Err(Error::DivisionByZero)
            } else {
                let mx: u64 = if x < 0 {
                    (-(x as i64)) as u64
                } else {
                    x as u64
                };
                let my: u64 = if y < 0 {
                    (-(y as i64)) as u64
                } else {
                    y as u64
                };
                let q: u64 = mx / my;
                proof {
                    assert(mx == vstd::math::abs(x as int));
                    assert(my == vstd::math::abs(y as int));
                    assert(q == vstd::math::abs(x as int) as int / vstd::math::abs(y as int) as int);
                }
                if (x < 0) == (y < 0) {
                    fit_i32(q as i64)
                } else {
                    fit_i32(-(q as i64))
                }
            }
        },
    }
}

// A 32-bit-fitting result, following `spec_fit`.
fn fit_i32(x: i64) -> (r: Result<Value, Error>)
    ensures
        val_res_matches(r, spec_fit(x as int)),
{
    if x >= -2147483648i64 && x <= 2147483647i64 {
        Ok(Value::I32(x as i32))
    } else {
        Err(Error::Overflow)
    }
}

// A relational or logical operator's result, following `spec_rel`.
fn relational(value_a: Value, value_b: Value, op: RelationalOp) -> (r: Result<Value, Error>)
    ensures
        val_res_matches(r, spec_rel(value_a@, value_b@, op)),
{
    match value_a {
        Value::Bool(x) => match value_b {
            Value::Bool(y) => match op {
                RelationalOp::And => Ok(Value::Bool(x && y)),
                RelationalOp::Or => Ok(Value::Bool(x || y)),
                RelationalOp::Not => Ok(Value::Bool(!x)),
                _ => Err(Error::RelOperand { op, kind: crate::error::ValueKind::Bool, right: false }),
            },
            _ => Err(Error::RelOperand { op, kind: value_b.kind_of(), right: true }),
        },
        Value::I32(x) => match value_b {
            Value::I32(y) => match op {
                RelationalOp::Equal => Ok(Value::Bool(x == y)),
                RelationalOp::LessThan => Ok(Value::Bool(x < y)),
                RelationalOp::GreaterThan => Ok(Value::Bool(x > y)),
                RelationalOp::NotEqual => Ok(Value::Bool(x != y)),
                RelationalOp::LessThanEqual => Ok(Value::Bool(x <= y)),
                RelationalOp::GreaterThanEqual => Ok(Value::Bool(x >= y)),
                _ => Err(Error::RelOperand { op, kind: crate::error::ValueKind::I32, right: false }),
            },
            _ => Err(Error::RelOperand { op, kind: value_b.kind_of(), right: true }),
        },
        Value::F32(_) => Err(Error::FloatUnsupported),
        _ => Err(Error::RelOperand { op, kind: value_a.kind_of(), right: false }),
    }
}

/// The expression evaluator.
pub struct Evaluator {}

impl Evaluator {
    /// Evaluates `e` against the local frame, the globals and the
    /// program's functions, following `spec_eval`: the returned value,
    /// the globals left behind and the output appended are exactly what
    /// the specification names.
    #[verifier::rlimit(100)]
    #[verifier::spinoff_prover]
    pub fn evaluate(
        e: &ExprNode,
        locals: &Frame,
        globals: &mut Frame,
        out: &mut Vec<Value>,
        funcs: &Vec<FuncNode>,
        fuel: u64,
    ) -> (r: Result<Value, Error>)
        ensures
            ({
                let s = spec_eval(
                    e@,
                    locals@,
                    MachineV { globals: old(globals)@, out: vals_view(old(out)@) },
                    funcs_view(funcs@),
                    fuel as nat,
                );
                final(globals)@ == s.1.globals && vals_view(final(out)@) == s.1.out
                    && val_res_matches(r, s.0)
            }),
        decreases fuel, 0nat, *e, 0nat,
    {
        match e {
            ExprNode::Var(n) => match locals.lookup(n) {
                Some(v) => Ok(v),
                None => match globals.lookup(n) {
                    Some(v) => Ok(v),
                    None => Err(Error::UndefinedVariable(clone_bytes(n))),
                },
            },
            ExprNode::Val(v) => Ok(v.clone()),
            ExprNode::Add(a, b) => match Evaluator::evaluate(a, locals, globals, out, funcs, fuel) {
                Err(e) => Err(e),
                Ok(va) => match Evaluator::evaluate(b, locals, globals, out, funcs, fuel) {
                    Err(e) => Err(e),
                    Ok(vb) => arithmetic(va, vb, ArithmeticOp::Add),
                },
            },
            ExprNode::Sub(a, b) => match Evaluator::evaluate(a, locals, globals, out, funcs, fuel) {
                Err(e) => Err(e),
                Ok(va) => match Evaluator::evaluate(b, locals, globals, out, funcs, fuel) {
                    Err(e) => Err(e),
                    Ok(vb) => arithmetic(va, vb, ArithmeticOp::Sub),
                },
            },
            ExprNode::Mul(a, b) => match Evaluator::evaluate(a, locals, globals, out, funcs, fuel) {
                Err(e) => Err(e),
                Ok(va) => match Evaluator::evaluate(b, locals, globals, out, funcs, fuel) {
                    Err(e) => Err(e),
                    Ok(vb) => arithmetic(va, vb, ArithmeticOp::Mul),
                },
            },
            ExprNode::Div(a, b) => match Evaluator::evaluate(a, locals, globals, out, funcs, fuel) {
                Err(e) => Err(e),
                Ok(va) => match Evaluator::evaluate(b, locals, globals, out, funcs, fuel) {
                    Err(e) => Err(e),
                    Ok(vb) => arithmetic(va, vb, ArithmeticOp::Div),
                },
            },
            ExprNode::Equal(a, b) => match Evaluator::evaluate(a, locals, globals, out, funcs, fuel) {
                Err(e) => Err(e),
                Ok(va) => match Evaluator::evaluate(b, locals, globals, out, funcs, fuel) {
                    Err(e) => Err(e),
                    Ok(vb) => relational(va, vb, RelationalOp::Equal),
                },
            },
            ExprNode::LessThan(a, b) => match Evaluator::evaluate(a, locals, globals, out, funcs, fuel) {
                Err(e) => Err(e),
                Ok(va) => match Evaluator::evaluate(b, locals, globals, out, funcs, fuel) {
                    Err(e) => Err(e),
                    Ok(vb) => relational(va, vb, RelationalOp::LessThan),
                },
            },
            ExprNode::GreaterThan(a, b) => match Evaluator::evaluate(a, locals, globals, out, funcs, fuel) {
                Err(e) => Err(e),
                Ok(va) => match Evaluator::evaluate(b, locals, globals, out, funcs, fuel) {
                    Err(e) => Err(e),
                    Ok(vb) => relational(va, vb, RelationalOp::GreaterThan),
                },
            },
            ExprNode::NotEqual(a, b) => match Evaluator::evaluate(a, locals, globals, out, funcs, fuel) {
                Err(e) => Err(e),
                Ok(va) => match Evaluator::evaluate(b, locals, globals, out, funcs, fuel) {
                    Err(e) => Err(e),
                    Ok(vb) => relational(va, vb, RelationalOp::NotEqual),
                },
            },
            ExprNode::LessThanEqual(a, b) => match Evaluator::evaluate(a, locals, globals, out, funcs, fuel) {
                Err(e) => Err(e),
                Ok(va) => match Evaluator::evaluate(b, locals, globals, out, funcs, fuel) {
                    Err(e) => Err(e),
                    Ok(vb) => relational(va, vb, RelationalOp::LessThanEqual),
                },
            },
            ExprNode::GreaterThanEqual(a, b) => match Evaluator::evaluate(a, locals, globals, out, funcs, fuel) {
                Err(e) => Err(e),
                Ok(va) => match Evaluator::evaluate(b, locals, globals, out, funcs, fuel) {
                    Err(e) => Err(e),
                    Ok(vb) => relational(va, vb, RelationalOp::GreaterThanEqual),
                },
            },
            ExprNode::And(a, b) => match Evaluator::evaluate(a, locals, globals, out, funcs, fuel) {
                Err(e) => Err(e),
                Ok(va) => match Evaluator::evaluate(b, locals, globals, out, funcs, fuel) {
                    Err(e) => Err(e),
                    Ok(vb) => relational(va, vb, RelationalOp::And),
                },
            },
            ExprNode::Or(a, b) => match Evaluator::evaluate(a, locals, globals, out, funcs, fuel) {
                Err(e) => Err(e),
                Ok(va) => match Evaluator::evaluate(b, locals, globals, out, funcs, fuel) {
                    Err(e) => Err(e),
                    Ok(vb) => relational(va, vb, RelationalOp::Or),
                },
            },
            ExprNode::Not(a) => match Evaluator::evaluate(a, locals, globals, out, funcs, fuel) {
                Err(e) => Err(e),
                Ok(va) => {
                    let vc = va.clone();
                    relational(va, vc, RelationalOp::Not)
                },
            },
            ExprNode::Call(n, args) => {
                proof {
                    lemma_exprs_view_len(args@);
                    lemma_funcs_view_len(funcs@);
                }
                if fuel == 0 {
                    return Err(Error::StepsExhausted);
                }
                match globals.lookup(n) {
                    None => Err(Error::UndefinedFunction(clone_bytes(n))),
                    Some(Value::Func(fi, arity)) => {
                        if args.len() != arity {
                            Err(
                                Error::ArityMismatch {
                                    name: clone_bytes(n),
                                    expected: arity,
                                    given: args.len(),
                                },
                            )
                        } else {
                            proof {
                                lemma_exprs_view_len(args@);
                            }
                            match eval_args(args, 0, locals, globals, out, funcs, fuel) {
                                Err(e) => Err(e),
                                Ok(vals) => {
                                    proof {
                                        lemma_funcs_view_len(funcs@);
                                    }
                                    if fi < funcs.len() {
                                        Executor::execute_function(
                                            funcs,
                                            fi,
                                            globals,
                                            out,
                                            vals,
                                            fuel - 1,
                                        )
                                    } else {
                                        Err(Error::NotAFunction(clone_bytes(n)))
                                    }
                                },
                            }
                        }
                    },
                    Some(_) => Err(Error::NotAFunction(clone_bytes(n))),
                }
            },
        }
    }
}

/// Evaluates the argument expressions from `i` on, left to right,
/// following `spec_eval_args`.
pub fn eval_args(
    es: &Vec<ExprNode>,
    i: usize,
    locals: &Frame,
    globals: &mut Frame,
    out: &mut Vec<Value>,
    funcs: &Vec<FuncNode>,
    fuel: u64,
) -> (r: Result<Vec<Value>, Error>)
    ensures
        ({
            let s = spec_eval_args(
                exprs_view(es@),
                i as int,
                locals@,
                MachineV { globals: old(globals)@, out: vals_view(old(out)@) },
                funcs_view(funcs@),
                fuel as nat,
            );
            final(globals)@ == s.1.globals && vals_view(final(out)@) == s.1.out && (match r {
                Ok(vs) => s.0 is Ok && vals_view(vs@) == s.0->Ok_0,
                Err(e) => s.0 is Err && e@ == s.0->Err_0,
            })
        }),
    decreases fuel, 0nat, es@, es@.len() - i,
{
    proof {
        lemma_exprs_view_len(es@);
    }
    if i >= es.len() {
        let r: Vec<Value> = Vec::new();
        proof {
            assert(vals_view(r@) =~= Seq::<ValueV>::empty());
        }
        return Ok(r);
    }
    match Evaluator::evaluate(&es[i], locals, globals, out, funcs, fuel) {
        Err(e) => Err(e),
        Ok(v) => match eval_args(es, i + 1, locals, globals, out, funcs, fuel) {
            Err(e) => Err(e),
            Ok(rest) => {
                let ghost vv = v@;
                let ghost old_rest = rest@;
                let ghost restv = vals_view(rest@);
                let mut vs = rest;
                vs.insert(0, v);
                proof {
                    lemma_vals_view_len(old_rest);
                    lemma_vals_view_len(vs@);
                    assert(vals_view(vs@) =~= seq![vv] + restv);
                }
                Ok(vs)
            },
        },
    }
}

} // verus!
