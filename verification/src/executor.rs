//! The executor: runs statements and function bodies against the frame
//! model, implementing sequential execution, the early-return signal,
//! the loop signals, and function invocation with a fresh local frame
//! per call. The executable code is proved to follow the specification
//! functions of the evaluator module.

use vstd::prelude::*;

use crate::error::{Error, ErrorV};
use crate::evaluator::{
    ctrl_res_matches, spec_bind, spec_exec_block, spec_exec_func, spec_exec_stmt, spec_eval,
    val_res_matches, Control, ControlV, Evaluator, MachineV,
};
use crate::frame::{frame_lookup, Frame, FrameV};
use crate::token::clone_bytes;
use crate::tree::{
    funcs_view, lemma_funcs_view_len, lemma_lets_view_len, lemma_params_view_len,
    lemma_stmts_view_len, lets_view, params_view, stmts_view, FuncNode, FuncV, ProgramNode, ProgV,
    StmtNode,
};
use crate::value::{lemma_vals_view_len, vals_view, Value, ValueV};

verus! {

/// The statement and call runner.
pub struct Executor {
    pub program: ProgramNode,
}

/// Runs one statement, following `spec_exec_stmt`.
pub fn exec_stmt(
    s: &StmtNode,
    locals: &mut Frame,
    globals: &mut Frame,
    out: &mut Vec<Value>,
    funcs: &Vec<FuncNode>,
    fuel: u64,
) -> (r: Result<Control, Error>)
    ensures
        ({
            let sp = spec_exec_stmt(
                s@,
                old(locals)@,
                MachineV { globals: old(globals)@, out: vals_view(old(out)@) },
                funcs_view(funcs@),
                fuel as nat,
            );
            final(locals)@ == sp.1 && final(globals)@ == sp.2.globals && vals_view(final(out)@)
                == sp.2.out && ctrl_res_matches(r, sp.0)
        }),
    decreases fuel, 1nat, *s, 0nat,
{
    match s {
        StmtNode::Let(n) => {
            locals.declare(clone_bytes(&n.name), n.value.clone());
            Ok(Control::Next)
        },
        StmtNode::Assign(n) => {
            match Evaluator::evaluate(&n.expr, locals, globals, out, funcs, fuel) {
                Err(e) => Err(e),
                Ok(v) => {
                    let ghost vv = v@;
                    let probe = locals.lookup(&n.name);
                    match probe {
                        Some(_) => {
                            let _found = locals.set(&n.name, v);
                            Ok(Control::Next)
                        },
                        None => {
                            let gprobe = globals.lookup(&n.name);
                            match gprobe {
                                Some(_) => {
                                    let _found = globals.set(&n.name, v);
                                    Ok(Control::Next)
                                },
                                None => {
                                    locals.declare(clone_bytes(&n.name), v);
                                    Ok(Control::Next)
                                },
                            }
                        },
                    }
                },
            }
        },
        StmtNode::If(n) => {
            match Evaluator::evaluate(&n.cond, locals, globals, out, funcs, fuel) {
                Err(e) => Err(e),
                Ok(Value::Bool(b)) => {
                    if fuel == 0 {
                        Err(Error::StepsExhausted)
                    } else if b {
                        exec_block(
                            &n.block_node_true.statements,
                            0,
                            locals,
                            globals,
                            out,
                            funcs,
                            fuel - 1,
                        )
                    } else {
                        exec_block(
                            &n.block_node_false.statements,
                            0,
                            locals,
                            globals,
                            out,
                            funcs,
                            fuel - 1,
                        )
                    }
                },
                Ok(_) => Err(Error::NonBoolCondition),
            }
        },
        StmtNode::While(n) => {
            match Evaluator::evaluate(&n.cond, locals, globals, out, funcs, fuel) {
                Err(e) => Err(e),
                Ok(Value::Bool(b)) => {
                    if !b {
                        Ok(Control::Next)
                    } else if fuel == 0 {
                        Err(Error::StepsExhausted)
                    } else {
                        match exec_block(
                            &n.block_node_true.statements,
                            0,
                            locals,
                            globals,
                            out,
                            funcs,
                            fuel - 1,
                        ) {
                            Err(e) => Err(e),
                            Ok(Control::Return(v)) => Ok(Control::Return(v)),
                            Ok(Control::Break) => Ok(Control::Next),
                            Ok(_) => {
                                if fuel == 0 {
                                    Err(Error::StepsExhausted)
                                } else {
                                    exec_stmt(s, locals, globals, out, funcs, fuel - 1)
                                }
                            },
                        }
                    }
                },
                Ok(_) => Err(Error::NonBoolCondition),
            }
        },
        StmtNode::Return(n) => {
            match Evaluator::evaluate(&n.expr, locals, globals, out, funcs, fuel) {
                Err(e) => Err(e),
                Ok(v) => Ok(Control::Return(v)),
            }
        },
        StmtNode::Print(n) => {
            match Evaluator::evaluate(&n.expr, locals, globals, out, funcs, fuel) {
                Err(e) => Err(e),
                Ok(v) => {
                    let ghost old_out = out@;
                    out.push(v);
                    proof {
                        assert(out@.drop_last() =~= old_out);
                    }
                    Ok(Control::Next)
                },
            }
        },
    }
}

/// Runs a block's statements from `i` on, following `spec_exec_block`.
pub fn exec_block(
    stmts: &Vec<StmtNode>,
    i: usize,
    locals: &mut Frame,
    globals: &mut Frame,
    out: &mut Vec<Value>,
    funcs: &Vec<FuncNode>,
    fuel: u64,
) -> (r: Result<Control, Error>)
    ensures
        ({
            let sp = spec_exec_block(
                stmts_view(stmts@),
                i as int,
                old(locals)@,
                MachineV { globals: old(globals)@, out: vals_view(old(out)@) },
                funcs_view(funcs@),
                fuel as nat,
            );
            final(locals)@ == sp.1 && final(globals)@ == sp.2.globals && vals_view(final(out)@)
                == sp.2.out && ctrl_res_matches(r, sp.0)
        }),
    decreases fuel, 1nat, stmts@, stmts@.len() - i,
{
    proof {
        lemma_stmts_view_len(stmts@);
    }
    if i >= stmts.len() {
        return Ok(Control::Next);
    }
    match exec_stmt(&stmts[i], locals, globals, out, funcs, fuel) {
        Err(e) => Err(e),
        Ok(Control::Next) => exec_block(stmts, i + 1, locals, globals, out, funcs, fuel),
        Ok(c) => Ok(c),
    }
}

/// The fresh local frame of a call: parameters bound to arguments in
/// order, following `spec_bind`.
fn bind_params(params: &Vec<crate::tree::Parameter>, args: Vec<Value>) -> (r: Frame)
    requires
        params@.len() == args@.len(),
    ensures
        r@ == spec_bind(params_view(params@), vals_view(args@)),
{
    proof {
        lemma_params_view_len(params@);
        lemma_vals_view_len(args@);
    }
    let mut r = Frame::new();
    let mut i: usize = 0;
    while i < params.len()
        invariant
            0 <= i <= params@.len(),
            params@.len() == args@.len(),
            params_view(params@).len() == params@.len(),
            vals_view(args@).len() == args@.len(),
            forall|k: int| 0 <= k < params@.len() ==> params_view(params@)[k] == params@[k].name@,
            forall|k: int| 0 <= k < args@.len() ==> vals_view(args@)[k] == args@[k]@,
            r@ == spec_bind(
                params_view(params@).take(i as int),
                vals_view(args@).take(i as int),
            ),
        decreases params@.len() - i,
    {
        let name = clone_bytes(&params[i].name);
        let value = args[i].clone();
        r.declare(name, value);
        proof {
            assert(params_view(params@).take(i + 1).drop_last() =~= params_view(params@).take(
                i as int,
            ));
            assert(vals_view(args@).take(i + 1).drop_last() =~= vals_view(args@).take(i as int));
            assert(params_view(params@).take(i + 1).last() == params@[i as int].name@);
            assert(vals_view(args@).take(i + 1).last() == args@[i as int]@);
        }
        i = i + 1;
    }
    proof {
        assert(params_view(params@).take(params@.len() as int) =~= params_view(params@));
        assert(vals_view(args@).take(args@.len() as int) =~= vals_view(args@));
    }
    r
}

impl Executor {
    /// Wraps a program.
    pub fn new(program: ProgramNode) -> (r: Executor)
        ensures
            r.program@ == program@,
    {
        Executor { program }
    }

    /// Runs the function at `fi` on `args`: a fresh local frame, the
    /// body, and the value a `return` carried out, or nil. Follows
    /// `spec_exec_func`.
    pub fn execute_function(
        funcs: &Vec<FuncNode>,
        fi: usize,
        globals: &mut Frame,
        out: &mut Vec<Value>,
        args: Vec<Value>,
        fuel: u64,
    ) -> (r: Result<Value, Error>)
        requires
            fi < funcs@.len(),
        ensures
            ({
                let sp = spec_exec_func(
                    funcs_view(funcs@)[fi as int],
                    vals_view(args@),
                    MachineV { globals: old(globals)@, out: vals_view(old(out)@) },
                    funcs_view(funcs@),
                    fuel as nat,
                );
                final(globals)@ == sp.1.globals && vals_view(final(out)@) == sp.1.out
                    && val_res_matches(r, sp.0)
            }),
        decreases fuel, 2nat, funcs@[fi as int], 0nat,
    {
        proof {
            lemma_funcs_view_len(funcs@);
            lemma_vals_view_len(args@);
            lemma_params_view_len(funcs@[fi as int].parameters@);
        }
        let f = &funcs[fi];
        if args.len() != f.parameters.len() {
            return Err(
                Error::ArityMismatch {
                    name: clone_bytes(&f.name),
                    expected: f.parameters.len(),
                    given: args.len(),
                },
            );
        }
        let mut locals = bind_params(&f.parameters, args);
        match exec_block(&f.block_node.statements, 0, &mut locals, globals, out, funcs, fuel) {
            Err(e) => Err(e),
            Ok(Control::Return(v)) => Ok(v),
            Ok(_) => Ok(Value::Nil),
        }
    }
}

/// The global frame a program starts with: its declarations in order,
/// then one function value per declaration, carrying the function's
/// position and arity.
pub open spec fn spec_globals_funcs(funcs: Seq<FuncV>, i: int) -> FrameV
    decreases funcs.len() - i,
{
    if i < 0 || i >= funcs.len() {
        Seq::empty()
    } else {
        seq![(funcs[i].name, ValueV::Func(i, funcs[i].params.len() as int))] + spec_globals_funcs(
            funcs,
            i + 1,
        )
    }
}

/// The global frame of a program: global declarations, then functions.
pub open spec fn spec_build_globals(p: ProgV) -> FrameV {
    p.lets + spec_globals_funcs(p.funcs, 0)
}

/// The elementwise shape of `spec_globals_funcs`.
pub proof fn lemma_globals_funcs(funcs: Seq<FuncV>, i: int)
    requires
        0 <= i <= funcs.len(),
    ensures
        spec_globals_funcs(funcs, i).len() == funcs.len() - i,
        forall|x: int| i <= x < funcs.len() ==> #[trigger] spec_globals_funcs(funcs, i)[x - i] == (
            funcs[x].name,
            ValueV::Func(x, funcs[x].params.len() as int),
        ),
    decreases funcs.len() - i,
{
    if i < funcs.len() {
        lemma_globals_funcs(funcs, i + 1);
        assert forall|x: int| i <= x < funcs.len() implies #[trigger] spec_globals_funcs(funcs, i)[x
            - i] == (funcs[x].name, ValueV::Func(x, funcs[x].params.len() as int)) by {
            if x > i {
                assert(spec_globals_funcs(funcs, i + 1)[x - (i + 1)] == (
                    funcs[x].name,
                    ValueV::Func(x, funcs[x].params.len() as int),
                ));
            }
        }
    }
}

/// The elementwise shape of the whole global function table.
pub proof fn lemma_globals_funcs0(funcs: Seq<FuncV>)
    ensures
        spec_globals_funcs(funcs, 0).len() == funcs.len(),
        forall|x: int| 0 <= x < funcs.len() ==> #[trigger] spec_globals_funcs(funcs, 0)[x] == (
            funcs[x].name,
            ValueV::Func(x, funcs[x].params.len() as int),
        ),
{
    lemma_globals_funcs(funcs, 0);
    assert forall|x: int| 0 <= x < funcs.len() implies #[trigger] spec_globals_funcs(funcs, 0)[x]
        == (funcs[x].name, ValueV::Func(x, funcs[x].params.len() as int)) by {
        assert(spec_globals_funcs(funcs, 0)[x - 0] == (
            funcs[x].name,
            ValueV::Func(x, funcs[x].params.len() as int),
        ));
    }
}

/// Builds the global frame, following `spec_build_globals`.
pub fn build_globals(program: &ProgramNode) -> (r: Frame)
    ensures
        r@ == spec_build_globals(program@),
{
    proof {
        lemma_lets_view_len(program.let_nodes@);
        lemma_funcs_view_len(program.func_nodes@);
    }
    let mut r = Frame::new();
    let mut i: usize = 0;
    while i < program.let_nodes.len()
        invariant
            0 <= i <= program.let_nodes@.len(),
            lets_view(program.let_nodes@).len() == program.let_nodes@.len(),
            forall|k: int| 0 <= k < program.let_nodes@.len() ==> lets_view(program.let_nodes@)[k]
                == (program.let_nodes@[k].name@, program.let_nodes@[k].value@),
            r@ == lets_view(program.let_nodes@).take(i as int),
        decreases program.let_nodes@.len() - i,
    {
        let l = &program.let_nodes[i];
        r.declare(clone_bytes(&l.name), l.value.clone());
        proof {
            assert(r@ =~= lets_view(program.let_nodes@).take(i + 1));
        }
        i = i + 1;
    }
    proof {
        assert(lets_view(program.let_nodes@).take(program.let_nodes@.len() as int) =~= lets_view(
            program.let_nodes@,
        ));
    }
    let ghost lets = lets_view(program.let_nodes@);
    let ghost fv = funcs_view(program.func_nodes@);
    proof {
        lemma_globals_funcs0(fv);
        assert(r@ =~= lets + spec_globals_funcs(fv, 0).take(0));
    }
    let mut j: usize = 0;
    while j < program.func_nodes.len()
        invariant
            0 <= j <= program.func_nodes@.len(),
            fv == funcs_view(program.func_nodes@),
            fv.len() == program.func_nodes@.len(),
            forall|k: int| 0 <= k < program.func_nodes@.len() ==> fv[k] == program.func_nodes@[k]@,
            r@ == lets + spec_globals_funcs(fv, 0).take(j as int),
        decreases program.func_nodes@.len() - j,
    {
        let f = &program.func_nodes[j];
        proof {
            lemma_params_view_len(f.parameters@);
            lemma_globals_funcs0(fv);
        }
        let arity = f.parameters.len();
        r.declare(clone_bytes(&f.name), Value::Func(j, arity));
        proof {
            assert(spec_globals_funcs(fv, 0)[j as int] == (
                fv[j as int].name,
                ValueV::Func(j as int, fv[j as int].params.len() as int),
            ));
            assert(r@ =~= lets + spec_globals_funcs(fv, 0).take(j + 1));
        }
        j = j + 1;
    }
    proof {
        lemma_globals_funcs0(fv);
        assert(spec_globals_funcs(fv, 0).take(fv.len() as int) =~= spec_globals_funcs(fv, 0));
        assert(r@ =~= spec_build_globals(program@));
    }
    r
}

} // verus!
