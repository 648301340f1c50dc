//! The machine: wires the pipeline together. A program's parse trees
//! lower into a program node; the global frame is populated from its
//! declarations; `main` is resolved in the globals and run on one
//! integer argument; what comes back is `main`'s value and the output
//! the run printed.

use vstd::prelude::*;

use crate::error::{Error, ErrorV};
use crate::evaluator::{spec_exec_func, MachineV};
use crate::executor::{build_globals, spec_build_globals, Executor};
use crate::frame::{frame_lookup, Frame};
use crate::lexer::{lexer_init, Lexer, LexerV};
use crate::lower::{spec_func_grow, spec_funcs_grow};
use crate::parse_tree::{lemma_trees_view_len, trees_view, ParseTree, TreeV};
use crate::parser::{pratt_fuel, spec_program_trees, DescentParser};
use crate::tree::{funcs_view, lemma_funcs_view_len, FuncV, ProgramNode, ProgV};
use crate::value::{vals_view, Value, ValueV};

verus! {

/// The name the runner starts from.
pub open spec fn main_name() -> Seq<u8> {
    seq![109u8, 97u8, 105u8, 110u8]
}

/// What parsing and lowering a whole source text yields: its function
/// declarations, in order.
pub open spec fn spec_parse_program(input: Seq<u8>) -> Result<Seq<FuncV>, ErrorV> {
    match lexer_init(input) {
        Err(e) => Err(e),
        Ok(l) => match spec_program_trees(Seq::empty(), l, pratt_fuel(input)) {
            (Err(e), _l) => Err(e),
            (Ok(trees), _l) => spec_funcs_grow(trees),
        },
    }
}

/// What running a program yields: `main` is resolved in the global
/// frame and run on the single argument `1`; the result is its return
/// value and the printed output, or the first fault met.
pub open spec fn spec_execute(p: ProgV, fuel: nat) -> Result<(ValueV, Seq<ValueV>), ErrorV> {
    let globals = spec_build_globals(p);
    match frame_lookup(globals, main_name()) {
        None => Err(ErrorV::NoMain),
        Some(ValueV::Func(fi, _arity)) => {
            if 0 <= fi < p.funcs.len() {
                match spec_exec_func(
                    p.funcs[fi],
                    seq![ValueV::I32(1)],
                    MachineV { globals, out: Seq::empty() },
                    p.funcs,
                    fuel,
                ) {
                    (Err(e), _m) => Err(e),
                    (Ok(v), m) => Ok((v, m.out)),
                }
            } else {
                Err(ErrorV::NoMain)
            }
        },
        Some(_) => Err(ErrorV::NotAFunction(main_name())),
    }
}

/// What reading, parsing, lowering and running a source text yields.
pub open spec fn spec_run_source(input: Seq<u8>, fuel: nat) -> Result<
    (ValueV, Seq<ValueV>),
    ErrorV,
> {
    match spec_parse_program(input) {
        Err(e) => Err(e),
        Ok(funcs) => spec_execute(ProgV { lets: Seq::empty(), funcs }, fuel),
    }
}

/// A fault of an early tree stops the lowering of the whole run with
/// that fault.
proof fn lemma_funcs_grow_err(ts: Seq<TreeV>, i: int)
    requires
        0 <= i < ts.len(),
        spec_funcs_grow(ts.take(i)) is Ok,
        spec_func_grow(ts[i]) is Err,
        forall|k: int| 0 <= k < i ==> spec_func_grow(ts[k]) is Ok,
    ensures
        spec_funcs_grow(ts) == Err::<Seq<FuncV>, ErrorV>(spec_func_grow(ts[i])->Err_0),
    decreases ts.len(),
{
    if ts.len() == i + 1 {
        assert(ts.drop_last() =~= ts.take(i));
    } else {
        assert(ts.drop_last().take(i) =~= ts.take(i));
        lemma_funcs_grow_err(ts.drop_last(), i);
    }
}

/// Lowers a run of function parse trees into a program, following
/// `spec_funcs_grow`; the program holds no global declarations.
#[verifier::rlimit(50)]
pub fn lower_trees(trees: &Vec<ParseTree>) -> (r: Result<ProgramNode, Error>)
    ensures
        match r {
            Ok(p) => spec_funcs_grow(trees_view(trees@)) is Ok && p@.funcs == spec_funcs_grow(
                trees_view(trees@),
            )->Ok_0 && p@.lets == Seq::<(Seq<u8>, ValueV)>::empty(),
            Err(e) => spec_funcs_grow(trees_view(trees@)) is Err && e@ == spec_funcs_grow(
                trees_view(trees@),
            )->Err_0,
        },
{
    let ghost tv = trees_view(trees@);
    proof {
        lemma_trees_view_len(trees@);
    }
    let mut program = ProgramNode::new();
    let mut i: usize = 0;
    while i < trees.len()
        invariant
            0 <= i <= trees@.len(),
            tv == trees_view(trees@),
            tv.len() == trees@.len(),
            forall|k: int| 0 <= k < trees@.len() ==> tv[k] == crate::parse_tree::tree_view(
                trees@[k],
            ),
            forall|k: int| 0 <= k < i ==> spec_func_grow(tv[k]) is Ok,
            spec_funcs_grow(tv.take(i as int)) is Ok,
            program@.funcs == spec_funcs_grow(tv.take(i as int))->Ok_0,
            program@.lets == Seq::<(Seq<u8>, ValueV)>::empty(),
        decreases trees@.len() - i,
    {
        match trees[i].funcNode_grow() {
            Err(e) => {
                proof {
                    lemma_funcs_grow_err(tv, i as int);
                }
                return Err(e);
            },
            Ok(f) => {
                proof {
                    assert(tv.take(i + 1).drop_last() =~= tv.take(i as int));
                    assert(tv.take(i + 1).last() == tv[i as int]);
                }
                program.push_func(f);
            },
        }
        i = i + 1;
    }
    proof {
        assert(tv.take(trees@.len() as int) =~= tv);
    }
    Ok(program)
}

impl DescentParser {
    /// Parses the whole program and lowers each function declaration in
    /// turn: the result holds exactly the functions the specification
    /// names, and no global declarations.
    pub fn analyze(&mut self) -> (r: Result<ProgramNode, Error>)
        requires
            old(self).wf(),
            old(self)@.input.len() < 0x1000_0000_0000_0000,
        ensures
            final(self).wf(),
            ({
                let st = spec_program_trees(
                    Seq::empty(),
                    old(self)@,
                    pratt_fuel(old(self)@.input),
                );
                match r {
                    Ok(p) => st.0 is Ok && spec_funcs_grow(st.0->Ok_0) is Ok && p@.funcs
                        == spec_funcs_grow(st.0->Ok_0)->Ok_0 && p@.lets == Seq::<(
                        Seq<u8>,
                        ValueV,
                    )>::empty(),
                    Err(e) => (st.0 is Err && e@ == st.0->Err_0) || (st.0 is Ok && spec_funcs_grow(
                        st.0->Ok_0,
                    ) is Err && e@ == spec_funcs_grow(st.0->Ok_0)->Err_0),
                }
            }),
    {
        let trees = match self.parse_trees() {
            Err(e) => {
                return Err(e);
            },
            Ok(ts) => ts,
        };
        lower_trees(&trees)
    }
}

/// Runs a program, following `spec_execute`.
pub fn execute_program(program: &ProgramNode, fuel: u64) -> (r: Result<(Value, Vec<Value>), Error>)
    ensures
        match r {
            Ok(p) => spec_execute(program@, fuel as nat) is Ok && (p.0@, vals_view(p.1@))
                == spec_execute(program@, fuel as nat)->Ok_0,
            Err(e) => spec_execute(program@, fuel as nat) is Err && e@ == spec_execute(
                program@,
                fuel as nat,
            )->Err_0,
        },
{
    let mut globals = build_globals(program);
    let mut name: Vec<u8> = Vec::new();
    name.push(109);
    name.push(97);
    name.push(105);
    name.push(110);
    proof {
        assert(name@ =~= main_name());
        lemma_funcs_view_len(program.func_nodes@);
    }
    match globals.lookup(&name) {
        None => Err(Error::NoMain),
        Some(Value::Func(fi, _arity)) => {
            if fi < program.func_nodes.len() {
                let mut args: Vec<Value> = Vec::new();
                args.push(Value::I32(1));
                let mut out: Vec<Value> = Vec::new();
                proof {
                    assert(vals_view(args@.drop_last()) =~= Seq::<ValueV>::empty());
                    assert(vals_view(args@) =~= seq![ValueV::I32(1)]);
                    assert(vals_view(out@) =~= Seq::<ValueV>::empty());
                }
                match Executor::execute_function(
                    &program.func_nodes,
                    fi,
                    &mut globals,
                    &mut out,
                    args,
                    fuel,
                ) {
                    Err(e) => Err(e),
                    Ok(v) => Ok((v, out)),
                }
            } else {
                Err(Error::NoMain)
            }
        },
        Some(_) => Err(Error::NotAFunction(name)),
    }
}

/// The whole runtime: a program in, its analysis and execution out.
pub struct Machine {
    pub program: ProgramNode,
}

impl Machine {
    /// Wraps a program.
    pub fn new(program: ProgramNode) -> (r: Machine)
        ensures
            r.program@ == program@,
    {
        Machine { program }
    }

    /// Runs the program on the given step budget, following
    /// `spec_execute`.
    pub fn run(&self, fuel: u64) -> (r: Result<(Value, Vec<Value>), Error>)
        ensures
            match r {
                Ok(p) => spec_execute(self.program@, fuel as nat) is Ok && (p.0@, vals_view(p.1@))
                    == spec_execute(self.program@, fuel as nat)->Ok_0,
                Err(e) => spec_execute(self.program@, fuel as nat) is Err && e@ == spec_execute(
                    self.program@,
                    fuel as nat,
                )->Err_0,
            },
    {
        execute_program(&self.program, fuel)
    }
}

impl Executor {
    /// Runs the wrapped program, following `spec_execute`.
    pub fn execute(&self, fuel: u64) -> (r: Result<(Value, Vec<Value>), Error>)
        ensures
            match r {
                Ok(p) => spec_execute(self.program@, fuel as nat) is Ok && (p.0@, vals_view(p.1@))
                    == spec_execute(self.program@, fuel as nat)->Ok_0,
                Err(e) => spec_execute(self.program@, fuel as nat) is Err && e@ == spec_execute(
                    self.program@,
                    fuel as nat,
                )->Err_0,
            },
    {
        execute_program(&self.program, fuel)
    }
}

/// Reads, parses, lowers and runs a source text on the given step
/// budget, following `spec_run_source`.
pub fn run_source(input: Vec<u8>, fuel: u64) -> (r: Result<(Value, Vec<Value>), Error>)
    requires
        input@.len() < 0x1000_0000_0000_0000,
    ensures
        match r {
            Ok(p) => spec_run_source(input@, fuel as nat) is Ok && (p.0@, vals_view(p.1@))
                == spec_run_source(input@, fuel as nat)->Ok_0,
            Err(e) => spec_run_source(input@, fuel as nat) is Err && e@ == spec_run_source(
                input@,
                fuel as nat,
            )->Err_0,
        },
{
    let ghost inputv = input@;
    let lexer = match Lexer::new(input) {
        Err(e) => {
            return Err(e);
        },
        Ok(l) => l,
    };
    let mut parser = DescentParser::new(lexer);
    let program = match parser.analyze() {
        Err(e) => {
            return Err(e);
        },
        Ok(p) => p,
    };
    proof {
        assert(program@ == (ProgV {
            lets: Seq::<(Seq<u8>, ValueV)>::empty(),
            funcs: spec_parse_program(inputv)->Ok_0,
        }));
    }
    execute_program(&program, fuel)
}

} // verus!
