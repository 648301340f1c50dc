//! Runs over hand-built syntax trees: the two canonical programs, and
//! the two-level scoping of globals.

use minilang::machine::Machine;
use minilang::tree::{
    AssignNode, BlockNode, ExprNode, FuncNode, LetNode, Parameter, PrintNode, ProgramNode,
    ReturnNode, StmtNode,
};
use minilang::value::Value;

const FUEL: u64 = 1_000_000;

fn var(n: &[u8]) -> ExprNode {
    ExprNode::Var(n.to_vec())
}

fn lit(i: i32) -> ExprNode {
    ExprNode::Val(Value::I32(i))
}

#[test]
fn program_with_globals_add_and_main() {
    let mut program = ProgramNode::new();
    program.push_let(LetNode::new(b"count".to_vec(), Value::Nil));
    program.push_let(LetNode::new(b"help".to_vec(), Value::Nil));

    let mut params_add = Vec::new();
    params_add.push(Parameter::new(b"a".to_vec()));
    params_add.push(Parameter::new(b"b".to_vec()));
    let mut block_add = BlockNode::new();
    block_add.push(StmtNode::Return(ReturnNode::new(ExprNode::Add(
        Box::new(var(b"a")),
        Box::new(var(b"b")),
    ))));
    program.push_func(FuncNode::new(b"add".to_vec(), params_add, block_add));

    let mut params_main = Vec::new();
    params_main.push(Parameter::new(b"argc".to_vec()));
    let mut block_main = BlockNode::new();
    block_main.push(StmtNode::Let(LetNode::new(b"sum".to_vec(), Value::Nil)));
    block_main.push(StmtNode::Assign(AssignNode::new(
        b"sum".to_vec(),
        ExprNode::Add(
            Box::new(lit(3)),
            Box::new(ExprNode::Add(Box::new(lit(5)), Box::new(lit(7)))),
        ),
    )));
    block_main.push(StmtNode::Print(PrintNode::new(var(b"sum"))));
    block_main.push(StmtNode::Assign(AssignNode::new(
        b"sum".to_vec(),
        ExprNode::Call(b"add".to_vec(), vec![var(b"sum"), lit(1)]),
    )));
    block_main.push(StmtNode::Print(PrintNode::new(var(b"sum"))));
    program.push_func(FuncNode::new(b"main".to_vec(), params_main, block_main));

    let machine = Machine::new(program);
    let (v, out) = machine.run(FUEL).expect("program runs");
    assert!(matches!(v, Value::Nil));
    assert_eq!(out.len(), 2);
    assert!(matches!(out[0], Value::I32(15)));
    assert!(matches!(out[1], Value::I32(16)));
}

#[test]
fn global_is_visible_and_writable_inside_functions() {
    let mut program = ProgramNode::new();
    program.push_let(LetNode::new(b"g".to_vec(), Value::I32(42)));

    let mut params_bump = Vec::new();
    params_bump.push(Parameter::new(b"x".to_vec()));
    let mut block_bump = BlockNode::new();
    block_bump.push(StmtNode::Assign(AssignNode::new(
        b"g".to_vec(),
        ExprNode::Add(Box::new(var(b"g")), Box::new(lit(1))),
    )));
    block_bump.push(StmtNode::Return(ReturnNode::new(lit(0))));
    program.push_func(FuncNode::new(b"bump".to_vec(), params_bump, block_bump));

    let mut params_main = Vec::new();
    params_main.push(Parameter::new(b"argc".to_vec()));
    let mut block_main = BlockNode::new();
    block_main.push(StmtNode::Print(PrintNode::new(var(b"g"))));
    block_main.push(StmtNode::Assign(AssignNode::new(
        b"ignored".to_vec(),
        ExprNode::Call(b"bump".to_vec(), vec![lit(0)]),
    )));
    block_main.push(StmtNode::Assign(AssignNode::new(
        b"ignored".to_vec(),
        ExprNode::Call(b"bump".to_vec(), vec![lit(0)]),
    )));
    block_main.push(StmtNode::Return(ReturnNode::new(var(b"g"))));
    program.push_func(FuncNode::new(b"main".to_vec(), params_main, block_main));

    let machine = Machine::new(program);
    let (v, out) = machine.run(FUEL).expect("program runs");
    assert_eq!(out.len(), 1);
    assert!(matches!(out[0], Value::I32(42)));
    assert!(matches!(v, Value::I32(44)));
}
