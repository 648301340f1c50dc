//! End-to-end runs of the interpreter pipeline: source text in, printed
//! values and a final value out.

use minilang::error::{ArithmeticOp, Error, ValueKind};
use minilang::machine::run_source;
use minilang::value::Value;

const FUEL: u64 = 1_000_000;

#[test]
fn binding_power_mul_binds_tighter_than_add() {
    let src = b"func main(argc) [ let x; x = 1 + 2 * 3; print x; ]".to_vec();
    let (_v, out) = run_source(src, FUEL).expect("program runs");
    assert_eq!(out.len(), 1);
    assert!(matches!(out[0], Value::I32(7)));
}

#[test]
fn binding_power_parens_override() {
    let src = b"func main(argc) [ let x; x = (1 + 2) * 3; print x; ]".to_vec();
    let (_v, out) = run_source(src, FUEL).expect("program runs");
    assert_eq!(out.len(), 1);
    assert!(matches!(out[0], Value::I32(9)));
}

#[test]
fn scenario_add_and_call() {
    let src = b"func add(a, b) [ return a + b; ] \
                func main(argc) [ let sum; sum = 3 + (5 + 7); print sum; sum = add(sum, 1); print sum; ]"
        .to_vec();
    let (_v, out) = run_source(src, FUEL).expect("program runs");
    assert_eq!(out.len(), 2);
    assert!(matches!(out[0], Value::I32(15)));
    assert!(matches!(out[1], Value::I32(16)));
}

#[test]
fn scenario_factorial_recursion() {
    let src = b"func factorial_recursion(n) [ print n; if n < 2 [ return n; ] else [ return n * factorial_recursion(n - 1); ] ] \
                func main(argc) [ let result; result = factorial_recursion(5); print result; ]"
        .to_vec();
    let (_v, out) = run_source(src, FUEL).expect("program runs");
    let got: Vec<i32> = out
        .iter()
        .map(|v| match v {
            Value::I32(i) => *i,
            _ => panic!("only integers expected"),
        })
        .collect();
    assert_eq!(got, vec![5, 4, 3, 2, 1, 120]);
}

#[test]
fn arity_mismatch_one_argument_is_fatal() {
    let src = b"func add(a, b) [ return a + b; ] func main(argc) [ return add(1); ]".to_vec();
    match run_source(src, FUEL) {
        Err(Error::ArityMismatch { name, expected, given }) => {
            assert_eq!(name, b"add".to_vec());
            assert_eq!(expected, 2);
            assert_eq!(given, 1);
        },
        _ => panic!("expected an arity fault"),
    }
}

#[test]
fn arity_mismatch_three_arguments_is_fatal() {
    let src = b"func add(a, b) [ return a + b; ] func main(argc) [ return add(1, 2, 3); ]"
        .to_vec();
    match run_source(src, FUEL) {
        Err(Error::ArityMismatch { name, expected, given }) => {
            assert_eq!(name, b"add".to_vec());
            assert_eq!(expected, 2);
            assert_eq!(given, 3);
        },
        _ => panic!("expected an arity fault"),
    }
}

#[test]
fn arity_match_succeeds() {
    let src = b"func add(a, b) [ return a + b; ] func main(argc) [ return add(1, 2); ]".to_vec();
    let (v, _out) = run_source(src, FUEL).expect("program runs");
    assert!(matches!(v, Value::I32(3)));
}

#[test]
fn type_mismatch_add_bool_is_fatal() {
    let src = b"func main(argc) [ return 1 + true; ]".to_vec();
    match run_source(src, FUEL) {
        Err(Error::ArithOperand { op, kind, right }) => {
            assert!(matches!(op, ArithmeticOp::Add));
            assert!(matches!(kind, ValueKind::Bool));
            assert!(right);
        },
        _ => panic!("expected an operand-kind fault"),
    }
}

#[test]
fn local_does_not_leak_into_caller() {
    let src = b"func helper(a) [ let z; z = 5; return a; ] \
                func main(argc) [ let tmp; tmp = helper(1); return z; ]"
        .to_vec();
    match run_source(src, FUEL) {
        Err(Error::UndefinedVariable(name)) => assert_eq!(name, b"z".to_vec()),
        _ => panic!("expected an undefined-variable fault"),
    }
}

#[test]
fn while_loop_counts_down() {
    let src = b"func main(argc) [ let i; i = 3; while i > 0 [ print i; i = i - 1; ] ]".to_vec();
    let (_v, out) = run_source(src, FUEL).expect("program runs");
    let got: Vec<i32> = out
        .iter()
        .map(|v| match v {
            Value::I32(i) => *i,
            _ => panic!("only integers expected"),
        })
        .collect();
    assert_eq!(got, vec![3, 2, 1]);
}

#[test]
fn division_by_zero_is_fatal() {
    let src = b"func main(argc) [ return 1 / 0; ]".to_vec();
    assert!(matches!(run_source(src, FUEL), Err(Error::DivisionByZero)));
}

#[test]
fn overflow_is_fatal() {
    let src = b"func main(argc) [ return 2000000000 + 2000000000; ]".to_vec();
    assert!(matches!(run_source(src, FUEL), Err(Error::Overflow)));
}

#[test]
fn numeric_string_coerces_in_arithmetic() {
    let src = b"func main(argc) [ return \"5\" + 3; ]".to_vec();
    let (v, _out) = run_source(src, FUEL).expect("program runs");
    assert!(matches!(v, Value::I32(8)));
}

#[test]
fn non_numeric_string_operand_is_fatal() {
    let src = b"func main(argc) [ return \"abc\" + 3; ]".to_vec();
    assert!(matches!(run_source(src, FUEL), Err(Error::BadStringNumber)));
}

#[test]
fn missing_main_is_fatal() {
    let src = b"func helper(a) [ return a; ]".to_vec();
    assert!(matches!(run_source(src, FUEL), Err(Error::NoMain)));
}

#[test]
fn main_falls_through_to_nil() {
    let src = b"func main(argc) [ let x; x = 1; ]".to_vec();
    let (v, _out) = run_source(src, FUEL).expect("program runs");
    assert!(matches!(v, Value::Nil));
}

#[test]
fn return_short_circuits_rest_of_block() {
    let src = b"func main(argc) [ if 1 < 2 [ return 10; ] print 99; return 20; ]".to_vec();
    let (v, out) = run_source(src, FUEL).expect("program runs");
    assert!(matches!(v, Value::I32(10)));
    assert_eq!(out.len(), 0);
}

#[test]
fn else_branch_runs_when_condition_false() {
    let src = b"func main(argc) [ if 2 < 1 [ return 1; ] else [ return 2; ] ]".to_vec();
    let (v, _out) = run_source(src, FUEL).expect("program runs");
    assert!(matches!(v, Value::I32(2)));
}

#[test]
fn not_negates_booleans() {
    let src = b"func main(argc) [ if not false [ return 1; ] else [ return 2; ] ]".to_vec();
    let (v, _out) = run_source(src, FUEL).expect("program runs");
    assert!(matches!(v, Value::I32(1)));
}

#[test]
fn unary_minus_subtracts_from_zero() {
    let src = b"func main(argc) [ return 0 - 7; ]".to_vec();
    let (v, _out) = run_source(src, FUEL).expect("program runs");
    assert!(matches!(v, Value::I32(-7)));
}

#[test]
fn runaway_recursion_exhausts_the_budget() {
    let src = b"func loop_on(n) [ return loop_on(n); ] func main(argc) [ return loop_on(1); ]"
        .to_vec();
    assert!(matches!(run_source(src, 1000), Err(Error::StepsExhausted)));
}
