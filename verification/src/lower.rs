//! Tree lowering: from the generic, token-shaped parse tree to the typed
//! abstract syntax tree, dispatching purely on each node's root token and
//! recursing into its children. The rules are stated as specification
//! functions over tree values, and the executable pass is proved to
//! follow them.
#![allow(non_snake_case)]

use vstd::prelude::*;

use crate::error::{Error, ErrorV};
use crate::parse_tree::{lemma_trees_view_len, trees_view, ParseTree, TreeV};
use crate::token::{clone_bytes, kind, TokenKind, TokenV};
use crate::tree::{
    exprs_view, lemma_exprs_view_len, lemma_params_view_len, lemma_stmts_view_len, params_view,
    stmts_view, ExprNode, ExprV, FuncNode, FuncV, Parameter, StmtNode, StmtV, AssignNode, BlockNode,
    IfNode, LetNode, PrintNode, ReturnNode, WhileNode,
};
use crate::value::{Value, ValueV};

verus! {

/// The lowering of a node's first child as an expression.
pub open spec fn spec_grow1(t: TreeV) -> Result<ExprV, ErrorV>
    decreases t, 0nat, 0nat,
{
    if t.children.len() < 1 {
        Err(ErrorV::LowerShape)
    } else {
        spec_expr_grow(t.children[0])
    }
}

/// The lowering of a node's first two children as expressions.
pub open spec fn spec_grow2(t: TreeV) -> Result<(ExprV, ExprV), ErrorV>
    decreases t, 0nat, 0nat,
{
    if t.children.len() < 2 {
        Err(ErrorV::LowerShape)
    } else {
        match spec_expr_grow(t.children[0]) {
            Err(e) => Err(e),
            Ok(a) => match spec_expr_grow(t.children[1]) {
                Err(e) => Err(e),
                Ok(b) => Ok((a, b)),
            },
        }
    }
}

/// The expression a parse tree lowers to: operators map to their typed
/// nodes, a parenthesized tree lowers transparently to its child, a bare
/// subtraction becomes a subtraction from zero, literals carry their
/// values, and an identifier with an argument-list child becomes a call.
pub open spec fn spec_expr_grow(t: TreeV) -> Result<ExprV, ErrorV>
    decreases t, 1nat, 0nat,
{
    match t.token {
        TokenV::PAREN_L => spec_grow1(t),
        TokenV::OP_ADD => match spec_grow2(t) {
            Err(e) => Err(e),
            Ok(p) => Ok(ExprV::Add(Box::new(p.0), Box::new(p.1))),
        },
        TokenV::OP_SUB => {
            if t.children.len() > 1 {
                match spec_grow2(t) {
                    Err(e) => Err(e),
                    Ok(p) => Ok(ExprV::Sub(Box::new(p.0), Box::new(p.1))),
                }
            } else {
                match spec_grow1(t) {
                    Err(e) => Err(e),
                    Ok(a) => Ok(
                        ExprV::Sub(Box::new(ExprV::Val(ValueV::I32(0))), Box::new(a)),
                    ),
                }
            }
        },
        TokenV::OP_MUL => match spec_grow2(t) {
            Err(e) => Err(e),
            Ok(p) => Ok(ExprV::Mul(Box::new(p.0), Box::new(p.1))),
        },
        TokenV::OP_DIV => match spec_grow2(t) {
            Err(e) => Err(e),
            Ok(p) => Ok(ExprV::Div(Box::new(p.0), Box::new(p.1))),
        },
        TokenV::OP_EQ => match spec_grow2(t) {
            Err(e) => Err(e),
            Ok(p) => Ok(ExprV::Equal(Box::new(p.0), Box::new(p.1))),
        },
        TokenV::OP_LT => match spec_grow2(t) {
            Err(e) => Err(e),
            Ok(p) => Ok(ExprV::LessThan(Box::new(p.0), Box::new(p.1))),
        },
        TokenV::OP_GT => match spec_grow2(t) {
            Err(e) => Err(e),
            Ok(p) => Ok(ExprV::GreaterThan(Box::new(p.0), Box::new(p.1))),
        },
        TokenV::OP_NEQ => match spec_grow2(t) {
            Err(e) => Err(e),
            Ok(p) => Ok(ExprV::NotEqual(Box::new(p.0), Box::new(p.1))),
        },
        TokenV::OP_NLT => match spec_grow2(t) {
            Err(e) => Err(e),
            Ok(p) => Ok(ExprV::GreaterThanEqual(Box::new(p.0), Box::new(p.1))),
        },
        TokenV::OP_NGT => match spec_grow2(t) {
            Err(e) => Err(e),
            Ok(p) => Ok(ExprV::LessThanEqual(Box::new(p.0), Box::new(p.1))),
        },
        TokenV::OP_NOT => match spec_grow1(t) {
            Err(e) => Err(e),
            Ok(a) => Ok(ExprV::Not(Box::new(a))),
        },
        TokenV::OP_AND => match spec_grow2(t) {
            Err(e) => Err(e),
            Ok(p) => Ok(ExprV::And(Box::new(p.0), Box::new(p.1))),
        },
        TokenV::OP_OR => match spec_grow2(t) {
            Err(e) => Err(e),
            Ok(p) => Ok(ExprV::Or(Box::new(p.0), Box::new(p.1))),
        },
        TokenV::ID(name) => {
            if t.children.len() > 0 {
                match spec_args_grow(t.children[0].children) {
                    Err(e) => Err(e),
                    Ok(args) => Ok(ExprV::Call(name, args)),
                }
            } else {
                Ok(ExprV::Var(name))
            }
        },
        TokenV::LIT_I32(i) => Ok(ExprV::Val(ValueV::I32(i))),
        TokenV::LIT_F32(s) => Ok(ExprV::Val(ValueV::F32(s))),
        TokenV::LIT_CHAR(c) => Ok(ExprV::Val(ValueV::Chars(seq![c]))),
        TokenV::LIT_STRING(s) => Ok(ExprV::Val(ValueV::Chars(s))),
        TokenV::LIT_BOOL(b) => Ok(ExprV::Val(ValueV::Bool(b))),
        _ => Err(ErrorV::LowerShape),
    }
}

/// The call arguments a list of subtrees lowers to, left to right.
pub open spec fn spec_args_grow(cs: Seq<TreeV>) -> Result<Seq<ExprV>, ErrorV>
    decreases cs, 0nat, 0nat,
{
    if cs.len() == 0 {
        Ok(Seq::empty())
    } else {
        match spec_args_grow(cs.drop_last()) {
            Err(e) => Err(e),
            Ok(rest) => match spec_expr_grow(cs.last()) {
                Err(e) => Err(e),
                Ok(a) => Ok(rest.push(a)),
            },
        }
    }
}

/// The declared name inside a `let` statement's expression tree: the
/// leftmost identifier.
pub open spec fn spec_let_name(t: TreeV) -> Result<Seq<u8>, ErrorV>
    decreases t, 0nat, 0nat,
{
    match t.token {
        TokenV::ID(n) => Ok(n),
        _ => {
            if t.children.len() >= 1 {
                spec_let_name(t.children[0])
            } else {
                Err(ErrorV::LowerShape)
            }
        },
    }
}

/// The statements a run of subtrees lowers to, from `i` up to the
/// block-close marker or the end.
pub open spec fn spec_stmts_from(cs: Seq<TreeV>, i: int) -> Result<Seq<StmtV>, ErrorV>
    decreases cs, 3nat, cs.len() - i,
{
    if i < 0 || i >= cs.len() {
        Ok(Seq::empty())
    } else if kind(cs[i].token) == TokenKind::BRACKET_R {
        Ok(Seq::empty())
    } else {
        match spec_stmt_grow(cs[i]) {
            Err(e) => Err(e),
            Ok(st) => match spec_stmts_from(cs, i + 1) {
                Err(e) => Err(e),
                Ok(rest) => Ok(seq![st] + rest),
            },
        }
    }
}

/// The false-branch statements of an `if` tree: from a trailing `else`
/// subtree, which holds either a chained `if` or a bracketed run; with
/// no trailing `else` the branch is empty.
pub open spec fn spec_else_grow(t: TreeV) -> Result<Seq<StmtV>, ErrorV>
    decreases t, 1nat, 0nat,
{
    if t.children.len() >= 1 && kind(t.children[t.children.len() - 1].token) == TokenKind::ELSE {
        let last = t.children[t.children.len() - 1];
        if last.children.len() >= 1 && kind(last.children[0].token) == TokenKind::IF {
            match spec_stmt_grow(last.children[0]) {
                Err(e) => Err(e),
                Ok(st) => Ok(seq![st]),
            }
        } else {
            spec_stmts_from(last.children, 1)
        }
    } else {
        Ok(Seq::empty())
    }
}

/// The statement a parse tree lowers to.
pub open spec fn spec_stmt_grow(t: TreeV) -> Result<StmtV, ErrorV>
    decreases t, 2nat, 0nat,
{
    match t.token {
        TokenV::RETURN => match spec_grow1(t) {
            Err(e) => Err(e),
            Ok(a) => Ok(StmtV::Return { expr: a }),
        },
        TokenV::PRINT => match spec_grow1(t) {
            Err(e) => Err(e),
            Ok(a) => Ok(StmtV::Print { expr: a }),
        },
        TokenV::OP_ASSIGN => {
            if t.children.len() < 2 {
                Err(ErrorV::LowerShape)
            } else {
                match t.children[0].token {
                    TokenV::ID(n) => match spec_expr_grow(t.children[1]) {
                        Err(e) => Err(e),
                        Ok(a) => Ok(StmtV::Assign { name: n, expr: a }),
                    },
                    _ => Err(ErrorV::LowerShape),
                }
            }
        },
        TokenV::LET => {
            if t.children.len() < 1 {
                Err(ErrorV::LowerShape)
            } else {
                match spec_let_name(t.children[0]) {
                    Err(e) => Err(e),
                    Ok(n) => Ok(StmtV::Let { name: n, value: ValueV::Nil }),
                }
            }
        },
        TokenV::IF => {
            if t.children.len() < 2 {
                Err(ErrorV::LowerShape)
            } else {
                match spec_expr_grow(t.children[0]) {
                    Err(e) => Err(e),
                    Ok(cond) => match spec_stmts_from(t.children, 2) {
                        Err(e) => Err(e),
                        Ok(then_block) => match spec_else_grow(t) {
                            Err(e) => Err(e),
                            Ok(else_block) => Ok(StmtV::If { cond, then_block, else_block }),
                        },
                    },
                }
            }
        },
        TokenV::WHILE => {
            if t.children.len() < 2 {
                Err(ErrorV::LowerShape)
            } else {
                match spec_expr_grow(t.children[0]) {
                    Err(e) => Err(e),
                    Ok(cond) => match spec_stmts_from(t.children, 2) {
                        Err(e) => Err(e),
                        Ok(body) => Ok(StmtV::While { cond, body }),
                    },
                }
            }
        },
        _ => Err(ErrorV::LowerShape),
    }
}

/// The parameter names inside a parameter-list subtree, between the
/// parens.
pub open spec fn spec_params_grow(cs: Seq<TreeV>, i: int) -> Result<Seq<Seq<u8>>, ErrorV>
    decreases cs.len() - i,
{
    if i < 0 || i >= cs.len() - 1 {
        Ok(Seq::empty())
    } else {
        match cs[i].token {
            TokenV::ID(n) => match spec_params_grow(cs, i + 1) {
                Err(e) => Err(e),
                Ok(rest) => Ok(seq![n] + rest),
            },
            _ => Err(ErrorV::LowerShape),
        }
    }
}

/// The function a `func` parse tree lowers to: the name and parameters
/// from the parameter-list subtree, the body from the last child.
pub open spec fn spec_func_grow(t: TreeV) -> Result<FuncV, ErrorV> {
    if t.children.len() < 2 {
        Err(ErrorV::LowerShape)
    } else {
        let params_node = t.children[0];
        let block = t.children[t.children.len() - 1];
        match params_node.token {
            TokenV::ID(name) => {
                if params_node.children.len() < 2 {
                    Err(ErrorV::LowerShape)
                } else {
                    match spec_params_grow(params_node.children, 1) {
                        Err(e) => Err(e),
                        Ok(params) => {
                            if kind(block.token) == TokenKind::BRACKET_L {
                                match spec_stmts_from(block.children, 0) {
                                    Err(e) => Err(e),
                                    Ok(body) => Ok(FuncV { name, params, body }),
                                }
                            } else {
                                Err(ErrorV::LowerShape)
                            }
                        },
                    }
                }
            },
            _ => Err(ErrorV::LowerShape),
        }
    }
}

/// The functions a sequence of `func` parse trees lowers to, in order.
pub open spec fn spec_funcs_grow(ts: Seq<TreeV>) -> Result<Seq<FuncV>, ErrorV>
    decreases ts.len(),
{
    if ts.len() == 0 {
        Ok(Seq::empty())
    } else {
        match spec_funcs_grow(ts.drop_last()) {
            Err(e) => Err(e),
            Ok(rest) => match spec_func_grow(ts.last()) {
                Err(e) => Err(e),
                Ok(f) => Ok(rest.push(f)),
            },
        }
    }
}

/// Whether an executable expression result agrees with a specification
/// result.
pub open spec fn expr_res_matches(r: Result<ExprNode, Error>, s: Result<ExprV, ErrorV>) -> bool {
    match r {
        Ok(t) => s is Ok && t@ == s->Ok_0,
        Err(e) => s is Err && e@ == s->Err_0,
    }
}

/// Whether an executable statement result agrees with a specification
/// result.
pub open spec fn stmt_res_matches(r: Result<StmtNode, Error>, s: Result<StmtV, ErrorV>) -> bool {
    match r {
        Ok(t) => s is Ok && t@ == s->Ok_0,
        Err(e) => s is Err && e@ == s->Err_0,
    }
}

impl ParseTree {
    /// Lowers this tree's first child as an expression.
    fn grow1(&self) -> (r: Result<ExprNode, Error>)
        ensures
            expr_res_matches(r, spec_grow1(self@)),
        decreases *self, 0nat, 0nat,
    {
        proof {
            lemma_trees_view_len(self.children@);
        }
        if self.children.len() < 1 {
            Err(Error::LowerShape)
        } else {
            self.children[0].exprNode_grow()
        }
    }

    /// Lowers this tree's first two children as expressions.
    fn grow2(&self) -> (r: Result<(ExprNode, ExprNode), Error>)
        ensures
            match r {
                Ok(p) => spec_grow2(self@) is Ok && (p.0@, p.1@) == spec_grow2(self@)->Ok_0,
                Err(e) => spec_grow2(self@) is Err && e@ == spec_grow2(self@)->Err_0,
            },
        decreases *self, 0nat, 0nat,
    {
        proof {
            lemma_trees_view_len(self.children@);
        }
        if self.children.len() < 2 {
            Err(Error::LowerShape)
        } else {
            match self.children[0].exprNode_grow() {
                Err(e) => Err(e),
                Ok(a) => match self.children[1].exprNode_grow() {
                    Err(e) => Err(e),
                    Ok(b) => Ok((a, b)),
                },
            }
        }
    }

    /// Lowers this tree as an expression, following `spec_expr_grow`.
    pub fn exprNode_grow(&self) -> (r: Result<ExprNode, Error>)
        ensures
            expr_res_matches(r, spec_expr_grow(self@)),
        decreases *self, 1nat, 0nat,
    {
        proof {
            lemma_trees_view_len(self.children@);
        }
        match &self.token {
            crate::token::Token::PAREN_L => self.grow1(),
            crate::token::Token::OP_ADD => match self.grow2() {
                Err(e) => Err(e),
                Ok(p) => Ok(ExprNode::Add(Box::new(p.0), Box::new(p.1))),
            },
            crate::token::Token::OP_SUB => {
                proof {
                    assert(self@.children == trees_view(self.children@));
                    assert(self@.children.len() == self.children@.len());
                }
                if self.children.len() > 1 {
                    match self.grow2() {
                        Err(e) => Err(e),
                        Ok(p) => {
                            let ghost av = p.0@;
                            let ghost bv = p.1@;
                            let rr = ExprNode::Sub(Box::new(p.0), Box::new(p.1));
                            proof {
                                assert(spec_grow2(self@) is Ok);
                                assert(spec_grow2(self@)->Ok_0 == (av, bv));
                                assert(rr@ == ExprV::Sub(Box::new(av), Box::new(bv)));
                                assert(spec_expr_grow(self@) == Ok::<ExprV, ErrorV>(
                                    ExprV::Sub(Box::new(av), Box::new(bv)),
                                ));
                            }
                            Ok(rr)
                        },
                    }
                } else {
                    match self.grow1() {
                        Err(e) => Err(e),
                        Ok(a) => {
                            let ghost av = a@;
                            let rr = ExprNode::Sub(
                                Box::new(ExprNode::Val(Value::I32(0))),
                                Box::new(a),
                            );
                            proof {
                                assert(crate::tree::expr_view(ExprNode::Val(Value::I32(0)))
                                    == ExprV::Val(ValueV::I32(0)));
                                assert(rr@ == ExprV::Sub(
                                    Box::new(ExprV::Val(ValueV::I32(0))),
                                    Box::new(av),
                                ));
                                assert(spec_expr_grow(self@) == Ok::<ExprV, ErrorV>(
                                    ExprV::Sub(Box::new(ExprV::Val(ValueV::I32(0))), Box::new(av)),
                                ));
                            }
                            Ok(rr)
                        },
                    }
                }
            },
            crate::token::Token::OP_MUL => match self.grow2() {
                Err(e) => Err(e),
                Ok(p) => Ok(ExprNode::Mul(Box::new(p.0), Box::new(p.1))),
            },
            crate::token::Token::OP_DIV => match self.grow2() {
                Err(e) => Err(e),
                Ok(p) => Ok(ExprNode::Div(Box::new(p.0), Box::new(p.1))),
            },
            crate::token::Token::OP_EQ => match self.grow2() {
                Err(e) => Err(e),
                Ok(p) => Ok(ExprNode::Equal(Box::new(p.0), Box::new(p.1))),
            },
            crate::token::Token::OP_LT => match self.grow2() {
                Err(e) => Err(e),
                Ok(p) => Ok(ExprNode::LessThan(Box::new(p.0), Box::new(p.1))),
            },
            crate::token::Token::OP_GT => match self.grow2() {
                Err(e) => Err(e),
                Ok(p) => Ok(ExprNode::GreaterThan(Box::new(p.0), Box::new(p.1))),
            },
            crate::token::Token::OP_NEQ => match self.grow2() {
                Err(e) => Err(e),
                Ok(p) => Ok(ExprNode::NotEqual(Box::new(p.0), Box::new(p.1))),
            },
            crate::token::Token::OP_NLT => match self.grow2() {
                Err(e) => Err(e),
                Ok(p) => Ok(ExprNode::GreaterThanEqual(Box::new(p.0), Box::new(p.1))),
            },
            crate::token::Token::OP_NGT => match self.grow2() {
                Err(e) => Err(e),
                Ok(p) => Ok(ExprNode::LessThanEqual(Box::new(p.0), Box::new(p.1))),
            },
            crate::token::Token::OP_NOT => match self.grow1() {
                Err(e) => Err(e),
                Ok(a) => Ok(ExprNode::Not(Box::new(a))),
            },
            crate::token::Token::OP_AND => match self.grow2() {
                Err(e) => Err(e),
                Ok(p) => Ok(ExprNode::And(Box::new(p.0), Box::new(p.1))),
            },
            crate::token::Token::OP_OR => match self.grow2() {
                Err(e) => Err(e),
                Ok(p) => Ok(ExprNode::Or(Box::new(p.0), Box::new(p.1))),
            },
            crate::token::Token::ID(name) => {
                if self.children.len() > 0 {
                    let argtrees = &self.children[0].children;
                    proof {
                        assert(self@.children[0] == crate::parse_tree::tree_view(
                            self.children@[0],
                        ));
                        assert(self@.children[0].children == trees_view(self.children@[0].children@));
                        lemma_trees_view_len(argtrees@);
                        assert(trees_view(argtrees@).take(argtrees@.len() as int) =~= trees_view(
                            argtrees@,
                        ));
                    }
                    let m = argtrees.len();
                    match args_grow_upto(argtrees, m) {
                        Err(e) => Err(e),
                        Ok(args) => Ok(ExprNode::Call(clone_bytes(name), args)),
                    }
                } else {
                    Ok(ExprNode::Var(clone_bytes(name)))
                }
            },
            crate::token::Token::LIT_I32(i) => Ok(ExprNode::Val(Value::I32(*i))),
            crate::token::Token::LIT_F32(s) => Ok(ExprNode::Val(Value::F32(clone_bytes(s)))),
            crate::token::Token::LIT_CHAR(c) => {
                let mut v: Vec<u8> = Vec::new();
                v.push(*c);
                proof {
                    assert(v@ =~= seq![*c]);
                }
                Ok(ExprNode::Val(Value::Chars(v)))
            },
            crate::token::Token::LIT_STRING(s) => Ok(ExprNode::Val(Value::Chars(clone_bytes(s)))),
            crate::token::Token::LIT_BOOL(b) => Ok(ExprNode::Val(Value::Bool(*b))),
            _ => Err(Error::LowerShape),
        }
    }

    /// The declared name inside a `let` expression tree, following
    /// `spec_let_name`.
    fn let_name(&self) -> (r: Result<Vec<u8>, Error>)
        ensures
            match r {
                Ok(n) => spec_let_name(self@) is Ok && n@ == spec_let_name(self@)->Ok_0,
                Err(e) => spec_let_name(self@) is Err && e@ == spec_let_name(self@)->Err_0,
            },
        decreases *self, 0nat, 0nat,
    {
        proof {
            lemma_trees_view_len(self.children@);
        }
        match &self.token {
            crate::token::Token::ID(n) => Ok(clone_bytes(n)),
            _ => {
                if self.children.len() >= 1 {
                    self.children[0].let_name()
                } else {
                    Err(Error::LowerShape)
                }
            },
        }
    }

    /// Lowers this tree as a statement, following `spec_stmt_grow`.
    pub fn stmtNode_grow(&self) -> (r: Result<StmtNode, Error>)
        ensures
            stmt_res_matches(r, spec_stmt_grow(self@)),
        decreases *self, 2nat, 0nat,
    {
        proof {
            lemma_trees_view_len(self.children@);
        }
        match &self.token {
            crate::token::Token::RETURN => match self.grow1() {
                Err(e) => Err(e),
                Ok(a) => Ok(StmtNode::Return(ReturnNode::new(a))),
            },
            crate::token::Token::PRINT => match self.grow1() {
                Err(e) => Err(e),
                Ok(a) => Ok(StmtNode::Print(PrintNode::new(a))),
            },
            crate::token::Token::OP_ASSIGN => {
                if self.children.len() < 2 {
                    Err(Error::LowerShape)
                } else {
                    match &self.children[0].token {
                        crate::token::Token::ID(n) => match self.children[1].exprNode_grow() {
                            Err(e) => Err(e),
                            Ok(a) => Ok(StmtNode::Assign(AssignNode::new(clone_bytes(n), a))),
                        },
                        _ => Err(Error::LowerShape),
                    }
                }
            },
            crate::token::Token::LET => {
                if self.children.len() < 1 {
                    Err(Error::LowerShape)
                } else {
                    match self.children[0].let_name() {
                        Err(e) => Err(e),
                        Ok(n) => Ok(StmtNode::Let(LetNode::new(n, Value::Nil))),
                    }
                }
            },
            crate::token::Token::IF => {
                if self.children.len() < 2 {
                    Err(Error::LowerShape)
                } else {
                    match self.children[0].exprNode_grow() {
                        Err(e) => Err(e),
                        Ok(cond) => match stmts_from(&self.children, 2) {
                            Err(e) => Err(e),
                            Ok(then_block) => match self.else_grow() {
                                Err(e) => Err(e),
                                Ok(else_block) => Ok(
                                    StmtNode::If(IfNode::new(cond, then_block, else_block)),
                                ),
                            },
                        },
                    }
                }
            },
            crate::token::Token::WHILE => {
                if self.children.len() < 2 {
                    Err(Error::LowerShape)
                } else {
                    match self.children[0].exprNode_grow() {
                        Err(e) => Err(e),
                        Ok(cond) => match stmts_from(&self.children, 2) {
                            Err(e) => Err(e),
                            Ok(body) => Ok(StmtNode::While(WhileNode::new(cond, body))),
                        },
                    }
                }
            },
            _ => Err(Error::LowerShape),
        }
    }

    /// The false branch of an `if` tree, following `spec_else_grow`.
    fn else_grow(&self) -> (r: Result<BlockNode, Error>)
        ensures
            match r {
                Ok(b) => spec_else_grow(self@) is Ok && b@ == spec_else_grow(self@)->Ok_0,
                Err(e) => spec_else_grow(self@) is Err && e@ == spec_else_grow(self@)->Err_0,
            },
        decreases *self, 1nat, 0nat,
    {
        proof {
            lemma_trees_view_len(self.children@);
        }
        let n = self.children.len();
        if n >= 1 && self.children[n - 1].token.kind_of() == TokenKind::ELSE {
            let last = &self.children[n - 1];
            proof {
                lemma_trees_view_len(last.children@);
            }
            if last.children.len() >= 1 && last.children[0].token.kind_of() == TokenKind::IF {
                match last.children[0].stmtNode_grow() {
                    Err(e) => Err(e),
                    Ok(st) => {
                        let ghost stv = st@;
                        let mut b = BlockNode::new();
                        b.push(st);
                        proof {
                            assert(b@ =~= seq![stv]);
                        }
                        Ok(b)
                    },
                }
            } else {
                stmts_from(&last.children, 1)
            }
        } else {
            Ok(BlockNode::new())
        }
    }

    /// Lowers this `func` tree as a function declaration, following
    /// `spec_func_grow`.
    pub fn funcNode_grow(&self) -> (r: Result<FuncNode, Error>)
        ensures
            match r {
                Ok(f) => spec_func_grow(self@) is Ok && f@ == spec_func_grow(self@)->Ok_0,
                Err(e) => spec_func_grow(self@) is Err && e@ == spec_func_grow(self@)->Err_0,
            },
    {
        proof {
            lemma_trees_view_len(self.children@);
        }
        if self.children.len() < 2 {
            return Err(Error::LowerShape);
        }
        let params_node = &self.children[0];
        let block = &self.children[self.children.len() - 1];
        proof {
            lemma_trees_view_len(params_node.children@);
            lemma_trees_view_len(block.children@);
        }
        match &params_node.token {
            crate::token::Token::ID(name) => {
                if params_node.children.len() < 2 {
                    Err(Error::LowerShape)
                } else {
                    match params_grow(&params_node.children, 1) {
                        Err(e) => Err(e),
                        Ok(params) => {
                            if block.token.kind_of() == TokenKind::BRACKET_L {
                                match stmts_from(&block.children, 0) {
                                    Err(e) => Err(e),
                                    Ok(body) => Ok(
                                        FuncNode::new(clone_bytes(name), params, body),
                                    ),
                                }
                            } else {
                                Err(Error::LowerShape)
                            }
                        },
                    }
                }
            },
            _ => Err(Error::LowerShape),
        }
    }
}

/// Lowers the first `n` argument subtrees, following `spec_args_grow`
/// on that prefix.
fn args_grow_upto(trees: &Vec<ParseTree>, n: usize) -> (r: Result<Vec<ExprNode>, Error>)
    requires
        n <= trees@.len(),
    ensures
        match r {
            Ok(es) => spec_args_grow(trees_view(trees@).take(n as int)) is Ok && exprs_view(es@)
                == spec_args_grow(trees_view(trees@).take(n as int))->Ok_0,
            Err(e) => spec_args_grow(trees_view(trees@).take(n as int)) is Err && e@
                == spec_args_grow(trees_view(trees@).take(n as int))->Err_0,
        },
    decreases trees@, 0nat, n,
{
    proof {
        lemma_trees_view_len(trees@);
    }
    if n == 0 {
        let r: Vec<ExprNode> = Vec::new();
        proof {
            assert(trees_view(trees@).take(0) =~= Seq::<TreeV>::empty());
            assert(exprs_view(r@) =~= Seq::<ExprV>::empty());
        }
        return Ok(r);
    }
    proof {
        assert(trees_view(trees@).take(n as int).drop_last() =~= trees_view(trees@).take(
            n - 1,
        ));
        assert(trees_view(trees@).take(n as int).last() == trees_view(trees@)[n - 1]);
    }
    match args_grow_upto(trees, n - 1) {
        Err(e) => Err(e),
        Ok(rest) => match trees[n - 1].exprNode_grow() {
            Err(e) => Err(e),
            Ok(a) => {
                let ghost av = a@;
                let ghost old_rest = rest@;
                let mut out = rest;
                out.push(a);
                proof {
                    assert(out@.drop_last() =~= old_rest);
                }
                Ok(out)
            },
        },
    }
}

/// Lowers a run of statement subtrees, following `spec_stmts_from`.
fn stmts_from(trees: &Vec<ParseTree>, i: usize) -> (r: Result<BlockNode, Error>)
    ensures
        match r {
            Ok(b) => spec_stmts_from(trees_view(trees@), i as int) is Ok && b@ == spec_stmts_from(
                trees_view(trees@),
                i as int,
            )->Ok_0,
            Err(e) => spec_stmts_from(trees_view(trees@), i as int) is Err && e@ == spec_stmts_from(
                trees_view(trees@),
                i as int,
            )->Err_0,
        },
    decreases trees@, 3nat, trees@.len() - i,
{
    proof {
        lemma_trees_view_len(trees@);
    }
    if i >= trees.len() {
        return Ok(BlockNode::new());
    }
    if trees[i].token.kind_of() == TokenKind::BRACKET_R {
        return Ok(BlockNode::new());
    }
    match trees[i].stmtNode_grow() {
        Err(e) => Err(e),
        Ok(st) => match stmts_from(trees, i + 1) {
            Err(e) => Err(e),
            Ok(rest) => {
                let ghost stv = st@;
                let ghost restv = rest@;
                let ghost old_stmts = rest.statements@;
                let mut out = rest;
                out.statements.insert(0, st);
                proof {
                    lemma_stmts_view_len(old_stmts);
                    lemma_stmts_view_len(out.statements@);
                    assert(out@ =~= seq![stv] + restv);
                }
                Ok(out)
            },
        },
    }
}

/// Lowers the parameter names of a parameter-list subtree, following
/// `spec_params_grow`.
fn params_grow(trees: &Vec<ParseTree>, i: usize) -> (r: Result<Vec<Parameter>, Error>)
    requires
        i <= trees@.len(),
    ensures
        match r {
            Ok(ps) => spec_params_grow(trees_view(trees@), i as int) is Ok && params_view(ps@)
                == spec_params_grow(trees_view(trees@), i as int)->Ok_0,
            Err(e) => spec_params_grow(trees_view(trees@), i as int) is Err && e@
                == spec_params_grow(trees_view(trees@), i as int)->Err_0,
        },
    decreases trees@.len() - i,
{
    proof {
        lemma_trees_view_len(trees@);
    }
    if trees.len() < 1 || i >= trees.len() - 1 {
        let r: Vec<Parameter> = Vec::new();
        proof {
            assert(params_view(r@) =~= Seq::<Seq<u8>>::empty());
        }
        return Ok(r);
    }
    match &trees[i].token {
        crate::token::Token::ID(n) => match params_grow(trees, i + 1) {
            Err(e) => Err(e),
            Ok(rest) => {
                let ghost nv = n@;
                let ghost old_rest = rest@;
                let ghost restv = params_view(rest@);
                let mut out = rest;
                out.insert(0, Parameter::new(clone_bytes(n)));
                proof {
                    lemma_params_view_len(old_rest);
                    lemma_params_view_len(out@);
                    assert(params_view(out@) =~= seq![nv] + restv);
                }
                Ok(out)
            },
        },
        _ => Err(Error::LowerShape),
    }
}

} // verus!
