//! The typed abstract syntax tree: program, function, block, statement
//! and expression nodes, with the mathematical views the interpreter's
//! specification is stated over. Children are owned boxed nodes; the
//! tree is acyclic by construction.
#![allow(non_snake_case)]

use vstd::prelude::*;

use crate::value::{Value, ValueV};

verus! {

/// A declared parameter name.
pub struct Parameter {
    pub name: Vec<u8>,
}

impl Parameter {
    /// A parameter of the given name.
    pub fn new(name: Vec<u8>) -> (r: Parameter)
        ensures
            r.name@ == name@,
    {
        Parameter { name }
    }
}

/// An expression node.
pub enum ExprNode {
    Var(Vec<u8>),
    Val(Value),
    Add(Box<ExprNode>, Box<ExprNode>),
    Sub(Box<ExprNode>, Box<ExprNode>),
    Mul(Box<ExprNode>, Box<ExprNode>),
    Div(Box<ExprNode>, Box<ExprNode>),
    Equal(Box<ExprNode>, Box<ExprNode>),
    LessThan(Box<ExprNode>, Box<ExprNode>),
    GreaterThan(Box<ExprNode>, Box<ExprNode>),
    NotEqual(Box<ExprNode>, Box<ExprNode>),
    LessThanEqual(Box<ExprNode>, Box<ExprNode>),
    GreaterThanEqual(Box<ExprNode>, Box<ExprNode>),
    Not(Box<ExprNode>),
    And(Box<ExprNode>, Box<ExprNode>),
    Or(Box<ExprNode>, Box<ExprNode>),
    Call(Vec<u8>, Vec<ExprNode>),
}

/// The mathematical value of an expression.
pub enum ExprV {
    Var(Seq<u8>),
    Val(ValueV),
    Add(Box<ExprV>, Box<ExprV>),
    Sub(Box<ExprV>, Box<ExprV>),
    Mul(Box<ExprV>, Box<ExprV>),
    Div(Box<ExprV>, Box<ExprV>),
    Equal(Box<ExprV>, Box<ExprV>),
    LessThan(Box<ExprV>, Box<ExprV>),
    GreaterThan(Box<ExprV>, Box<ExprV>),
    NotEqual(Box<ExprV>, Box<ExprV>),
    LessThanEqual(Box<ExprV>, Box<ExprV>),
    GreaterThanEqual(Box<ExprV>, Box<ExprV>),
    Not(Box<ExprV>),
    And(Box<ExprV>, Box<ExprV>),
    Or(Box<ExprV>, Box<ExprV>),
    Call(Seq<u8>, Seq<ExprV>),
}

/// The mathematical value of an expression node.
pub open spec fn expr_view(e: ExprNode) -> ExprV
    decreases e, 0nat,
{
    match e {
        ExprNode::Var(n) => ExprV::Var(n@),
        ExprNode::Val(v) => ExprV::Val(v@),
        ExprNode::Add(a, b) => ExprV::Add(Box::new(expr_view(*a)), Box::new(expr_view(*b))),
        ExprNode::Sub(a, b) => ExprV::Sub(Box::new(expr_view(*a)), Box::new(expr_view(*b))),
        ExprNode::Mul(a, b) => ExprV::Mul(Box::new(expr_view(*a)), Box::new(expr_view(*b))),
        ExprNode::Div(a, b) => ExprV::Div(Box::new(expr_view(*a)), Box::new(expr_view(*b))),
        ExprNode::Equal(a, b) => ExprV::Equal(Box::new(expr_view(*a)), Box::new(expr_view(*b))),
        ExprNode::LessThan(a, b) => ExprV::LessThan(
            Box::new(expr_view(*a)),
            Box::new(expr_view(*b)),
        ),
        ExprNode::GreaterThan(a, b) => ExprV::GreaterThan(
            Box::new(expr_view(*a)),
            Box::new(expr_view(*b)),
        ),
        ExprNode::NotEqual(a, b) => ExprV::NotEqual(
            Box::new(expr_view(*a)),
            Box::new(expr_view(*b)),
        ),
        ExprNode::LessThanEqual(a, b) => ExprV::LessThanEqual(
            Box::new(expr_view(*a)),
            Box::new(expr_view(*b)),
        ),
        ExprNode::GreaterThanEqual(a, b) => ExprV::GreaterThanEqual(
            Box::new(expr_view(*a)),
            Box::new(expr_view(*b)),
        ),
        ExprNode::Not(a) => ExprV::Not(Box::new(expr_view(*a))),
        ExprNode::And(a, b) => ExprV::And(Box::new(expr_view(*a)), Box::new(expr_view(*b))),
        ExprNode::Or(a, b) => ExprV::Or(Box::new(expr_view(*a)), Box::new(expr_view(*b))),
        ExprNode::Call(n, args) => ExprV::Call(n@, exprs_view(args@)),
    }
}

/// The mathematical values of a sequence of expressions, in order.
pub open spec fn exprs_view(s: Seq<ExprNode>) -> Seq<ExprV>
    decreases s, s.len(),
{
    if s.len() == 0 {
        Seq::empty()
    } else {
        exprs_view(s.drop_last()).push(expr_view(s.last()))
    }
}

/// The element values of `exprs_view` are the views of the elements.
pub proof fn lemma_exprs_view_len(s: Seq<ExprNode>)
    ensures
        exprs_view(s).len() == s.len(),
        forall|i: int| 0 <= i < s.len() ==> exprs_view(s)[i] == expr_view(s[i]),
    decreases s.len(),
{
    if s.len() > 0 {
        lemma_exprs_view_len(s.drop_last());
    }
}

impl View for ExprNode {
    type V = ExprV;

    open spec fn view(&self) -> ExprV {
        expr_view(*self)
    }
}

/// A declaration of a name, with its initial value.
pub struct LetNode {
    pub name: Vec<u8>,
    pub value: Value,
}

impl LetNode {
    /// A declaration of `name` starting at `value`.
    pub fn new(name: Vec<u8>, value: Value) -> (r: LetNode)
        ensures
            r.name@ == name@,
            r.value@ == value@,
    {
        LetNode { name, value }
    }
}

/// An assignment of an expression's value to a name.
pub struct AssignNode {
    pub name: Vec<u8>,
    pub expr: Box<ExprNode>,
}

impl AssignNode {
    /// An assignment of `expr` to `name`.
    pub fn new(name: Vec<u8>, expr: ExprNode) -> (r: AssignNode)
        ensures
            r.name@ == name@,
            r.expr@ == expr@,
    {
        AssignNode { name, expr: Box::new(expr) }
    }
}

/// An ordered run of statements; blocks share the enclosing frame.
pub struct BlockNode {
    pub statements: Vec<StmtNode>,
}

/// A two-way branch on a boolean condition.
pub struct IfNode {
    pub cond: Box<ExprNode>,
    pub block_node_true: BlockNode,
    pub block_node_false: BlockNode,
}

/// A loop on a boolean condition.
pub struct WhileNode {
    pub cond: Box<ExprNode>,
    pub block_node_true: BlockNode,
}

/// An emission of an expression's value to the output.
pub struct PrintNode {
    pub expr: Box<ExprNode>,
}

impl PrintNode {
    /// A print of `expr`.
    pub fn new(expr: ExprNode) -> (r: PrintNode)
        ensures
            r.expr@ == expr@,
    {
        PrintNode { expr: Box::new(expr) }
    }
}

/// An early return carrying an expression's value.
pub struct ReturnNode {
    pub expr: Box<ExprNode>,
}

impl ReturnNode {
    /// A return of `expr`.
    pub fn new(expr: ExprNode) -> (r: ReturnNode)
        ensures
            r.expr@ == expr@,
    {
        ReturnNode { expr: Box::new(expr) }
    }
}

/// One statement.
pub enum StmtNode {
    Let(LetNode),
    Assign(AssignNode),
    If(IfNode),
    Return(ReturnNode),
    Print(PrintNode),
    While(WhileNode),
}

/// The mathematical value of a statement.
pub enum StmtV {
    Let { name: Seq<u8>, value: ValueV },
    Assign { name: Seq<u8>, expr: ExprV },
    If { cond: ExprV, then_block: Seq<StmtV>, else_block: Seq<StmtV> },
    Return { expr: ExprV },
    Print { expr: ExprV },
    While { cond: ExprV, body: Seq<StmtV> },
}

/// The mathematical value of a statement node.
pub open spec fn stmt_view(s: StmtNode) -> StmtV
    decreases s, 0nat,
{
    match s {
        StmtNode::Let(n) => StmtV::Let { name: n.name@, value: n.value@ },
        StmtNode::Assign(n) => StmtV::Assign { name: n.name@, expr: expr_view(*n.expr) },
        StmtNode::If(n) => StmtV::If {
            cond: expr_view(*n.cond),
            then_block: stmts_view(n.block_node_true.statements@),
            else_block: stmts_view(n.block_node_false.statements@),
        },
        StmtNode::Return(n) => StmtV::Return { expr: expr_view(*n.expr) },
        StmtNode::Print(n) => StmtV::Print { expr: expr_view(*n.expr) },
        StmtNode::While(n) => StmtV::While {
            cond: expr_view(*n.cond),
            body: stmts_view(n.block_node_true.statements@),
        },
    }
}

/// The mathematical values of a sequence of statements, in order.
pub open spec fn stmts_view(s: Seq<StmtNode>) -> Seq<StmtV>
    decreases s, s.len(),
{
    if s.len() == 0 {
        Seq::empty()
    } else {
        stmts_view(s.drop_last()).push(stmt_view(s.last()))
    }
}

/// The element values of `stmts_view` are the views of the elements.
pub proof fn lemma_stmts_view_len(s: Seq<StmtNode>)
    ensures
        stmts_view(s).len() == s.len(),
        forall|i: int| 0 <= i < s.len() ==> stmts_view(s)[i] == stmt_view(s[i]),
    decreases s.len(),
{
    if s.len() > 0 {
        lemma_stmts_view_len(s.drop_last());
    }
}

impl View for StmtNode {
    type V = StmtV;

    open spec fn view(&self) -> StmtV {
        stmt_view(*self)
    }
}

impl View for BlockNode {
    type V = Seq<StmtV>;

    open spec fn view(&self) -> Seq<StmtV> {
        stmts_view(self.statements@)
    }
}

impl BlockNode {
    /// An empty block.
    pub fn new() -> (r: BlockNode)
        ensures
            r@ == Seq::<StmtV>::empty(),
    {
        let r = BlockNode { statements: Vec::new() };
        proof {
            assert(stmts_view(r.statements@) =~= Seq::<StmtV>::empty());
        }
        r
    }

    /// Appends `stmt` as the last statement.
    pub fn push(&mut self, stmt: StmtNode)
        ensures
            final(self)@ == old(self)@.push(stmt@),
    {
        let ghost old_stmts = self.statements@;
        self.statements.push(stmt);
        proof {
            assert(self.statements@.drop_last() =~= old_stmts);
        }
    }
}

impl IfNode {
    /// A branch on `cond` between two blocks.
    pub fn new(cond: ExprNode, block_node_true: BlockNode, block_node_false: BlockNode) -> (r:
        IfNode)
        ensures
            r.cond@ == cond@,
            r.block_node_true@ == block_node_true@,
            r.block_node_false@ == block_node_false@,
    {
        IfNode { cond: Box::new(cond), block_node_true, block_node_false }
    }
}

impl WhileNode {
    /// A loop of `block_node_true` on `cond`.
    pub fn new(cond: ExprNode, block_node_true: BlockNode) -> (r: WhileNode)
        ensures
            r.cond@ == cond@,
            r.block_node_true@ == block_node_true@,
    {
        WhileNode { cond: Box::new(cond), block_node_true }
    }
}

/// The mathematical value of a function declaration.
pub struct FuncV {
    pub name: Seq<u8>,
    pub params: Seq<Seq<u8>>,
    pub body: Seq<StmtV>,
}

/// A function declaration: name, ordered parameter names, one body
/// block.
pub struct FuncNode {
    pub name: Vec<u8>,
    pub parameters: Vec<Parameter>,
    pub block_node: BlockNode,
}

/// The parameter names of a function, in order.
pub open spec fn params_view(s: Seq<Parameter>) -> Seq<Seq<u8>>
    decreases s.len(),
{
    if s.len() == 0 {
        Seq::empty()
    } else {
        params_view(s.drop_last()).push(s.last().name@)
    }
}

/// The element values of `params_view` are the names of the elements.
pub proof fn lemma_params_view_len(s: Seq<Parameter>)
    ensures
        params_view(s).len() == s.len(),
        forall|i: int| 0 <= i < s.len() ==> params_view(s)[i] == s[i].name@,
    decreases s.len(),
{
    if s.len() > 0 {
        lemma_params_view_len(s.drop_last());
    }
}

impl View for FuncNode {
    type V = FuncV;

    open spec fn view(&self) -> FuncV {
        FuncV {
            name: self.name@,
            params: params_view(self.parameters@),
            body: stmts_view(self.block_node.statements@),
        }
    }
}

impl FuncNode {
    /// A function of `name` with `parameters` and `block_node` as body.
    pub fn new(name: Vec<u8>, parameters: Vec<Parameter>, block_node: BlockNode) -> (r: FuncNode)
        ensures
            r@ == (FuncV {
                name: name@,
                params: params_view(parameters@),
                body: block_node@,
            }),
    {
        FuncNode { name, parameters, block_node }
    }

    /// The declared arity.
    pub fn numParameters(&self) -> (n: usize)
        ensures
            n == self@.params.len(),
    {
        proof {
            lemma_params_view_len(self.parameters@);
        }
        self.parameters.len()
    }
}

/// The mathematical value of a whole program.
pub struct ProgV {
    pub lets: Seq<(Seq<u8>, ValueV)>,
    pub funcs: Seq<FuncV>,
}

/// A program: global declarations plus function declarations, in
/// declaration order.
pub struct ProgramNode {
    pub let_nodes: Vec<LetNode>,
    pub func_nodes: Vec<FuncNode>,
}

/// The global declarations of a program, in order.
pub open spec fn lets_view(s: Seq<LetNode>) -> Seq<(Seq<u8>, ValueV)>
    decreases s.len(),
{
    if s.len() == 0 {
        Seq::empty()
    } else {
        lets_view(s.drop_last()).push((s.last().name@, s.last().value@))
    }
}

/// The element values of `lets_view` are the declarations themselves.
pub proof fn lemma_lets_view_len(s: Seq<LetNode>)
    ensures
        lets_view(s).len() == s.len(),
        forall|i: int| 0 <= i < s.len() ==> lets_view(s)[i] == (s[i].name@, s[i].value@),
    decreases s.len(),
{
    if s.len() > 0 {
        lemma_lets_view_len(s.drop_last());
    }
}

/// The function declarations of a program, in order.
pub open spec fn funcs_view(s: Seq<FuncNode>) -> Seq<FuncV>
    decreases s.len(),
{
    if s.len() == 0 {
        Seq::empty()
    } else {
        funcs_view(s.drop_last()).push(s.last()@)
    }
}

/// The element values of `funcs_view` are the views of the elements.
pub proof fn lemma_funcs_view_len(s: Seq<FuncNode>)
    ensures
        funcs_view(s).len() == s.len(),
        forall|i: int| 0 <= i < s.len() ==> funcs_view(s)[i] == s[i]@,
    decreases s.len(),
{
    if s.len() > 0 {
        lemma_funcs_view_len(s.drop_last());
    }
}

impl View for ProgramNode {
    type V = ProgV;

    open spec fn view(&self) -> ProgV {
        ProgV { lets: lets_view(self.let_nodes@), funcs: funcs_view(self.func_nodes@) }
    }
}

impl ProgramNode {
    /// An empty program.
    pub fn new() -> (r: ProgramNode)
        ensures
            r@.lets == Seq::<(Seq<u8>, ValueV)>::empty(),
            r@.funcs == Seq::<FuncV>::empty(),
    {
        let r = ProgramNode { let_nodes: Vec::new(), func_nodes: Vec::new() };
        proof {
            assert(lets_view(r.let_nodes@) =~= Seq::<(Seq<u8>, ValueV)>::empty());
            assert(funcs_view(r.func_nodes@) =~= Seq::<FuncV>::empty());
        }
        r
    }

    /// Appends a global declaration.
    pub fn push_let(&mut self, l: LetNode)
        ensures
            final(self)@.lets == old(self)@.lets.push((l.name@, l.value@)),
            final(self)@.funcs == old(self)@.funcs,
    {
        let ghost old_lets = self.let_nodes@;
        self.let_nodes.push(l);
        proof {
            assert(self.let_nodes@.drop_last() =~= old_lets);
        }
    }

    /// Appends a function declaration.
    pub fn push_func(&mut self, f: FuncNode)
        ensures
            final(self)@.funcs == old(self)@.funcs.push(f@),
            final(self)@.lets == old(self)@.lets,
    {
        let ghost old_funcs = self.func_nodes@;
        self.func_nodes.push(f);
        proof {
            assert(self.func_nodes@.drop_last() =~= old_funcs);
        }
    }
}

} // verus!
