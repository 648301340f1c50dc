//! The expression parser: classic operator-precedence (Pratt) parsing
//! over a per-category (left, right) binding-power table. Every step is
//! mirrored by a specification function, and the executable parser is
//! proved to produce exactly the tree the specification names. A nesting
//! budget bounds the recursion; it is generous enough for any input the
//! budget formula covers.

use vstd::prelude::*;

use crate::error::{Error, ErrorV};
use crate::lexer::{lexer_adv, lexer_init, Lexer, LexerV};
use crate::parse_tree::{ParseTree, TreeV};
use crate::token::{kind, token_text, Token, TokenKind, TokenV};

verus! {

/// The binding-power table: `(left, right)` per token category, or
/// nothing for a category that cannot stand in an expression.
pub open spec fn spec_binding_powers(k: TokenKind) -> Option<(int, int)> {
    match k {
        TokenKind::PAREN_L => Some((2int, 1int)),
        TokenKind::PAREN_R => Some((1int, 1int)),
        TokenKind::COLON => Some((2int, 3int)),
        TokenKind::OP_ADD => Some((2int, 3int)),
        TokenKind::OP_SUB => Some((2int, 3int)),
        TokenKind::OP_MUL => Some((4int, 5int)),
        TokenKind::OP_DIV => Some((4int, 5int)),
        TokenKind::OP_EQ => Some((2int, 1int)),
        TokenKind::OP_LT => Some((2int, 1int)),
        TokenKind::OP_GT => Some((2int, 1int)),
        TokenKind::OP_NEQ => Some((2int, 1int)),
        TokenKind::OP_NLT => Some((2int, 1int)),
        TokenKind::OP_NGT => Some((2int, 1int)),
        TokenKind::OP_NOT => Some((5int, 6int)),
        TokenKind::OP_AND => Some((4int, 5int)),
        TokenKind::OP_OR => Some((2int, 3int)),
        TokenKind::OP_ASSIGN => Some((2int, 1int)),
        TokenKind::ID => Some((1int, 1int)),
        TokenKind::LIT_I32 => Some((1int, 1int)),
        TokenKind::LIT_F32 => Some((1int, 1int)),
        TokenKind::LIT_CHAR => Some((1int, 1int)),
        TokenKind::LIT_STRING => Some((1int, 1int)),
        TokenKind::LIT_BOOL => Some((1int, 1int)),
        TokenKind::EOI => Some((0int, 0int)),
        _ => None,
    }
}

/// Whether an executable binding-power answer agrees with the table.
pub open spec fn bp_matches(r: Option<(i32, i32)>, s: Option<(int, int)>) -> bool {
    match r {
        None => s is None,
        Some(p) => match s {
            None => false,
            Some(q) => p.0 as int == q.0 && p.1 as int == q.1,
        },
    }
}

impl Token {
    /// The `(left, right)` binding powers of this token's category, or
    /// nothing for a category outside the table.
    pub fn binding_powers(&self) -> (r: Option<(i32, i32)>)
        ensures
            bp_matches(r, spec_binding_powers(kind(self@))),
    {
        match self.kind_of() {
            TokenKind::PAREN_L => Some((2, 1)),
            TokenKind::PAREN_R => Some((1, 1)),
            TokenKind::COLON => Some((2, 3)),
            TokenKind::OP_ADD => Some((2, 3)),
            TokenKind::OP_SUB => Some((2, 3)),
            TokenKind::OP_MUL => Some((4, 5)),
            TokenKind::OP_DIV => Some((4, 5)),
            TokenKind::OP_EQ => Some((2, 1)),
            TokenKind::OP_LT => Some((2, 1)),
            TokenKind::OP_GT => Some((2, 1)),
            TokenKind::OP_NEQ => Some((2, 1)),
            TokenKind::OP_NLT => Some((2, 1)),
            TokenKind::OP_NGT => Some((2, 1)),
            TokenKind::OP_NOT => Some((5, 6)),
            TokenKind::OP_AND => Some((4, 5)),
            TokenKind::OP_OR => Some((2, 3)),
            TokenKind::OP_ASSIGN => Some((2, 1)),
            TokenKind::ID => Some((1, 1)),
            TokenKind::LIT_I32 => Some((1, 1)),
            TokenKind::LIT_F32 => Some((1, 1)),
            TokenKind::LIT_CHAR => Some((1, 1)),
            TokenKind::LIT_STRING => Some((1, 1)),
            TokenKind::LIT_BOOL => Some((1, 1)),
            TokenKind::EOI => Some((0, 0)),
            _ => None,
        }
    }
}

/// A token category that begins an expression as a plain leaf.
pub open spec fn is_leaf_prefix(k: TokenKind) -> bool {
    ||| k == TokenKind::ID
    ||| k == TokenKind::LIT_I32
    ||| k == TokenKind::LIT_F32
    ||| k == TokenKind::LIT_CHAR
    ||| k == TokenKind::LIT_STRING
    ||| k == TokenKind::LIT_BOOL
    ||| k == TokenKind::TYPE_I32
    ||| k == TokenKind::TYPE_CHAR
    ||| k == TokenKind::TYPE_F32
    ||| k == TokenKind::PAREN_R
    ||| k == TokenKind::EOI
}

/// A token category that begins an expression by taking a right operand.
pub open spec fn is_rec_prefix(k: TokenKind) -> bool {
    ||| k == TokenKind::PAREN_L
    ||| k == TokenKind::OP_NOT
    ||| k == TokenKind::KW_FUNC
    ||| k == TokenKind::OP_SUB
}

/// A token category that continues an expression as an infix operator.
pub open spec fn is_infix(k: TokenKind) -> bool {
    ||| k == TokenKind::OP_ADD
    ||| k == TokenKind::COLON
    ||| k == TokenKind::OP_AND
    ||| k == TokenKind::OP_OR
    ||| k == TokenKind::OP_EQ
    ||| k == TokenKind::OP_LT
    ||| k == TokenKind::OP_GT
    ||| k == TokenKind::OP_NEQ
    ||| k == TokenKind::OP_NLT
    ||| k == TokenKind::OP_NGT
    ||| k == TokenKind::OP_SUB
    ||| k == TokenKind::OP_DIV
    ||| k == TokenKind::OP_MUL
    ||| k == TokenKind::OP_ASSIGN
}

/// What the expression parser returns: a tree or a fault, plus the
/// scanner state it left behind.
pub open spec fn spec_driver(l: LexerV, min_bp: int, fuel: nat) -> (Result<TreeV, ErrorV>, LexerV)
    decreases fuel, 0nat,
{
    if fuel == 0 {
        (Err(ErrorV::ParseDepth), l)
    } else {
        let cur = l.current;
        match lexer_adv(l) {
            Err(e) => (Err(e), l),
            Ok(l1) => {
                let pr: (Result<TreeV, ErrorV>, LexerV) = if kind(cur) == TokenKind::ID && kind(
                    l1.current,
                ) == TokenKind::PAREN_L {
                    match spec_call_args(l1, (fuel - 1) as nat) {
                        (Err(e), l2) => (Err(e), l2),
                        (Ok(argsnode), l2) => match lexer_adv(l2) {
                            Err(e) => (Err(e), l2),
                            Ok(l3) => (
                                Ok(TreeV { token: cur, children: seq![argsnode] }),
                                l3,
                            ),
                        },
                    }
                } else {
                    spec_prefix(cur, l1, (fuel - 1) as nat)
                };
                match pr {
                    (Err(e), l2) => (Err(e), l2),
                    (Ok(left), l2) => spec_infix_loop(left, l2, min_bp, (fuel - 1) as nat),
                }
            },
        }
    }
}

/// The left-hand tree a prefix token produces: a leaf, or a node whose
/// operand is parsed with the token's right binding power; a
/// parenthesized subexpression also takes a closing-paren marker child
/// and the scanner moves past the closing paren.
pub open spec fn spec_prefix(cur: TokenV, l: LexerV, fuel: nat) -> (Result<TreeV, ErrorV>, LexerV)
    decreases fuel, 1nat,
{
    let k = kind(cur);
    if is_leaf_prefix(k) {
        (Ok(TreeV { token: cur, children: Seq::empty() }), l)
    } else if is_rec_prefix(k) {
        match spec_binding_powers(k) {
            None => (Err(ErrorV::MissingBindingPower(k)), l),
            Some(bp) => match spec_driver(l, bp.1, fuel) {
                (Err(e), l2) => (Err(e), l2),
                (Ok(sub), l2) => {
                    if k == TokenKind::PAREN_L {
                        match lexer_adv(l2) {
                            Err(e) => (Err(e), l2),
                            Ok(l3) => (
                                Ok(
                                    TreeV {
                                        token: cur,
                                        children: seq![
                                            sub,
                                            TreeV { token: TokenV::PAREN_R, children: Seq::empty() },
                                        ],
                                    },
                                ),
                                l3,
                            ),
                        }
                    } else {
                        (Ok(TreeV { token: cur, children: seq![sub] }), l2)
                    }
                },
            },
        }
    } else {
        (Err(ErrorV::MissingPrefix(k)), l)
    }
}

/// The loop that keeps absorbing infix operators while the lookahead
/// binds tighter than the requested power.
pub open spec fn spec_infix_loop(left: TreeV, l: LexerV, min_bp: int, fuel: nat) -> (Result<
    TreeV,
    ErrorV,
>, LexerV)
    decreases fuel, 1nat,
{
    if fuel == 0 {
        (Err(ErrorV::ParseDepth), l)
    } else {
        let cur = l.current;
        match spec_binding_powers(kind(cur)) {
            None => (Err(ErrorV::MissingBindingPower(kind(cur))), l),
            Some(bp) => {
                if min_bp >= bp.0 {
                    (Ok(left), l)
                } else {
                    match lexer_adv(l) {
                        Err(e) => (Err(e), l),
                        Ok(l1) => {
                            if is_infix(kind(cur)) {
                                match spec_driver(l1, bp.1, fuel) {
                                    (Err(e), l2) => (Err(e), l2),
                                    (Ok(right), l2) => spec_infix_loop(
                                        TreeV { token: cur, children: seq![left, right] },
                                        l2,
                                        min_bp,
                                        (fuel - 1) as nat,
                                    ),
                                }
                            } else {
                                (Err(ErrorV::MissingInfix(kind(cur))), l1)
                            }
                        },
                    }
                }
            },
        }
    }
}

/// The textual span from the lookahead up to (not including) the first
/// token of one of the two stop categories or end-of-input: each token's
/// text followed by one space.
pub open spec fn spec_slice(l: LexerV, stop1: TokenKind, stop2: TokenKind, fuel: nat) -> (Result<
    Seq<u8>,
    ErrorV,
>, LexerV)
    decreases fuel, 1nat,
{
    let k = kind(l.current);
    if k == stop1 || k == stop2 || k == TokenKind::EOI {
        (Ok(Seq::empty()), l)
    } else if fuel == 0 {
        (Err(ErrorV::ParseDepth), l)
    } else {
        match lexer_adv(l) {
            Err(e) => (Err(e), l),
            Ok(l1) => match spec_slice(l1, stop1, stop2, (fuel - 1) as nat) {
                (Err(e), l2) => (Err(e), l2),
                (Ok(rest), l2) => (Ok(token_text(l.current) + seq![32u8] + rest), l2),
            },
        }
    }
}

/// The call-argument subtree: a paren-marker node whose children are the
/// argument expressions, each sliced out as text up to a comma or the
/// closing paren and parsed afresh. The scanner is left on the closing
/// paren (or wherever the list ended).
pub open spec fn spec_call_args(l: LexerV, fuel: nat) -> (Result<TreeV, ErrorV>, LexerV)
    decreases fuel, 1nat,
{
    if fuel == 0 {
        (Err(ErrorV::ParseDepth), l)
    } else {
        let parent = TreeV { token: l.current, children: Seq::empty() };
        match lexer_adv(l) {
            Err(e) => (Err(e), l),
            Ok(l1) => {
                if kind(l1.current) == TokenKind::PAREN_R {
                    (Ok(parent), l1)
                } else {
                    spec_args_loop(parent, l1, (fuel - 1) as nat)
                }
            },
        }
    }
}

/// One argument after another: slice its span, parse it, append it, and
/// continue past each comma.
pub open spec fn spec_args_loop(parent: TreeV, l: LexerV, fuel: nat) -> (Result<TreeV, ErrorV>, LexerV)
    decreases fuel, 1nat,
{
    if fuel == 0 {
        (Err(ErrorV::ParseDepth), l)
    } else {
        match spec_slice(l, TokenKind::COMMA, TokenKind::PAREN_R, (fuel - 1) as nat) {
            (Err(e), l2) => (Err(e), l2),
            (Ok(text), l2) => match spec_pratt(text, (fuel - 1) as nat) {
                Err(e) => (Err(e), l2),
                Ok(tree) => {
                    let parent2 = TreeV { token: parent.token, children: parent.children.push(tree) };
                    if kind(l2.current) == TokenKind::COMMA {
                        match lexer_adv(l2) {
                            Err(e) => (Err(e), l2),
                            Ok(l3) => spec_args_loop(parent2, l3, (fuel - 1) as nat),
                        }
                    } else {
                        (Ok(parent2), l2)
                    }
                },
            },
        }
    }
}

/// A full expression parse of a free-standing text: scan the first
/// token, then run the driver with the lowest binding power.
pub open spec fn spec_pratt(text: Seq<u8>, fuel: nat) -> Result<TreeV, ErrorV>
    decreases fuel, 1nat,
{
    match lexer_init(text) {
        Err(e) => Err(e),
        Ok(l) => spec_driver(l, 0, fuel).0,
    }
}

/// The nesting budget granted to a parse of `s`.
pub open spec fn pratt_fuel(s: Seq<u8>) -> nat {
    2 * s.len() + 16
}

/// Whether an executable tree result agrees with a specification result.
pub open spec fn tree_res_matches(r: Result<ParseTree, Error>, s: Result<TreeV, ErrorV>) -> bool {
    match r {
        Ok(t) => s is Ok && t@ == s->Ok_0,
        Err(e) => s is Err && e@ == s->Err_0,
    }
}

/// Whether an executable byte-vector result agrees with a specification
/// result.
pub open spec fn bytes_res_matches(r: Result<Vec<u8>, Error>, s: Result<Seq<u8>, ErrorV>) -> bool {
    match r {
        Ok(v) => s is Ok && v@ == s->Ok_0,
        Err(e) => s is Err && e@ == s->Err_0,
    }
}

/// The operator-precedence expression parser: consumes tokens from a
/// scanner and produces one expression tree.
pub struct PrattParser {
    lexer: Lexer,
}

impl View for PrattParser {
    type V = LexerV;

    closed spec fn view(&self) -> LexerV {
        self.lexer@
    }
}

impl PrattParser {
    /// The scanner inside never passes the end of its input.
    pub closed spec fn wf(&self) -> bool {
        self.lexer.wf()
    }

    /// Wraps a scanner.
    pub fn new(lexer: Lexer) -> (r: PrattParser)
        requires
            lexer.wf(),
        ensures
            r@ == lexer@,
            r.wf(),
    {
        PrattParser { lexer }
    }

    /// Parses one whole expression from the scanner, using the lowest
    /// binding power, with the nesting budget the input's length grants.
    pub fn analyze(&mut self) -> (r: Result<ParseTree, Error>)
        requires
            old(self).wf(),
            old(self)@.input.len() < 0x1000_0000_0000_0000,
        ensures
            final(self).wf(),
            tree_res_matches(r, spec_driver(old(self)@, 0, pratt_fuel(old(self)@.input)).0),
            final(self)@ == spec_driver(old(self)@, 0, pratt_fuel(old(self)@.input)).1,
    {
        let n = self.lexer.input_len();
        let fuel: u64 = 2 * (n as u64) + 16;
        self.pratt_driver(0, fuel)
    }

    /// One driver step: take the lookahead as a prefix (or a call head),
    /// then absorb infix operators stronger than `requested_bp`.
    pub fn pratt_driver(&mut self, requested_bp: i32, fuel: u64) -> (r: Result<ParseTree, Error>)
        requires
            old(self).wf(),
        ensures
            final(self).wf(),
            tree_res_matches(r, spec_driver(old(self)@, requested_bp as int, fuel as nat).0),
            final(self)@ == spec_driver(old(self)@, requested_bp as int, fuel as nat).1,
        decreases fuel, 0nat,
    {
        if fuel == 0 {
            return Err(Error::ParseDepth);
        }
        let cur = self.lexer.current();
        match self.lexer.advance() {
            Err(e) => {
                return Err(e);
            },
            Ok(_u) => {},
        }
        let pr: Result<ParseTree, Error> = if cur.kind_of() == TokenKind::ID
            && self.lexer.current().kind_of() == TokenKind::PAREN_L {
            match self.func_call(fuel - 1) {
                Err(e) => Err(e),
                Ok(argsnode) => match self.lexer.advance() {
                    Err(e) => Err(e),
                    Ok(_u) => {
                        let mut node = ParseTree::new(cur);
                        node.push(argsnode);
                        proof {
                            assert(node@.children =~= seq![argsnode@]);
                        }
                        Ok(node)
                    },
                },
            }
        } else {
            self.func_prefix(cur, fuel - 1)
        };
        match pr {
            Err(e) => Err(e),
            Ok(left) => self.func_infix_loop(left, requested_bp, fuel - 1),
        }
    }

    /// The prefix handler, following `spec_prefix`.
    fn func_prefix(&mut self, cur: Token, fuel: u64) -> (r: Result<ParseTree, Error>)
        requires
            old(self).wf(),
        ensures
            final(self).wf(),
            tree_res_matches(r, spec_prefix(cur@, old(self)@, fuel as nat).0),
            final(self)@ == spec_prefix(cur@, old(self)@, fuel as nat).1,
        decreases fuel, 1nat,
    {
        let k = cur.kind_of();
        if k == TokenKind::ID || k == TokenKind::LIT_I32 || k == TokenKind::LIT_F32 || k
            == TokenKind::LIT_CHAR || k == TokenKind::LIT_STRING || k == TokenKind::LIT_BOOL || k
            == TokenKind::TYPE_I32 || k == TokenKind::TYPE_CHAR || k == TokenKind::TYPE_F32 || k
            == TokenKind::PAREN_R || k == TokenKind::EOI {
            Ok(ParseTree::new(cur))
        } else if k == TokenKind::PAREN_L || k == TokenKind::OP_NOT || k == TokenKind::KW_FUNC || k
            == TokenKind::OP_SUB {
            match cur.binding_powers() {
                None => Err(Error::MissingBindingPower(k)),
                Some(bp) => match self.pratt_driver(bp.1, fuel) {
                    Err(e) => Err(e),
                    Ok(sub) => {
                        if k == TokenKind::PAREN_L {
                            match self.lexer.advance() {
                                Err(e) => Err(e),
                                Ok(_u) => {
                                    let ghost subv = sub@;
                                    let mut node = ParseTree::new(cur);
                                    node.push(sub);
                                    node.push(ParseTree::new(Token::PAREN_R));
                                    proof {
                                        assert(node@.children =~= seq![
                                            subv,
                                            TreeV {
                                                token: TokenV::PAREN_R,
                                                children: Seq::<TreeV>::empty(),
                                            },
                                        ]);
                                    }
                                    Ok(node)
                                },
                            }
                        } else {
                            let ghost subv = sub@;
                            let mut node = ParseTree::new(cur);
                            node.push(sub);
                            proof {
                                assert(node@.children =~= seq![subv]);
                            }
                            Ok(node)
                        }
                    },
                },
            }
        } else {
            Err(Error::MissingPrefix(k))
        }
    }

    /// The infix loop, following `spec_infix_loop`.
    fn func_infix_loop(&mut self, left: ParseTree, requested_bp: i32, fuel: u64) -> (r: Result<
        ParseTree,
        Error,
    >)
        requires
            old(self).wf(),
        ensures
            final(self).wf(),
            tree_res_matches(r, spec_infix_loop(left@, old(self)@, requested_bp as int, fuel as nat).0),
            final(self)@ == spec_infix_loop(left@, old(self)@, requested_bp as int, fuel as nat).1,
        decreases fuel, 1nat,
    {
        if fuel == 0 {
            return Err(Error::ParseDepth);
        }
        let cur = self.lexer.current();
        match cur.binding_powers() {
            None => Err(Error::MissingBindingPower(cur.kind_of())),
            Some(bp) => {
                if requested_bp >= bp.0 {
                    Ok(left)
                } else {
                    match self.lexer.advance() {
                        Err(e) => Err(e),
                        Ok(_u) => {
                            let k = cur.kind_of();
                            if k == TokenKind::OP_ADD || k == TokenKind::COLON || k
                                == TokenKind::OP_AND || k == TokenKind::OP_OR || k
                                == TokenKind::OP_EQ || k == TokenKind::OP_LT || k
                                == TokenKind::OP_GT || k == TokenKind::OP_NEQ || k
                                == TokenKind::OP_NLT || k == TokenKind::OP_NGT || k
                                == TokenKind::OP_SUB || k == TokenKind::OP_DIV || k
                                == TokenKind::OP_MUL || k == TokenKind::OP_ASSIGN {
                                match self.pratt_driver(bp.1, fuel) {
                                    Err(e) => Err(e),
                                    Ok(right) => {
                                        let ghost leftv = left@;
                                        let ghost rightv = right@;
                                        let mut node = ParseTree::new(cur);
                                        node.push(left);
                                        node.push(right);
                                        proof {
                                            assert(node@.children =~= seq![leftv, rightv]);
                                        }
                                        self.func_infix_loop(node, requested_bp, fuel - 1)
                                    },
                                }
                            } else {
                                Err(Error::MissingInfix(k))
                            }
                        },
                    }
                }
            },
        }
    }

    /// The call-argument list, following `spec_call_args`.
    fn func_call(&mut self, fuel: u64) -> (r: Result<ParseTree, Error>)
        requires
            old(self).wf(),
        ensures
            final(self).wf(),
            tree_res_matches(r, spec_call_args(old(self)@, fuel as nat).0),
            final(self)@ == spec_call_args(old(self)@, fuel as nat).1,
        decreases fuel, 1nat,
    {
        if fuel == 0 {
            return Err(Error::ParseDepth);
        }
        let output = ParseTree::new(self.lexer.current());
        match self.lexer.advance() {
            Err(e) => Err(e),
            Ok(_u) => {
                if self.lexer.current().kind_of() == TokenKind::PAREN_R {
                    Ok(output)
                } else {
                    self.func_args_loop(output, fuel - 1)
                }
            },
        }
    }

    /// One argument after another, following `spec_args_loop`.
    fn func_args_loop(&mut self, parent: ParseTree, fuel: u64) -> (r: Result<ParseTree, Error>)
        requires
            old(self).wf(),
        ensures
            final(self).wf(),
            tree_res_matches(r, spec_args_loop(parent@, old(self)@, fuel as nat).0),
            final(self)@ == spec_args_loop(parent@, old(self)@, fuel as nat).1,
        decreases fuel, 1nat,
    {
        if fuel == 0 {
            return Err(Error::ParseDepth);
        }
        match slice_tokens(&mut self.lexer, TokenKind::COMMA, TokenKind::PAREN_R, fuel - 1) {
            Err(e) => Err(e),
            Ok(text) => match pratt_parse_text(text, fuel - 1) {
                Err(e) => Err(e),
                Ok(tree) => {
                    let mut parent2 = parent;
                    parent2.push(tree);
                    if self.lexer.current().kind_of() == TokenKind::COMMA {
                        match self.lexer.advance() {
                            Err(e) => Err(e),
                            Ok(_u) => self.func_args_loop(parent2, fuel - 1),
                        }
                    } else {
                        Ok(parent2)
                    }
                },
            },
        }
    }
}

/// Slices the token stream into text up to one of the two stop
/// categories or end-of-input, following `spec_slice`.
pub fn slice_tokens(lexer: &mut Lexer, stop1: TokenKind, stop2: TokenKind, fuel: u64) -> (r:
    Result<Vec<u8>, Error>)
    requires
        old(lexer).wf(),
    ensures
        final(lexer).wf(),
        bytes_res_matches(r, spec_slice(old(lexer)@, stop1, stop2, fuel as nat).0),
        final(lexer)@ == spec_slice(old(lexer)@, stop1, stop2, fuel as nat).1,
    decreases fuel, 1nat,
{
    let k = lexer.current().kind_of();
    if k == stop1 || k == stop2 || k == TokenKind::EOI {
        let r: Vec<u8> = Vec::new();
        proof {
            assert(r@ =~= Seq::<u8>::empty());
        }
        return Ok(r);
    }
    if fuel == 0 {
        return Err(Error::ParseDepth);
    }
    let cur = lexer.current();
    match lexer.advance() {
        Err(e) => Err(e),
        Ok(_u) => match slice_tokens(lexer, stop1, stop2, fuel - 1) {
            Err(e) => Err(e),
            Ok(rest) => {
                let ghost restv = rest@;
                let mut t = cur.string();
                t.push(32);
                let mut r2 = rest;
                t.append(&mut r2);
                proof {
                    assert(t@ =~= token_text(cur@) + seq![32u8] + restv);
                }
                Ok(t)
            },
        },
    }
}

/// Parses a free-standing expression text, following `spec_pratt`.
pub fn pratt_parse_text(text: Vec<u8>, fuel: u64) -> (r: Result<ParseTree, Error>)
    ensures
        tree_res_matches(r, spec_pratt(text@, fuel as nat)),
    decreases fuel, 1nat,
{
    match Lexer::new(text) {
        Err(e) => Err(e),
        Ok(lexer) => {
            let mut p = PrattParser { lexer };
            p.pratt_driver(0, fuel)
        },
    }
}


/// A statement-position parse inside a block: what token categories may
/// begin an item.
///
/// The structural parser: recursive descent over program, function,
/// parameter list and block shapes, delegating every expression span to
/// the operator-precedence parser.
pub struct DescentParser {
    lexer: Lexer,
}

/// Consume the lookahead when it has the required category and return it
/// as a leaf, else report the mismatch.
pub open spec fn spec_expect(k: TokenKind, l: LexerV) -> (Result<TreeV, ErrorV>, LexerV) {
    if kind(l.current) == k {
        match lexer_adv(l) {
            Err(e) => (Err(e), l),
            Ok(l1) => (Ok(TreeV { token: l.current, children: Seq::empty() }), l1),
        }
    } else {
        (Err(ErrorV::Expected { expected: k, found: kind(l.current) }), l)
    }
}

/// An expression span in statement position: the text up to the
/// terminating semicolon or opening bracket, parsed afresh.
pub open spec fn spec_expression(l: LexerV, fuel: nat) -> (Result<TreeV, ErrorV>, LexerV)
    decreases fuel,
{
    if fuel == 0 {
        (Err(ErrorV::ParseDepth), l)
    } else {
        match spec_slice(l, TokenKind::SEMICOLON, TokenKind::BRACKET_L, (fuel - 1) as nat) {
            (Err(e), l2) => (Err(e), l2),
            (Ok(text), l2) => match spec_pratt(text, (fuel - 1) as nat) {
                Err(e) => (Err(e), l2),
                Ok(tree) => (Ok(tree), l2),
            },
        }
    }
}

/// A statement introduced by a keyword (`let`, `return`, `print`): the
/// keyword as the node, its expression as the only child.
pub open spec fn spec_keyword_stmt(l: LexerV, fuel: nat) -> (Result<TreeV, ErrorV>, LexerV)
    decreases fuel,
{
    if fuel == 0 {
        (Err(ErrorV::ParseDepth), l)
    } else {
        let head = l.current;
        match lexer_adv(l) {
            Err(e) => (Err(e), l),
            Ok(l1) => match spec_expression(l1, (fuel - 1) as nat) {
                (Err(e), l2) => (Err(e), l2),
                (Ok(expr), l2) => (Ok(TreeV { token: head, children: seq![expr] }), l2),
            },
        }
    }
}

/// One parameter: the name as the node, with the name again as a child
/// and an optional `:` and type annotation after it.
pub open spec fn spec_parameter(l: LexerV, fuel: nat) -> (Result<TreeV, ErrorV>, LexerV)
    decreases fuel,
{
    if fuel == 0 {
        (Err(ErrorV::ParseDepth), l)
    } else {
        let name = l.current;
        match spec_expect(TokenKind::ID, l) {
            (Err(e), l1) => (Err(e), l1),
            (Ok(id), l1) => {
                if kind(l1.current) == TokenKind::COLON {
                    match lexer_adv(l1) {
                        Err(e) => (Err(e), l1),
                        Ok(l2) => {
                            let colon = TreeV { token: TokenV::COLON, children: Seq::empty() };
                            let tk = kind(l2.current);
                            if tk == TokenKind::TYPE_I32 || tk == TokenKind::TYPE_F32 || tk
                                == TokenKind::TYPE_CHAR {
                                match lexer_adv(l2) {
                                    Err(e) => (Err(e), l2),
                                    Ok(l3) => (
                                        Ok(
                                            TreeV {
                                                token: name,
                                                children: seq![
                                                    id,
                                                    colon,
                                                    TreeV { token: l2.current, children: Seq::empty() },
                                                ],
                                            },
                                        ),
                                        l3,
                                    ),
                                }
                            } else {
                                (Ok(TreeV { token: name, children: seq![id, colon] }), l2)
                            }
                        },
                    }
                } else {
                    (Ok(TreeV { token: name, children: seq![id] }), l1)
                }
            },
        }
    }
}

/// The parameters after the first, each preceded by a comma, then the
/// closing paren.
pub open spec fn spec_param_rest(parent: TreeV, l: LexerV, fuel: nat) -> (Result<TreeV, ErrorV>, LexerV)
    decreases fuel,
{
    if fuel == 0 {
        (Err(ErrorV::ParseDepth), l)
    } else {
        if kind(l.current) == TokenKind::COMMA {
            match lexer_adv(l) {
                Err(e) => (Err(e), l),
                Ok(l1) => match spec_parameter(l1, (fuel - 1) as nat) {
                    (Err(e), l2) => (Err(e), l2),
                    (Ok(p), l2) => spec_param_rest(
                        TreeV { token: parent.token, children: parent.children.push(p) },
                        l2,
                        (fuel - 1) as nat,
                    ),
                },
            }
        } else {
            match spec_expect(TokenKind::PAREN_R, l) {
                (Err(e), l1) => (Err(e), l1),
                (Ok(pr), l1) => (
                    Ok(TreeV { token: parent.token, children: parent.children.push(pr) }),
                    l1,
                ),
            }
        }
    }
}

/// The parameter list: rooted at the function name, its children the
/// opening paren, the parameters, and the closing paren.
pub open spec fn spec_param_list(l: LexerV, fuel: nat) -> (Result<TreeV, ErrorV>, LexerV)
    decreases fuel,
{
    if fuel == 0 {
        (Err(ErrorV::ParseDepth), l)
    } else {
        let name = l.current;
        match lexer_adv(l) {
            Err(e) => (Err(e), l),
            Ok(l1) => match spec_expect(TokenKind::PAREN_L, l1) {
                (Err(e), l2) => (Err(e), l2),
                (Ok(pl), l2) => {
                    let parent = TreeV { token: name, children: seq![pl] };
                    if kind(l2.current) == TokenKind::PAREN_R {
                        match spec_expect(TokenKind::PAREN_R, l2) {
                            (Err(e), l3) => (Err(e), l3),
                            (Ok(pr), l3) => (
                                Ok(TreeV { token: name, children: seq![pl, pr] }),
                                l3,
                            ),
                        }
                    } else {
                        match spec_parameter(l2, (fuel - 1) as nat) {
                            (Err(e), l3) => (Err(e), l3),
                            (Ok(p), l3) => spec_param_rest(
                                TreeV { token: name, children: seq![pl, p] },
                                l3,
                                (fuel - 1) as nat,
                            ),
                        }
                    }
                },
            },
        }
    }
}

/// The `else` nodes that trail an `if` in statement position.
pub open spec fn spec_else_run(parent: TreeV, l: LexerV, fuel: nat) -> (Result<TreeV, ErrorV>, LexerV)
    decreases fuel,
{
    if fuel == 0 {
        (Err(ErrorV::ParseDepth), l)
    } else {
        if kind(l.current) == TokenKind::ELSE {
            match spec_else(l, (fuel - 1) as nat) {
                (Err(e), l1) => (Err(e), l1),
                (Ok(els), l1) => spec_else_run(
                    TreeV { token: parent.token, children: parent.children.push(els) },
                    l1,
                    (fuel - 1) as nat,
                ),
            }
        } else {
            (Ok(parent), l)
        }
    }
}

/// The items of a block-like region, up to the closing bracket. Nested
/// bare blocks are taken only where `nested` allows them.
pub open spec fn spec_items(parent: TreeV, l: LexerV, nested: bool, fuel: nat) -> (Result<
    TreeV,
    ErrorV,
>, LexerV)
    decreases fuel,
{
    if fuel == 0 {
        (Err(ErrorV::ParseDepth), l)
    } else {
        let k = kind(l.current);
        if k == TokenKind::BRACKET_R {
            (Ok(parent), l)
        } else if nested && k == TokenKind::BRACKET_L {
            match spec_block_list(l, (fuel - 1) as nat) {
                (Err(e), l1) => (Err(e), l1),
                (Ok(b), l1) => spec_items(
                    TreeV { token: parent.token, children: parent.children.push(b) },
                    l1,
                    nested,
                    (fuel - 1) as nat,
                ),
            }
        } else if k == TokenKind::IF {
            match spec_if(l, (fuel - 1) as nat) {
                (Err(e), l1) => (Err(e), l1),
                (Ok(n), l1) => match spec_else_run(
                    TreeV { token: parent.token, children: parent.children.push(n) },
                    l1,
                    (fuel - 1) as nat,
                ) {
                    (Err(e), l2) => (Err(e), l2),
                    (Ok(parent2), l2) => spec_items(parent2, l2, nested, (fuel - 1) as nat),
                },
            }
        } else if k == TokenKind::WHILE {
            match spec_while(l, (fuel - 1) as nat) {
                (Err(e), l1) => (Err(e), l1),
                (Ok(n), l1) => spec_items(
                    TreeV { token: parent.token, children: parent.children.push(n) },
                    l1,
                    nested,
                    (fuel - 1) as nat,
                ),
            }
        } else if k == TokenKind::LET || k == TokenKind::RETURN || k == TokenKind::PRINT {
            match spec_keyword_stmt(l, (fuel - 1) as nat) {
                (Err(e), l1) => (Err(e), l1),
                (Ok(n), l1) => match spec_expect(TokenKind::SEMICOLON, l1) {
                    (Err(e), l2) => (Err(e), l2),
                    (Ok(_semi), l2) => spec_items(
                        TreeV { token: parent.token, children: parent.children.push(n) },
                        l2,
                        nested,
                        (fuel - 1) as nat,
                    ),
                },
            }
        } else if k == TokenKind::ID {
            match spec_expression(l, (fuel - 1) as nat) {
                (Err(e), l1) => (Err(e), l1),
                (Ok(n), l1) => match spec_expect(TokenKind::SEMICOLON, l1) {
                    (Err(e), l2) => (Err(e), l2),
                    (Ok(_semi), l2) => spec_items(
                        TreeV { token: parent.token, children: parent.children.push(n) },
                        l2,
                        nested,
                        (fuel - 1) as nat,
                    ),
                },
            }
        } else {
            (Err(ErrorV::Expected { expected: TokenKind::BRACKET_R, found: k }), l)
        }
    }
}

/// A bracketed block: rooted at the opening bracket, holding its items
/// and the closing bracket.
pub open spec fn spec_block_nest(l: LexerV, fuel: nat) -> (Result<TreeV, ErrorV>, LexerV)
    decreases fuel,
{
    if fuel == 0 {
        (Err(ErrorV::ParseDepth), l)
    } else {
        let head = l.current;
        match lexer_adv(l) {
            Err(e) => (Err(e), l),
            Ok(l1) => match spec_items(
                TreeV { token: head, children: Seq::empty() },
                l1,
                true,
                (fuel - 1) as nat,
            ) {
                (Err(e), l2) => (Err(e), l2),
                (Ok(parent), l2) => match spec_expect(TokenKind::BRACKET_R, l2) {
                    (Err(e), l3) => (Err(e), l3),
                    (Ok(br), l3) => (
                        Ok(TreeV { token: parent.token, children: parent.children.push(br) }),
                        l3,
                    ),
                },
            },
        }
    }
}

/// A run of adjacent blocks, gathered under the first.
pub open spec fn spec_block_list(l: LexerV, fuel: nat) -> (Result<TreeV, ErrorV>, LexerV)
    decreases fuel,
{
    if fuel == 0 {
        (Err(ErrorV::ParseDepth), l)
    } else {
        match spec_block_nest(l, (fuel - 1) as nat) {
            (Err(e), l1) => (Err(e), l1),
            (Ok(b), l1) => {
                if kind(l1.current) == TokenKind::BRACKET_L {
                    match spec_block_list(l1, (fuel - 1) as nat) {
                        (Err(e), l2) => (Err(e), l2),
                        (Ok(b2), l2) => (
                            Ok(TreeV { token: b.token, children: b.children.push(b2) }),
                            l2,
                        ),
                    }
                } else {
                    (Ok(b), l1)
                }
            },
        }
    }
}

/// At most one `else` after an `if`'s closing bracket.
pub open spec fn spec_if_else(parent: TreeV, l: LexerV, fuel: nat) -> (Result<TreeV, ErrorV>, LexerV)
    decreases fuel,
{
    if fuel == 0 {
        (Err(ErrorV::ParseDepth), l)
    } else if kind(l.current) == TokenKind::ELSE {
        match spec_else(l, (fuel - 1) as nat) {
            (Err(e), l1) => (Err(e), l1),
            (Ok(els), l1) => (
                Ok(TreeV { token: parent.token, children: parent.children.push(els) }),
                l1,
            ),
        }
    } else {
        (Ok(parent), l)
    }
}

/// An `if` statement: the condition expression, the opening bracket, the
/// branch items, the closing bracket, and at most one trailing `else`.
pub open spec fn spec_if(l: LexerV, fuel: nat) -> (Result<TreeV, ErrorV>, LexerV)
    decreases fuel,
{
    if fuel == 0 {
        (Err(ErrorV::ParseDepth), l)
    } else {
        let head = l.current;
        match lexer_adv(l) {
            Err(e) => (Err(e), l),
            Ok(l1) => match spec_expression(l1, (fuel - 1) as nat) {
                (Err(e), l2) => (Err(e), l2),
                (Ok(cond), l2) => match spec_expect(TokenKind::BRACKET_L, l2) {
                    (Err(e), l3) => (Err(e), l3),
                    (Ok(bl), l3) => match spec_items(
                        TreeV { token: head, children: seq![cond, bl] },
                        l3,
                        false,
                        (fuel - 1) as nat,
                    ) {
                        (Err(e), l4) => (Err(e), l4),
                        (Ok(parent), l4) => match spec_expect(TokenKind::BRACKET_R, l4) {
                            (Err(e), l5) => (Err(e), l5),
                            (Ok(br), l5) => spec_if_else(
                                TreeV { token: parent.token, children: parent.children.push(br) },
                                l5,
                                (fuel - 1) as nat,
                            ),
                        },
                    },
                },
            },
        }
    }
}

/// A `while` statement: the condition expression, the opening bracket,
/// the body items, and the closing bracket.
pub open spec fn spec_while(l: LexerV, fuel: nat) -> (Result<TreeV, ErrorV>, LexerV)
    decreases fuel,
{
    if fuel == 0 {
        (Err(ErrorV::ParseDepth), l)
    } else {
        let head = l.current;
        match lexer_adv(l) {
            Err(e) => (Err(e), l),
            Ok(l1) => match spec_expression(l1, (fuel - 1) as nat) {
                (Err(e), l2) => (Err(e), l2),
                (Ok(cond), l2) => match spec_expect(TokenKind::BRACKET_L, l2) {
                    (Err(e), l3) => (Err(e), l3),
                    (Ok(bl), l3) => match spec_items(
                        TreeV { token: head, children: seq![cond, bl] },
                        l3,
                        false,
                        (fuel - 1) as nat,
                    ) {
                        (Err(e), l4) => (Err(e), l4),
                        (Ok(parent), l4) => match spec_expect(TokenKind::BRACKET_R, l4) {
                            (Err(e), l5) => (Err(e), l5),
                            (Ok(br), l5) => (
                                Ok(
                                    TreeV {
                                        token: parent.token,
                                        children: parent.children.push(br),
                                    },
                                ),
                                l5,
                            ),
                        },
                    },
                },
            },
        }
    }
}

/// An `else`: either a chained `if`, or a bracketed run of items.
pub open spec fn spec_else(l: LexerV, fuel: nat) -> (Result<TreeV, ErrorV>, LexerV)
    decreases fuel,
{
    if fuel == 0 {
        (Err(ErrorV::ParseDepth), l)
    } else {
        let head = l.current;
        match lexer_adv(l) {
            Err(e) => (Err(e), l),
            Ok(l1) => {
                if kind(l1.current) == TokenKind::IF {
                    match spec_if(l1, (fuel - 1) as nat) {
                        (Err(e), l2) => (Err(e), l2),
                        (Ok(n), l2) => (Ok(TreeV { token: head, children: seq![n] }), l2),
                    }
                } else {
                    match spec_expect(TokenKind::BRACKET_L, l1) {
                        (Err(e), l2) => (Err(e), l2),
                        (Ok(bl), l2) => match spec_items(
                            TreeV { token: head, children: seq![bl] },
                            l2,
                            false,
                            (fuel - 1) as nat,
                        ) {
                            (Err(e), l3) => (Err(e), l3),
                            (Ok(parent), l3) => match spec_expect(TokenKind::BRACKET_R, l3) {
                                (Err(e), l4) => (Err(e), l4),
                                (Ok(br), l4) => (
                                    Ok(
                                        TreeV {
                                            token: parent.token,
                                            children: parent.children.push(br),
                                        },
                                    ),
                                    l4,
                                ),
                            },
                        },
                    }
                }
            },
        }
    }
}

/// The return-type annotation and block after a function's arrow.
pub open spec fn spec_func_arrow(params: TreeV, arrow: TreeV, l: LexerV, fuel: nat) -> (Result<
    TreeV,
    ErrorV,
>, LexerV)
    decreases fuel,
{
    if fuel == 0 {
        (Err(ErrorV::ParseDepth), l)
    } else {
        match spec_expect(TokenKind::TYPE_I32, l) {
            (Err(e), l1) => (Err(e), l1),
            (Ok(ty), l1) => match spec_block_nest(l1, (fuel - 1) as nat) {
                (Err(e), l2) => (Err(e), l2),
                (Ok(block), l2) => (
                    Ok(
                        TreeV {
                            token: TokenV::KW_FUNC,
                            children: seq![params, arrow, ty, block],
                        },
                    ),
                    l2,
                ),
            },
        }
    }
}

/// The rest of a function declaration after its parameter list: an
/// optional return-type annotation, then the block subtree.
pub open spec fn spec_func_rest(params: TreeV, l: LexerV, fuel: nat) -> (Result<TreeV, ErrorV>, LexerV)
    decreases fuel,
{
    if fuel == 0 {
        (Err(ErrorV::ParseDepth), l)
    } else if kind(l.current) == TokenKind::ARROW_R {
        match lexer_adv(l) {
            Err(e) => (Err(e), l),
            Ok(l1) => spec_func_arrow(
                params,
                TreeV { token: l.current, children: Seq::empty() },
                l1,
                (fuel - 1) as nat,
            ),
        }
    } else {
        match spec_block_nest(l, (fuel - 1) as nat) {
            (Err(e), l1) => (Err(e), l1),
            (Ok(block), l1) => (
                Ok(TreeV { token: TokenV::KW_FUNC, children: seq![params, block] }),
                l1,
            ),
        }
    }
}

/// A function declaration: `func`, then the parameter-list subtree, an
/// optional return-type annotation, and the block subtree.
pub open spec fn spec_func(l: LexerV, fuel: nat) -> (Result<TreeV, ErrorV>, LexerV)
    decreases fuel,
{
    if fuel == 0 {
        (Err(ErrorV::ParseDepth), l)
    } else {
        match lexer_adv(l) {
            Err(e) => (Err(e), l),
            Ok(l1) => match spec_param_list(l1, (fuel - 1) as nat) {
                (Err(e), l2) => (Err(e), l2),
                (Ok(params), l2) => spec_func_rest(params, l2, (fuel - 1) as nat),
            },
        }
    }
}

/// The function trees of a whole program, then end-of-input.
pub open spec fn spec_program_trees(acc: Seq<TreeV>, l: LexerV, fuel: nat) -> (Result<
    Seq<TreeV>,
    ErrorV,
>, LexerV)
    decreases fuel,
{
    if fuel == 0 {
        (Err(ErrorV::ParseDepth), l)
    } else {
        if kind(l.current) == TokenKind::KW_FUNC {
            match spec_func(l, (fuel - 1) as nat) {
                (Err(e), l1) => (Err(e), l1),
                (Ok(f), l1) => spec_program_trees(acc.push(f), l1, (fuel - 1) as nat),
            }
        } else if kind(l.current) == TokenKind::EOI {
            (Ok(acc), l)
        } else {
            (
                Err(ErrorV::Expected { expected: TokenKind::EOI, found: kind(l.current) }),
                l,
            )
        }
    }
}

/// Whether an executable tree-sequence result agrees with a
/// specification result.
pub open spec fn trees_res_matches(r: Result<Vec<ParseTree>, Error>, s: Result<Seq<TreeV>, ErrorV>) -> bool {
    match r {
        Ok(v) => s is Ok && crate::parse_tree::trees_view(v@) == s->Ok_0,
        Err(e) => s is Err && e@ == s->Err_0,
    }
}

impl View for DescentParser {
    type V = LexerV;

    closed spec fn view(&self) -> LexerV {
        self.lexer@
    }
}

impl DescentParser {
    /// The scanner inside never passes the end of its input.
    pub closed spec fn wf(&self) -> bool {
        self.lexer.wf()
    }

    /// Wraps a scanner.
    pub fn new(lexer: Lexer) -> (r: DescentParser)
        requires
            lexer.wf(),
        ensures
            r@ == lexer@,
            r.wf(),
    {
        DescentParser { lexer }
    }

    /// Consumes the lookahead if it has the wanted category, returning
    /// it as a leaf; reports the mismatch otherwise.
    fn expect(&mut self, k: TokenKind) -> (r: Result<ParseTree, Error>)
        requires
            old(self).wf(),
        ensures
            final(self).wf(),
            tree_res_matches(r, spec_expect(k, old(self)@).0),
            final(self)@ == spec_expect(k, old(self)@).1,
    {
        let cur = self.lexer.current();
        if cur.kind_of() == k {
            match self.lexer.advance() {
                Err(e) => Err(e),
                Ok(_u) => Ok(ParseTree::new(cur)),
            }
        } else {
            Err(Error::Expected { expected: k, found: cur.kind_of() })
        }
    }

    /// An expression span in statement position, following
    /// `spec_expression`.
    fn parse_expression(&mut self, fuel: u64) -> (r: Result<ParseTree, Error>)
        requires
            old(self).wf(),
        ensures
            final(self).wf(),
            tree_res_matches(r, spec_expression(old(self)@, fuel as nat).0),
            final(self)@ == spec_expression(old(self)@, fuel as nat).1,
        decreases fuel,
    {
        if fuel == 0 {
            return Err(Error::ParseDepth);
        }
        let text = match slice_tokens(
            &mut self.lexer,
            TokenKind::SEMICOLON,
            TokenKind::BRACKET_L,
            fuel - 1,
        ) {
            Err(e) => return Err(e),
            Ok(t) => t,
        };
        match pratt_parse_text(text, fuel - 1) {
            Err(e) => Err(e),
            Ok(tree) => Ok(tree),
        }
    }
}



impl DescentParser {
    /// One parameter, following `spec_parameter`.
    fn parse_parameter(&mut self, fuel: u64) -> (r: Result<ParseTree, Error>)
        requires
            old(self).wf(),
        ensures
            final(self).wf(),
            tree_res_matches(r, spec_parameter(old(self)@, fuel as nat).0),
            final(self)@ == spec_parameter(old(self)@, fuel as nat).1,
        decreases fuel,
    {
        if fuel == 0 {
            return Err(Error::ParseDepth);
        }
        let name = self.lexer.current();
        let id = match self.expect(TokenKind::ID) {
            Err(e) => return Err(e),
            Ok(t) => t,
        };
        let ghost idv = id@;
        if self.lexer.current().kind_of() == TokenKind::COLON {
            match self.lexer.advance() {
                Err(e) => Err(e),
                Ok(_u) => {
                    let colon = ParseTree::new(Token::COLON);
                    let ghost colonv = colon@;
                    let tk = self.lexer.current().kind_of();
                    if tk == TokenKind::TYPE_I32 || tk == TokenKind::TYPE_F32 || tk
                        == TokenKind::TYPE_CHAR {
                        let ty = ParseTree::new(self.lexer.current());
                        let ghost tyv = ty@;
                        match self.lexer.advance() {
                            Err(e) => Err(e),
                            Ok(_u2) => {
                                let mut node = ParseTree::new(name);
                                node.push(id);
                                node.push(colon);
                                node.push(ty);
                                proof {
                                    assert(node@.children =~= seq![idv, colonv, tyv]);
                                }
                                Ok(node)
                            },
                        }
                    } else {
                        let mut node = ParseTree::new(name);
                        node.push(id);
                        node.push(colon);
                        proof {
                            assert(node@.children =~= seq![idv, colonv]);
                        }
                        Ok(node)
                    }
                },
            }
        } else {
            let mut node = ParseTree::new(name);
            node.push(id);
            proof {
                assert(node@.children =~= seq![idv]);
            }
            Ok(node)
        }
    }

    /// The parameters after the first, following `spec_param_rest`.
    fn parse_param_rest(&mut self, parent: ParseTree, fuel: u64) -> (r: Result<ParseTree, Error>)
        requires
            old(self).wf(),
        ensures
            final(self).wf(),
            tree_res_matches(r, spec_param_rest(parent@, old(self)@, fuel as nat).0),
            final(self)@ == spec_param_rest(parent@, old(self)@, fuel as nat).1,
        decreases fuel,
    {
        if fuel == 0 {
            return Err(Error::ParseDepth);
        }
        if self.lexer.current().kind_of() == TokenKind::COMMA {
            match self.lexer.advance() {
                Err(e) => Err(e),
                Ok(_u) => match self.parse_parameter(fuel - 1) {
                    Err(e) => Err(e),
                    Ok(p) => {
                        let mut parent2 = parent;
                        parent2.push(p);
                        self.parse_param_rest(parent2, fuel - 1)
                    },
                },
            }
        } else {
            match self.expect(TokenKind::PAREN_R) {
                Err(e) => Err(e),
                Ok(pr) => {
                    let mut parent2 = parent;
                    parent2.push(pr);
                    Ok(parent2)
                },
            }
        }
    }

    /// The parameter list, following `spec_param_list`.
    fn parse_parameter_list(&mut self, fuel: u64) -> (r: Result<ParseTree, Error>)
        requires
            old(self).wf(),
        ensures
            final(self).wf(),
            tree_res_matches(r, spec_param_list(old(self)@, fuel as nat).0),
            final(self)@ == spec_param_list(old(self)@, fuel as nat).1,
        decreases fuel,
    {
        if fuel == 0 {
            return Err(Error::ParseDepth);
        }
        let name = self.lexer.current();
        match self.lexer.advance() {
            Err(e) => Err(e),
            Ok(_u) => match self.expect(TokenKind::PAREN_L) {
                Err(e) => Err(e),
                Ok(pl) => {
                    let ghost plv = pl@;
                    if self.lexer.current().kind_of() == TokenKind::PAREN_R {
                        match self.expect(TokenKind::PAREN_R) {
                            Err(e) => Err(e),
                            Ok(pr) => {
                                let ghost prv = pr@;
                                let mut node = ParseTree::new(name);
                                node.push(pl);
                                node.push(pr);
                                proof {
                                    assert(node@.children =~= seq![plv, prv]);
                                }
                                Ok(node)
                            },
                        }
                    } else {
                        match self.parse_parameter(fuel - 1) {
                            Err(e) => Err(e),
                            Ok(p) => {
                                let ghost pv = p@;
                                let mut node = ParseTree::new(name);
                                node.push(pl);
                                node.push(p);
                                proof {
                                    assert(node@.children =~= seq![plv, pv]);
                                }
                                self.parse_param_rest(node, fuel - 1)
                            },
                        }
                    }
                },
            },
        }
    }

    /// The `else` nodes trailing an `if`, following `spec_else_run`.
    fn parse_else_run(&mut self, parent: ParseTree, fuel: u64) -> (r: Result<ParseTree, Error>)
        requires
            old(self).wf(),
        ensures
            final(self).wf(),
            tree_res_matches(r, spec_else_run(parent@, old(self)@, fuel as nat).0),
            final(self)@ == spec_else_run(parent@, old(self)@, fuel as nat).1,
        decreases fuel,
    {
        if fuel == 0 {
            return Err(Error::ParseDepth);
        }
        if self.lexer.current().kind_of() == TokenKind::ELSE {
            match self.parse_else(fuel - 1) {
                Err(e) => Err(e),
                Ok(els) => {
                    let mut parent2 = parent;
                    parent2.push(els);
                    self.parse_else_run(parent2, fuel - 1)
                },
            }
        } else {
            Ok(parent)
        }
    }

    /// The items of a block-like region, following `spec_items`.
    fn parse_items(&mut self, parent: ParseTree, nested: bool, fuel: u64) -> (r: Result<
        ParseTree,
        Error,
    >)
        requires
            old(self).wf(),
        ensures
            final(self).wf(),
            tree_res_matches(r, spec_items(parent@, old(self)@, nested, fuel as nat).0),
            final(self)@ == spec_items(parent@, old(self)@, nested, fuel as nat).1,
        decreases fuel,
    {
        if fuel == 0 {
            return Err(Error::ParseDepth);
        }
        let k = self.lexer.current().kind_of();
        if k == TokenKind::BRACKET_R {
            Ok(parent)
        } else if nested && k == TokenKind::BRACKET_L {
            match self.parse_block_list(fuel - 1) {
                Err(e) => Err(e),
                Ok(b) => {
                    let mut parent2 = parent;
                    parent2.push(b);
                    self.parse_items(parent2, nested, fuel - 1)
                },
            }
        } else if k == TokenKind::IF {
            match self.parse_if(fuel - 1) {
                Err(e) => Err(e),
                Ok(n) => {
                    let mut parent1 = parent;
                    parent1.push(n);
                    match self.parse_else_run(parent1, fuel - 1) {
                        Err(e) => Err(e),
                        Ok(parent2) => self.parse_items(parent2, nested, fuel - 1),
                    }
                },
            }
        } else if k == TokenKind::WHILE {
            match self.parse_while(fuel - 1) {
                Err(e) => Err(e),
                Ok(n) => {
                    let mut parent2 = parent;
                    parent2.push(n);
                    self.parse_items(parent2, nested, fuel - 1)
                },
            }
        } else if k == TokenKind::LET || k == TokenKind::RETURN || k == TokenKind::PRINT {
            match self.parse_keyword_stmt(fuel - 1) {
                Err(e) => Err(e),
                Ok(n) => match self.expect(TokenKind::SEMICOLON) {
                    Err(e) => Err(e),
                    Ok(_semi) => {
                        let mut parent2 = parent;
                        parent2.push(n);
                        self.parse_items(parent2, nested, fuel - 1)
                    },
                },
            }
        } else if k == TokenKind::ID {
            match self.parse_expression(fuel - 1) {
                Err(e) => Err(e),
                Ok(n) => match self.expect(TokenKind::SEMICOLON) {
                    Err(e) => Err(e),
                    Ok(_semi) => {
                        let mut parent2 = parent;
                        parent2.push(n);
                        self.parse_items(parent2, nested, fuel - 1)
                    },
                },
            }
        } else {
            Err(Error::Expected { expected: TokenKind::BRACKET_R, found: k })
        }
    }

    /// A statement introduced by `let`, `return` or `print`, following
    /// `spec_keyword_stmt`.
    fn parse_keyword_stmt(&mut self, fuel: u64) -> (r: Result<ParseTree, Error>)
        requires
            old(self).wf(),
        ensures
            final(self).wf(),
            tree_res_matches(r, spec_keyword_stmt(old(self)@, fuel as nat).0),
            final(self)@ == spec_keyword_stmt(old(self)@, fuel as nat).1,
        decreases fuel,
    {
        if fuel == 0 {
            return Err(Error::ParseDepth);
        }
        let head = self.lexer.current();
        match self.lexer.advance() {
            Err(e) => Err(e),
            Ok(_u) => match self.parse_expression(fuel - 1) {
                Err(e) => Err(e),
                Ok(expr) => {
                    let ghost exprv = expr@;
                    let mut node = ParseTree::new(head);
                    node.push(expr);
                    proof {
                        assert(node@.children =~= seq![exprv]);
                    }
                    Ok(node)
                },
            },
        }
    }

    /// A bracketed block, following `spec_block_nest`.
    fn parse_block_nest(&mut self, fuel: u64) -> (r: Result<ParseTree, Error>)
        requires
            old(self).wf(),
        ensures
            final(self).wf(),
            tree_res_matches(r, spec_block_nest(old(self)@, fuel as nat).0),
            final(self)@ == spec_block_nest(old(self)@, fuel as nat).1,
        decreases fuel,
    {
        if fuel == 0 {
            return Err(Error::ParseDepth);
        }
        let head = self.lexer.current();
        match self.lexer.advance() {
            Err(e) => Err(e),
            Ok(_u) => match self.parse_items(ParseTree::new(head), true, fuel - 1) {
                Err(e) => Err(e),
                Ok(parent) => match self.expect(TokenKind::BRACKET_R) {
                    Err(e) => Err(e),
                    Ok(br) => {
                        let mut parent2 = parent;
                        parent2.push(br);
                        Ok(parent2)
                    },
                },
            },
        }
    }

    /// A run of adjacent blocks, following `spec_block_list`.
    fn parse_block_list(&mut self, fuel: u64) -> (r: Result<ParseTree, Error>)
        requires
            old(self).wf(),
        ensures
            final(self).wf(),
            tree_res_matches(r, spec_block_list(old(self)@, fuel as nat).0),
            final(self)@ == spec_block_list(old(self)@, fuel as nat).1,
        decreases fuel,
    {
        if fuel == 0 {
            return Err(Error::ParseDepth);
        }
        match self.parse_block_nest(fuel - 1) {
            Err(e) => Err(e),
            Ok(b) => {
                if self.lexer.current().kind_of() == TokenKind::BRACKET_L {
                    match self.parse_block_list(fuel - 1) {
                        Err(e) => Err(e),
                        Ok(b2) => {
                            let mut b1 = b;
                            b1.push(b2);
                            Ok(b1)
                        },
                    }
                } else {
                    Ok(b)
                }
            },
        }
    }

    /// At most one trailing `else`, following `spec_if_else`.
    fn parse_if_else(&mut self, parent: ParseTree, fuel: u64) -> (r: Result<ParseTree, Error>)
        requires
            old(self).wf(),
        ensures
            final(self).wf(),
            tree_res_matches(r, spec_if_else(parent@, old(self)@, fuel as nat).0),
            final(self)@ == spec_if_else(parent@, old(self)@, fuel as nat).1,
        decreases fuel,
    {
        if fuel == 0 {
            return Err(Error::ParseDepth);
        }
        if self.lexer.current().kind_of() == TokenKind::ELSE {
            match self.parse_else(fuel - 1) {
                Err(e) => Err(e),
                Ok(els) => {
                    let mut parent2 = parent;
                    parent2.push(els);
                    Ok(parent2)
                },
            }
        } else {
            Ok(parent)
        }
    }

    /// An `if` statement, following `spec_if`.
    fn parse_if(&mut self, fuel: u64) -> (r: Result<ParseTree, Error>)
        requires
            old(self).wf(),
        ensures
            final(self).wf(),
            tree_res_matches(r, spec_if(old(self)@, fuel as nat).0),
            final(self)@ == spec_if(old(self)@, fuel as nat).1,
        decreases fuel,
    {
        if fuel == 0 {
            return Err(Error::ParseDepth);
        }
        let head = self.lexer.current();
        match self.lexer.advance() {
            Err(e) => Err(e),
            Ok(_u) => match self.parse_expression(fuel - 1) {
                Err(e) => Err(e),
                Ok(cond) => {
                    let ghost condv = cond@;
                    match self.expect(TokenKind::BRACKET_L) {
                        Err(e) => Err(e),
                        Ok(bl) => {
                            let ghost blv = bl@;
                            let mut node = ParseTree::new(head);
                            node.push(cond);
                            node.push(bl);
                            proof {
                                assert(node@.children =~= seq![condv, blv]);
                            }
                            match self.parse_items(node, false, fuel - 1) {
                                Err(e) => Err(e),
                                Ok(parent) => match self.expect(TokenKind::BRACKET_R) {
                                    Err(e) => Err(e),
                                    Ok(br) => {
                                        let mut parent2 = parent;
                                        parent2.push(br);
                                        self.parse_if_else(parent2, fuel - 1)
                                    },
                                },
                            }
                        },
                    }
                },
            },
        }
    }

    /// A `while` statement, following `spec_while`.
    fn parse_while(&mut self, fuel: u64) -> (r: Result<ParseTree, Error>)
        requires
            old(self).wf(),
        ensures
            final(self).wf(),
            tree_res_matches(r, spec_while(old(self)@, fuel as nat).0),
            final(self)@ == spec_while(old(self)@, fuel as nat).1,
        decreases fuel,
    {
        if fuel == 0 {
            return Err(Error::ParseDepth);
        }
        let head = self.lexer.current();
        match self.lexer.advance() {
            Err(e) => Err(e),
            Ok(_u) => match self.parse_expression(fuel - 1) {
                Err(e) => Err(e),
                Ok(cond) => {
                    let ghost condv = cond@;
                    match self.expect(TokenKind::BRACKET_L) {
                        Err(e) => Err(e),
                        Ok(bl) => {
                            let ghost blv = bl@;
                            let mut node = ParseTree::new(head);
                            node.push(cond);
                            node.push(bl);
                            proof {
                                assert(node@.children =~= seq![condv, blv]);
                            }
                            match self.parse_items(node, false, fuel - 1) {
                                Err(e) => Err(e),
                                Ok(parent) => match self.expect(TokenKind::BRACKET_R) {
                                    Err(e) => Err(e),
                                    Ok(br) => {
                                        let mut parent2 = parent;
                                        parent2.push(br);
                                        Ok(parent2)
                                    },
                                },
                            }
                        },
                    }
                },
            },
        }
    }

    /// An `else`, following `spec_else`.
    fn parse_else(&mut self, fuel: u64) -> (r: Result<ParseTree, Error>)
        requires
            old(self).wf(),
        ensures
            final(self).wf(),
            tree_res_matches(r, spec_else(old(self)@, fuel as nat).0),
            final(self)@ == spec_else(old(self)@, fuel as nat).1,
        decreases fuel,
    {
        if fuel == 0 {
            return Err(Error::ParseDepth);
        }
        let head = self.lexer.current();
        match self.lexer.advance() {
            Err(e) => Err(e),
            Ok(_u) => {
                if self.lexer.current().kind_of() == TokenKind::IF {
                    match self.parse_if(fuel - 1) {
                        Err(e) => Err(e),
                        Ok(n) => {
                            let ghost nv = n@;
                            let mut node = ParseTree::new(head);
                            node.push(n);
                            proof {
                                assert(node@.children =~= seq![nv]);
                            }
                            Ok(node)
                        },
                    }
                } else {
                    match self.expect(TokenKind::BRACKET_L) {
                        Err(e) => Err(e),
                        Ok(bl) => {
                            let ghost blv = bl@;
                            let mut node = ParseTree::new(head);
                            node.push(bl);
                            proof {
                                assert(node@.children =~= seq![blv]);
                            }
                            match self.parse_items(node, false, fuel - 1) {
                                Err(e) => Err(e),
                                Ok(parent) => match self.expect(TokenKind::BRACKET_R) {
                                    Err(e) => Err(e),
                                    Ok(br) => {
                                        let mut parent2 = parent;
                                        parent2.push(br);
                                        Ok(parent2)
                                    },
                                },
                            }
                        },
                    }
                }
            },
        }
    }

    /// The annotation and block after a function's arrow, following
    /// `spec_func_arrow`.
    #[verifier::rlimit(100)]
    #[verifier::spinoff_prover]
    fn parse_func_arrow(&mut self, params: ParseTree, arrow: ParseTree, fuel: u64) -> (r: Result<
        ParseTree,
        Error,
    >)
        requires
            old(self).wf(),
        ensures
            final(self).wf(),
            ({
                let s = spec_func_arrow(params@, arrow@, old(self)@, fuel as nat);
                final(self)@ == s.1 && tree_res_matches(r, s.0)
            }),
        decreases fuel,
    {
        if fuel == 0 {
            return Err(Error::ParseDepth);
        }
        let ghost paramsv = params@;
        let ghost arrowv = arrow@;
        let ghost l0 = old(self)@;
        match self.expect(TokenKind::TYPE_I32) {
            Err(e) => {
                proof {
                    assert(spec_expect(TokenKind::TYPE_I32, l0).0 is Err);
                }
                Err(e)
            },
            Ok(ty) => {
                let ghost tyv = ty@;
                proof {
                    assert(spec_expect(TokenKind::TYPE_I32, l0).0 == Ok::<TreeV, ErrorV>(tyv));
                    assert(spec_expect(TokenKind::TYPE_I32, l0).1 == self@);
                }
                match self.parse_block_nest(fuel - 1) {
                    Err(e) => Err(e),
                    Ok(block) => {
                        let ghost blockv = block@;
                        let mut node = ParseTree::new(Token::KW_FUNC);
                        node.push(params);
                        node.push(arrow);
                        node.push(ty);
                        node.push(block);
                        proof {
                            assert(node@.children =~= seq![paramsv, arrowv, tyv, blockv]);
                            assert(spec_func_arrow(paramsv, arrowv, l0, fuel as nat).0
                                == Ok::<TreeV, ErrorV>(node@));
                        }
                        Ok(node)
                    },
                }
            },
        }
    }

    /// The rest of a function declaration after its parameter list,
    /// following `spec_func_rest`.
    #[verifier::rlimit(100)]
    #[verifier::spinoff_prover]
    fn parse_func_rest(&mut self, params: ParseTree, fuel: u64) -> (r: Result<ParseTree, Error>)
        requires
            old(self).wf(),
        ensures
            final(self).wf(),
            tree_res_matches(r, spec_func_rest(params@, old(self)@, fuel as nat).0),
            final(self)@ == spec_func_rest(params@, old(self)@, fuel as nat).1,
        decreases fuel,
    {
        if fuel == 0 {
            return Err(Error::ParseDepth);
        }
        let ghost paramsv = params@;
        if self.lexer.current().kind_of() == TokenKind::ARROW_R {
            let arrow = ParseTree::new(self.lexer.current());
            match self.lexer.advance() {
                Err(e) => Err(e),
                Ok(_u) => self.parse_func_arrow(params, arrow, fuel - 1),
            }
        } else {
            match self.parse_block_nest(fuel - 1) {
                Err(e) => Err(e),
                Ok(block) => {
                    let ghost blockv = block@;
                    let mut node = ParseTree::new(Token::KW_FUNC);
                    node.push(params);
                    node.push(block);
                    proof {
                        assert(node@.children =~= seq![paramsv, blockv]);
                    }
                    Ok(node)
                },
            }
        }
    }

    /// A function declaration, following `spec_func`.
    fn parse_func(&mut self, fuel: u64) -> (r: Result<ParseTree, Error>)
        requires
            old(self).wf(),
        ensures
            final(self).wf(),
            tree_res_matches(r, spec_func(old(self)@, fuel as nat).0),
            final(self)@ == spec_func(old(self)@, fuel as nat).1,
        decreases fuel,
    {
        if fuel == 0 {
            return Err(Error::ParseDepth);
        }
        match self.lexer.advance() {
            Err(e) => Err(e),
            Ok(_u) => match self.parse_parameter_list(fuel - 1) {
                Err(e) => Err(e),
                Ok(params) => self.parse_func_rest(params, fuel - 1),
            },
        }
    }

    /// The function trees of a whole program, following
    /// `spec_program_trees`.
    fn parse_program_trees(&mut self, acc: Vec<ParseTree>, fuel: u64) -> (r: Result<
        Vec<ParseTree>,
        Error,
    >)
        requires
            old(self).wf(),
        ensures
            final(self).wf(),
            trees_res_matches(
                r,
                spec_program_trees(crate::parse_tree::trees_view(acc@), old(self)@, fuel as nat).0,
            ),
            final(self)@ == spec_program_trees(
                crate::parse_tree::trees_view(acc@),
                old(self)@,
                fuel as nat,
            ).1,
        decreases fuel,
    {
        if fuel == 0 {
            return Err(Error::ParseDepth);
        }
        let k = self.lexer.current().kind_of();
        if k == TokenKind::KW_FUNC {
            match self.parse_func(fuel - 1) {
                Err(e) => Err(e),
                Ok(f) => {
                    let ghost accv = crate::parse_tree::trees_view(acc@);
                    let ghost fv = f@;
                    let mut acc2 = acc;
                    acc2.push(f);
                    proof {
                        assert(acc2@.drop_last() =~= acc@);
                        assert(crate::parse_tree::trees_view(acc2@) == accv.push(fv));
                    }
                    self.parse_program_trees(acc2, fuel - 1)
                },
            }
        } else if k == TokenKind::EOI {
            Ok(acc)
        } else {
            Err(Error::Expected { expected: TokenKind::EOI, found: k })
        }
    }

    /// Parses the whole program into one parse tree per function
    /// declaration, with the nesting budget the input's length grants.
    pub fn parse_trees(&mut self) -> (r: Result<Vec<ParseTree>, Error>)
        requires
            old(self).wf(),
            old(self)@.input.len() < 0x1000_0000_0000_0000,
        ensures
            final(self).wf(),
            trees_res_matches(
                r,
                spec_program_trees(Seq::empty(), old(self)@, pratt_fuel(old(self)@.input)).0,
            ),
            final(self)@ == spec_program_trees(
                Seq::empty(),
                old(self)@,
                pratt_fuel(old(self)@.input),
            ).1,
    {
        let n = self.lexer.input_len();
        let fuel: u64 = 2 * (n as u64) + 16;
        let acc: Vec<ParseTree> = Vec::new();
        proof {
            assert(crate::parse_tree::trees_view(acc@) =~= Seq::<TreeV>::empty());
        }
        self.parse_program_trees(acc, fuel)
    }
}


} // verus!
