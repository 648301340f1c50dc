//! The generic parse tree: a token with an ordered sequence of owned
//! child trees, built bottom-up by the parsers and consumed once by the
//! lowering pass.

use vstd::prelude::*;

use crate::token::{Token, TokenV};

verus! {

/// The mathematical value of a parse tree.
pub struct TreeV {
    pub token: TokenV,
    pub children: Seq<TreeV>,
}

/// A token plus its ordered child trees.
pub struct ParseTree {
    pub token: Token,
    pub children: Vec<ParseTree>,
}

/// The mathematical value of a parse tree node.
pub open spec fn tree_view(t: ParseTree) -> TreeV
    decreases t,
{
    TreeV { token: t.token@, children: trees_view(t.children@) }
}

/// The mathematical values of a sequence of parse trees, in order.
pub open spec fn trees_view(s: Seq<ParseTree>) -> Seq<TreeV>
    decreases s,
{
    if s.len() == 0 {
        Seq::empty()
    } else {
        trees_view(s.drop_last()).push(tree_view(s.last()))
    }
}

impl View for ParseTree {
    type V = TreeV;

    open spec fn view(&self) -> TreeV {
        tree_view(*self)
    }
}

/// The element values of `trees_view` are the views of the elements.
pub proof fn lemma_trees_view_len(s: Seq<ParseTree>)
    ensures
        trees_view(s).len() == s.len(),
        forall|i: int| 0 <= i < s.len() ==> trees_view(s)[i] == tree_view(s[i]),
    decreases s,
{
    if s.len() > 0 {
        lemma_trees_view_len(s.drop_last());
    }
}

impl ParseTree {
    /// A leaf node holding `token`.
    pub fn new(token: Token) -> (r: ParseTree)
        ensures
            r@ == (TreeV { token: token@, children: Seq::<TreeV>::empty() }),
    {
        let r = ParseTree { token, children: Vec::new() };
        proof {
            assert(trees_view(r.children@) =~= Seq::<TreeV>::empty());
        }
        r
    }

    /// Appends `tree` as the last child.
    pub fn push(&mut self, tree: ParseTree)
        ensures
            final(self)@ == (TreeV {
                token: old(self)@.token,
                children: old(self)@.children.push(tree@),
            }),
    {
        let ghost old_children = self.children@;
        self.children.push(tree);
        proof {
            assert(self.children@.drop_last() =~= old_children);
        }
    }
}

} // verus!
