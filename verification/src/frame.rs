//! The runtime environment: a frame maps names to values. The language
//! has a two-level scoping model — one global frame, and one local frame
//! per active call — so a frame here is a flat table; the executor wires
//! local lookups to fall back to the globals.

use vstd::prelude::*;

use crate::token::{bytes_eq, clone_bytes};
use crate::value::{Value, ValueV};

verus! {

/// The mathematical value of a frame: its bindings in declaration order;
/// the latest binding of a name shadows earlier ones.
pub type FrameV = Seq<(Seq<u8>, ValueV)>;

/// The position of the latest binding of `n`, or `-1` when there is
/// none.
pub open spec fn last_index_of(f: FrameV, n: Seq<u8>) -> int
    decreases f.len(),
{
    if f.len() == 0 {
        -1
    } else if f.last().0 == n {
        f.len() - 1
    } else {
        last_index_of(f.drop_last(), n)
    }
}

/// The value bound to `n`, if any.
pub open spec fn frame_lookup(f: FrameV, n: Seq<u8>) -> Option<ValueV> {
    if last_index_of(f, n) >= 0 {
        Some(f[last_index_of(f, n)].1)
    } else {
        None
    }
}

/// The frame with the latest binding of `n` replaced by `v`; unchanged
/// when `n` is not bound.
pub open spec fn frame_set(f: FrameV, n: Seq<u8>, v: ValueV) -> FrameV {
    if last_index_of(f, n) >= 0 {
        f.update(last_index_of(f, n), (n, v))
    } else {
        f
    }
}

/// What `last_index_of` finds: a binding of `n` with none after it, or
/// nothing anywhere.
pub proof fn lemma_last_index_of(f: FrameV, n: Seq<u8>)
    ensures
        -1 <= last_index_of(f, n) < f.len(),
        last_index_of(f, n) < 0 ==> forall|k: int| 0 <= k < f.len() ==> f[k].0 != n,
        last_index_of(f, n) >= 0 ==> f[last_index_of(f, n)].0 == n && forall|k: int|
            last_index_of(f, n) < k < f.len() ==> f[k].0 != n,
    decreases f.len(),
{
    if f.len() > 0 {
        lemma_last_index_of(f.drop_last(), n);
        assert(forall|k: int| 0 <= k < f.len() - 1 ==> f.drop_last()[k] == f[k]);
    }
}

/// One binding of a frame.
pub struct Binding {
    pub name: Vec<u8>,
    pub value: Value,
}

/// A runtime scope: a table of bindings.
pub struct Frame {
    pub vars: Vec<Binding>,
}

/// The mathematical value of a run of bindings.
pub open spec fn bindings_view(s: Seq<Binding>) -> FrameV
    decreases s.len(),
{
    if s.len() == 0 {
        Seq::empty()
    } else {
        bindings_view(s.drop_last()).push((s.last().name@, s.last().value@))
    }
}

/// The element values of `bindings_view` are the bindings themselves.
pub proof fn lemma_bindings_view_len(s: Seq<Binding>)
    ensures
        bindings_view(s).len() == s.len(),
        forall|i: int| 0 <= i < s.len() ==> bindings_view(s)[i] == (s[i].name@, s[i].value@),
    decreases s.len(),
{
    if s.len() > 0 {
        lemma_bindings_view_len(s.drop_last());
    }
}

impl View for Frame {
    type V = FrameV;

    open spec fn view(&self) -> FrameV {
        bindings_view(self.vars@)
    }
}

impl Frame {
    /// An empty frame.
    pub fn new() -> (r: Frame)
        ensures
            r@ == Seq::<(Seq<u8>, ValueV)>::empty(),
    {
        let r = Frame { vars: Vec::new() };
        proof {
            assert(bindings_view(r.vars@) =~= Seq::<(Seq<u8>, ValueV)>::empty());
        }
        r
    }

    /// Declares `name`, bound to `value`; a new binding shadows any
    /// earlier one of the same name.
    pub fn declare(&mut self, name: Vec<u8>, value: Value)
        ensures
            final(self)@ == old(self)@.push((name@, value@)),
    {
        let ghost old_vars = self.vars@;
        self.vars.push(Binding { name, value });
        proof {
            assert(self.vars@.drop_last() =~= old_vars);
        }
    }

    /// The value bound to `name`, walking bindings newest first.
    pub fn lookup(&self, name: &Vec<u8>) -> (r: Option<Value>)
        ensures
            match r {
                Some(v) => frame_lookup(self@, name@) is Some && v@ == frame_lookup(
                    self@,
                    name@,
                )->Some_0,
                None => frame_lookup(self@, name@) is None,
            },
    {
        proof {
            lemma_bindings_view_len(self.vars@);
            lemma_last_index_of(self@, name@);
        }
        let mut i = self.vars.len();
        while i > 0
            invariant
                i <= self.vars@.len(),
                self@ == bindings_view(self.vars@),
                self@.len() == self.vars@.len(),
                forall|k: int| 0 <= k < self.vars@.len() ==> self@[k] == (
                    self.vars@[k].name@,
                    self.vars@[k].value@,
                ),
                forall|k: int| i <= k < self.vars@.len() ==> self@[k].0 != name@,
            decreases i,
        {
            i = i - 1;
            if bytes_eq(&self.vars[i].name, name) {
                proof {
                    lemma_last_index_of(self@, name@);
                    let idx = last_index_of(self@, name@);
                    assert(self@[i as int].0 == name@);
                    if idx < 0 {
                        assert(self@[i as int].0 != name@);
                    } else if idx < i as int {
                        assert(self@[i as int].0 != name@);
                    } else if idx > i as int {
                        assert(self@[idx].0 != name@);
                    }
                    assert(idx == i as int);
                }
                return Some(self.vars[i].value.clone());
            }
        }
        proof {
            lemma_last_index_of(self@, name@);
            if last_index_of(self@, name@) >= 0 {
                assert(self@[last_index_of(self@, name@)].0 == name@);
                assert(false);
            }
        }
        None
    }

    /// Replaces the latest binding of `name` by `value`; tells whether
    /// a binding was there.
    pub fn set(&mut self, name: &Vec<u8>, value: Value) -> (found: bool)
        ensures
            found == (frame_lookup(old(self)@, name@) is Some),
            final(self)@ == frame_set(old(self)@, name@, value@),
    {
        proof {
            lemma_bindings_view_len(self.vars@);
            lemma_last_index_of(self@, name@);
        }
        let ghost old_view = self@;
        let mut i = self.vars.len();
        while i > 0
            invariant
                i <= self.vars@.len(),
                self@ == old_view,
                old_view == old(self)@,
                old_view == bindings_view(self.vars@),
                old_view.len() == self.vars@.len(),
                forall|k: int| 0 <= k < self.vars@.len() ==> old_view[k] == (
                    self.vars@[k].name@,
                    self.vars@[k].value@,
                ),
                forall|k: int| i <= k < self.vars@.len() ==> old_view[k].0 != name@,
            decreases i,
        {
            i = i - 1;
            if bytes_eq(&self.vars[i].name, name) {
                proof {
                    lemma_last_index_of(old_view, name@);
                    let idx = last_index_of(old_view, name@);
                    assert(old_view[i as int].0 == name@);
                    if idx < 0 {
                        assert(old_view[i as int].0 != name@);
                    } else if idx < i as int {
                        assert(old_view[i as int].0 != name@);
                    } else if idx > i as int {
                        assert(old_view[idx].0 != name@);
                    }
                    assert(idx == i as int);
                }
                let nm = clone_bytes(name);
                let ghost old_vars = self.vars@;
                self.vars.set(i, Binding { name: nm, value });
                proof {
                    lemma_bindings_view_len(self.vars@);
                    assert(self@ =~= old_view.update(i as int, (name@, value@)));
                }
                return true;
            }
        }
        proof {
            lemma_last_index_of(old_view, name@);
            if last_index_of(old_view, name@) >= 0 {
                assert(old_view[last_index_of(old_view, name@)].0 == name@);
                assert(false);
            }
        }
        false
    }
}

} // verus!
