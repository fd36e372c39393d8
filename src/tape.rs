//! The tape: an append-only arena of nodes, addressed by index.
use vstd::prelude::*;
use vstd::wrapping::i64_specs;
use crate::ops::{Idx, ScalarOps};

verus! {

/// One recorded value: what it is, the gradient accumulated into it, and
/// how it was produced.
#[derive(Clone, Copy, Debug, PartialEq, Eq, Structural)]
pub struct CompNode {
    pub data: i64,
    pub grad: i64,
    pub parents: ScalarOps,
}

/// Values are 64-bit integers with two's-complement (wrapping) arithmetic:
/// a commutative ring, in which the derivative rules of the polynomial
/// operators are exact. `a + b`, wrapping.
pub open spec fn sum(a: i64, b: i64) -> i64 {
    i64_specs::wrapping_add(a, b)
}

/// `a - b`, wrapping.
pub open spec fn difference(a: i64, b: i64) -> i64 {
    i64_specs::wrapping_sub(a, b)
}

/// `a * b`, wrapping.
pub open spec fn product(a: i64, b: i64) -> i64 {
    i64_specs::wrapping_mul(a, b)
}

/// `a` where it is non-negative, else zero.
pub open spec fn relu_value(a: i64) -> i64 {
    if a >= 0 { a } else { 0 }
}

/// The hyperbolic tangent rounded to the nearest integer: `tanh(0) = 0`,
/// and `|tanh(a)|` lies in `[0.76, 1)` for every other integer `a`, so the
/// result is the sign of `a`.
pub open spec fn tanh_value(a: i64) -> i64 {
    if a > 0 { 1i64 } else if a < 0 { -1i64 } else { 0i64 }
}

/// A fresh node: the given value, no gradient yet.
pub open spec fn fresh_node(data: i64, parents: ScalarOps) -> CompNode {
    CompNode { data, grad: 0, parents }
}

/// A well-formed tape lists every operand before the node that uses it.
pub open spec fn nodes_wf(nodes: Seq<CompNode>) -> bool {
    forall|i: int| 0 <= i < nodes.len() ==> (#[trigger] nodes[i]).parents.parents_below(i)
}

/// The append-only list of every node ever created, in creation order.
#[derive(Debug)]
pub struct Tape {
    pub nodes: Vec<CompNode>,
}

impl View for Tape {
    type V = Seq<CompNode>;

    open spec fn view(&self) -> Seq<CompNode> {
        self.nodes@
    }
}

/// A handle on a node: its index and a copy of its value.
#[derive(Clone, Copy, Debug, PartialEq, Eq, Structural)]
pub struct Var {
    pub data: i64,
    pub idx: Idx,
}

impl Var {
    /// The handle names a node of `tape` and carries that node's value.
    pub open spec fn valid_in(self, tape: Seq<CompNode>) -> bool {
        self.idx < tape.len() && tape[self.idx as int].data == self.data
    }

    /// The gradient accumulated so far in this handle's node.
    pub fn grad(&self, tape: &Tape) -> (r: i64)
        requires
            self.idx < tape@.len(),
        ensures
            r == tape@[self.idx as int].grad,
    {
        tape.nodes[self.idx].grad
    }
}

impl Tape {
    /// Operands precede the nodes that use them.
    pub open spec fn wf(&self) -> bool {
        nodes_wf(self@)
    }

    /// An empty tape.
    pub fn new() -> (r: Tape)
        ensures
            r@ == Seq::<CompNode>::empty(),
            r.wf(),
    {
        Tape { nodes: Vec::new() }
    }

    /// Number of nodes recorded so far.
    pub fn len(&self) -> (r: usize)
        ensures
            r == self@.len(),
    {
        self.nodes.len()
    }

    /// Appends a node with value `data`, zero gradient and tag `op`, and
    /// returns its index.
    pub fn var_operator(&mut self, data: i64, op: ScalarOps) -> (r: Idx)
        requires
            old(self).wf(),
            op.parents_below(old(self)@.len() as int),
        ensures
            r == old(self)@.len(),
            final(self)@ == old(self)@.push(fresh_node(data, op)),
            final(self).wf(),
    {
        let len = self.nodes.len();
        self.nodes.push(CompNode { data, grad: 0, parents: op });
        proof {
            assert forall|i: int| 0 <= i < self@.len() implies (#[trigger] self@[i]).parents.parents_below(i) by {
                if i < len as int {
                    assert(self@[i] == old(self)@[i]);
                }
            }
        }
        len
    }

    /// Registers an input: a leaf node holding `data`.
    pub fn var(&mut self, data: i64) -> (r: Var)
        requires
            old(self).wf(),
        ensures
            r == (Var { data, idx: old(self)@.len() as Idx }),
            final(self)@ == old(self)@.push(fresh_node(data, ScalarOps::Empty)),
            final(self).wf(),
    {
        let idx = self.var_operator(data, ScalarOps::Empty);
        Var { data, idx }
    }
    /// Records `a + b`.
    pub fn add(&mut self, a: Idx, b: Idx) -> (r: Idx)
        requires
            old(self).wf(),
            a < old(self)@.len(),
            b < old(self)@.len(),
        ensures
            r == old(self)@.len(),
            final(self)@ == old(self)@.push(
                fresh_node(sum(old(self)@[a as int].data, old(self)@[b as int].data), ScalarOps::Add(a, b)),
            ),
            final(self).wf(),
    {
        let value = self.nodes[a].data.wrapping_add(self.nodes[b].data);
        self.var_operator(value, ScalarOps::Add(a, b))
    }

    /// Records `a - b`.
    pub fn sub(&mut self, a: Idx, b: Idx) -> (r: Idx)
        requires
            old(self).wf(),
            a < old(self)@.len(),
            b < old(self)@.len(),
        ensures
            r == old(self)@.len(),
            final(self)@ == old(self)@.push(
                fresh_node(difference(old(self)@[a as int].data, old(self)@[b as int].data), ScalarOps::Sub(a, b)),
            ),
            final(self).wf(),
    {
        let value = self.nodes[a].data.wrapping_sub(self.nodes[b].data);
        self.var_operator(value, ScalarOps::Sub(a, b))
    }

    /// Records `a * b`.
    pub fn mul(&mut self, a: Idx, b: Idx) -> (r: Idx)
        requires
            old(self).wf(),
            a < old(self)@.len(),
            b < old(self)@.len(),
        ensures
            r == old(self)@.len(),
            final(self)@ == old(self)@.push(
                fresh_node(product(old(self)@[a as int].data, old(self)@[b as int].data), ScalarOps::Mul(a, b)),
            ),
            final(self).wf(),
    {
        let value = self.nodes[a].data.wrapping_mul(self.nodes[b].data);
        self.var_operator(value, ScalarOps::Mul(a, b))
    }

    /// Records `relu(a)`: `a` where it is non-negative, else zero.
    pub fn relu(&mut self, a: Idx) -> (r: Idx)
        requires
            old(self).wf(),
            a < old(self)@.len(),
        ensures
            r == old(self)@.len(),
            final(self)@ == old(self)@.push(
                fresh_node(relu_value(old(self)@[a as int].data), ScalarOps::ReLU(a)),
            ),
            final(self).wf(),
    {
        let x = self.nodes[a].data;
        let value = if x >= 0 {
            x
        } else {
            0
        };
        self.var_operator(value, ScalarOps::ReLU(a))
    }

    /// Records `tanh(a)`, rounded to the nearest integer.
    pub fn tanh(&mut self, a: Idx) -> (r: Idx)
        requires
            old(self).wf(),
            a < old(self)@.len(),
        ensures
            r == old(self)@.len(),
            final(self)@ == old(self)@.push(
                fresh_node(tanh_value(old(self)@[a as int].data), ScalarOps::TanH(a)),
            ),
            final(self).wf(),
    {
        let x = self.nodes[a].data;
        let value: i64 = if x > 0 {
            1
        } else if x < 0 {
            -1
        } else {
            0
        };
        self.var_operator(value, ScalarOps::TanH(a))
    }
}

impl Var {
    /// The handle of the node that records `self + rhs`.
    pub fn add(&self, tape: &mut Tape, rhs: &Var) -> (r: Var)
        requires
            old(tape).wf(),
            self.valid_in(old(tape)@),
            rhs.valid_in(old(tape)@),
        ensures
            r == (Var { data: sum(self.data, rhs.data), idx: old(tape)@.len() as Idx }),
            final(tape)@ == old(tape)@.push(fresh_node(r.data, ScalarOps::Add(self.idx, rhs.idx))),
            final(tape).wf(),
    {
        let data = self.data.wrapping_add(rhs.data);
        let idx = tape.var_operator(data, ScalarOps::Add(self.idx, rhs.idx));
        Var { data, idx }
    }

    /// Replaces `self` by the handle of the node that records `self + rhs`.
    pub fn add_assign(&mut self, tape: &mut Tape, rhs: Var)
        requires
            old(tape).wf(),
            old(self).valid_in(old(tape)@),
            rhs.valid_in(old(tape)@),
        ensures
            *final(self) == (Var { data: sum(old(self).data, rhs.data), idx: old(tape)@.len() as Idx }),
            final(tape)@ == old(tape)@.push(fresh_node(final(self).data, ScalarOps::Add(old(self).idx, rhs.idx))),
            final(tape).wf(),
    {
        let data = self.data.wrapping_add(rhs.data);
        let idx = tape.var_operator(data, ScalarOps::Add(self.idx, rhs.idx));
        *self = Var { data, idx };
    }

    /// The handle of the node that records `self - rhs`.
    pub fn sub(&self, tape: &mut Tape, rhs: &Var) -> (r: Var)
        requires
            old(tape).wf(),
            self.valid_in(old(tape)@),
            rhs.valid_in(old(tape)@),
        ensures
            r == (Var { data: difference(self.data, rhs.data), idx: old(tape)@.len() as Idx }),
            final(tape)@ == old(tape)@.push(fresh_node(r.data, ScalarOps::Sub(self.idx, rhs.idx))),
            final(tape).wf(),
    {
        let data = self.data.wrapping_sub(rhs.data);
        let idx = tape.var_operator(data, ScalarOps::Sub(self.idx, rhs.idx));
        Var { data, idx }
    }

    /// The handle of the node that records `self * rhs`.
    pub fn mul(&self, tape: &mut Tape, rhs: &Var) -> (r: Var)
        requires
            old(tape).wf(),
            self.valid_in(old(tape)@),
            rhs.valid_in(old(tape)@),
        ensures
            r == (Var { data: product(self.data, rhs.data), idx: old(tape)@.len() as Idx }),
            final(tape)@ == old(tape)@.push(fresh_node(r.data, ScalarOps::Mul(self.idx, rhs.idx))),
            final(tape).wf(),
    {
        let data = self.data.wrapping_mul(rhs.data);
        let idx = tape.var_operator(data, ScalarOps::Mul(self.idx, rhs.idx));
        Var { data, idx }
    }

    /// The handle of the node that records `tanh(self)`, rounded to the
    /// nearest integer.
    pub fn tanh(&self, tape: &mut Tape) -> (r: Var)
        requires
            old(tape).wf(),
            self.valid_in(old(tape)@),
        ensures
            r == (Var { data: tanh_value(self.data), idx: old(tape)@.len() as Idx }),
            final(tape)@ == old(tape)@.push(fresh_node(r.data, ScalarOps::TanH(self.idx))),
            final(tape).wf(),
    {
        let idx = tape.tanh(self.idx);
        Var { data: tape.nodes[idx].data, idx }
    }

    /// The handle of the node that records `relu(self)`.
    pub fn relu(&self, tape: &mut Tape) -> (r: Var)
        requires
            old(tape).wf(),
            self.valid_in(old(tape)@),
        ensures
            r == (Var { data: relu_value(self.data), idx: old(tape)@.len() as Idx }),
            final(tape)@ == old(tape)@.push(fresh_node(r.data, ScalarOps::ReLU(self.idx))),
            final(tape).wf(),
    {
        let idx = tape.relu(self.idx);
        Var { data: tape.nodes[idx].data, idx }
    }
}

} // verus!
