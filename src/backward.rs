//! The reverse pass: seed one node's gradient, then walk the tape from the
//! last node to the first, pushing each node's gradient into its operands.
use vstd::prelude::*;
use crate::ops::{Idx, ScalarOps};
use crate::tape::{CompNode, Tape, Var, nodes_wf, sum, difference, product};

verus! {

/// `nodes` with `amount` added to the gradient of node `p`.
pub open spec fn accumulate(nodes: Seq<CompNode>, p: int, amount: i64) -> Seq<CompNode> {
    nodes.update(p, CompNode { grad: sum(nodes[p].grad, amount), ..nodes[p] })
}

/// `nodes` with the gradient of node `y` set to `g`.
pub open spec fn with_grad(nodes: Seq<CompNode>, y: int, g: i64) -> Seq<CompNode> {
    nodes.update(y, CompNode { grad: g, ..nodes[y] })
}

/// The local backward rule of node `i`: with `g` its gradient, each operand
/// receives `g` times the partial derivative of node `i` in that operand.
pub open spec fn back_step(nodes: Seq<CompNode>, i: int) -> Seq<CompNode> {
    let g = nodes[i].grad;
    match nodes[i].parents {
        ScalarOps::Empty => nodes,
        ScalarOps::Add(a, b) => accumulate(accumulate(nodes, a as int, g), b as int, g),
        ScalarOps::Sub(a, b) => accumulate(
            accumulate(nodes, a as int, g),
            b as int,
            product(g, -1i64),
        ),
        ScalarOps::Mul(a, b) => accumulate(
            accumulate(nodes, a as int, product(g, nodes[b as int].data)),
            b as int,
            product(g, nodes[a as int].data),
        ),
        ScalarOps::TanH(a) => {
            let t = nodes[i].data;
            accumulate(nodes, a as int, product(g, difference(1i64, product(t, t))))
        },
        ScalarOps::ReLU(a) => if nodes[i].data > 0 {
            accumulate(nodes, a as int, g)
        } else {
            nodes
        },
    }
}

/// The backward rules of nodes `k - 1`, `k - 2`, ..., `0`, applied in that
/// order.
pub open spec fn sweep(nodes: Seq<CompNode>, k: nat) -> Seq<CompNode>
    decreases k,
{
    if k == 0 {
        nodes
    } else {
        sweep(back_step(nodes, k - 1), (k - 1) as nat)
    }
}

/// The tape after a reverse pass rooted at `y`: the root's gradient is set to
/// one, then every node's rule is applied, last node first.
pub open spec fn reversed(nodes: Seq<CompNode>, y: int) -> Seq<CompNode> {
    sweep(with_grad(nodes, y, 1i64), nodes.len())
}

/// Two tapes that differ at most in their gradients.
pub open spec fn same_values(s: Seq<CompNode>, t: Seq<CompNode>) -> bool {
    &&& s.len() == t.len()
    &&& forall|j: int| 0 <= j < s.len() ==> (#[trigger] s[j]).data == t[j].data && s[j].parents == t[j].parents
}

/// A backward rule changes gradients only.
pub proof fn lemma_back_step_values(nodes: Seq<CompNode>, i: int)
    requires
        nodes_wf(nodes),
        0 <= i < nodes.len(),
    ensures
        same_values(back_step(nodes, i), nodes),
        nodes_wf(back_step(nodes, i)),
{
    let p = nodes[i].parents.parents();
    if p.len() > 0 {
        assert(p[0] < i);
    }
    if p.len() > 1 {
        assert(p[1] < i);
    }
    let r = back_step(nodes, i);
    assert forall|j: int| 0 <= j < r.len() implies (#[trigger] r[j]).parents.parents_below(j) by {
        assert(r[j].parents == nodes[j].parents);
    }
}

/// A sweep changes gradients only.
pub proof fn lemma_sweep_values(nodes: Seq<CompNode>, k: nat)
    requires
        nodes_wf(nodes),
        k <= nodes.len(),
    ensures
        same_values(sweep(nodes, k), nodes),
        nodes_wf(sweep(nodes, k)),
    decreases k,
{
    if k > 0 {
        lemma_back_step_values(nodes, k - 1);
        lemma_sweep_values(back_step(nodes, k - 1), (k - 1) as nat);
    }
}

impl Tape {
    /// Adds `amount` to the gradient of node `p`.
    fn add_grad(&mut self, p: Idx, amount: i64)
        requires
            p < old(self)@.len(),
        ensures
            final(self)@ == accumulate(old(self)@, p as int, amount),
    {
        let mut n = self.nodes[p];
        n.grad = n.grad.wrapping_add(amount);
        self.nodes.set(p, n);
    }

    /// Applies the backward rule of node `i`.
    fn back_step_at(&mut self, i: Idx)
        requires
            old(self).wf(),
            i < old(self)@.len(),
        ensures
            final(self)@ == back_step(old(self)@, i as int),
    {
        let node = self.nodes[i];
        let g = node.grad;
        proof {
            let p = node.parents.parents();
            if p.len() > 0 {
                assert(p[0] < i);
            }
            if p.len() > 1 {
                assert(p[1] < i);
            }
        }
        match node.parents {
            ScalarOps::Empty => {},
            ScalarOps::Add(a, b) => {
                self.add_grad(a, g);
                self.add_grad(b, g);
            },
            ScalarOps::Sub(a, b) => {
                self.add_grad(a, g);
                self.add_grad(b, g.wrapping_mul(-1));
            },
            ScalarOps::Mul(a, b) => {
                let data_a = self.nodes[a].data;
                let data_b = self.nodes[b].data;
                self.add_grad(a, g.wrapping_mul(data_b));
                self.add_grad(b, g.wrapping_mul(data_a));
            },
            ScalarOps::TanH(a) => {
                let t = node.data;
                self.add_grad(a, g.wrapping_mul(1i64.wrapping_sub(t.wrapping_mul(t))));
            },
            ScalarOps::ReLU(a) => {
                if node.data > 0 {
                    self.add_grad(a, g);
                }
            },
        }
    }

    /// The backward sweep: applies every node's rule, from the last node down
    /// to the first. Gradients are accumulated, never reset.
    pub fn _reverse(&mut self)
        requires
            old(self).wf(),
        ensures
            final(self)@ == sweep(old(self)@, old(self)@.len()),
            final(self).wf(),
    {
        let len = self.nodes.len();
        let mut i: usize = len;
        while i > 0
            invariant
                i <= len,
                len == old(self)@.len(),
                self.wf(),
                same_values(self@, old(self)@),
                sweep(self@, i as nat) == sweep(old(self)@, len as nat),
            decreases i,
        {
            proof {
                lemma_back_step_values(self@, i - 1);
            }
            self.back_step_at(i - 1);
            i = i - 1;
        }
        proof {
            lemma_sweep_values(old(self)@, len as nat);
        }
    }

    /// The reverse pass rooted at node `y`: seeds its gradient with one, then
    /// sweeps the whole tape.
    pub fn reverse(&mut self, y: Idx)
        requires
            old(self).wf(),
            y < old(self)@.len(),
        ensures
            final(self)@ == reversed(old(self)@, y as int),
            final(self).wf(),
    {
        let mut n = self.nodes[y];
        n.grad = 1;
        self.nodes.set(y, n);
        proof {
            assert(same_values(self@, old(self)@));
            assert forall|j: int| 0 <= j < self@.len() implies (#[trigger] self@[j]).parents.parents_below(j) by {
                assert(self@[j].parents == old(self)@[j].parents);
            }
        }
        self._reverse();
    }
    /// Clears every gradient, leaving values and operators as they are. The
    /// reverse pass never does this by itself: gradients of separate passes
    /// add up until this is called.
    pub fn zero_grad(&mut self)
        requires
            old(self).wf(),
        ensures
            same_values(final(self)@, old(self)@),
            forall|j: int| 0 <= j < final(self)@.len() ==> (#[trigger] final(self)@[j]).grad == 0,
            final(self).wf(),
    {
        let len = self.nodes.len();
        let mut i: usize = 0;
        while i < len
            invariant
                i <= len,
                len == old(self)@.len(),
                same_values(self@, old(self)@),
                forall|j: int| 0 <= j < i ==> (#[trigger] self@[j]).grad == 0,
            decreases len - i,
        {
            let mut n = self.nodes[i];
            n.grad = 0;
            self.nodes.set(i, n);
            i = i + 1;
        }
        proof {
            assert forall|j: int| 0 <= j < self@.len() implies (#[trigger] self@[j]).parents.parents_below(j) by {
                assert(self@[j].parents == old(self)@[j].parents);
            }
        }
    }
}

impl Var {
    /// Runs the reverse pass rooted at this handle's node.
    pub fn reverse(&self, tape: &mut Tape)
        requires
            old(tape).wf(),
            self.idx < old(tape)@.len(),
        ensures
            final(tape)@ == reversed(old(tape)@, self.idx as int),
            final(tape).wf(),
    {
        tape.reverse(self.idx);
    }
}

} // verus!
