//! What the reverse pass computes on the basic shapes of tape, and the
//! structural guarantees it rests on.
use vstd::prelude::*;
use crate::ops::{Idx, ScalarOps};
use crate::tape::{CompNode, Tape, nodes_wf, fresh_node, sum, difference, product, relu_value, tanh_value};
use crate::backward::{back_step, sweep, reversed, with_grad};

verus! {

/// No gradient has been accumulated yet.
pub open spec fn all_grads_zero(nodes: Seq<CompNode>) -> bool {
    forall|j: int| 0 <= j < nodes.len() ==> (#[trigger] nodes[j]).grad == 0
}

/// Every node below `k` is an input or carries no gradient, so its backward
/// rule has nothing to pass on.
pub open spec fn quiet_below(nodes: Seq<CompNode>, k: int) -> bool {
    forall|j: int| 0 <= j < k ==> (#[trigger] nodes[j]).grad == 0 || nodes[j].parents == ScalarOps::Empty
}

/// Node `j` is an input.
pub open spec fn is_input(nodes: Seq<CompNode>, j: int) -> bool {
    0 <= j < nodes.len() && nodes[j].parents == ScalarOps::Empty
}

proof fn lemma_unit_product(x: i64)
    ensures
        product(1i64, x) == x,
        product(x, 1i64) == x,
        product(0i64, x) == 0,
        product(x, 0i64) == 0,
        sum(x, 0i64) == x,
        product(1i64, -1i64) == -1,
{
    assert(1 * x == x);
    assert(x * 1 == x);
    assert(0 * x == 0);
    assert(x * 0 == 0);
    let m: int = 0x1_0000_0000_0000_0000;
    if x >= 0 {
        vstd::arithmetic::div_mod::lemma_small_mod(x as nat, m as nat);
    } else {
        vstd::arithmetic::div_mod::lemma_small_mod((x + m) as nat, m as nat);
        vstd::arithmetic::div_mod::lemma_mod_add_multiples_vanish(x as int, m);
    }
    assert((-1int) % m == m - 1) by {
        vstd::arithmetic::div_mod::lemma_small_mod((m - 1) as nat, m as nat);
        vstd::arithmetic::div_mod::lemma_mod_add_multiples_vanish(-1int, m);
    }
}

/// The backward rule of a node that carries no gradient changes nothing: a
/// node outside the dependency cone of the root is visited at no cost to
/// the result.
pub proof fn lemma_zero_grad_step(nodes: Seq<CompNode>, i: int)
    requires
        nodes_wf(nodes),
        0 <= i < nodes.len(),
        nodes[i].grad == 0,
    ensures
        back_step(nodes, i) == nodes,
{
    let p = nodes[i].parents.parents();
    if p.len() > 0 {
        assert(p[0] < i);
        lemma_unit_product(nodes[p[0] as int].data);
        lemma_unit_product(nodes[p[0] as int].grad);
    }
    if p.len() > 1 {
        assert(p[1] < i);
        lemma_unit_product(nodes[p[1] as int].data);
        lemma_unit_product(nodes[p[1] as int].grad);
    }
    lemma_unit_product(0i64);
    lemma_unit_product(difference(1i64, product(nodes[i].data, nodes[i].data)));
    assert(back_step(nodes, i) =~= nodes);
}

/// Sweeping nodes that have nothing to pass on changes nothing.
pub proof fn lemma_quiet_sweep(nodes: Seq<CompNode>, k: nat)
    requires
        nodes_wf(nodes),
        k <= nodes.len(),
        quiet_below(nodes, k as int),
    ensures
        sweep(nodes, k) == nodes,
    decreases k,
{
    if k > 0 {
        let i = k - 1;
        if nodes[i].grad == 0 {
            lemma_zero_grad_step(nodes, i);
        }
        assert(back_step(nodes, i) == nodes);
        lemma_quiet_sweep(nodes, (k - 1) as nat);
    }
}

/// Every operand index of every node of a well-formed tape is strictly below
/// the node's own index; the operations of `Tape` only ever produce
/// well-formed tapes, so creation order is a topological order.
pub proof fn law_parents_precede(tape: &Tape, i: int, k: int)
    requires
        tape.wf(),
        0 <= i < tape@.len(),
        0 <= k < tape@[i].parents.parents().len(),
    ensures
        tape@[i].parents.parents()[k] < i,
{
    assert(tape@[i].parents.parents_below(i));
}

/// A reverse pass rooted at the last node, on a tape with no gradient yet
/// whose root reads inputs only, amounts to the root's own backward rule.
proof fn lemma_root_over_inputs(t: Seq<CompNode>)
    requires
        nodes_wf(t),
        t.len() > 0,
        all_grads_zero(t),
        forall|k: int| 0 <= k < t[t.len() - 1].parents.parents().len()
            ==> is_input(t, #[trigger] t[t.len() - 1].parents.parents()[k] as int),
    ensures
        reversed(t, t.len() - 1) == back_step(with_grad(t, t.len() - 1, 1i64), t.len() - 1),
{
    let n = t.len() - 1;
    let s = with_grad(t, n, 1i64);
    assert forall|j: int| 0 <= j < s.len() implies (#[trigger] s[j]).parents.parents_below(j) by {
        assert(s[j].parents == t[j].parents);
    }
    let u = back_step(s, n);
    crate::backward::lemma_back_step_values(s, n);
    let p = t[n].parents.parents();
    if p.len() > 0 {
        assert(is_input(t, p[0] as int));
    }
    if p.len() > 1 {
        assert(is_input(t, p[1] as int));
    }
    assert forall|j: int| 0 <= j < n implies (#[trigger] u[j]).grad == 0 || u[j].parents == ScalarOps::Empty by {
        assert(u[j].parents == t[j].parents);
        assert(s[j].grad == 0);
    }
    lemma_quiet_sweep(u, n as nat);
}

/// Makes the facts of a freshly appended node visible.
proof fn lemma_push_wf(nodes: Seq<CompNode>, node: CompNode)
    requires
        nodes_wf(nodes),
        all_grads_zero(nodes),
        node.grad == 0,
        node.parents.parents_below(nodes.len() as int),
    ensures
        nodes_wf(nodes.push(node)),
        all_grads_zero(nodes.push(node)),
{
    let t = nodes.push(node);
    assert forall|j: int| 0 <= j < t.len() implies (#[trigger] t[j]).parents.parents_below(j) by {
        if j < nodes.len() {
            assert(t[j] == nodes[j]);
        }
    }
    assert forall|j: int| 0 <= j < t.len() implies (#[trigger] t[j]).grad == 0 by {
        if j < nodes.len() {
            assert(t[j] == nodes[j]);
        }
    }
}

/// Reverse through `a + b`, for two distinct inputs with no gradient yet:
/// each input and the sum itself receive gradient one.
pub proof fn law_add(nodes: Seq<CompNode>, a: Idx, b: Idx)
    requires
        nodes_wf(nodes),
        all_grads_zero(nodes),
        is_input(nodes, a as int),
        is_input(nodes, b as int),
        a != b,
    ensures ({
        let n = nodes.len() as int;
        let t = nodes.push(fresh_node(sum(nodes[a as int].data, nodes[b as int].data), ScalarOps::Add(a, b)));
        let r = reversed(t, n);
        r[a as int].grad == 1 && r[b as int].grad == 1 && r[n].grad == 1
    }),
{
    let n = nodes.len() as int;
    let t = nodes.push(fresh_node(sum(nodes[a as int].data, nodes[b as int].data), ScalarOps::Add(a, b)));
    lemma_push_wf(nodes, t[n]);
    assert(t[a as int] == nodes[a as int] && t[b as int] == nodes[b as int]);
    lemma_root_over_inputs(t);
    lemma_unit_product(1i64);
}

/// Reverse through `a - b`, for two distinct inputs with no gradient yet:
/// `a` receives one and `b` minus one.
pub proof fn law_sub(nodes: Seq<CompNode>, a: Idx, b: Idx)
    requires
        nodes_wf(nodes),
        all_grads_zero(nodes),
        is_input(nodes, a as int),
        is_input(nodes, b as int),
        a != b,
    ensures ({
        let n = nodes.len() as int;
        let t = nodes.push(fresh_node(difference(nodes[a as int].data, nodes[b as int].data), ScalarOps::Sub(a, b)));
        let r = reversed(t, n);
        r[a as int].grad == 1 && r[b as int].grad == -1
    }),
{
    let n = nodes.len() as int;
    let t = nodes.push(fresh_node(difference(nodes[a as int].data, nodes[b as int].data), ScalarOps::Sub(a, b)));
    lemma_push_wf(nodes, t[n]);
    assert(t[a as int] == nodes[a as int] && t[b as int] == nodes[b as int]);
    lemma_root_over_inputs(t);
    lemma_unit_product(1i64);
    lemma_unit_product(-1i64);
}

/// Reverse through `a * b`, for two distinct inputs with no gradient yet:
/// each input receives the value of the other.
pub proof fn law_mul(nodes: Seq<CompNode>, a: Idx, b: Idx)
    requires
        nodes_wf(nodes),
        all_grads_zero(nodes),
        is_input(nodes, a as int),
        is_input(nodes, b as int),
        a != b,
    ensures ({
        let n = nodes.len() as int;
        let t = nodes.push(fresh_node(product(nodes[a as int].data, nodes[b as int].data), ScalarOps::Mul(a, b)));
        let r = reversed(t, n);
        r[a as int].grad == nodes[b as int].data && r[b as int].grad == nodes[a as int].data
    }),
{
    let n = nodes.len() as int;
    let t = nodes.push(fresh_node(product(nodes[a as int].data, nodes[b as int].data), ScalarOps::Mul(a, b)));
    lemma_push_wf(nodes, t[n]);
    assert(t[a as int] == nodes[a as int] && t[b as int] == nodes[b as int]);
    lemma_root_over_inputs(t);
    lemma_unit_product(nodes[a as int].data);
    lemma_unit_product(nodes[b as int].data);
}

/// Reverse through `tanh(a)`, for an input with no gradient yet: `a`
/// receives `1 - t * t`, where `t` is the value of the tanh node.
pub proof fn law_tanh(nodes: Seq<CompNode>, a: Idx)
    requires
        nodes_wf(nodes),
        all_grads_zero(nodes),
        is_input(nodes, a as int),
    ensures ({
        let n = nodes.len() as int;
        let v = tanh_value(nodes[a as int].data);
        let t = nodes.push(fresh_node(v, ScalarOps::TanH(a)));
        let r = reversed(t, n);
        r[a as int].grad == difference(1i64, product(v, v))
    }),
{
    let n = nodes.len() as int;
    let v = tanh_value(nodes[a as int].data);
    let t = nodes.push(fresh_node(v, ScalarOps::TanH(a)));
    lemma_push_wf(nodes, t[n]);
    assert(t[a as int] == nodes[a as int]);
    lemma_root_over_inputs(t);
    lemma_unit_product(difference(1i64, product(v, v)));
}

/// Reverse through `relu(a)`, for an input with no gradient yet: `a`
/// receives one where its value is positive, else zero.
pub proof fn law_relu(nodes: Seq<CompNode>, a: Idx)
    requires
        nodes_wf(nodes),
        all_grads_zero(nodes),
        is_input(nodes, a as int),
    ensures ({
        let n = nodes.len() as int;
        let t = nodes.push(fresh_node(relu_value(nodes[a as int].data), ScalarOps::ReLU(a)));
        let r = reversed(t, n);
        r[a as int].grad == (if nodes[a as int].data > 0 { 1i64 } else { 0i64 })
    }),
{
    let n = nodes.len() as int;
    let t = nodes.push(fresh_node(relu_value(nodes[a as int].data), ScalarOps::ReLU(a)));
    lemma_push_wf(nodes, t[n]);
    assert(t[a as int] == nodes[a as int]);
    lemma_root_over_inputs(t);
    lemma_unit_product(1i64);
}

proof fn lemma_sum_assoc(x: i64, y: i64, z: i64)
    ensures
        sum(sum(x, y), z) == sum(x, sum(y, z)),
        sum(0i64, x) == x,
{
}

/// A second reverse pass from the same root, without clearing gradients,
/// doubles the gradient of every input other than the root, provided the
/// root is the last node, reads inputs only, and the first pass started with
/// no gradient at all. (The root's own gradient is seeded to one again.)
/// (Where the root reads an intermediate node, that node keeps its gradient
/// from the first pass and passes it on again, so inputs get more.)
pub proof fn law_reverse_twice(t: Seq<CompNode>, j: int)
    requires
        nodes_wf(t),
        t.len() > 0,
        all_grads_zero(t),
        forall|k: int| 0 <= k < t[t.len() - 1].parents.parents().len()
            ==> is_input(t, #[trigger] t[t.len() - 1].parents.parents()[k] as int),
        is_input(t, j),
        j < t.len() - 1,
    ensures ({
        let y = t.len() - 1;
        let once = reversed(t, y);
        let twice = reversed(once, y);
        twice[j].grad == sum(once[j].grad, once[j].grad)
    }),
{
    let y = t.len() - 1;
    lemma_root_over_inputs(t);
    let w1 = with_grad(t, y, 1i64);
    assert forall|i: int| 0 <= i < w1.len() implies (#[trigger] w1[i]).parents.parents_below(i) by {
        assert(w1[i].parents == t[i].parents);
    }
    let once = back_step(w1, y);
    crate::backward::lemma_back_step_values(w1, y);
    let p = t[y].parents.parents();
    if p.len() > 0 {
        assert(is_input(t, p[0] as int));
    }
    if p.len() > 1 {
        assert(is_input(t, p[1] as int));
    }
    assert(once[y] == w1[y]);
    // the second pass: the root's rule, then nothing more to pass on
    let w2 = with_grad(once, y, 1i64);
    assert forall|i: int| 0 <= i < w2.len() implies (#[trigger] w2[i]).parents.parents_below(i) by {
        assert(w2[i].parents == t[i].parents);
    }
    let u = back_step(w2, y);
    crate::backward::lemma_back_step_values(w2, y);
    assert forall|i: int| 0 <= i < y implies (#[trigger] u[i]).grad == 0 || u[i].parents == ScalarOps::Empty by {
        assert(u[i].parents == t[i].parents);
        assert(w1[i].grad == 0);
    }
    lemma_quiet_sweep(u, y as nat);
    assert(reversed(once, y) == u);
    lemma_root_step_twice(w1, y, j);

}

/// The root's rule applied twice, with the root reseeded in between, adds
/// the same amounts twice.
proof fn lemma_root_step_twice(w1: Seq<CompNode>, y: int, j: int)
    requires
        0 <= j < y < w1.len(),
        w1[y].grad == 1,
        w1[y].parents.parents_below(y),
        forall|k: int| 0 <= k < y ==> (#[trigger] w1[k]).grad == 0,
    ensures ({
        let once = back_step(w1, y);
        back_step(with_grad(once, y, 1i64), y)[j].grad == sum(once[j].grad, once[j].grad)
    }),
{
    let once = back_step(w1, y);
    let w2 = with_grad(once, y, 1i64);
    let u = back_step(w2, y);
    let p = w1[y].parents.parents();
    if p.len() > 0 {
        assert(p[0] < y);
    }
    if p.len() > 1 {
        assert(p[1] < y);
    }
    let d = w1[y].data;
    match w1[y].parents {
        ScalarOps::Empty => {},
        ScalarOps::Add(a, b) => {
            lemma_sum_assoc(sum(0i64, 1i64), 1i64, 1i64);
            lemma_sum_assoc(sum(sum(0i64, 1i64), 1i64), 1i64, 1i64);
            assert(u[j].grad == sum(once[j].grad, once[j].grad));
        },
        ScalarOps::Sub(a, b) => {
            let m = product(1i64, -1i64);
            lemma_sum_assoc(0i64, 1i64, m);
            lemma_sum_assoc(sum(1i64, m), 1i64, m);
            lemma_sum_assoc(1i64, 1i64, 0i64);
            lemma_sum_assoc(m, m, 0i64);
            assert(u[j].grad == sum(once[j].grad, once[j].grad));
        },
        ScalarOps::Mul(a, b) => {
            let ua = product(1i64, w1[b as int].data);
            let ub = product(1i64, w1[a as int].data);
            lemma_sum_assoc(0i64, ua, ub);
            lemma_sum_assoc(sum(ua, ub), ua, ub);
            lemma_sum_assoc(ua, 0i64, 0i64);
            lemma_sum_assoc(ub, 0i64, 0i64);
            assert(u[j].grad == sum(once[j].grad, once[j].grad));
        },
        ScalarOps::TanH(a) => {
            let ua = product(1i64, difference(1i64, product(d, d)));
            lemma_sum_assoc(ua, 0i64, 0i64);
        },
        ScalarOps::ReLU(a) => {
            lemma_sum_assoc(1i64, 0i64, 0i64);
            assert(u[j].grad == sum(once[j].grad, once[j].grad));
        },
    }
}

} // verus!
