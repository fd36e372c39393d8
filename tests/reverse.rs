use rustydiff::ops::ScalarOps;
use rustydiff::tape::{Tape, Var};

#[test]
fn add_test() {
    let mut tp = Tape::new();
    let x = tp.var(5);
    let y = tp.var(2);
    let z = x.add(&mut tp, &y);
    assert_eq!(z.data, 7);
    z.reverse(&mut tp);
    assert_eq!(x.grad(&tp), 1);
    assert_eq!(y.grad(&tp), 1);
    assert_eq!(z.grad(&tp), 1);
}

#[test]
fn sub_test() {
    let mut tp = Tape::new();
    let x = tp.var(5);
    let y = tp.var(2);
    let z = x.sub(&mut tp, &y);
    z.reverse(&mut tp);
    assert_eq!(x.grad(&tp), 1);
    assert_eq!(y.grad(&tp), -1);
}

#[test]
fn mul_test() {
    let mut tp = Tape::new();
    let x = tp.var(5);
    let y = tp.var(2);
    let z = x.mul(&mut tp, &y);
    assert_eq!(z.data, 10);
    z.reverse(&mut tp);
    assert_eq!(x.grad(&tp), 2);
    assert_eq!(y.grad(&tp), 5);
}

#[test]
fn relu_test() {
    let mut tp = Tape::new();
    let x = tp.var(-5);
    let y = tp.var(2);
    let z = x.relu(&mut tp).add(&mut tp, &y);
    assert_eq!(z.data, 2);
    z.reverse(&mut tp);
    assert_eq!(x.grad(&tp), 0);
    assert_eq!(y.grad(&tp), 1);
}

#[test]
fn relu_positive_passes_gradient() {
    let mut tp = Tape::new();
    let x = tp.var(3);
    let z = x.relu(&mut tp);
    assert_eq!(z.data, 3);
    z.reverse(&mut tp);
    assert_eq!(x.grad(&tp), 1);
}

#[test]
fn relu_at_zero_passes_nothing() {
    let mut tp = Tape::new();
    let x = tp.var(0);
    let z = x.relu(&mut tp);
    assert_eq!(z.data, 0);
    z.reverse(&mut tp);
    assert_eq!(x.grad(&tp), 0);
}

#[test]
fn tanh_rounds_to_sign_and_passes_one_minus_square() {
    let mut tp = Tape::new();
    let x = tp.var(4);
    let z = x.tanh(&mut tp);
    assert_eq!(z.data, 1);
    z.reverse(&mut tp);
    assert_eq!(x.grad(&tp), 0);

    let mut tp = Tape::new();
    let x = tp.var(-7);
    assert_eq!(x.tanh(&mut tp).data, -1);
    let x0 = tp.var(0);
    let z = x0.tanh(&mut tp);
    assert_eq!(z.data, 0);
    z.reverse(&mut tp);
    assert_eq!(x0.grad(&tp), 1);
}

#[test]
fn tanh_chain_scales_by_other_factor() {
    // z = tanh(x * y) at x * y = 0: grad(x) = y * (1 - 0), grad(y) = x * (1 - 0)
    let mut tp = Tape::new();
    let x = tp.var(0);
    let y = tp.var(3);
    let z = x.mul(&mut tp, &y).tanh(&mut tp);
    z.reverse(&mut tp);
    assert_eq!(x.grad(&tp), 3);
    assert_eq!(y.grad(&tp), 0);
}

#[test]
fn grads_are_zero_before_reverse() {
    let mut tp = Tape::new();
    let x = tp.var(5);
    let y = tp.var(2);
    let z = x.mul(&mut tp, &y);
    assert_eq!(x.grad(&tp), 0);
    assert_eq!(y.grad(&tp), 0);
    assert_eq!(z.grad(&tp), 0);
}

#[test]
fn reused_variable_accumulates() {
    // z = x * x + x at x = 3: dz/dx = 2x + 1 = 7
    let mut tp = Tape::new();
    let x = tp.var(3);
    let sq = x.mul(&mut tp, &x);
    let z = sq.add(&mut tp, &x);
    assert_eq!(z.data, 12);
    z.reverse(&mut tp);
    assert_eq!(x.grad(&tp), 7);
}

#[test]
fn weighted_sum_chain() {
    // res = sum of w[i] * x[i], built with add_assign from a zero start
    let mut tp = Tape::new();
    let ws = vec![tp.var(4), tp.var(8), tp.var(1)];
    let xs = vec![tp.var(2), tp.var(4), tp.var(6)];
    let mut res = tp.var(0);
    for (w, x) in ws.iter().zip(xs.iter()) {
        let p = w.mul(&mut tp, x);
        res.add_assign(&mut tp, p);
    }
    assert_eq!(res.data, 4 * 2 + 8 * 4 + 6);
    res.reverse(&mut tp);
    assert_eq!(ws[1].grad(&tp), 4);
    assert_eq!(xs[2].grad(&tp), 1);
}

#[test]
fn reverse_twice_doubles_input_grads() {
    let mut tp = Tape::new();
    let x = tp.var(5);
    let y = tp.var(2);
    let z = x.mul(&mut tp, &y);
    z.reverse(&mut tp);
    z.reverse(&mut tp);
    assert_eq!(x.grad(&tp), 4);
    assert_eq!(y.grad(&tp), 10);
    assert_eq!(z.grad(&tp), 1);
}

#[test]
fn reverse_twice_through_intermediate_gives_more() {
    // z = (x + y) * w: the intermediate sum keeps its gradient and passes it on again
    let mut tp = Tape::new();
    let x = tp.var(1);
    let y = tp.var(2);
    let w = tp.var(3);
    let s = x.add(&mut tp, &y);
    let z = s.mul(&mut tp, &w);
    z.reverse(&mut tp);
    assert_eq!(x.grad(&tp), 3);
    z.reverse(&mut tp);
    assert_eq!(x.grad(&tp), 9);
}

#[test]
fn unrelated_nodes_get_no_gradient() {
    let mut tp = Tape::new();
    let x = tp.var(5);
    let y = tp.var(2);
    let other = x.mul(&mut tp, &y);
    let z = x.add(&mut tp, &y);
    let later = x.sub(&mut tp, &y);
    z.reverse(&mut tp);
    assert_eq!(x.grad(&tp), 1);
    assert_eq!(y.grad(&tp), 1);
    assert_eq!(other.grad(&tp), 0);
    assert_eq!(later.grad(&tp), 0);
}

#[test]
fn index_api_records_in_order() {
    let mut tp = Tape::new();
    let a = tp.var(6).idx;
    let b = tp.var(-2).idx;
    let s = tp.add(a, b);
    let d = tp.sub(a, b);
    let m = tp.mul(s, d);
    let r = tp.relu(b);
    let t = tp.tanh(a);
    assert_eq!((s, d, m, r, t), (2, 3, 4, 5, 6));
    assert_eq!(tp.len(), 7);
    assert_eq!(tp.nodes[m].data, 4 * 8);
    assert_eq!(tp.nodes[m].parents, ScalarOps::Mul(2, 3));
    assert_eq!(tp.nodes[r].data, 0);
    assert_eq!(tp.nodes[t].data, 1);
    assert_eq!(tp.nodes[a].parents, ScalarOps::Empty);
    // d(m)/da = d + s = 12, d(m)/db = d - s = 4
    tp.reverse(m);
    assert_eq!(tp.nodes[a].grad, 12);
    assert_eq!(tp.nodes[b].grad, 4);
}

#[test]
fn parents_always_precede() {
    let mut tp = Tape::new();
    let x = tp.var(1);
    let y = tp.var(2);
    let s = x.add(&mut tp, &y);
    let p = s.mul(&mut tp, &x);
    let _ = p.tanh(&mut tp).relu(&mut tp);
    for (i, node) in tp.nodes.iter().enumerate() {
        let ps: Vec<usize> = match node.parents {
            ScalarOps::Empty => vec![],
            ScalarOps::Add(a, b) | ScalarOps::Sub(a, b) | ScalarOps::Mul(a, b) => vec![a, b],
            ScalarOps::TanH(a) | ScalarOps::ReLU(a) => vec![a],
        };
        for q in ps {
            assert!(q < i);
        }
    }
}

#[test]
fn arithmetic_wraps() {
    let mut tp = Tape::new();
    let x = tp.var(i64::MAX);
    let y = tp.var(1);
    let z = x.add(&mut tp, &y);
    assert_eq!(z.data, i64::MIN);
    let m = x.mul(&mut tp, &x);
    assert_eq!(m.data, 1);
    m.reverse(&mut tp);
    assert_eq!(x.grad(&tp), i64::MAX.wrapping_mul(2));
}

#[test]
fn handle_is_plain_value() {
    let mut tp = Tape::new();
    let x = tp.var(9);
    let copy: Var = x;
    assert_eq!(copy, Var { data: 9, idx: 0 });
}

#[test]
fn zero_grad_then_reverse_matches_single_pass() {
    let mut tp = Tape::new();
    let x = tp.var(5);
    let y = tp.var(2);
    let z = x.mul(&mut tp, &y);
    z.reverse(&mut tp);
    z.reverse(&mut tp);
    tp.zero_grad();
    assert_eq!(x.grad(&tp), 0);
    assert_eq!(z.grad(&tp), 0);
    assert_eq!(tp.nodes[z.idx].data, 10);
    z.reverse(&mut tp);
    assert_eq!(x.grad(&tp), 2);
    assert_eq!(y.grad(&tp), 5);
}
