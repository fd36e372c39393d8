use rustydiff::forward::{F, FX};

#[test]
fn forward_five_x_squared() {
    // f(x) = 5x^2, f'(2) = 20
    let x = F::var(2);
    let mut y = F::cst(5).mul(x).mul(x);
    assert_eq!(y.x, 20);
    assert_eq!(y.deriv(), 20);
}

#[test]
fn forward_sum_difference_negation() {
    let x: FX<i64> = FX::var(7);
    let c: FX<i64> = FX::cst(3);
    let mut s = x.add(c).sub(x.mul(x)).neg();
    // -(x + 3 - x^2) at 7 = 39, derivative -(1 - 2x) = 13
    assert_eq!(s.x, 39);
    assert_eq!(s.deriv(), 13);
    let n = FX::new(4, 9);
    assert_eq!((n.x, n.dx), (4, 9));
    assert_eq!((c.x, c.dx), (3, 0));
}
