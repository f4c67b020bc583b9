//! The 't Hooft--Veltman triangle, used for a negative Kallen function.
//!
//! All continuation terms are exact expressions; the legs are first sorted
//! by modulus, exchanging the opposite propagators with them.
use vstd::prelude::*;
use crate::expr::{Expr, if_nonzero_else, args4, args6};
use crate::sheet::{Sheet, i_pi, im, negative, sign_nonnegative};
use crate::functions::Func;

verus! {

/// The `2 pi i` multiple that a product of two factors with imaginary parts
/// of signs `a` and `b` leaves beside the factor `c`.
#[verifier::allow_in_spec]
pub fn eta(a: &Expr, b: &Expr, c: &Expr) -> Expr
    returns
        ({
            let sa = sign_nonnegative(&im(a));
            let sb = sign_nonnegative(&im(b));
            let sc = sign_nonnegative(&im(c));
            i_pi().times(&sc).times(&Expr::num(1).plus(&sa.times(&sb))).times(
                &Expr::num(1).minus(&sa.times(&sc)),
            ).over_int(2)
        }),
{
    let sa = sign_nonnegative(&im(a));
    let sb = sign_nonnegative(&im(b));
    let sc = sign_nonnegative(&im(c));
    i_pi().times(&sc).times(&Expr::num(1).plus(&sa.times(&sb))).times(
        &Expr::num(1).minus(&sa.times(&sc)),
    ).over_int(2)
}

/// The body of the helper `HvS3` over `(a, m1, m2, y)`: one block of three
/// dilogarithms of the 't Hooft--Veltman representation.
#[verifier::allow_in_spec]
pub fn s3(a: &Expr, m1: &Expr, m2: &Expr, y: &Expr) -> Expr
    returns
        ({
            let b = m1.minus(m2).minus(a);
            let disc = b.times(&b).minus(&a.times_int(4).times(m2)).root();
            let root_1 = b.negated().plus(&disc).over(&a.times_int(2));
            let root_2 = b.negated().minus(&disc).over(&a.times_int(2));
            let qy_1 = Sheet::upper(&y.minus(&root_1));
            let term_1 = Sheet::upper(&root_1.negated()).quotient(&qy_1).dilog().minus(
                &Sheet::upper(&root_1.int_minus(1)).quotient(&qy_1).dilog(),
            );
            let qy_2 = Sheet::upper(&y.minus(&root_2));
            let term_2 = Sheet::upper(&root_2.negated()).quotient(&qy_2).dilog().minus(
                &Sheet::upper(&root_2.int_minus(1)).quotient(&qy_2).dilog(),
            );
            let z = y.times(&a.times(y).plus(&b)).plus(m2).over(a);
            let correction = eta(&root_1.negated(), &root_2.negated(), &m2.over(a)).minus(
                &eta(&y.minus(&root_1), &y.minus(&root_2), &z),
            ).minus(&Expr::num(2).times(&Expr::i()).times(&Expr::pi()).times(&negative(a)).times(&negative(&im(&z))));
            term_1.plus(&term_2).plus(
                &correction.times(&Sheet::upper(&y.minus(&Expr::num(1)).over(y)).log()),
            )
        }),
{
    let b = m1.minus(m2).minus(a);
    let disc = b.times(&b).minus(&a.times_int(4).times(m2)).root();
    let root_1 = b.negated().plus(&disc).over(&a.times_int(2));
    let root_2 = b.negated().minus(&disc).over(&a.times_int(2));
    let qy_1 = Sheet::upper(&y.minus(&root_1));
    let term_1 = Sheet::upper(&root_1.negated()).quotient(&qy_1).dilog().minus(
        &Sheet::upper(&root_1.int_minus(1)).quotient(&qy_1).dilog(),
    );
    let qy_2 = Sheet::upper(&y.minus(&root_2));
    let term_2 = Sheet::upper(&root_2.negated()).quotient(&qy_2).dilog().minus(
        &Sheet::upper(&root_2.int_minus(1)).quotient(&qy_2).dilog(),
    );
    let z = y.times(&a.times(y).plus(&b)).plus(m2).over(a);
    let correction = eta(&root_1.negated(), &root_2.negated(), &m2.over(a)).minus(
        &eta(&y.minus(&root_1), &y.minus(&root_2), &z),
    ).minus(&Expr::num(2).times(&Expr::i()).times(&Expr::pi()).times(&negative(a)).times(&negative(&im(&z))));
    term_1.plus(&term_2).plus(
        &correction.times(&Sheet::upper(&y.minus(&Expr::num(1)).over(y)).log()),
    )
}

/// A call of `HvS3` with the argument `y` formed from `t1`, `t2` and the
/// root of the Kallen function.
#[verifier::allow_in_spec]
pub fn s3_call(a: &Expr, m1: &Expr, m2: &Expr, t1: &Expr, t2: &Expr, lambda_root: &Expr) -> Expr
    returns
        ({
            let alpha = t2.negated().plus(lambda_root).over(&a.times_int(2));
            let y = t1.plus(&m1.minus(m2).minus(a).times(&alpha)).negated().over(lambda_root);
            Expr::call(Func::HvS3, args4(a, m1, m2, &y))
        }),
{
    let alpha = t2.negated().plus(lambda_root).over(&a.times_int(2));
    let y = t1.plus(&m1.minus(m2).minus(a).times(&alpha)).negated().over(lambda_root);
    Expr::call(Func::HvS3, args4(a, m1, m2, &y))
}

/// The body of the helper `TriangleHv` over `(p1, p2, p3, m1, m2, m3)`.
#[verifier::allow_in_spec]
pub fn body(p1: &Expr, p2: &Expr, p3: &Expr, m1: &Expr, m2: &Expr, m3: &Expr) -> Expr
    returns
        ({
            let t = p3.minus(p1).minus(p2);
            let lambda = t.times(&t).minus(&p1.times_int(4).times(p2));
            let root = lambda.root();
            let shared = m1.minus(m2).negated().plus(p3).minus(p2);
            let first = s3_call(p1, m1, m2, &m2.minus(m3).plus(p2), &p3.minus(p1).minus(p2), &root);
            let second = s3_call(p3, m1, m3, &shared, &p2.minus(p1).minus(p3), &root);
            let third = s3_call(p2, m2, m3, &shared, &p1.plus(p2).minus(p3), &root);
            first.minus(&second).plus(&third).negated().over(&root)
        }),
{
    let t = p3.minus(p1).minus(p2);
    let lambda = t.times(&t).minus(&p1.times_int(4).times(p2));
    let root = lambda.root();
    let shared = m1.minus(m2).negated().plus(p3).minus(p2);
    let first = s3_call(p1, m1, m2, &m2.minus(m3).plus(p2), &p3.minus(p1).minus(p2), &root);
    let second = s3_call(p3, m1, m3, &shared, &p2.minus(p1).minus(p3), &root);
    let third = s3_call(p2, m2, m3, &shared, &p1.plus(p2).minus(p3), &root);
    first.minus(&second).plus(&third).negated().over(&root)
}

/// The 't Hooft--Veltman triangle with its legs sorted by modulus.
#[verifier::allow_in_spec]
pub fn expression(p1: &Expr, p2: &Expr, p3: &Expr, m1: &Expr, m2: &Expr, m3: &Expr) -> Expr
    returns
        ({
            let swap_1 = negative(&p2.times(p2).minus(&p1.times(p1)));
            let a1 = if_nonzero_else(&swap_1, p2, p1);
            let a2 = if_nonzero_else(&swap_1, p1, p2);
            let b1 = if_nonzero_else(&swap_1, m3, m1);
            let b3 = if_nonzero_else(&swap_1, m1, m3);
            let swap_2 = negative(&p3.times(p3).minus(&a2.times(&a2)));
            let c2 = if_nonzero_else(&swap_2, p3, &a2);
            let c3 = if_nonzero_else(&swap_2, &a2, p3);
            let d1 = if_nonzero_else(&swap_2, m2, &b1);
            let d2 = if_nonzero_else(&swap_2, &b1, m2);
            let swap_3 = negative(&c2.times(&c2).minus(&a1.times(&a1)));
            let e1 = if_nonzero_else(&swap_3, &c2, &a1);
            let e2 = if_nonzero_else(&swap_3, &a1, &c2);
            let f1 = if_nonzero_else(&swap_3, &b3, &d1);
            let f3 = if_nonzero_else(&swap_3, &d1, &b3);
            Expr::call(Func::TriangleHv, args6(&e1, &e2, &c3, &f1, &d2, &f3))
        }),
{
    let swap_1 = negative(&p2.times(p2).minus(&p1.times(p1)));
    let a1 = if_nonzero_else(&swap_1, p2, p1);
    let a2 = if_nonzero_else(&swap_1, p1, p2);
    let b1 = if_nonzero_else(&swap_1, m3, m1);
    let b3 = if_nonzero_else(&swap_1, m1, m3);
    let swap_2 = negative(&p3.times(p3).minus(&a2.times(&a2)));
    let c2 = if_nonzero_else(&swap_2, p3, &a2);
    let c3 = if_nonzero_else(&swap_2, &a2, p3);
    let d1 = if_nonzero_else(&swap_2, m2, &b1);
    let d2 = if_nonzero_else(&swap_2, &b1, m2);
    let swap_3 = negative(&c2.times(&c2).minus(&a1.times(&a1)));
    let e1 = if_nonzero_else(&swap_3, &c2, &a1);
    let e2 = if_nonzero_else(&swap_3, &a1, &c2);
    let f1 = if_nonzero_else(&swap_3, &b3, &d1);
    let f3 = if_nonzero_else(&swap_3, &d1, &b3);
    Expr::call(Func::TriangleHv, args6(&e1, &e2, &c3, &f1, &d2, &f3))
}

} // verus!
