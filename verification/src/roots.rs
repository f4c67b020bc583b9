//! Roots of the quadratic equations of the triangle and box formulas.
use vstd::prelude::*;
use crate::expr::{Expr, if_nonzero_else};
use crate::elementary::physical_sqrt;
use crate::sheet::{im, negative, sign_nonnegative};

verus! {

/// The roots `(b +- sqrt(b^2 - 4 a c)) / (2 a)` of `a x^2 - b x + c`, the
/// square root on the lower lip.
#[verifier::allow_in_spec]
pub fn negative_quadratic_roots(a: &Expr, b: &Expr, c: &Expr) -> (Expr, Expr)
    returns
        ({
            let discriminant = physical_sqrt(&b.times(b).minus(&a.times_int(4).times(c)));
            (b.plus(&discriminant).over(&a.times_int(2)), b.minus(&discriminant).over(&a.times_int(2)))
        }),
{
    let discriminant = physical_sqrt(&b.times(b).minus(&a.times_int(4).times(c)));
    (b.plus(&discriminant).over(&a.times_int(2)), b.minus(&discriminant).over(&a.times_int(2)))
}

/// The root `r` of `r + 1/r = value` that the formulas continue, and
/// `r - 1/r`.
///
/// Off the real axis this is the root outside the unit circle; on the real
/// axis it is the real root of larger modulus outside `[-2, 2]` and the root
/// in the lower half plane inside it.
#[verifier::allow_in_spec]
pub fn r_function(value: &Expr) -> (Expr, Expr)
    returns
        ({
            let difference = value.minus(&Expr::num(2)).root().times(&value.plus(&Expr::num(2)).root());
            let outside = value.plus(&difference).over_int(2);
            let discriminant = value.times(value).minus(&Expr::num(4));
            let real_inside = value.minus(&Expr::i().times(&discriminant.negated().root())).over_int(2);
            let real_outside = value.plus(&sign_nonnegative(value).times(&discriminant.root())).over_int(
                2,
            );
            let root = if_nonzero_else(
                &im(value),
                &outside,
                &if_nonzero_else(&negative(&discriminant), &real_inside, &real_outside),
            );
            let inverse = Expr::num(1).over(&root);
            let difference_of_roots = root.minus(&inverse);
            (root, difference_of_roots)
        }),
{
    let difference = value.minus(&Expr::num(2)).root().times(&value.plus(&Expr::num(2)).root());
    let outside = value.plus(&difference).over_int(2);
    let discriminant = value.times(value).minus(&Expr::num(4));
    let real_inside = value.minus(&Expr::i().times(&discriminant.negated().root())).over_int(2);
    let real_outside = value.plus(&sign_nonnegative(value).times(&discriminant.root())).over_int(
        2,
    );
    let root = if_nonzero_else(
        &im(value),
        &outside,
        &if_nonzero_else(&negative(&discriminant), &real_inside, &real_outside),
    );
    let inverse = Expr::num(1).over(&root);
    let difference_of_roots = root.minus(&inverse);
    (root, difference_of_roots)
}

/// The square root of the modulus of `mass`.
#[verifier::allow_in_spec]
pub fn square_root_magnitude(mass: &Expr) -> Expr
    returns
        mass.times(&mass.conjugate()).root().root(),
{
    mass.times(&mass.conjugate()).root().root()
}

} // verus!
