//! Integrated triangle formulas that the inspection expansion uses in place
//! of the generic triangle definition on two special sectors. They are
//! compact identities for inspection only: the helper definitions of the
//! masters are unchanged.
use vstd::prelude::*;
use crate::expr::{Expr, if_nonzero, if_nonzero_else};
use crate::series::{LaurentSeries, finite_series, if_series};
use crate::sheet::{im, negative, pi_squared, re, sign_nonnegative};
use crate::elementary::physical_log;
use crate::expansion::same_expr;

verus! {

/// Whether `x` is `-a`: the negation of `a`, the operand of `a` where `a`
/// is a negation, or the opposite integer of an integer `a`.
pub open spec fn spec_is_negation(x: Expr, a: Expr) -> bool {
    ||| x == a.negated()
    ||| a == x.negated()
    ||| (x matches Expr::Int(w) && a matches Expr::Int(v) && w == -v)
}

/// Whether `x` is `-a`.
pub fn is_negation(x: &Expr, a: &Expr) -> (r: bool)
    ensures
        r == spec_is_negation(*x, *a),
{
    if same_expr(x, &a.negated()) || same_expr(a, &x.negated()) {
        return true;
    }
    match (x, a) {
        (Expr::Int(w), Expr::Int(v)) => *w as i128 == -(*v as i128),
        _ => false,
    }
}

/// Whether `e` is known to be real: an integer, or a sum, difference,
/// product or negation of such. Arguments carry no attributes, so no other
/// expression is known to be real.
pub open spec fn spec_known_real(e: Expr) -> bool
    decreases e,
{
    match e {
        Expr::Int(_) => true,
        Expr::Neg(x) => spec_known_real(*x),
        Expr::Add(x, y) | Expr::Sub(x, y) | Expr::Mul(x, y) => spec_known_real(*x) && spec_known_real(*y),
        _ => false,
    }
}

/// Whether `e` is known to be real.
pub fn known_real(e: &Expr) -> (r: bool)
    ensures
        r == spec_known_real(*e),
    decreases *e,
{
    match e {
        Expr::Int(_) => true,
        Expr::Neg(x) => known_real(x),
        Expr::Add(x, y) | Expr::Sub(x, y) | Expr::Mul(x, y) => known_real(x) && known_real(y),
        _ => false,
    }
}

/// The dilogarithm of `z` continued to the lip of its cut that `lip`
/// selects: `lip` is one for the upper lip and minus one for the lower.
/// Off the real axis, and on it below one, it is the principal value.
#[verifier::allow_in_spec]
pub fn lip_dilog(z: &Expr, lip: &Expr) -> Expr
    returns
        if_nonzero_else(
            &im(z),
            &z.li2(),
            &if_nonzero_else(
                &negative(&z.int_minus(1)),
                &pi_squared().over_int(6).minus(&z.int_minus(1).li2()).minus(
                    &z.ln().times(&z.minus(&Expr::Int(1)).ln()),
                ).plus(&Expr::I.times(&Expr::Pi).times(lip).times(&z.ln())),
                &z.li2(),
            ),
        ),
{
    let cut = pi_squared().over_int(6).minus(&z.int_minus(1).li2()).minus(
        &z.ln().times(&z.minus(&Expr::num(1)).ln()),
    ).plus(&Expr::i().times(&Expr::pi()).times(lip).times(&z.ln()));
    let on_axis = if_nonzero_else(&negative(&z.int_minus(1)), &cut, &z.li2());
    if_nonzero_else(&im(z), &z.li2(), &on_axis)
}

/// `C0(0, -a, a, a, a, b)` with squared scale `mu_squared`, with the linear
/// Feynman parameter integrated first: four dilogarithms of the roots of two
/// quadratics in `r = b / a`, the sector `a = 0` included.
#[verifier::allow_in_spec]
pub fn opposite_invariants_series(a: &Expr, b: &Expr, mu_squared: &Expr) -> LaurentSeries
    returns
        LaurentSeries::new(
            if_nonzero_else(
                a,
                &lip_dilog(
                    &b.over(a).negated().plus(&b.over(a).times(&b.over(a)).plus(&Expr::Int(4)).root()).over_int(2),
                    &sign_nonnegative(&re(a)),
                ).plus(
                    &lip_dilog(
                        &b.over(a).negated().minus(&b.over(a).times(&b.over(a)).plus(&Expr::Int(4)).root()).over_int(2),
                        &sign_nonnegative(&re(a)),
                    ),
                ).minus(
                    &lip_dilog(
                        &b.over(a).int_minus(2).plus(&b.over(a).times(&b.over(a).minus(&Expr::Int(4))).root()).over_int(2),
                        &sign_nonnegative(&re(a)),
                    ),
                ).minus(
                    &lip_dilog(
                        &b.over(a).int_minus(2).minus(&b.over(a).times(&b.over(a).minus(&Expr::Int(4))).root()).over_int(2),
                        &sign_nonnegative(&re(a)),
                    ),
                ).over(&a.times_int(2)),
                &if_nonzero(b, &physical_log(&b.over(mu_squared)).int_minus(1).over(b)),
            ),
            if_nonzero_else(a, &Expr::Int(0), &if_nonzero(b, &Expr::Int(1).over(b))),
            Expr::Int(0),
        ),
{
    let r = b.over(a);
    let d = r.times(&r).plus(&Expr::num(4)).root();
    let e = r.times(&r.minus(&Expr::num(4))).root();
    let lip = sign_nonnegative(&re(a));
    let finite = lip_dilog(&r.negated().plus(&d).over_int(2), &lip).plus(
        &lip_dilog(&r.negated().minus(&d).over_int(2), &lip),
    ).minus(&lip_dilog(&r.int_minus(2).plus(&e).over_int(2), &lip)).minus(
        &lip_dilog(&r.int_minus(2).minus(&e).over_int(2), &lip),
    ).over(&a.times_int(2));
    let zero_a_finite = if_nonzero(b, &physical_log(&b.over(mu_squared)).int_minus(1).over(b));
    LaurentSeries::new(
        if_nonzero_else(a, &finite, &zero_a_finite),
        if_nonzero_else(a, &Expr::num(0), &if_nonzero(b, &Expr::num(1).over(b))),
        Expr::num(0),
    )
}

/// Whether the triangle arguments `(p1, p2, p3, m1, m2, m3, mu_squared)`
/// are `(0, -a, a, a, a, b, mu_squared)`.
pub open spec fn opposite_invariants_apply(arguments: Seq<Expr>) -> bool {
    &&& arguments[0] == Expr::Int(0)
    &&& spec_is_negation(arguments[1], arguments[2])
    &&& arguments[3] == arguments[2]
    &&& arguments[4] == arguments[2]
}

/// The integrated series of a triangle `C0(0, -a, a, a, a, b)`, where the
/// arguments have that form.
pub fn opposite_invariants_triangle(arguments: &[Expr]) -> (r: Option<LaurentSeries>)
    requires
        arguments@.len() == 7,
    ensures
        r == (if opposite_invariants_apply(arguments@) {
            Some(opposite_invariants_series(&arguments@[2], &arguments@[5], &arguments@[6]))
        } else {
            None
        }),
{
    let a = &arguments[2];
    if !arguments[0].is_literal_zero() || !is_negation(&arguments[1], a) || !same_expr(&arguments[3], a)
        || !same_expr(&arguments[4], a) {
        return None;
    }
    Some(opposite_invariants_series(a, &arguments[5], &arguments[6]))
}

/// The position of the only nonzero mass among the three masses at
/// positions three to five, if exactly one is nonzero.
pub open spec fn sole_mass(arguments: Seq<Expr>) -> Option<int> {
    let zero = Expr::Int(0);
    if arguments[3] != zero && arguments[4] == zero && arguments[5] == zero {
        Some(0)
    } else if arguments[3] == zero && arguments[4] != zero && arguments[5] == zero {
        Some(1)
    } else if arguments[3] == zero && arguments[4] == zero && arguments[5] != zero {
        Some(2)
    } else {
        None
    }
}

/// The position of the mass of a triangle with one mass and one scale: one
/// nonzero mass at `i`, the momentum after it (`(i + 1) % 3`) known to be
/// real, and the two other momenta zero.
pub open spec fn one_mass_one_scale_mass(arguments: Seq<Expr>) -> Option<int> {
    match sole_mass(arguments) {
        Some(i) => if (forall|j: int| 0 <= j < 3 && j != (i + 1) % 3 ==> arguments[j] == Expr::Int(0))
            && spec_known_real(arguments[(i + 1) % 3]) {
            Some(i)
        } else {
            None
        },
        None => None,
    }
}

/// The integrated series of a triangle with one mass `mass`, one real
/// momentum `momentum` next to it and squared scale `scale`, with the
/// massive and massless sectors and the zero-momentum limit:
/// `(pi^2/6 - Li2(1 + s/m)) / s` off the zero sectors, with the dilogarithm
/// on the lip that the sign of `s` selects where `m` is real.
#[verifier::allow_in_spec]
pub fn one_mass_one_scale_series(momentum: &Expr, mass: &Expr, scale: &Expr) -> LaurentSeries
    returns
        if_series(
            mass,
            &if_series(
                momentum,
                &finite_series(
                    pi_squared().over_int(6).minus(
                        &if_nonzero_else(
                            &im(mass),
                            &Expr::Int(1).plus(&momentum.over(mass)).li2(),
                            &if_nonzero_else(
                                &negative(momentum),
                                &Expr::Int(1).plus(&momentum.over(mass)).li2(),
                                &Expr::Int(1).plus(&momentum.over(mass)).li2().conjugate(),
                            ),
                        ),
                    ).over(momentum),
                ),
                &LaurentSeries::new(
                    physical_log(&mass.over(scale)).int_minus(1).over(mass),
                    Expr::Int(1).over(mass),
                    Expr::Int(0),
                ),
            ),
            &if_series(
                momentum,
                &LaurentSeries::new(
                    physical_log(&momentum.negated().over(scale)).times(
                        &physical_log(&momentum.negated().over(scale)),
                    ).over(&momentum.times_int(2)),
                    physical_log(&momentum.negated().over(scale)).negated().over(momentum),
                    Expr::Int(1).over(momentum),
                ),
                &finite_series(Expr::Int(0)),
            ),
        ),
{
    let dilog = Expr::num(1).plus(&momentum.over(mass)).li2();
    let continued = if_nonzero_else(
        &im(mass),
        &dilog,
        &if_nonzero_else(&negative(momentum), &dilog, &dilog.conjugate()),
    );
    let finite = pi_squared().over_int(6).minus(&continued).over(momentum);
    let vacuum = LaurentSeries::new(
        physical_log(&mass.over(scale)).int_minus(1).over(mass),
        Expr::num(1).over(mass),
        Expr::num(0),
    );
    let massive = if_series(momentum, &finite_series(finite), &vacuum);
    let log = physical_log(&momentum.negated().over(scale));
    let massless = if_series(
        momentum,
        &LaurentSeries::new(
            log.times(&log).over(&momentum.times_int(2)),
            log.negated().over(momentum),
            Expr::num(1).over(momentum),
        ),
        &finite_series(Expr::num(0)),
    );
    if_series(mass, &massive, &massless)
}

/// The integrated series of a triangle with one mass and one real scale,
/// where the arguments have that form.
pub fn one_mass_one_scale_triangle(arguments: &[Expr]) -> (r: Option<LaurentSeries>)
    requires
        arguments@.len() == 7,
    ensures
        r == (match one_mass_one_scale_mass(arguments@) {
            Some(i) => Some(
                one_mass_one_scale_series(&arguments@[(i + 1) % 3], &arguments@[i + 3], &arguments@[6]),
            ),
            None => None,
        }),
{
    let m0 = arguments[3].is_literal_zero();
    let m1 = arguments[4].is_literal_zero();
    let m2 = arguments[5].is_literal_zero();
    let mass_index: usize = if !m0 && m1 && m2 {
        0
    } else if m0 && !m1 && m2 {
        1
    } else if m0 && m1 && !m2 {
        2
    } else {
        return None;
    };
    let momentum_index: usize = (mass_index + 1) % 3;
    let mut j: usize = 0;
    while j < 3
        invariant
            j <= 3,
            arguments@.len() == 7,
            momentum_index == (mass_index + 1) % 3,
            sole_mass(arguments@) == Some(mass_index as int),
            forall|k: int| 0 <= k < j && k != momentum_index ==> arguments@[k] == Expr::Int(0),
        decreases 3 - j,
    {
        if j != momentum_index && !arguments[j].is_literal_zero() {
            assert(!(forall|k: int| 0 <= k < 3 && k != (mass_index + 1) % 3 ==> arguments@[k] == Expr::Int(0)));
            return None;
        }
        j = j + 1;
    }
    let momentum = &arguments[momentum_index];
    if !known_real(momentum) {
        return None;
    }
    Some(one_mass_one_scale_series(momentum, &arguments[mass_index + 3], &arguments[6]))
}

/// The integrated series that inspection uses for a triangle with the
/// arguments `arguments`, if one of the two special sectors applies.
pub open spec fn special_triangle(arguments: Seq<Expr>) -> Option<LaurentSeries> {
    if opposite_invariants_apply(arguments) {
        Some(opposite_invariants_series(&arguments[2], &arguments[5], &arguments[6]))
    } else {
        match one_mass_one_scale_mass(arguments) {
            Some(i) => Some(one_mass_one_scale_series(&arguments[(i + 1) % 3], &arguments[i + 3], &arguments[6])),
            None => None,
        }
    }
}

} // verus!
