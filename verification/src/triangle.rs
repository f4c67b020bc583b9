//! The scalar triangle.
//!
//! Momenta are `[p1^2, p2^2, (p1 + p2)^2]`; masses follow the propagators
//! and are squared. The triangle is dispatched on which masses vanish to one
//! of the helper definitions `TriangleSector`, each a Laurent series.
use vstd::prelude::*;
use crate::expr::{Expr, if_nonzero, if_nonzero_else, args7, folded};
use crate::series::lemma_select_three_series_dispatch;
use crate::sectors::{spec_three_index, spec_triangle_sector, spec_triangle_rotation, TriangleSector};
use crate::expr::{args_of, arguments_at};
use std::rc::Rc;
use crate::elementary::{physical_log, physical_sqrt, log_over_one_minus, any_nonzero2, any_nonzero3};
use crate::sheet::{Sheet, divided_difference, negative, pi_squared};
use crate::series::{LaurentSeries, Order, finite_series, zero_series, if_series, select_three_series, with_triangle_normalization};
use crate::roots::{negative_quadratic_roots, r_function, square_root_magnitude};
use crate::functions::Func;
use crate::triangle_hv;

verus! {

/// Triangle with one massive propagator between two on-shell legs of its
/// mass and a light-like third leg.
#[verifier::allow_in_spec]
pub fn triangle_ir_one(mass: &Expr, mu_squared: &Expr) -> LaurentSeries
    returns
        ({
            let factor = Expr::num(1).over(&mass.times_int(2));
            LaurentSeries::new(
                factor.times(&Expr::num(2).plus(&physical_log(&mass.over(mu_squared)))),
                factor.negated(),
                Expr::num(0),
            )
        }),
{
    let factor = Expr::num(1).over(&mass.times_int(2));
    LaurentSeries::new(
        factor.times(&Expr::num(2).plus(&physical_log(&mass.over(mu_squared)))),
        factor.negated(),
        Expr::num(0),
    )
}

/// Triangle with one massive propagator and one off-shell leg at it.
#[verifier::allow_in_spec]
pub fn triangle_ir_two(momentum: &Expr, mass: &Expr, mu_squared: &Expr) -> LaurentSeries
    returns
        ({
            let difference = mass.minus(momentum);
            let q_mass = Sheet::lower(mass);
            let q_difference = Sheet::lower(&difference);
            let log_mass = q_mass.scale_positive(&Expr::num(1).over(mu_squared)).log();
            let ratio = q_mass.quotient(&q_difference);
            let logarithm = ratio.log();
            let double_pole = Expr::num(1).over_int(2);
            let single_pole = logarithm.minus(&double_pole.times(&log_mass));
            let finite_seed = Expr::num(1).over_int(24).times(&Expr::pi()).times(&Expr::pi()).plus(
                &logarithm.times(&logarithm).over_int(2),
            ).minus(&ratio.dilog());
            let factor = Expr::num(-1i64).over(&difference);
            LaurentSeries::new(
                factor.times(
                    &finite_seed.plus(
                        &double_pole.times(&log_mass).over_int(2).minus(&logarithm).times(&log_mass),
                    ),
                ),
                factor.times(&single_pole),
                factor.times(&double_pole),
            )
        }),
{
    let difference = mass.minus(momentum);
    let q_mass = Sheet::lower(mass);
    let q_difference = Sheet::lower(&difference);
    let log_mass = q_mass.scale_positive(&Expr::num(1).over(mu_squared)).log();
    let ratio = q_mass.quotient(&q_difference);
    let logarithm = ratio.log();
    let double_pole = Expr::num(1).over_int(2);
    let single_pole = logarithm.minus(&double_pole.times(&log_mass));
    let finite_seed = Expr::num(1).over_int(24).times(&Expr::pi()).times(&Expr::pi()).plus(
        &logarithm.times(&logarithm).over_int(2),
    ).minus(&ratio.dilog());
    let factor = Expr::num(-1i64).over(&difference);
    LaurentSeries::new(
        factor.times(
            &finite_seed.plus(
                &double_pole.times(&log_mass).over_int(2).minus(&logarithm).times(&log_mass),
            ),
        ),
        factor.times(&single_pole),
        factor.times(&double_pole),
    )
}

/// Triangle with one massive propagator and both legs at it off shell.
#[verifier::allow_in_spec]
pub fn triangle_ir_three(momentum_2: &Expr, momentum_3: &Expr, mass: &Expr, mu_squared: &Expr) -> LaurentSeries
    returns
        ({
            let difference_13 = mass.minus(momentum_3);
            let difference_23 = mass.minus(momentum_2);
            let q13 = Sheet::lower(&difference_13);
            let q23 = Sheet::lower(&difference_23);
            let q_mass = Sheet::lower(mass);
            let x1 = q23.quotient(&q_mass);
            let x2 = q13.quotient(&q_mass);
            let single_pole = q23.quotient(&q13).log_over_one_minus().negated().over(&difference_13);
            let logs = x1.log().plus(&x2.log()).plus(
                &q_mass.scale_positive(&Expr::num(1).over(mu_squared)).log(),
            );
            LaurentSeries::new(
                divided_difference(&x1, &x2).negated().over(mass).minus(&single_pole.times(&logs)),
                single_pole,
                Expr::num(0),
            )
        }),
{
    let difference_13 = mass.minus(momentum_3);
    let difference_23 = mass.minus(momentum_2);
    let q13 = Sheet::lower(&difference_13);
    let q23 = Sheet::lower(&difference_23);
    let q_mass = Sheet::lower(mass);
    let x1 = q23.quotient(&q_mass);
    let x2 = q13.quotient(&q_mass);
    let single_pole = q23.quotient(&q13).log_over_one_minus().negated().over(&difference_13);
    let logs = x1.log().plus(&x2.log()).plus(
        &q_mass.scale_positive(&Expr::num(1).over(mu_squared)).log(),
    );
    LaurentSeries::new(
        divided_difference(&x1, &x2).negated().over(mass).minus(&single_pole.times(&logs)),
        single_pole,
        Expr::num(0),
    )
}

/// Triangle with two massive propagators, both legs at them on shell.
#[verifier::allow_in_spec]
pub fn triangle_ir_four(momentum: &Expr, mass_2: &Expr, mass_3: &Expr, mu_squared: &Expr) -> LaurentSeries
    returns
        ({
            let sqrt_2 = mass_2.root();
            let sqrt_3 = mass_3.root();
            let r23 = r_function(&mass_2.plus(mass_3).minus(momentum).over(&sqrt_2.times(&sqrt_3))).0;
            let q23 = Sheet::lower(&r23);
            let coefficient = q23.log_over_one_minus().times(&r23).over(
                &Expr::num(1).plus(&r23).times(&sqrt_2).times(&sqrt_3),
            );
            let ratio = Sheet::upper(&sqrt_3).quotient(&Sheet::upper(&sqrt_2));
            let finite = coefficient.times(&physical_log(&mass_3.over(mu_squared)).minus(&q23.log())).minus(
                &divided_difference(&ratio.product(&q23), &ratio.quotient(&q23)).over(mass_2),
            ).plus(
                &divided_difference(&q23.product(&q23), &Sheet::lower(&Expr::num(1))).times(&r23).over(
                    &sqrt_2.times(&sqrt_3),
                ),
            );
            LaurentSeries::new(finite, coefficient.negated(), Expr::num(0))
        }),
{
    let sqrt_2 = mass_2.root();
    let sqrt_3 = mass_3.root();
    let r23 = r_function(&mass_2.plus(mass_3).minus(momentum).over(&sqrt_2.times(&sqrt_3))).0;
    let q23 = Sheet::lower(&r23);
    let coefficient = q23.log_over_one_minus().times(&r23).over(
        &Expr::num(1).plus(&r23).times(&sqrt_2).times(&sqrt_3),
    );
    let ratio = Sheet::upper(&sqrt_3).quotient(&Sheet::upper(&sqrt_2));
    let finite = coefficient.times(&physical_log(&mass_3.over(mu_squared)).minus(&q23.log())).minus(
        &divided_difference(&ratio.product(&q23), &ratio.quotient(&q23)).over(mass_2),
    ).plus(
        &divided_difference(&q23.product(&q23), &Sheet::lower(&Expr::num(1))).times(&r23).over(
            &sqrt_2.times(&sqrt_3),
        ),
    );
    LaurentSeries::new(finite, coefficient.negated(), Expr::num(0))
}

/// The finite triangle with massless propagators and three off-shell legs.
#[verifier::allow_in_spec]
pub fn triangle_finite_massless(p1: &Expr, p2: &Expr, p3: &Expr) -> Expr
    returns
        ({
            let r23 = p1.negated();
            let r24 = p3.negated();
            let r34 = p2.negated();
            let a = r34.times(&r24);
            let b = r24.plus(&r34).minus(&r23);
            let roots = negative_quadratic_roots(&a, &b, &Expr::num(1));
            let qx1 = Sheet::upper(&roots.0);
            let qx2 = Sheet::lower(&roots.1);
            let q23 = Sheet::lower(&r23);
            let q24 = Sheet::lower(&r24);
            let q34 = Sheet::lower(&r34);
            let log_ratio = qx1.quotient(&qx2).log_over_one_minus();
            divided_difference(&qx1.product(&q34), &qx2.product(&q34)).times(&r34).plus(
                &divided_difference(&qx1.product(&q24), &qx2.product(&q24)).times(&r24),
            ).minus(&log_ratio.times(&qx1.product(&qx2).log()).over(&roots.1.times_int(2))).minus(
                &log_ratio.times(&q23.log()).over(&roots.1),
            ).over(&a)
        }),
{
    let r23 = p1.negated();
    let r24 = p3.negated();
    let r34 = p2.negated();
    let a = r34.times(&r24);
    let b = r24.plus(&r34).minus(&r23);
    let roots = negative_quadratic_roots(&a, &b, &Expr::num(1));
    let qx1 = Sheet::upper(&roots.0);
    let qx2 = Sheet::lower(&roots.1);
    let q23 = Sheet::lower(&r23);
    let q24 = Sheet::lower(&r24);
    let q34 = Sheet::lower(&r34);
    let log_ratio = qx1.quotient(&qx2).log_over_one_minus();
    divided_difference(&qx1.product(&q34), &qx2.product(&q34)).times(&r34).plus(
        &divided_difference(&qx1.product(&q24), &qx2.product(&q24)).times(&r24),
    ).minus(&log_ratio.times(&qx1.product(&qx2).log()).over(&roots.1.times_int(2))).minus(
        &log_ratio.times(&q23.log()).over(&roots.1),
    ).over(&a)
}

/// The finite triangle with one massive propagator.
#[verifier::allow_in_spec]
pub fn triangle_finite_one_mass(p1: &Expr, p2: &Expr, p3: &Expr, mass: &Expr) -> Expr
    returns
        ({
            let sqrt_mass = mass.root();
            let sqrt_real = square_root_magnitude(mass);
            let r23 = p1.negated().over(&sqrt_real.times(&sqrt_real));
            let r24 = mass.minus(p3).over(&sqrt_real.times(&sqrt_mass));
            let r34 = mass.minus(p2).over(&sqrt_real.times(&sqrt_mass));
            let a = r34.times(&r24).minus(&r23);
            let b = r24.over(&sqrt_real).plus(&r34.over(&sqrt_real)).minus(&r23.over(&sqrt_mass));
            let c = Expr::num(1).over(&sqrt_real.times(&sqrt_real));
            let roots = negative_quadratic_roots(&a, &b, &c);
            let qx1 = Sheet::upper(&roots.0);
            let qx2 = Sheet::upper(&roots.1);
            let q23 = Sheet::lower(&r23);
            let q24 = Sheet::lower(&r24);
            let q34 = Sheet::lower(&r34);
            let qmass = Sheet::lower(&sqrt_mass);
            let root_over_mass = qx1.product(&qx2).quotient(&qmass.product(&qmass));
            let logs = root_over_mass.log().over_int(2).plus(
                &q23.scale_positive(&sqrt_real.times(&sqrt_real)).log(),
            );
            let leading = logs.negated().times(&qx1.quotient(&qx2).log_over_one_minus()).over(&roots.1).minus(
                &divided_difference(&qx1.product(&qmass), &qx2.product(&qmass)).times(&sqrt_mass),
            );
            let scaled_34 = q34.scale_positive(&sqrt_real);
            let term_34 = if_nonzero(
                &r34,
                &divided_difference(&qx1.product(&scaled_34), &qx2.product(&scaled_34)).times(&r34).times(
                    &sqrt_real,
                ),
            );
            let scaled_24 = q24.scale_positive(&sqrt_real);
            let term_24 = if_nonzero(
                &r24,
                &divided_difference(&qx1.product(&scaled_24), &qx2.product(&scaled_24)).times(&r24).times(
                    &sqrt_real,
                ),
            );
            let finite = leading.plus(&term_34).plus(&term_24);
            if_nonzero(&a, &finite.over(&a.times(&sqrt_real).times(&sqrt_real).times(&sqrt_mass)))
        }),
{
    let sqrt_mass = mass.root();
    let sqrt_real = square_root_magnitude(mass);
    let r23 = p1.negated().over(&sqrt_real.times(&sqrt_real));
    let r24 = mass.minus(p3).over(&sqrt_real.times(&sqrt_mass));
    let r34 = mass.minus(p2).over(&sqrt_real.times(&sqrt_mass));
    let a = r34.times(&r24).minus(&r23);
    let b = r24.over(&sqrt_real).plus(&r34.over(&sqrt_real)).minus(&r23.over(&sqrt_mass));
    let c = Expr::num(1).over(&sqrt_real.times(&sqrt_real));
    let roots = negative_quadratic_roots(&a, &b, &c);
    let qx1 = Sheet::upper(&roots.0);
    let qx2 = Sheet::upper(&roots.1);
    let q23 = Sheet::lower(&r23);
    let q24 = Sheet::lower(&r24);
    let q34 = Sheet::lower(&r34);
    let qmass = Sheet::lower(&sqrt_mass);
    let root_over_mass = qx1.product(&qx2).quotient(&qmass.product(&qmass));
    let logs = root_over_mass.log().over_int(2).plus(
        &q23.scale_positive(&sqrt_real.times(&sqrt_real)).log(),
    );
    let leading = logs.negated().times(&qx1.quotient(&qx2).log_over_one_minus()).over(&roots.1).minus(
        &divided_difference(&qx1.product(&qmass), &qx2.product(&qmass)).times(&sqrt_mass),
    );
    let scaled_34 = q34.scale_positive(&sqrt_real);
    let term_34 = if_nonzero(
        &r34,
        &divided_difference(&qx1.product(&scaled_34), &qx2.product(&scaled_34)).times(&r34).times(
            &sqrt_real,
        ),
    );
    let scaled_24 = q24.scale_positive(&sqrt_real);
    let term_24 = if_nonzero(
        &r24,
        &divided_difference(&qx1.product(&scaled_24), &qx2.product(&scaled_24)).times(&r24).times(
            &sqrt_real,
        ),
    );
    let finite = leading.plus(&term_34).plus(&term_24);
    if_nonzero(&a, &finite.over(&a.times(&sqrt_real).times(&sqrt_real).times(&sqrt_mass)))
}

/// The finite triangle with two massive propagators.
#[verifier::allow_in_spec]
pub fn triangle_finite_two_masses(
    p1: &Expr,
    p2: &Expr,
    p3: &Expr,
    mass_2_input: &Expr,
    mass_3_input: &Expr,
) -> Expr
    returns
        ({
            let mass_2 = mass_3_input;
            let mass_4 = mass_2_input;
            let sqrt_2 = mass_2.root();
            let sqrt_3 = square_root_magnitude(mass_2);
            let sqrt_4 = mass_4.root();
            let r23 = mass_2.minus(p3).over(&sqrt_2.times(&sqrt_3));
            let k24 = mass_2.plus(mass_4).minus(p2).over(&sqrt_2.times(&sqrt_4));
            let r34 = mass_4.minus(p1).over(&sqrt_3.times(&sqrt_4));
            let rd = r_function(&k24);
            let r24 = rd.0;
            let d24 = rd.1;
            let a = r34.over(&r24).minus(&r23);
            let b = d24.negated().over(&sqrt_3).plus(&r34.over(&sqrt_2)).minus(&r23.over(&sqrt_4));
            let c = sqrt_4.over(&sqrt_2).minus(&r24).over(&sqrt_3.times(&sqrt_4));
            let roots = negative_quadratic_roots(&a, &b, &c);
            let qx1 = Sheet::upper(&roots.0);
            let qx2 = Sheet::upper(&roots.1);
            let q23 = Sheet::lower(&r23);
            let q24 = Sheet::lower(&r24);
            let q34 = Sheet::lower(&r34);
            let qm2 = Sheet::lower(&sqrt_2);
            let qm3 = Sheet::lower(&sqrt_3);
            let qm4 = Sheet::lower(&sqrt_4);
            let y1 = qx1.quotient(&q24);
            let y2 = qx2.quotient(&q24);
            let first = divided_difference(&y1.product(&qm2), &y2.product(&qm2)).times(&sqrt_2).over(&r24);
            let y_scaled = y1.product(&y2).quotient(&qm2.product(&qm2));
            let x_scaled = qx1.product(&qx2).quotient(&qm4.product(&qm4));
            let root_term = y1.quotient(&y2).log_over_one_minus().times(&y_scaled.log()).minus(
                &qx1.quotient(&qx2).log_over_one_minus().times(&x_scaled.log()),
            ).over(&roots.1.times_int(2));
            let fourth = divided_difference(&qx1.product(&qm4), &qx2.product(&qm4)).times(&sqrt_4);
            let scale_23 = q23.product(&qm3).quotient(&q24);
            let term_23 = if_nonzero(
                &r23,
                &divided_difference(&qx1.product(&scale_23), &qx2.product(&scale_23)).times(&r23).times(
                    &sqrt_3,
                ).over(&r24),
            );
            let scale_34 = q34.product(&qm3);
            let term_34 = if_nonzero(
                &r34,
                &divided_difference(&qx1.product(&scale_34), &qx2.product(&scale_34)).times(&r34).times(
                    &sqrt_3,
                ),
            );
            let finite = first.plus(&if_nonzero(&roots.1, &root_term)).minus(&fourth).minus(&term_23).plus(
                &term_34,
            );
            if_nonzero(&a, &finite.over(&a.times(&sqrt_2).times(&sqrt_3).times(&sqrt_4)))
        }),
{
    let mass_2 = mass_3_input;
    let mass_4 = mass_2_input;
    let sqrt_2 = mass_2.root();
    let sqrt_3 = square_root_magnitude(mass_2);
    let sqrt_4 = mass_4.root();
    let r23 = mass_2.minus(p3).over(&sqrt_2.times(&sqrt_3));
    let k24 = mass_2.plus(mass_4).minus(p2).over(&sqrt_2.times(&sqrt_4));
    let r34 = mass_4.minus(p1).over(&sqrt_3.times(&sqrt_4));
    let rd = r_function(&k24);
    let r24 = rd.0;
    let d24 = rd.1;
    let a = r34.over(&r24).minus(&r23);
    let b = d24.negated().over(&sqrt_3).plus(&r34.over(&sqrt_2)).minus(&r23.over(&sqrt_4));
    let c = sqrt_4.over(&sqrt_2).minus(&r24).over(&sqrt_3.times(&sqrt_4));
    let roots = negative_quadratic_roots(&a, &b, &c);
    let qx1 = Sheet::upper(&roots.0);
    let qx2 = Sheet::upper(&roots.1);
    let q23 = Sheet::lower(&r23);
    let q24 = Sheet::lower(&r24);
    let q34 = Sheet::lower(&r34);
    let qm2 = Sheet::lower(&sqrt_2);
    let qm3 = Sheet::lower(&sqrt_3);
    let qm4 = Sheet::lower(&sqrt_4);
    let y1 = qx1.quotient(&q24);
    let y2 = qx2.quotient(&q24);
    let first = divided_difference(&y1.product(&qm2), &y2.product(&qm2)).times(&sqrt_2).over(&r24);
    let y_scaled = y1.product(&y2).quotient(&qm2.product(&qm2));
    let x_scaled = qx1.product(&qx2).quotient(&qm4.product(&qm4));
    let root_term = y1.quotient(&y2).log_over_one_minus().times(&y_scaled.log()).minus(
        &qx1.quotient(&qx2).log_over_one_minus().times(&x_scaled.log()),
    ).over(&roots.1.times_int(2));
    let fourth = divided_difference(&qx1.product(&qm4), &qx2.product(&qm4)).times(&sqrt_4);
    let scale_23 = q23.product(&qm3).quotient(&q24);
    let term_23 = if_nonzero(
        &r23,
        &divided_difference(&qx1.product(&scale_23), &qx2.product(&scale_23)).times(&r23).times(
            &sqrt_3,
        ).over(&r24),
    );
    let scale_34 = q34.product(&qm3);
    let term_34 = if_nonzero(
        &r34,
        &divided_difference(&qx1.product(&scale_34), &qx2.product(&scale_34)).times(&r34).times(
            &sqrt_3,
        ),
    );
    let finite = first.plus(&if_nonzero(&roots.1, &root_term)).minus(&fourth).minus(&term_23).plus(
        &term_34,
    );
    if_nonzero(&a, &finite.over(&a.times(&sqrt_2).times(&sqrt_3).times(&sqrt_4)))
}

/// The finite triangle with three massive propagators.
#[verifier::allow_in_spec]
pub fn triangle_finite_three_masses(
    p1: &Expr,
    p2: &Expr,
    p3: &Expr,
    m1: &Expr,
    m2: &Expr,
    m3: &Expr,
) -> Expr
    returns
        ({
            let sqrt_1 = m1.root();
            let sqrt_2 = m2.root();
            let sqrt_3 = m3.root();
            let k12 = m1.plus(m2).minus(p1).over(&sqrt_1.times(&sqrt_2));
            let k13 = m1.plus(m3).minus(p3).over(&sqrt_1.times(&sqrt_3));
            let k23 = m2.plus(m3).minus(p2).over(&sqrt_2.times(&sqrt_3));
            let r12 = r_function(&k12).0;
            let rd13 = r_function(&k13);
            let r13 = rd13.0;
            let d13 = rd13.1;
            let r23 = r_function(&k23).0;
            let a = sqrt_2.over(&sqrt_3).minus(&k23).plus(&r13.times(&k12.minus(&sqrt_2.over(&sqrt_1))));
            let b = d13.over(&sqrt_2).plus(&k12.over(&sqrt_3)).minus(&k23.over(&sqrt_1));
            let c = sqrt_1.over(&sqrt_3).minus(&Expr::num(1).over(&r13)).over(&sqrt_1.times(&sqrt_2));
            let roots = negative_quadratic_roots(&a, &b, &c);
            let qx1 = Sheet::upper(&roots.0);
            let qx2 = Sheet::upper(&roots.1);
            let q12 = Sheet::lower(&r12);
            let q13 = Sheet::lower(&r13);
            let q23 = Sheet::lower(&r23);
            let qm1 = Sheet::lower(&sqrt_1);
            let qm2 = Sheet::lower(&sqrt_2);
            let qm3 = Sheet::lower(&sqrt_3);
            let z1 = qx1.product(&qm2);
            let z2 = qx2.product(&qm2);
            let first = divided_difference(&z1.product(&q12), &z2.product(&q12)).times(&r12).plus(
                &divided_difference(&z1.quotient(&q12), &z2.quotient(&q12)).over(&r12),
            ).times(&sqrt_2);
            let temp = q13.product(&qm2);
            let t1 = qx1.product(&temp);
            let t2 = qx2.product(&temp);
            let second = divided_difference(&t1.product(&q23), &t2.product(&q23)).times(&r23).plus(
                &divided_difference(&t1.quotient(&q23), &t2.quotient(&q23)).over(&r23),
            ).times(&r13).times(&sqrt_2);
            let y1 = qx1.product(&q13);
            let y2 = qx2.product(&q13);
            let third = divided_difference(&y1.product(&qm3), &y2.product(&qm3)).times(&r13).times(
                &sqrt_3,
            ).minus(&divided_difference(&qx1.product(&qm1), &qx2.product(&qm1)).times(&sqrt_1));
            let root_term = y1.quotient(&y2).log_over_one_minus().times(
                &y1.log().plus(&y2.log()).minus(&qm3.log().times_int(2)),
            ).minus(
                &qx1.quotient(&qx2).log_over_one_minus().times(
                    &qx1.log().plus(&qx2.log()).minus(&qm1.log().times_int(2)),
                ),
            ).over(&roots.1.times_int(2));
            let finite = first.minus(&second).plus(&third).plus(&if_nonzero(&roots.1, &root_term));
            if_nonzero(&a, &finite.over(&a.times(&sqrt_1).times(&sqrt_2).times(&sqrt_3)))
        }),
{
    let sqrt_1 = m1.root();
    let sqrt_2 = m2.root();
    let sqrt_3 = m3.root();
    let k12 = m1.plus(m2).minus(p1).over(&sqrt_1.times(&sqrt_2));
    let k13 = m1.plus(m3).minus(p3).over(&sqrt_1.times(&sqrt_3));
    let k23 = m2.plus(m3).minus(p2).over(&sqrt_2.times(&sqrt_3));
    let r12 = r_function(&k12).0;
    let rd13 = r_function(&k13);
    let r13 = rd13.0;
    let d13 = rd13.1;
    let r23 = r_function(&k23).0;
    let a = sqrt_2.over(&sqrt_3).minus(&k23).plus(&r13.times(&k12.minus(&sqrt_2.over(&sqrt_1))));
    let b = d13.over(&sqrt_2).plus(&k12.over(&sqrt_3)).minus(&k23.over(&sqrt_1));
    let c = sqrt_1.over(&sqrt_3).minus(&Expr::num(1).over(&r13)).over(&sqrt_1.times(&sqrt_2));
    let roots = negative_quadratic_roots(&a, &b, &c);
    let qx1 = Sheet::upper(&roots.0);
    let qx2 = Sheet::upper(&roots.1);
    let q12 = Sheet::lower(&r12);
    let q13 = Sheet::lower(&r13);
    let q23 = Sheet::lower(&r23);
    let qm1 = Sheet::lower(&sqrt_1);
    let qm2 = Sheet::lower(&sqrt_2);
    let qm3 = Sheet::lower(&sqrt_3);
    let z1 = qx1.product(&qm2);
    let z2 = qx2.product(&qm2);
    let first = divided_difference(&z1.product(&q12), &z2.product(&q12)).times(&r12).plus(
        &divided_difference(&z1.quotient(&q12), &z2.quotient(&q12)).over(&r12),
    ).times(&sqrt_2);
    let temp = q13.product(&qm2);
    let t1 = qx1.product(&temp);
    let t2 = qx2.product(&temp);
    let second = divided_difference(&t1.product(&q23), &t2.product(&q23)).times(&r23).plus(
        &divided_difference(&t1.quotient(&q23), &t2.quotient(&q23)).over(&r23),
    ).times(&r13).times(&sqrt_2);
    let y1 = qx1.product(&q13);
    let y2 = qx2.product(&q13);
    let third = divided_difference(&y1.product(&qm3), &y2.product(&qm3)).times(&r13).times(
        &sqrt_3,
    ).minus(&divided_difference(&qx1.product(&qm1), &qx2.product(&qm1)).times(&sqrt_1));
    let root_term = y1.quotient(&y2).log_over_one_minus().times(
        &y1.log().plus(&y2.log()).minus(&qm3.log().times_int(2)),
    ).minus(
        &qx1.quotient(&qx2).log_over_one_minus().times(
            &qx1.log().plus(&qx2.log()).minus(&qm1.log().times_int(2)),
        ),
    ).over(&roots.1.times_int(2));
    let finite = first.minus(&second).plus(&third).plus(&if_nonzero(&roots.1, &root_term));
    if_nonzero(&a, &finite.over(&a.times(&sqrt_1).times(&sqrt_2).times(&sqrt_3)))
}

/// The massless triangle with one off-shell leg.
#[verifier::allow_in_spec]
pub fn one_scale_series(momentum: &Expr, mu_squared: &Expr) -> LaurentSeries
    returns
        ({
            let logarithm = physical_log(&momentum.negated().over(mu_squared));
            LaurentSeries::new(
                logarithm.times(&logarithm).over_int(2).minus(&pi_squared().over_int(12)).over(momentum),
                logarithm.negated().over(momentum),
                Expr::num(1).over(momentum),
            )
        }),
{
    let logarithm = physical_log(&momentum.negated().over(mu_squared));
    LaurentSeries::new(
        logarithm.times(&logarithm).over_int(2).minus(&pi_squared().over_int(12)).over(momentum),
        logarithm.negated().over(momentum),
        Expr::num(1).over(momentum),
    )
}

/// The massless triangle with two off-shell legs.
#[verifier::allow_in_spec]
pub fn two_scale_series(first: &Expr, second: &Expr, mu_squared: &Expr) -> LaurentSeries
    returns
        ({
            let first_log = physical_log(&first.negated().over(mu_squared));
            let second_log = physical_log(&second.negated().over(mu_squared));
            let difference = first.minus(second);
            let single_pole = if_nonzero_else(
                &difference,
                &second_log.minus(&first_log).over(&difference),
                &Expr::num(-1i64).over(first),
            );
            LaurentSeries::new(
                single_pole.negated().times(&second_log.plus(&first_log)).over_int(2),
                single_pole,
                Expr::num(0),
            )
        }),
{
    let first_log = physical_log(&first.negated().over(mu_squared));
    let second_log = physical_log(&second.negated().over(mu_squared));
    let difference = first.minus(second);
    let single_pole = if_nonzero_else(
        &difference,
        &second_log.minus(&first_log).over(&difference),
        &Expr::num(-1i64).over(first),
    );
    LaurentSeries::new(
        single_pole.negated().times(&second_log.plus(&first_log)).over_int(2),
        single_pole,
        Expr::num(0),
    )
}

/// The massless triangle, dispatched on which momenta vanish.
#[verifier::allow_in_spec]
pub fn triangle_massless(p1: &Expr, p2: &Expr, p3: &Expr, mu_squared: &Expr) -> LaurentSeries
    returns
        ({
            let branches = [
                zero_series(),
                one_scale_series(p3, mu_squared),
                one_scale_series(p2, mu_squared),
                two_scale_series(p2, p3, mu_squared),
                one_scale_series(p1, mu_squared),
                two_scale_series(p1, p3, mu_squared),
                two_scale_series(p1, p2, mu_squared),
                finite_series(triangle_finite_massless(p1, p2, p3)),
            ];
            select_three_series(p1, p2, p3, &branches)
        }),
{
    let branches = [
        zero_series(),
        one_scale_series(p3, mu_squared),
        one_scale_series(p2, mu_squared),
        two_scale_series(p2, p3, mu_squared),
        one_scale_series(p1, mu_squared),
        two_scale_series(p1, p3, mu_squared),
        two_scale_series(p1, p2, mu_squared),
        finite_series(triangle_finite_massless(p1, p2, p3)),
    ];
    select_three_series(p1, p2, p3, &branches)
}

/// The triangle whose third propagator alone is massive.
#[verifier::allow_in_spec]
pub fn triangle_one_mass(p1: &Expr, p2: &Expr, p3: &Expr, mass: &Expr, mu_squared: &Expr) -> LaurentSeries
    returns
        ({
            let finite = finite_series(triangle_finite_one_mass(p1, p2, p3, mass));
            let difference_2 = mass.minus(p2);
            let difference_3 = mass.minus(p3);
            let at_zero_first = if_series(
                &difference_2,
                &if_series(
                    &difference_3,
                    &triangle_ir_three(p2, p3, mass, mu_squared),
                    &triangle_ir_two(p2, mass, mu_squared),
                ),
                &if_series(
                    &difference_3,
                    &triangle_ir_two(p3, mass, mu_squared),
                    &triangle_ir_one(mass, mu_squared),
                ),
            );
            if_series(p1, &finite, &at_zero_first)
        }),
{
    let finite = finite_series(triangle_finite_one_mass(p1, p2, p3, mass));
    let difference_2 = mass.minus(p2);
    let difference_3 = mass.minus(p3);
    let at_zero_first = if_series(
        &difference_2,
        &if_series(
            &difference_3,
            &triangle_ir_three(p2, p3, mass, mu_squared),
            &triangle_ir_two(p2, mass, mu_squared),
        ),
        &if_series(
            &difference_3,
            &triangle_ir_two(p3, mass, mu_squared),
            &triangle_ir_one(mass, mu_squared),
        ),
    );
    if_series(p1, &finite, &at_zero_first)
}

/// The triangle whose second and third propagators are massive.
#[verifier::allow_in_spec]
pub fn triangle_two_masses(
    p1: &Expr,
    p2: &Expr,
    p3: &Expr,
    mass_2: &Expr,
    mass_3: &Expr,
    mu_squared: &Expr,
) -> LaurentSeries
    returns
        ({
            let finite = finite_series(triangle_finite_two_masses(p1, p2, p3, mass_2, mass_3));
            let infrared = triangle_ir_four(p2, mass_2, mass_3, mu_squared);
            if_series(&p1.minus(mass_2), &finite, &if_series(&p3.minus(mass_3), &finite, &infrared))
        }),
{
    let finite = finite_series(triangle_finite_two_masses(p1, p2, p3, mass_2, mass_3));
    let infrared = triangle_ir_four(p2, mass_2, mass_3, mu_squared);
    if_series(&p1.minus(mass_2), &finite, &if_series(&p3.minus(mass_3), &finite, &infrared))
}

/// The triangle at zero external momenta.
#[verifier::allow_in_spec]
pub fn triangle_vacuum(m1: &Expr, m2: &Expr, m3: &Expr) -> Expr
    returns
        ({
            let pair_12 = log_over_one_minus(&m3.over(m1)).minus(&log_over_one_minus(&m3.over(m2))).over(
                &m1.minus(m2),
            );
            let pair_23 = log_over_one_minus(&m1.over(m2)).minus(&log_over_one_minus(&m1.over(m3))).over(
                &m2.minus(m3),
            );
            let unequal = if_nonzero_else(&m1.minus(m2), &pair_12, &pair_23);
            let difference = any_nonzero2(&m1.minus(m2), &m2.minus(m3));
            if_nonzero_else(&difference, &unequal, &Expr::num(-1i64).over(&m1.times_int(2)))
        }),
{
    let pair_12 = log_over_one_minus(&m3.over(m1)).minus(&log_over_one_minus(&m3.over(m2))).over(
        &m1.minus(m2),
    );
    let pair_23 = log_over_one_minus(&m1.over(m2)).minus(&log_over_one_minus(&m1.over(m3))).over(
        &m2.minus(m3),
    );
    let unequal = if_nonzero_else(&m1.minus(m2), &pair_12, &pair_23);
    let difference = any_nonzero2(&m1.minus(m2), &m2.minus(m3));
    if_nonzero_else(&difference, &unequal, &Expr::num(-1i64).over(&m1.times_int(2)))
}

/// The triangle with three massive propagators.
#[verifier::allow_in_spec]
pub fn triangle_three_masses(p1: &Expr, p2: &Expr, p3: &Expr, m1: &Expr, m2: &Expr, m3: &Expr) -> Expr
    returns
        ({
            let t = p3.minus(p1).minus(p2);
            let lambda = t.times(&t).minus(&p1.times_int(4).times(p2));
            let generic = if_nonzero_else(
                &negative(&lambda),
                &triangle_hv::expression(p1, p2, p3, m1, m2, m3),
                &triangle_finite_three_masses(p1, p2, p3, m1, m2, m3),
            );
            if_nonzero_else(&any_nonzero3(p1, p2, p3), &generic, &triangle_vacuum(m1, m2, m3))
        }),
{
    let t = p3.minus(p1).minus(p2);
    let lambda = t.times(&t).minus(&p1.times_int(4).times(p2));
    let generic = if_nonzero_else(
        &negative(&lambda),
        &triangle_hv::expression(p1, p2, p3, m1, m2, m3),
        &triangle_finite_three_masses(p1, p2, p3, m1, m2, m3),
    );
    if_nonzero_else(&any_nonzero3(p1, p2, p3), &generic, &triangle_vacuum(m1, m2, m3))
}

/// The series of a canonical sector over the arguments
/// `(p1, p2, p3, m1, m2, m3, mu^2)` of the sector definitions: sector 0 is
/// massless, 1 has the third mass, 3 the second and third, and 7 all three.
#[verifier::allow_in_spec]
pub fn canonical_sector(sector: u8) -> LaurentSeries
    returns
        ({
            let p1 = Expr::arg(0);
            let p2 = Expr::arg(1);
            let p3 = Expr::arg(2);
            let m1 = Expr::arg(3);
            let m2 = Expr::arg(4);
            let m3 = Expr::arg(5);
            let mu = Expr::arg(6);
            if sector == 0 {
                triangle_massless(&p1, &p2, &p3, &mu)
            } else if sector == 1 {
                triangle_one_mass(&p1, &p2, &p3, &m3, &mu)
            } else if sector == 3 {
                triangle_two_masses(&p1, &p2, &p3, &m2, &m3, &mu)
            } else {
                finite_series(triangle_three_masses(&p1, &p2, &p3, &m1, &m2, &m3))
            }
        }),
{
    let p1 = Expr::arg(0);
    let p2 = Expr::arg(1);
    let p3 = Expr::arg(2);
    let m1 = Expr::arg(3);
    let m2 = Expr::arg(4);
    let m3 = Expr::arg(5);
    let mu = Expr::arg(6);
    if sector == 0 {
        triangle_massless(&p1, &p2, &p3, &mu)
    } else if sector == 1 {
        triangle_one_mass(&p1, &p2, &p3, &m3, &mu)
    } else if sector == 3 {
        triangle_two_masses(&p1, &p2, &p3, &m2, &m3, &mu)
    } else {
        finite_series(triangle_three_masses(&p1, &p2, &p3, &m1, &m2, &m3))
    }
}

/// The body of the helper `TriangleSector(sector, order)`.
///
/// Sectors 2, 4, 5 and 6 rotate the legs and propagators into sectors 1 and
/// 3; sector 7 and any value above it is the triangle with three masses.
#[verifier::allow_in_spec]
pub fn sector_definition(sector: u8, order: Order) -> Expr
    returns
        ({
            let x0 = Expr::arg(0);
            let x1 = Expr::arg(1);
            let x2 = Expr::arg(2);
            let x3 = Expr::arg(3);
            let x4 = Expr::arg(4);
            let x5 = Expr::arg(5);
            let x6 = Expr::arg(6);
            if sector == 2 {
                Expr::call(Func::TriangleSector(1, order), args7(&x2, &x0, &x1, &x5, &x3, &x4, &x6))
            } else if sector == 4 {
                Expr::call(Func::TriangleSector(1, order), args7(&x1, &x2, &x0, &x4, &x5, &x3, &x6))
            } else if sector == 5 {
                Expr::call(Func::TriangleSector(3, order), args7(&x1, &x2, &x0, &x4, &x5, &x3, &x6))
            } else if sector == 6 {
                Expr::call(Func::TriangleSector(3, order), args7(&x2, &x0, &x1, &x5, &x3, &x4, &x6))
            } else {
                canonical_sector(sector).coefficient(order)
            }
        }),
{
    let x0 = Expr::arg(0);
    let x1 = Expr::arg(1);
    let x2 = Expr::arg(2);
    let x3 = Expr::arg(3);
    let x4 = Expr::arg(4);
    let x5 = Expr::arg(5);
    let x6 = Expr::arg(6);
    if sector == 2 {
        Expr::call(Func::TriangleSector(1, order), args7(&x2, &x0, &x1, &x5, &x3, &x4, &x6))
    } else if sector == 4 {
        Expr::call(Func::TriangleSector(1, order), args7(&x1, &x2, &x0, &x4, &x5, &x3, &x6))
    } else if sector == 5 {
        Expr::call(Func::TriangleSector(3, order), args7(&x1, &x2, &x0, &x4, &x5, &x3, &x6))
    } else if sector == 6 {
        Expr::call(Func::TriangleSector(3, order), args7(&x2, &x0, &x1, &x5, &x3, &x4, &x6))
    } else {
        canonical_sector(sector).coefficient(order)
    }
}

/// The triangle's series of sector `sector`, as calls of its helpers.
#[verifier::allow_in_spec]
pub fn sector_call(
    sector: u8,
    p1: &Expr,
    p2: &Expr,
    p3: &Expr,
    m1: &Expr,
    m2: &Expr,
    m3: &Expr,
    mu_squared: &Expr,
) -> LaurentSeries
    returns
        ({
            LaurentSeries::new(
                Expr::call(Func::TriangleSector(sector, Order::Finite), args7(p1, p2, p3, m1, m2, m3, mu_squared)),
                Expr::call(Func::TriangleSector(sector, Order::SimplePole), args7(p1, p2, p3, m1, m2, m3, mu_squared)),
                Expr::call(Func::TriangleSector(sector, Order::DoublePole), args7(p1, p2, p3, m1, m2, m3, mu_squared)),
            )
        }),
{
    LaurentSeries::new(
        Expr::call(Func::TriangleSector(sector, Order::Finite), args7(p1, p2, p3, m1, m2, m3, mu_squared)),
        Expr::call(Func::TriangleSector(sector, Order::SimplePole), args7(p1, p2, p3, m1, m2, m3, mu_squared)),
        Expr::call(Func::TriangleSector(sector, Order::DoublePole), args7(p1, p2, p3, m1, m2, m3, mu_squared)),
    )
}

/// The scalar triangle `C0` with momenta `[p1^2, p2^2, (p1 + p2)^2]`,
/// squared masses in propagator order and the squared scale, dispatched on
/// which masses are exactly zero.
#[verifier::allow_in_spec]
pub fn c0(p1: &Expr, p2: &Expr, p3: &Expr, m1: &Expr, m2: &Expr, m3: &Expr, mu_squared: &Expr) -> LaurentSeries
    returns
        ({
            let branches = [
                sector_call(0, p1, p2, p3, m1, m2, m3, mu_squared),
                sector_call(1, p1, p2, p3, m1, m2, m3, mu_squared),
                sector_call(2, p1, p2, p3, m1, m2, m3, mu_squared),
                sector_call(3, p1, p2, p3, m1, m2, m3, mu_squared),
                sector_call(4, p1, p2, p3, m1, m2, m3, mu_squared),
                sector_call(5, p1, p2, p3, m1, m2, m3, mu_squared),
                sector_call(6, p1, p2, p3, m1, m2, m3, mu_squared),
                sector_call(7, p1, p2, p3, m1, m2, m3, mu_squared),
            ];
            with_triangle_normalization(&select_three_series(m1, m2, m3, &branches))
        }),
{
    let branches = [
        sector_call(0, p1, p2, p3, m1, m2, m3, mu_squared),
        sector_call(1, p1, p2, p3, m1, m2, m3, mu_squared),
        sector_call(2, p1, p2, p3, m1, m2, m3, mu_squared),
        sector_call(3, p1, p2, p3, m1, m2, m3, mu_squared),
        sector_call(4, p1, p2, p3, m1, m2, m3, mu_squared),
        sector_call(5, p1, p2, p3, m1, m2, m3, mu_squared),
        sector_call(6, p1, p2, p3, m1, m2, m3, mu_squared),
        sector_call(7, p1, p2, p3, m1, m2, m3, mu_squared),
    ];
    with_triangle_normalization(&select_three_series(m1, m2, m3, &branches))
}

/// With squared masses that fold to integers, every coefficient of the
/// triangle folds to that of the normalized series of the sector whose
/// masses are nonzero where the given ones are.
pub proof fn lemma_c0_dispatches_on_zero_masses(
    p1: Expr,
    p2: Expr,
    p3: Expr,
    m1: Expr,
    m2: Expr,
    m3: Expr,
    mu_squared: Expr,
    order: Order,
    k1: i64,
    k2: i64,
    k3: i64,
)
    requires
        folded(m1) == Expr::Int(k1),
        folded(m2) == Expr::Int(k2),
        folded(m3) == Expr::Int(k3),
    ensures
        folded(c0(&p1, &p2, &p3, &m1, &m2, &m3, &mu_squared).coefficient(order)) == folded(
            with_triangle_normalization(
                &sector_call(spec_three_index(k1 != 0, k2 != 0, k3 != 0) as u8, &p1, &p2, &p3, &m1, &m2, &m3, &mu_squared),
            ).coefficient(order),
        ),
{
    let branches = [
        sector_call(0, &p1, &p2, &p3, &m1, &m2, &m3, &mu_squared),
        sector_call(1, &p1, &p2, &p3, &m1, &m2, &m3, &mu_squared),
        sector_call(2, &p1, &p2, &p3, &m1, &m2, &m3, &mu_squared),
        sector_call(3, &p1, &p2, &p3, &m1, &m2, &m3, &mu_squared),
        sector_call(4, &p1, &p2, &p3, &m1, &m2, &m3, &mu_squared),
        sector_call(5, &p1, &p2, &p3, &m1, &m2, &m3, &mu_squared),
        sector_call(6, &p1, &p2, &p3, &m1, &m2, &m3, &mu_squared),
        sector_call(7, &p1, &p2, &p3, &m1, &m2, &m3, &mu_squared),
    ];
    let index = spec_three_index(k1 != 0, k2 != 0, k3 != 0);
    let chosen = sector_call(index as u8, &p1, &p2, &p3, &m1, &m2, &m3, &mu_squared);
    assert(branches@[index as int] == chosen);
    let selected = select_three_series(&m1, &m2, &m3, &branches);
    lemma_select_three_series_dispatch(m1, m2, m3, branches, Order::Finite, k1, k2, k3);
    lemma_select_three_series_dispatch(m1, m2, m3, branches, Order::SimplePole, k1, k2, k3);
    lemma_select_three_series_dispatch(m1, m2, m3, branches, Order::DoublePole, k1, k2, k3);
    assert(c0(&p1, &p2, &p3, &m1, &m2, &m3, &mu_squared) == with_triangle_normalization(&selected));
    let correction = pi_squared().times(&selected.double_pole).over_int(12);
    let chosen_correction = pi_squared().times(&chosen.double_pole).over_int(12);
    assert(folded(correction) == folded(chosen_correction)) by {
        reveal_with_fuel(folded, 3);
    }
    assert(folded(selected.finite.plus(&correction)) == folded(chosen.finite.plus(&chosen_correction)));
}

/// A triangle sector without a formula of its own is the call of the
/// canonical sector it rotates to, with its momenta and masses rotated as
/// the sector table says; the other sectors are their own formulas.
pub proof fn lemma_triangle_sector_definitions_rotate(sector: u8, order: Order)
    requires
        sector < 8,
    ensures
        match spec_triangle_sector(sector as nat) {
            TriangleSector::Rotated { canonical, shift } => sector_definition(sector, order) == Expr::Call(
                Func::TriangleSector(canonical as u8, order),
                Rc::new(args_of(arguments_at(spec_triangle_rotation(shift as nat)))),
            ),
            TriangleSector::Canonical => sector_definition(sector, order) == canonical_sector(sector).coefficient(order),
        },
{
    reveal_with_fuel(args_of, 8);
    if sector == 2 || sector == 4 || sector == 5 || sector == 6 {
        let shift: nat = if sector == 2 || sector == 6 { 2 } else { 1 };
        let r = spec_triangle_rotation(shift);
        let a = arguments_at(r);
        if shift == 2 {
            assert(a =~= seq![Expr::Arg(2), Expr::Arg(0), Expr::Arg(1), Expr::Arg(5), Expr::Arg(3), Expr::Arg(4), Expr::Arg(6)]);
        } else {
            assert(a =~= seq![Expr::Arg(1), Expr::Arg(2), Expr::Arg(0), Expr::Arg(4), Expr::Arg(5), Expr::Arg(3), Expr::Arg(6)]);
        }
    }
}

} // verus!
