//! Infrared-divergent boxes: a massless propagator meets two on-shell legs.
//!
//! Each formula is one of the soft or collinear sectors of the box with at
//! least one massive propagator. Masses and scales are squared quantities.
use vstd::prelude::*;
use crate::expr::{Expr, if_nonzero, if_nonzero_else};
use crate::elementary::{physical_log, dilog_complement, dilog_divided_difference, log_over_one_minus};
use crate::sheet::{Sheet, divided_difference, negative, pi_squared, sqrt_lower};
use crate::series::{LaurentSeries, with_box_normalization};
use crate::roots::{r_function, square_root_magnitude};

verus! {

/// The series shared by the sectors with a double pole: `factor` times
/// `(z0 + (z2 L / 2 - z1) L, z1 - z2 L, z2)` with `L` the logarithm of the
/// mass over the scale.
#[verifier::allow_in_spec]
pub fn double_pole_series(factor: &Expr, z0: &Expr, z1: &Expr, z2: &Expr, log_mass: &Expr) -> LaurentSeries
    returns
        ({
            with_box_normalization(
                &LaurentSeries::new(
                    factor.times(&z0.plus(&z2.times(log_mass).over_int(2).minus(z1).times(log_mass))),
                    factor.times(&z1.minus(&z2.times(log_mass))),
                    factor.times(z2),
                ),
            )
        }),
{
    with_box_normalization(
        &LaurentSeries::new(
            factor.times(&z0.plus(&z2.times(log_mass).over_int(2).minus(z1).times(log_mass))),
            factor.times(&z1.minus(&z2.times(log_mass))),
            factor.times(z2),
        ),
    )
}

/// Box with one massive propagator and both adjacent legs light-like and
/// the two opposite legs at zero virtuality.
#[verifier::allow_in_spec]
pub fn box_one_mass_06(p12: &Expr, p23: &Expr, mass: &Expr, mu_squared: &Expr) -> LaurentSeries
    returns
        ({
            let r13 = p12.negated();
            let r24 = mass.minus(p23);
            let q13 = Sheet::lower(&r13);
            let q24 = Sheet::lower(&r24);
            let qm = Sheet::lower(mass);
            let log_mass = qm.scale_positive(&Expr::num(1).over(mu_squared)).log();
            let log_1 = q13.quotient(&qm).log();
            let log_2 = q24.quotient(&qm).log();
            let z2 = Expr::num(2);
            let z1 = log_2.times_int(-2i64).minus(&log_1);
            let z0 = log_2.times(&log_1).minus(&pi_squared().over_int(3)).times_int(2);
            let factor = Expr::num(1).over(&r13.times(&r24));
            double_pole_series(&factor, &z0, &z1, &z2, &log_mass)
        }),
{
    let r13 = p12.negated();
    let r24 = mass.minus(p23);
    let q13 = Sheet::lower(&r13);
    let q24 = Sheet::lower(&r24);
    let qm = Sheet::lower(mass);
    let log_mass = qm.scale_positive(&Expr::num(1).over(mu_squared)).log();
    let log_1 = q13.quotient(&qm).log();
    let log_2 = q24.quotient(&qm).log();
    let z2 = Expr::num(2);
    let z1 = log_2.times_int(-2i64).minus(&log_1);
    let z0 = log_2.times(&log_1).minus(&pi_squared().over_int(3)).times_int(2);
    let factor = Expr::num(1).over(&r13.times(&r24));
    double_pole_series(&factor, &z0, &z1, &z2, &log_mass)
}

/// Box with one massive propagator and one massive on-shell leg.
#[verifier::allow_in_spec]
pub fn box_one_mass_07(p4: &Expr, p12: &Expr, p23: &Expr, mass: &Expr, mu_squared: &Expr) -> LaurentSeries
    returns
        ({
            let r13 = p12.negated();
            let r14 = mass.minus(p4);
            let r24 = mass.minus(p23);
            let log_mass = physical_log(&mass.over(mu_squared));
            let log_12 = physical_log(&r13.over(mass));
            let log_23 = physical_log(&r24.over(mass));
            let log_4 = physical_log(&r14.over(mass));
            let z2 = Expr::num(3).over_int(2);
            let z1 = log_23.times_int(-2i64).minus(&log_12).plus(&log_4);
            let z0 = log_12.times(&log_23).minus(&dilog_complement(&r14.over(&r24))).times_int(2).minus(
                &log_4.times(&log_4),
            ).minus(&pi_squared().times_int(13).over_int(24));
            let factor = Expr::num(1).over(&r13.times(&r24));
            double_pole_series(&factor, &z0, &z1, &z2, &log_mass)
        }),
{
    let r13 = p12.negated();
    let r14 = mass.minus(p4);
    let r24 = mass.minus(p23);
    let log_mass = physical_log(&mass.over(mu_squared));
    let log_12 = physical_log(&r13.over(mass));
    let log_23 = physical_log(&r24.over(mass));
    let log_4 = physical_log(&r14.over(mass));
    let z2 = Expr::num(3).over_int(2);
    let z1 = log_23.times_int(-2i64).minus(&log_12).plus(&log_4);
    let z0 = log_12.times(&log_23).minus(&dilog_complement(&r14.over(&r24))).times_int(2).minus(
        &log_4.times(&log_4),
    ).minus(&pi_squared().times_int(13).over_int(24));
    let factor = Expr::num(1).over(&r13.times(&r24));
    double_pole_series(&factor, &z0, &z1, &z2, &log_mass)
}

/// Box with one massive propagator and two massive legs next to it.
#[verifier::allow_in_spec]
pub fn box_one_mass_08(
    p3: &Expr,
    p4: &Expr,
    p12: &Expr,
    p23: &Expr,
    mass: &Expr,
    mu_squared: &Expr,
) -> LaurentSeries
    returns
        ({
            let r13 = p12.negated();
            let r34 = mass.minus(p3);
            let r14 = mass.minus(p4);
            let r24 = mass.minus(p23);
            let x1 = r34.over(&r24);
            let x2 = r14.over(&r24);
            let x3 = r13.over(mu_squared);
            let z1 = physical_log(&x1.times(&x2).over(&x3));
            let z0_logs = physical_log(&r24.over(mu_squared)).times(&physical_log(&x3)).minus(
                &dilog_complement(&x1),
            ).minus(&dilog_complement(&x2)).times_int(2);
            let scaled_1 = r34.over(mu_squared);
            let scaled_2 = r14.over(mu_squared);
            let xx = scaled_1.times(&scaled_2).over(&x3);
            let log_1 = physical_log(&scaled_1);
            let log_2 = physical_log(&scaled_2);
            let log_xx = physical_log(&xx);
            let z0 = z0_logs.plus(
                &log_1.negated().times(&log_1).minus(&log_2.times(&log_2)).plus(
                    &log_xx.times(&log_xx).over_int(2),
                ).plus(&dilog_complement(&mass.over(&xx.times(mu_squared)))),
            );
            let factor = Expr::num(1).over(&r13.times(&r24));
            with_box_normalization(
                &LaurentSeries::new(
                    factor.times(&z0.minus(&pi_squared().over_int(4))),
                    factor.times(&z1),
                    factor,
                ),
            )
        }),
{
    let r13 = p12.negated();
    let r34 = mass.minus(p3);
    let r14 = mass.minus(p4);
    let r24 = mass.minus(p23);
    let x1 = r34.over(&r24);
    let x2 = r14.over(&r24);
    let x3 = r13.over(mu_squared);
    let z1 = physical_log(&x1.times(&x2).over(&x3));
    let z0_logs = physical_log(&r24.over(mu_squared)).times(&physical_log(&x3)).minus(
        &dilog_complement(&x1),
    ).minus(&dilog_complement(&x2)).times_int(2);
    let scaled_1 = r34.over(mu_squared);
    let scaled_2 = r14.over(mu_squared);
    let xx = scaled_1.times(&scaled_2).over(&x3);
    let log_1 = physical_log(&scaled_1);
    let log_2 = physical_log(&scaled_2);
    let log_xx = physical_log(&xx);
    let z0 = z0_logs.plus(
        &log_1.negated().times(&log_1).minus(&log_2.times(&log_2)).plus(
            &log_xx.times(&log_xx).over_int(2),
        ).plus(&dilog_complement(&mass.over(&xx.times(mu_squared)))),
    );
    let factor = Expr::num(1).over(&r13.times(&r24));
    with_box_normalization(
        &LaurentSeries::new(
            factor.times(&z0.minus(&pi_squared().over_int(4))),
            factor.times(&z1),
            factor,
        ),
    )
}

/// Box with one massive propagator and one light-like leg away from it.
#[verifier::allow_in_spec]
pub fn box_one_mass_09(
    p2: &Expr,
    p3: &Expr,
    p12: &Expr,
    p23: &Expr,
    mass: &Expr,
    mu_squared: &Expr,
) -> LaurentSeries
    returns
        ({
            let r23 = p2.negated();
            let r13 = p12.negated();
            let r34 = mass.minus(p3);
            let r24 = mass.minus(p23);
            let log_mass = physical_log(&mass.over(mu_squared));
            let q12 = r13.over(&r23);
            let q23 = r24.over(mass);
            let z2 = Expr::num(1).over_int(2);
            let z1 = physical_log(&q12).negated().minus(&physical_log(&q23));
            let z0 = dilog_complement(&q23.times(&r34).over(&r23)).plus(
                &dilog_complement(&q12).times_int(2),
            ).plus(&z1.times(&z1)).plus(&pi_squared().over_int(24));
            let factor = Expr::num(1).over(&r13.times(&r24));
            double_pole_series(&factor, &z0, &z1, &z2, &log_mass)
        }),
{
    let r23 = p2.negated();
    let r13 = p12.negated();
    let r34 = mass.minus(p3);
    let r24 = mass.minus(p23);
    let log_mass = physical_log(&mass.over(mu_squared));
    let q12 = r13.over(&r23);
    let q23 = r24.over(mass);
    let z2 = Expr::num(1).over_int(2);
    let z1 = physical_log(&q12).negated().minus(&physical_log(&q23));
    let z0 = dilog_complement(&q23.times(&r34).over(&r23)).plus(
        &dilog_complement(&q12).times_int(2),
    ).plus(&z1.times(&z1)).plus(&pi_squared().over_int(24));
    let factor = Expr::num(1).over(&r13.times(&r24));
    double_pole_series(&factor, &z0, &z1, &z2, &log_mass)
}

/// Box with one massive propagator and a single infrared-divergent corner.
#[verifier::allow_in_spec]
pub fn box_one_mass_10(
    p2: &Expr,
    p3: &Expr,
    p4: &Expr,
    p12: &Expr,
    p23: &Expr,
    mass: &Expr,
    mu_squared: &Expr,
) -> LaurentSeries
    returns
        ({
            let r23 = p2.negated();
            let r13 = p12.negated();
            let r34 = mass.minus(p3);
            let r14 = mass.minus(p4);
            let r24 = mass.minus(p23);
            let base = r34.over(mass);
            let extra = dilog_divided_difference(&base.times(&r24).over(&r23), &base.times(&r14).over(&r13)).negated().times(
                &r34,
            ).over(&mass.times_int(2).times(&r23));
            let x1 = r23.over(&r13);
            let x2 = r24.over(&r14);
            let xx = x1.over(&x2);
            let z1 = log_over_one_minus(&xx).negated().over(&r24);
            let z0 = if_nonzero(&r34, &extra).minus(&dilog_divided_difference(&x1, &x2).over(&r14)).plus(
                &dilog_divided_difference(&xx, &Expr::num(1)).over(&r24),
            ).plus(
                &z1.times(
                    &physical_log(&mass.over(&r24)).minus(&physical_log(&mass.over(mu_squared)).over_int(2)),
                ),
            );
            with_box_normalization(
                &LaurentSeries::new(z0.times_int(-2i64).over(&r13), z1.negated().over(&r13), Expr::num(0)),
            )
        }),
{
    let r23 = p2.negated();
    let r13 = p12.negated();
    let r34 = mass.minus(p3);
    let r14 = mass.minus(p4);
    let r24 = mass.minus(p23);
    let base = r34.over(mass);
    let extra = dilog_divided_difference(&base.times(&r24).over(&r23), &base.times(&r14).over(&r13)).negated().times(
        &r34,
    ).over(&mass.times_int(2).times(&r23));
    let x1 = r23.over(&r13);
    let x2 = r24.over(&r14);
    let xx = x1.over(&x2);
    let z1 = log_over_one_minus(&xx).negated().over(&r24);
    let z0 = if_nonzero(&r34, &extra).minus(&dilog_divided_difference(&x1, &x2).over(&r14)).plus(
        &dilog_divided_difference(&xx, &Expr::num(1)).over(&r24),
    ).plus(
        &z1.times(
            &physical_log(&mass.over(&r24)).minus(&physical_log(&mass.over(mu_squared)).over_int(2)),
        ),
    );
    with_box_normalization(
        &LaurentSeries::new(z0.times_int(-2i64).over(&r13), z1.negated().over(&r13), Expr::num(0)),
    )
}

/// Box with two adjacent massive propagators and both light-like legs.
#[verifier::allow_in_spec]
pub fn box_two_adjacent_11(
    p3: &Expr,
    p12: &Expr,
    p23: &Expr,
    mass_3: &Expr,
    mass_4: &Expr,
    mu_squared: &Expr,
) -> LaurentSeries
    returns
        ({
            let sqrt_3 = sqrt_lower(mass_3);
            let sqrt_4 = sqrt_lower(mass_4);
            let mu = mu_squared.root();
            let r13 = mass_3.minus(p12).over(&mu.times(&sqrt_3));
            let r24 = mass_4.minus(p23).over(&mu.times(&sqrt_4));
            let r34 = r_function(&mass_3.plus(mass_4).minus(p3).over(&sqrt_3.times(&sqrt_4))).0;
            let l13 = physical_log(&r13);
            let l24 = physical_log(&r24);
            let l34 = physical_log(&r34);
            let denominator = mass_3.minus(p12).times(&mass_4.minus(p23));
            with_box_normalization(
                &LaurentSeries::new(
                    l13.times_int(2).times(&l24).minus(&l34.times(&l34)).minus(
                        &pi_squared().times_int(7).over_int(12),
                    ).over(&denominator),
                    l13.negated().minus(&l24).over(&denominator),
                    Expr::num(1).over(&denominator),
                ),
            )
        }),
{
    let sqrt_3 = sqrt_lower(mass_3);
    let sqrt_4 = sqrt_lower(mass_4);
    let mu = mu_squared.root();
    let r13 = mass_3.minus(p12).over(&mu.times(&sqrt_3));
    let r24 = mass_4.minus(p23).over(&mu.times(&sqrt_4));
    let r34 = r_function(&mass_3.plus(mass_4).minus(p3).over(&sqrt_3.times(&sqrt_4))).0;
    let l13 = physical_log(&r13);
    let l24 = physical_log(&r24);
    let l34 = physical_log(&r34);
    let denominator = mass_3.minus(p12).times(&mass_4.minus(p23));
    with_box_normalization(
        &LaurentSeries::new(
            l13.times_int(2).times(&l24).minus(&l34.times(&l34)).minus(
                &pi_squared().times_int(7).over_int(12),
            ).over(&denominator),
            l13.negated().minus(&l24).over(&denominator),
            Expr::num(1).over(&denominator),
        ),
    )
}

/// Box with two adjacent massive propagators and one massive on-shell leg.
#[verifier::allow_in_spec]
pub fn box_two_adjacent_12(
    p3: &Expr,
    p4: &Expr,
    p12: &Expr,
    p23: &Expr,
    mass_3: &Expr,
    mass_4: &Expr,
    mu_squared: &Expr,
) -> LaurentSeries
    returns
        ({
            let sqrt_3 = sqrt_lower(mass_3);
            let sqrt_4 = sqrt_lower(mass_4);
            let mu = mu_squared.root();
            let r13 = mass_3.minus(p12).over(&mu.times(&sqrt_3));
            let r14 = mass_4.minus(p4).over(&mu.times(&sqrt_4));
            let r24 = mass_4.minus(p23).over(&mu.times(&sqrt_4));
            let r34 = r_function(&mass_3.plus(mass_4).minus(p3).over(&sqrt_3.times(&sqrt_4))).0;
            let q13 = Sheet::lower(&r13);
            let q14 = Sheet::lower(&r14);
            let q24 = Sheet::lower(&r24);
            let q34 = Sheet::lower(&r34);
            let l13 = q13.log();
            let l14 = q14.log();
            let l24 = q24.log();
            let l34 = q34.log();
            let y = q14.quotient(&q13);
            let finite = l13.times_int(2).times(&l24).minus(&l14.times(&l14)).minus(&l34.times(&l34)).minus(
                &q14.quotient(&q24).dilog().times_int(2),
            ).minus(&y.product(&q34).dilog()).minus(&y.quotient(&q34).dilog()).minus(
                &pi_squared().over_int(8),
            );
            let denominator = mass_3.minus(p12).times(&mass_4.minus(p23));
            with_box_normalization(
                &LaurentSeries::new(
                    finite.over(&denominator),
                    l14.minus(&l24).minus(&l13).over(&denominator),
                    Expr::num(1).over(&denominator.times_int(2)),
                ),
            )
        }),
{
    let sqrt_3 = sqrt_lower(mass_3);
    let sqrt_4 = sqrt_lower(mass_4);
    let mu = mu_squared.root();
    let r13 = mass_3.minus(p12).over(&mu.times(&sqrt_3));
    let r14 = mass_4.minus(p4).over(&mu.times(&sqrt_4));
    let r24 = mass_4.minus(p23).over(&mu.times(&sqrt_4));
    let r34 = r_function(&mass_3.plus(mass_4).minus(p3).over(&sqrt_3.times(&sqrt_4))).0;
    let q13 = Sheet::lower(&r13);
    let q14 = Sheet::lower(&r14);
    let q24 = Sheet::lower(&r24);
    let q34 = Sheet::lower(&r34);
    let l13 = q13.log();
    let l14 = q14.log();
    let l24 = q24.log();
    let l34 = q34.log();
    let y = q14.quotient(&q13);
    let finite = l13.times_int(2).times(&l24).minus(&l14.times(&l14)).minus(&l34.times(&l34)).minus(
        &q14.quotient(&q24).dilog().times_int(2),
    ).minus(&y.product(&q34).dilog()).minus(&y.quotient(&q34).dilog()).minus(
        &pi_squared().over_int(8),
    );
    let denominator = mass_3.minus(p12).times(&mass_4.minus(p23));
    with_box_normalization(
        &LaurentSeries::new(
            finite.over(&denominator),
            l14.minus(&l24).minus(&l13).over(&denominator),
            Expr::num(1).over(&denominator.times_int(2)),
        ),
    )
}

/// Box with two adjacent massive propagators and two massive legs.
#[verifier::allow_in_spec]
pub fn box_two_adjacent_13(
    p2: &Expr,
    p3: &Expr,
    p4: &Expr,
    p12: &Expr,
    p23: &Expr,
    mass_3: &Expr,
    mass_4: &Expr,
    mu_squared: &Expr,
) -> LaurentSeries
    returns
        ({
            let first = mass_3.minus(p12).times(&mass_4.minus(p23));
            let second = mass_3.minus(p2).times(&mass_4.minus(p4));
            let swap = negative(&first.modulus().minus(&second.modulus()));
            let s2 = if_nonzero_else(&swap, p12, p2);
            let s4 = if_nonzero_else(&swap, p23, p4);
            let s12 = if_nonzero_else(&swap, p2, p12);
            let s23 = if_nonzero_else(&swap, p4, p23);
            let sqrt_3 = sqrt_lower(mass_3);
            let sqrt_4 = sqrt_lower(mass_4);
            let mu = mu_squared.root();
            let r13 = mass_3.minus(&s12).over(&mu.times(&sqrt_3));
            let r14 = mass_4.minus(&s4).over(&mu.times(&sqrt_4));
            let r23 = mass_3.minus(&s2).over(&mu.times(&sqrt_3));
            let r24 = mass_4.minus(&s23).over(&mu.times(&sqrt_4));
            let r34 = r_function(&mass_3.plus(mass_4).minus(p3).over(&sqrt_3.times(&sqrt_4))).0;
            let q13 = Sheet::lower(&r13);
            let q14 = Sheet::lower(&r14);
            let q23 = Sheet::lower(&r23);
            let q24 = Sheet::lower(&r24);
            let q34 = Sheet::lower(&r34);
            let y = q14.product(&q23).quotient(&q13).quotient(&q24);
            let scale = r13.times(&r24);
            let logd = y.log_over_one_minus().over(&scale);
            let li2d = divided_difference(&y, &Sheet::lower(&Expr::num(1))).over(&scale);
            let y1 = q23.quotient(&q24);
            let y2 = q13.quotient(&q14);
            let li2f = divided_difference(&y1.product(&q34), &y2.product(&q34)).times(&r34).over(
                &r14.times(&r24),
            );
            let li2b = divided_difference(&y1.quotient(&q34), &y2.quotient(&q34)).over(
                &r34.times(&r14).times(&r24),
            );
            let li2e = divided_difference(&q14.quotient(&q24), &q13.quotient(&q23)).over(&r23.times(&r24));
            let denominator = mu.times(&mu).times(&sqrt_3).times(&sqrt_4);
            let finite = li2f.plus(&li2b).plus(&li2e.times_int(2)).minus(&li2d.times_int(2)).minus(
                &logd.times_int(2).times(&q13.log()),
            );
            with_box_normalization(
                &LaurentSeries::new(finite.over(&denominator), logd.over(&denominator), Expr::num(0)),
            )
        }),
{
    let first = mass_3.minus(p12).times(&mass_4.minus(p23));
    let second = mass_3.minus(p2).times(&mass_4.minus(p4));
    let swap = negative(&first.modulus().minus(&second.modulus()));
    let s2 = if_nonzero_else(&swap, p12, p2);
    let s4 = if_nonzero_else(&swap, p23, p4);
    let s12 = if_nonzero_else(&swap, p2, p12);
    let s23 = if_nonzero_else(&swap, p4, p23);
    let sqrt_3 = sqrt_lower(mass_3);
    let sqrt_4 = sqrt_lower(mass_4);
    let mu = mu_squared.root();
    let r13 = mass_3.minus(&s12).over(&mu.times(&sqrt_3));
    let r14 = mass_4.minus(&s4).over(&mu.times(&sqrt_4));
    let r23 = mass_3.minus(&s2).over(&mu.times(&sqrt_3));
    let r24 = mass_4.minus(&s23).over(&mu.times(&sqrt_4));
    let r34 = r_function(&mass_3.plus(mass_4).minus(p3).over(&sqrt_3.times(&sqrt_4))).0;
    let q13 = Sheet::lower(&r13);
    let q14 = Sheet::lower(&r14);
    let q23 = Sheet::lower(&r23);
    let q24 = Sheet::lower(&r24);
    let q34 = Sheet::lower(&r34);
    let y = q14.product(&q23).quotient(&q13).quotient(&q24);
    let scale = r13.times(&r24);
    let logd = y.log_over_one_minus().over(&scale);
    let li2d = divided_difference(&y, &Sheet::lower(&Expr::num(1))).over(&scale);
    let y1 = q23.quotient(&q24);
    let y2 = q13.quotient(&q14);
    let li2f = divided_difference(&y1.product(&q34), &y2.product(&q34)).times(&r34).over(
        &r14.times(&r24),
    );
    let li2b = divided_difference(&y1.quotient(&q34), &y2.quotient(&q34)).over(
        &r34.times(&r14).times(&r24),
    );
    let li2e = divided_difference(&q14.quotient(&q24), &q13.quotient(&q23)).over(&r23.times(&r24));
    let denominator = mu.times(&mu).times(&sqrt_3).times(&sqrt_4);
    let finite = li2f.plus(&li2b).plus(&li2e.times_int(2)).minus(&li2d.times_int(2)).minus(
        &logd.times_int(2).times(&q13.log()),
    );
    with_box_normalization(
        &LaurentSeries::new(finite.over(&denominator), logd.over(&denominator), Expr::num(0)),
    )
}

/// Box with two opposite massive propagators and all legs on shell.
#[verifier::allow_in_spec]
pub fn box_two_opposite_14(p12: &Expr, p23: &Expr, mass_2: &Expr, mass_4: &Expr, mu_squared: &Expr) -> LaurentSeries
    returns
        ({
            let sqrt_2 = sqrt_lower(mass_2);
            let sqrt_4 = sqrt_lower(mass_4);
            let r24 = r_function(&mass_2.plus(mass_4).minus(p23).over(&sqrt_2.times(&sqrt_4))).0;
            let coefficient = log_over_one_minus(&r24).times_int(-2i64).times(&r24).over(
                &Expr::num(1).plus(&r24).times(&sqrt_2).times(&sqrt_4).times(p12),
            );
            with_box_normalization(
                &LaurentSeries::new(
                    coefficient.negated().times(&physical_log(&p12.negated().over(mu_squared))),
                    coefficient,
                    Expr::num(0),
                ),
            )
        }),
{
    let sqrt_2 = sqrt_lower(mass_2);
    let sqrt_4 = sqrt_lower(mass_4);
    let r24 = r_function(&mass_2.plus(mass_4).minus(p23).over(&sqrt_2.times(&sqrt_4))).0;
    let coefficient = log_over_one_minus(&r24).times_int(-2i64).times(&r24).over(
        &Expr::num(1).plus(&r24).times(&sqrt_2).times(&sqrt_4).times(p12),
    );
    with_box_normalization(
        &LaurentSeries::new(
            coefficient.negated().times(&physical_log(&p12.negated().over(mu_squared))),
            coefficient,
            Expr::num(0),
        ),
    )
}

/// Box with two opposite massive propagators and one off-shell leg.
#[verifier::allow_in_spec]
pub fn box_two_opposite_15(
    p2: &Expr,
    p3: &Expr,
    p12: &Expr,
    p23: &Expr,
    mass_2: &Expr,
    mass_4: &Expr,
    mu_squared: &Expr,
) -> LaurentSeries
    returns
        ({
            let left = mass_2.minus(p2);
            let right = mass_4.minus(p3);
            let swap = negative(&left.times(&left.conjugate()).minus(&right.times(&right.conjugate())));
            let s2 = if_nonzero_else(&swap, p3, p2);
            let s3 = if_nonzero_else(&swap, p2, p3);
            let sm2 = if_nonzero_else(&swap, mass_4, mass_2);
            let sm4 = if_nonzero_else(&swap, mass_2, mass_4);
            let mu = mu_squared.root();
            let sqrt_2 = sqrt_lower(&sm2);
            let sqrt_4 = sqrt_lower(&sm4);
            let sqrt_real = square_root_magnitude(&sm2);
            let r13 = p12.negated().over(&mu.times(&sqrt_real));
            let r23 = sm2.minus(&s2).over(&sqrt_2.times(&sqrt_real));
            let r34 = sm4.minus(&s3).over(&sqrt_real.times(&sqrt_4));
            let r24 = r_function(&sm2.plus(&sm4).minus(p23).over(&sqrt_2.times(&sqrt_4))).0;
            let q13 = Sheet::lower(&r13);
            let q23 = Sheet::lower(&r23);
            let q24 = Sheet::lower(&r24);
            let q34 = Sheet::lower(&r34);
            let qratio = q13.quotient(&q23);
            let qss = qratio.product(&qratio).quotient(&q24);
            let factor = r24.over(&sqrt_2.times(&sqrt_4).times(p12));
            let log24 = q24.log_over_one_minus().over(&Expr::num(1).plus(&r24));
            let qz = q34.quotient(&q23);
            let correction = divided_difference(&qz.product(&q24), &qz.quotient(&q24)).times(&r34).over(
                &r23.times(&r24),
            );
            let finite = log24.times(&qss.log()).plus(
                &divided_difference(&q24.product(&q24), &Sheet::lower(&Expr::num(1))),
            ).minus(&if_nonzero(&r34, &correction));
            with_box_normalization(
                &LaurentSeries::new(factor.times(&finite), factor.negated().times(&log24), Expr::num(0)),
            )
        }),
{
    let left = mass_2.minus(p2);
    let right = mass_4.minus(p3);
    let swap = negative(&left.times(&left.conjugate()).minus(&right.times(&right.conjugate())));
    let s2 = if_nonzero_else(&swap, p3, p2);
    let s3 = if_nonzero_else(&swap, p2, p3);
    let sm2 = if_nonzero_else(&swap, mass_4, mass_2);
    let sm4 = if_nonzero_else(&swap, mass_2, mass_4);
    let mu = mu_squared.root();
    let sqrt_2 = sqrt_lower(&sm2);
    let sqrt_4 = sqrt_lower(&sm4);
    let sqrt_real = square_root_magnitude(&sm2);
    let r13 = p12.negated().over(&mu.times(&sqrt_real));
    let r23 = sm2.minus(&s2).over(&sqrt_2.times(&sqrt_real));
    let r34 = sm4.minus(&s3).over(&sqrt_real.times(&sqrt_4));
    let r24 = r_function(&sm2.plus(&sm4).minus(p23).over(&sqrt_2.times(&sqrt_4))).0;
    let q13 = Sheet::lower(&r13);
    let q23 = Sheet::lower(&r23);
    let q24 = Sheet::lower(&r24);
    let q34 = Sheet::lower(&r34);
    let qratio = q13.quotient(&q23);
    let qss = qratio.product(&qratio).quotient(&q24);
    let factor = r24.over(&sqrt_2.times(&sqrt_4).times(p12));
    let log24 = q24.log_over_one_minus().over(&Expr::num(1).plus(&r24));
    let qz = q34.quotient(&q23);
    let correction = divided_difference(&qz.product(&q24), &qz.quotient(&q24)).times(&r34).over(
        &r23.times(&r24),
    );
    let finite = log24.times(&qss.log()).plus(
        &divided_difference(&q24.product(&q24), &Sheet::lower(&Expr::num(1))),
    ).minus(&if_nonzero(&r34, &correction));
    with_box_normalization(
        &LaurentSeries::new(factor.times(&finite), factor.negated().times(&log24), Expr::num(0)),
    )
}

/// Box with three massive propagators and both legs at the massless one on
/// shell.
#[verifier::allow_in_spec]
pub fn box_three_masses_16(
    p2: &Expr,
    p3: &Expr,
    p12: &Expr,
    p23: &Expr,
    mass_2: &Expr,
    mass_3: &Expr,
    mass_4: &Expr,
    mu_squared: &Expr,
) -> LaurentSeries
    returns
        ({
            let swap = negative(&mass_2.times(&mass_2.conjugate()).minus(&mass_4.times(&mass_4.conjugate())));
            let s2 = if_nonzero_else(&swap, p3, p2);
            let s3 = if_nonzero_else(&swap, p2, p3);
            let sm2 = if_nonzero_else(&swap, mass_4, mass_2);
            let sm4 = if_nonzero_else(&swap, mass_2, mass_4);
            let mu = mu_squared.root();
            let sqrt_2 = sqrt_lower(&sm2);
            let sqrt_3 = sqrt_lower(mass_3);
            let sqrt_4 = sqrt_lower(&sm4);
            let r13 = mass_3.minus(p12).over(&mu.times(&sqrt_3));
            let r23 = r_function(&sm2.plus(mass_3).minus(&s2).over(&sqrt_2.times(&sqrt_3))).0;
            let r24 = r_function(&sm2.plus(&sm4).minus(p23).over(&sqrt_2.times(&sqrt_4))).0;
            let r34 = r_function(&mass_3.plus(&sm4).minus(&s3).over(&sqrt_3.times(&sqrt_4))).0;
            let q13 = Sheet::lower(&r13);
            let q23 = Sheet::lower(&r23);
            let q24 = Sheet::lower(&r24);
            let q34 = Sheet::lower(&r34);
            let qproduct = q13.product(&q23);
            let qss = qproduct.product(&qproduct).quotient(&q24);
            let y1 = q23.product(&q34).product(&q24);
            let y2 = q23.product(&q34).quotient(&q24);
            let z1 = q23.quotient(&q34).product(&q24);
            let z2 = q23.quotient(&q34).quotient(&q24);
            let factor = Expr::num(1).over(&sqrt_2.times(&sqrt_4).times(&p12.minus(mass_3)));
            let log24 = q24.log_over_one_minus().times(&r24).over(&Expr::num(1).plus(&r24));
            let finite = log24.times(&qss.log()).plus(
                &divided_difference(&q24.product(&q24), &Sheet::lower(&Expr::num(1))).times(&r24),
            ).minus(&divided_difference(&y1, &y2).times(&r23).times(&r34)).minus(
                &divided_difference(&z1, &z2).times(&r23).over(&r34),
            );
            with_box_normalization(
                &LaurentSeries::new(factor.times(&finite), factor.negated().times(&log24), Expr::num(0)),
            )
        }),
{
    let swap = negative(&mass_2.times(&mass_2.conjugate()).minus(&mass_4.times(&mass_4.conjugate())));
    let s2 = if_nonzero_else(&swap, p3, p2);
    let s3 = if_nonzero_else(&swap, p2, p3);
    let sm2 = if_nonzero_else(&swap, mass_4, mass_2);
    let sm4 = if_nonzero_else(&swap, mass_2, mass_4);
    let mu = mu_squared.root();
    let sqrt_2 = sqrt_lower(&sm2);
    let sqrt_3 = sqrt_lower(mass_3);
    let sqrt_4 = sqrt_lower(&sm4);
    let r13 = mass_3.minus(p12).over(&mu.times(&sqrt_3));
    let r23 = r_function(&sm2.plus(mass_3).minus(&s2).over(&sqrt_2.times(&sqrt_3))).0;
    let r24 = r_function(&sm2.plus(&sm4).minus(p23).over(&sqrt_2.times(&sqrt_4))).0;
    let r34 = r_function(&mass_3.plus(&sm4).minus(&s3).over(&sqrt_3.times(&sqrt_4))).0;
    let q13 = Sheet::lower(&r13);
    let q23 = Sheet::lower(&r23);
    let q24 = Sheet::lower(&r24);
    let q34 = Sheet::lower(&r34);
    let qproduct = q13.product(&q23);
    let qss = qproduct.product(&qproduct).quotient(&q24);
    let y1 = q23.product(&q34).product(&q24);
    let y2 = q23.product(&q34).quotient(&q24);
    let z1 = q23.quotient(&q34).product(&q24);
    let z2 = q23.quotient(&q34).quotient(&q24);
    let factor = Expr::num(1).over(&sqrt_2.times(&sqrt_4).times(&p12.minus(mass_3)));
    let log24 = q24.log_over_one_minus().times(&r24).over(&Expr::num(1).plus(&r24));
    let finite = log24.times(&qss.log()).plus(
        &divided_difference(&q24.product(&q24), &Sheet::lower(&Expr::num(1))).times(&r24),
    ).minus(&divided_difference(&y1, &y2).times(&r23).times(&r34)).minus(
        &divided_difference(&z1, &z2).times(&r23).over(&r34),
    );
    with_box_normalization(
        &LaurentSeries::new(factor.times(&finite), factor.negated().times(&log24), Expr::num(0)),
    )
}

} // verus!
