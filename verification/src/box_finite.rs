//! Finite boxes: every corner has a massive propagator or an off-shell leg.
//!
//! Momenta are `p1^2 .. p4^2` of the legs and the channels
//! `(p1 + p2)^2`, `(p2 + p3)^2`; masses follow the propagators and are
//! squared.
use vstd::prelude::*;
use crate::expr::{Expr, if_nonzero, if_nonzero_else};
use crate::sheet::{Sheet, divided_difference, im, negative, re, sign_nonnegative, sqrt_lower};
use crate::roots::{negative_quadratic_roots, r_function, square_root_magnitude};
use crate::box_contour::{self, or_nonzero};

verus! {

/// The finite box with massless propagators and four off-shell legs.
#[verifier::allow_in_spec]
pub fn box_finite_massless(p1: &Expr, p2: &Expr, p3: &Expr, p4: &Expr, p12: &Expr, p23: &Expr) -> Expr
    returns
        ({
            let r12 = p1.negated();
            let r13 = p12.negated();
            let r14 = p4.negated();
            let r23 = p2.negated();
            let r24 = p23.negated();
            let r34 = p3.negated();
            let a = r34.times(&r24);
            let b = r13.times(&r24).plus(&r12.times(&r34)).minus(&r14.times(&r23));
            let c = r12.times(&r13);
            let roots = negative_quadratic_roots(&a, &b, &c);
            let qx1 = Sheet::with_sign(&roots.0, &sign_nonnegative(&r23));
            let qx2 = Sheet::with_sign(&roots.1, &sign_nonnegative(&r23).negated());
            let q12 = Sheet::lower(&r12);
            let q13 = Sheet::lower(&r13);
            let q14 = Sheet::lower(&r14);
            let q23 = Sheet::lower(&r23);
            let q24 = Sheet::lower(&r24);
            let q34 = Sheet::lower(&r34);
            let scale_13 = q34.quotient(&q13);
            let scale_12 = q24.quotient(&q12);
            let dilogs = divided_difference(&qx1.product(&scale_13), &qx2.product(&scale_13)).times(&r34).over(&r13).plus(
                &divided_difference(&qx1.product(&scale_12), &qx2.product(&scale_12)).times(&r24).over(&r12),
            );
            let logarithmic = qx1.quotient(&qx2).log_over_one_minus().negated().over(&roots.1);
            let logs = qx1.log().plus(&qx2.log()).over_int(2).minus(&q12.log()).minus(&q13.log()).plus(&q14.log()).plus(
                &q23.log(),
            );
            let finite = dilogs.plus(&logarithmic.times(&logs));
            if_nonzero(&r13.times(&a), &finite.negated().over(&a))
        }),
{
    let r12 = p1.negated();
    let r13 = p12.negated();
    let r14 = p4.negated();
    let r23 = p2.negated();
    let r24 = p23.negated();
    let r34 = p3.negated();
    let a = r34.times(&r24);
    let b = r13.times(&r24).plus(&r12.times(&r34)).minus(&r14.times(&r23));
    let c = r12.times(&r13);
    let roots = negative_quadratic_roots(&a, &b, &c);
    let qx1 = Sheet::with_sign(&roots.0, &sign_nonnegative(&r23));
    let qx2 = Sheet::with_sign(&roots.1, &sign_nonnegative(&r23).negated());
    let q12 = Sheet::lower(&r12);
    let q13 = Sheet::lower(&r13);
    let q14 = Sheet::lower(&r14);
    let q23 = Sheet::lower(&r23);
    let q24 = Sheet::lower(&r24);
    let q34 = Sheet::lower(&r34);
    let scale_13 = q34.quotient(&q13);
    let scale_12 = q24.quotient(&q12);
    let dilogs = divided_difference(&qx1.product(&scale_13), &qx2.product(&scale_13)).times(&r34).over(&r13).plus(
        &divided_difference(&qx1.product(&scale_12), &qx2.product(&scale_12)).times(&r24).over(&r12),
    );
    let logarithmic = qx1.quotient(&qx2).log_over_one_minus().negated().over(&roots.1);
    let logs = qx1.log().plus(&qx2.log()).over_int(2).minus(&q12.log()).minus(&q13.log()).plus(&q14.log()).plus(
        &q23.log(),
    );
    let finite = dilogs.plus(&logarithmic.times(&logs));
    if_nonzero(&r13.times(&a), &finite.negated().over(&a))
}

/// The contour representation where the masses are complex or the
/// kinematics are timelike and covered, else `fallback`.
#[verifier::allow_in_spec]
pub fn finite_box_representation(
    p1: &Expr,
    p2: &Expr,
    p3: &Expr,
    p4: &Expr,
    p12: &Expr,
    p23: &Expr,
    m1: &Expr,
    m2: &Expr,
    m3: &Expr,
    m4: &Expr,
    fallback: &Expr,
) -> Expr
    returns
        ({
            let complex_mass = or_nonzero(&im(m4), &or_nonzero(&im(m3), &or_nonzero(&im(m2), &or_nonzero(&im(m1), &Expr::num(0)))));
            let all_external_nonnegative = negative(p1).int_minus(1).times(&negative(p2).int_minus(1)).times(
                &negative(p3).int_minus(1),
            ).times(&negative(p4).int_minus(1));
            let channels_nonnegative = negative(p12).int_minus(1).times(&negative(p23).int_minus(1));
            let use_contour = or_nonzero(
                &channels_nonnegative,
                &or_nonzero(&all_external_nonnegative, &or_nonzero(&complex_mass, &Expr::num(0))),
            ).times(&box_contour::supported_kinematics(p1, p2, p3, p4, p12, p23));
            if_nonzero_else(
                &use_contour,
                &box_contour::expression(p1, p2, p3, p4, p12, p23, m1, m2, m3, m4),
                fallback,
            )
        }),
{
    let complex_mass = or_nonzero(&im(m4), &or_nonzero(&im(m3), &or_nonzero(&im(m2), &or_nonzero(&im(m1), &Expr::num(0)))));
    let all_external_nonnegative = negative(p1).int_minus(1).times(&negative(p2).int_minus(1)).times(
        &negative(p3).int_minus(1),
    ).times(&negative(p4).int_minus(1));
    let channels_nonnegative = negative(p12).int_minus(1).times(&negative(p23).int_minus(1));
    let use_contour = or_nonzero(
        &channels_nonnegative,
        &or_nonzero(&all_external_nonnegative, &or_nonzero(&complex_mass, &Expr::num(0))),
    ).times(&box_contour::supported_kinematics(p1, p2, p3, p4, p12, p23));
    if_nonzero_else(
        &use_contour,
        &box_contour::expression(p1, p2, p3, p4, p12, p23, m1, m2, m3, m4),
        fallback,
    )
}

/// The finite box with four massive propagators.
#[verifier::allow_in_spec]
pub fn box_finite_four_masses(
    p1: &Expr,
    p2: &Expr,
    p3: &Expr,
    p4: &Expr,
    p12: &Expr,
    p23: &Expr,
    m1: &Expr,
    m2: &Expr,
    m3: &Expr,
    m4: &Expr,
) -> Expr
    returns
        ({
            let s1 = sqrt_lower(m1);
            let s2 = sqrt_lower(m2);
            let s3 = sqrt_lower(m3);
            let s4 = sqrt_lower(m4);
            let k12 = m1.plus(m2).minus(p1).over(&s1.times(&s2));
            let k13 = m1.plus(m3).minus(p12).over(&s1.times(&s3));
            let k14 = m1.plus(m4).minus(p4).over(&s1.times(&s4));
            let k23 = m2.plus(m3).minus(p2).over(&s2.times(&s3));
            let k24 = m2.plus(m4).minus(p23).over(&s2.times(&s4));
            let k34 = m3.plus(m4).minus(p3).over(&s3.times(&s4));
            let r12 = r_function(&k12).0;
            let rd13 = r_function(&k13);
            let r13 = rd13.0;
            let d13 = rd13.1;
            let r14 = r_function(&k14).0;
            let r23 = r_function(&k23).0;
            let rd24 = r_function(&k24);
            let r24 = rd24.0;
            let d24 = rd24.1;
            let r34 = r_function(&k34).0;
            let a = k34.over(&r24).plus(&r13.times(&k12)).minus(&k14.times(&r13).over(&r24)).minus(&k23);
            let b = d13.times(&d24).plus(&k12.times(&k34)).minus(&k14.times(&k23));
            let c = k12.over(&r13).plus(&r24.times(&k34)).minus(&k14.times(&r24).over(&r13)).minus(&k23);
            let roots = negative_quadratic_roots(&a, &b, &c);
            let base = re(&k23.minus(&r13.times(&k12)).minus(&r24.times(&k34)).plus(&r13.times(&r24).times(&k14))).times(
                &re(&a),
            );
            let qx1 = Sheet::with_sign(&roots.0, &sign_nonnegative(&base.times(&re(&roots.1))));
            let qx2 = Sheet::with_sign(&roots.1, &sign_nonnegative(&base.times(&re(&roots.0))));
            let q12 = Sheet::lower(&r12);
            let q13 = Sheet::lower(&r13);
            let q14 = Sheet::lower(&r14);
            let q23 = Sheet::lower(&r23);
            let q24 = Sheet::lower(&r24);
            let q34 = Sheet::lower(&r34);
            let y1 = qx1.quotient(&q24);
            let y2 = qx2.quotient(&q24);
            let first = divided_difference(&y1.product(&q12), &y2.product(&q12)).times(&r12).plus(
                &divided_difference(&y1.quotient(&q12), &y2.quotient(&q12)).over(&r12),
            ).over(&r24);
            let ratio = r13.over(&r24);
            let qr = Sheet::with_sign(&ratio, &sign_nonnegative(&re(&r24)).negated());
            let z1 = qx1.product(&qr);
            let z2 = qx2.product(&qr);
            let second = divided_difference(&z1.product(&q23), &z2.product(&q23)).times(&r23).plus(
                &divided_difference(&z1.quotient(&q23), &z2.quotient(&q23)).over(&r23),
            ).times(&ratio);
            let w1 = qx1.product(&q13);
            let w2 = qx2.product(&q13);
            let third = divided_difference(&w1.product(&q34), &w2.product(&q34)).times(&r34).plus(
                &divided_difference(&w1.quotient(&q34), &w2.quotient(&q34)).over(&r34),
            ).times(&r13);
            let fourth = divided_difference(&qx1.product(&q14), &qx2.product(&q14)).times(&r14).plus(
                &divided_difference(&qx1.quotient(&q14), &qx2.quotient(&q14)).over(&r14),
            );
            let finite = first.minus(&second).plus(&third).minus(&fourth);
            let generic = if_nonzero(&a, &finite.negated().over(&a.times(&s1).times(&s2).times(&s3).times(&s4)));
            let nonvacuum = or_nonzero(
                &m4.minus(m1),
                &or_nonzero(
                    &m3.minus(m1),
                    &or_nonzero(
                        &m2.minus(m1),
                        &or_nonzero(
                            p23,
                            &or_nonzero(p12, &or_nonzero(p4, &or_nonzero(p3, &or_nonzero(p2, &or_nonzero(p1, &Expr::num(0)))))),
                        ),
                    ),
                ),
            );
            if_nonzero_else(
                &nonvacuum,
                &finite_box_representation(p1, p2, p3, p4, p12, p23, m1, m2, m3, m4, &generic),
                &Expr::num(1).over(&Expr::num(6).times(m1).times(m1)),
            )
        }),
{
    let s1 = sqrt_lower(m1);
    let s2 = sqrt_lower(m2);
    let s3 = sqrt_lower(m3);
    let s4 = sqrt_lower(m4);
    let k12 = m1.plus(m2).minus(p1).over(&s1.times(&s2));
    let k13 = m1.plus(m3).minus(p12).over(&s1.times(&s3));
    let k14 = m1.plus(m4).minus(p4).over(&s1.times(&s4));
    let k23 = m2.plus(m3).minus(p2).over(&s2.times(&s3));
    let k24 = m2.plus(m4).minus(p23).over(&s2.times(&s4));
    let k34 = m3.plus(m4).minus(p3).over(&s3.times(&s4));
    let r12 = r_function(&k12).0;
    let rd13 = r_function(&k13);
    let r13 = rd13.0;
    let d13 = rd13.1;
    let r14 = r_function(&k14).0;
    let r23 = r_function(&k23).0;
    let rd24 = r_function(&k24);
    let r24 = rd24.0;
    let d24 = rd24.1;
    let r34 = r_function(&k34).0;
    let a = k34.over(&r24).plus(&r13.times(&k12)).minus(&k14.times(&r13).over(&r24)).minus(&k23);
    let b = d13.times(&d24).plus(&k12.times(&k34)).minus(&k14.times(&k23));
    let c = k12.over(&r13).plus(&r24.times(&k34)).minus(&k14.times(&r24).over(&r13)).minus(&k23);
    let roots = negative_quadratic_roots(&a, &b, &c);
    let base = re(&k23.minus(&r13.times(&k12)).minus(&r24.times(&k34)).plus(&r13.times(&r24).times(&k14))).times(
        &re(&a),
    );
    let qx1 = Sheet::with_sign(&roots.0, &sign_nonnegative(&base.times(&re(&roots.1))));
    let qx2 = Sheet::with_sign(&roots.1, &sign_nonnegative(&base.times(&re(&roots.0))));
    let q12 = Sheet::lower(&r12);
    let q13 = Sheet::lower(&r13);
    let q14 = Sheet::lower(&r14);
    let q23 = Sheet::lower(&r23);
    let q24 = Sheet::lower(&r24);
    let q34 = Sheet::lower(&r34);
    let y1 = qx1.quotient(&q24);
    let y2 = qx2.quotient(&q24);
    let first = divided_difference(&y1.product(&q12), &y2.product(&q12)).times(&r12).plus(
        &divided_difference(&y1.quotient(&q12), &y2.quotient(&q12)).over(&r12),
    ).over(&r24);
    let ratio = r13.over(&r24);
    let qr = Sheet::with_sign(&ratio, &sign_nonnegative(&re(&r24)).negated());
    let z1 = qx1.product(&qr);
    let z2 = qx2.product(&qr);
    let second = divided_difference(&z1.product(&q23), &z2.product(&q23)).times(&r23).plus(
        &divided_difference(&z1.quotient(&q23), &z2.quotient(&q23)).over(&r23),
    ).times(&ratio);
    let w1 = qx1.product(&q13);
    let w2 = qx2.product(&q13);
    let third = divided_difference(&w1.product(&q34), &w2.product(&q34)).times(&r34).plus(
        &divided_difference(&w1.quotient(&q34), &w2.quotient(&q34)).over(&r34),
    ).times(&r13);
    let fourth = divided_difference(&qx1.product(&q14), &qx2.product(&q14)).times(&r14).plus(
        &divided_difference(&qx1.quotient(&q14), &qx2.quotient(&q14)).over(&r14),
    );
    let finite = first.minus(&second).plus(&third).minus(&fourth);
    let generic = if_nonzero(&a, &finite.negated().over(&a.times(&s1).times(&s2).times(&s3).times(&s4)));
    let nonvacuum = or_nonzero(
        &m4.minus(m1),
        &or_nonzero(
            &m3.minus(m1),
            &or_nonzero(
                &m2.minus(m1),
                &or_nonzero(
                    p23,
                    &or_nonzero(p12, &or_nonzero(p4, &or_nonzero(p3, &or_nonzero(p2, &or_nonzero(p1, &Expr::num(0)))))),
                ),
            ),
        ),
    );
    if_nonzero_else(
        &nonvacuum,
        &finite_box_representation(p1, p2, p3, p4, p12, p23, m1, m2, m3, m4, &generic),
        &Expr::num(1).over(&Expr::num(6).times(m1).times(m1)),
    )
}

/// The finite box whose fourth propagator alone is massive.
#[verifier::allow_in_spec]
pub fn box_finite_one_mass(p1: &Expr, p2: &Expr, p3: &Expr, p4: &Expr, p12: &Expr, p23: &Expr, mass: &Expr) -> Expr
    returns
        ({
            let sm = sqrt_lower(mass);
            let sr = square_root_magnitude(mass);
            let r12 = mass.minus(p4).over(&sr.times(&sm));
            let r13 = mass.minus(p23).over(&sr.times(&sm));
            let r14 = mass.minus(p3).over(&sr.times(&sm));
            let r23 = p1.negated().over(&sr.times(&sr));
            let r24 = p12.negated().over(&sr.times(&sr));
            let r34 = p2.negated().over(&sr.times(&sr));
            let a = r34.times(&r24);
            let b = r13.times(&r24).plus(&r12.times(&r34)).minus(&r14.times(&r23));
            let c = r12.times(&r13).minus(&r23);
            let roots = negative_quadratic_roots(&a, &b, &c);
            let qx1 = Sheet::upper(&roots.0);
            let qx2 = Sheet::upper(&roots.1);
            let q12 = Sheet::lower(&r12);
            let q13 = Sheet::lower(&r13);
            let q14 = Sheet::lower(&r14);
            let q23 = Sheet::lower(&r23);
            let q24 = Sheet::lower(&r24);
            let q34 = Sheet::lower(&r34);
            let lr = qx1.quotient(&qx2).log_over_one_minus();
            let root_log = qx1.log().plus(&qx2.log());
            let both_zero = lr.times(&root_log.plus(&q34.log()).plus(&q24.log()).minus(&q23.log())).over(&roots.1);
            let r13_zero = lr.times(&root_log.over_int(2).plus(&q34.log()).plus(&q12.log()).minus(&q23.log())).over(
                &roots.1,
            );
            let scale_13 = q34.quotient(&q13);
            let r13_nonzero = divided_difference(&qx1.product(&scale_13), &qx2.product(&scale_13)).times(&r34).over(&r13);
            let r12_zero = lr.times(&root_log.over_int(2).plus(&q24.log()).plus(&q13.log()).minus(&q23.log())).over(
                &roots.1,
            );
            let scale_12 = q24.quotient(&q12);
            let r12_nonzero = divided_difference(&qx1.product(&scale_12), &qx2.product(&scale_12)).times(&r24).over(&r12);
            let both_nonzero = r13_nonzero.plus(&r12_nonzero).plus(
                &lr.times(&q12.log().plus(&q13.log()).minus(&q23.log())).over(&roots.1),
            );
            let neither_both = if_nonzero_else(
                &r13,
                &if_nonzero_else(&r12, &both_nonzero, &r12_zero),
                &if_nonzero_else(&r12, &r13_zero, &both_zero),
            );
            let r14_term = if_nonzero(&r14, &divided_difference(&qx1.product(&q14), &qx2.product(&q14)).times(&r14));
            if_nonzero(
                &a,
                &neither_both.minus(&r14_term).negated().over(&a.times(&sr).times(&sr).times(&sr).times(&sm)),
            )
        }),
{
    let sm = sqrt_lower(mass);
    let sr = square_root_magnitude(mass);
    let r12 = mass.minus(p4).over(&sr.times(&sm));
    let r13 = mass.minus(p23).over(&sr.times(&sm));
    let r14 = mass.minus(p3).over(&sr.times(&sm));
    let r23 = p1.negated().over(&sr.times(&sr));
    let r24 = p12.negated().over(&sr.times(&sr));
    let r34 = p2.negated().over(&sr.times(&sr));
    let a = r34.times(&r24);
    let b = r13.times(&r24).plus(&r12.times(&r34)).minus(&r14.times(&r23));
    let c = r12.times(&r13).minus(&r23);
    let roots = negative_quadratic_roots(&a, &b, &c);
    let qx1 = Sheet::upper(&roots.0);
    let qx2 = Sheet::upper(&roots.1);
    let q12 = Sheet::lower(&r12);
    let q13 = Sheet::lower(&r13);
    let q14 = Sheet::lower(&r14);
    let q23 = Sheet::lower(&r23);
    let q24 = Sheet::lower(&r24);
    let q34 = Sheet::lower(&r34);
    let lr = qx1.quotient(&qx2).log_over_one_minus();
    let root_log = qx1.log().plus(&qx2.log());
    let both_zero = lr.times(&root_log.plus(&q34.log()).plus(&q24.log()).minus(&q23.log())).over(&roots.1);
    let r13_zero = lr.times(&root_log.over_int(2).plus(&q34.log()).plus(&q12.log()).minus(&q23.log())).over(
        &roots.1,
    );
    let scale_13 = q34.quotient(&q13);
    let r13_nonzero = divided_difference(&qx1.product(&scale_13), &qx2.product(&scale_13)).times(&r34).over(&r13);
    let r12_zero = lr.times(&root_log.over_int(2).plus(&q24.log()).plus(&q13.log()).minus(&q23.log())).over(
        &roots.1,
    );
    let scale_12 = q24.quotient(&q12);
    let r12_nonzero = divided_difference(&qx1.product(&scale_12), &qx2.product(&scale_12)).times(&r24).over(&r12);
    let both_nonzero = r13_nonzero.plus(&r12_nonzero).plus(
        &lr.times(&q12.log().plus(&q13.log()).minus(&q23.log())).over(&roots.1),
    );
    let neither_both = if_nonzero_else(
        &r13,
        &if_nonzero_else(&r12, &both_nonzero, &r12_zero),
        &if_nonzero_else(&r12, &r13_zero, &both_zero),
    );
    let r14_term = if_nonzero(&r14, &divided_difference(&qx1.product(&q14), &qx2.product(&q14)).times(&r14));
    if_nonzero(
        &a,
        &neither_both.minus(&r14_term).negated().over(&a.times(&sr).times(&sr).times(&sr).times(&sm)),
    )
}

/// The finite box whose third propagator alone is massless.
#[verifier::allow_in_spec]
pub fn box_finite_three_masses_zero_third(
    p1: &Expr,
    p2: &Expr,
    p3: &Expr,
    p4: &Expr,
    p12: &Expr,
    p23: &Expr,
    mass_1: &Expr,
    mass_2: &Expr,
    mass_4: &Expr,
) -> Expr
    returns
        ({
            let sm1 = sqrt_lower(mass_1);
            let sm2 = sqrt_lower(mass_2);
            let sm4 = sqrt_lower(mass_4);
            let sr = square_root_magnitude(mass_2);
            let k12 = mass_1.plus(mass_2).minus(p1).over(&sm1.times(&sm2));
            let r13 = mass_1.minus(p12).over(&sm1.times(&sr));
            let k14 = mass_1.plus(mass_4).minus(p4).over(&sm1.times(&sm4));
            let r23 = mass_2.minus(p2).over(&sm2.times(&sr));
            let k24 = mass_2.plus(mass_4).minus(p23).over(&sm2.times(&sm4));
            let r34 = mass_4.minus(p3).over(&sr.times(&sm4));
            let r12 = r_function(&k12).0;
            let r14 = r_function(&k14).0;
            let rd24 = r_function(&k24);
            let r24 = rd24.0;
            let d24 = rd24.1;
            let a = r34.over(&r24).minus(&r23);
            let b = r13.negated().times(&d24).plus(&k12.times(&r34)).minus(&k14.times(&r23));
            let c = k12.times(&r13).plus(&r24.times(&r34)).minus(&k14.times(&r24).times(&r13)).minus(&r23);
            let roots = negative_quadratic_roots(&a, &b, &c);
            let qx1 = Sheet::upper(&roots.0);
            let qx2 = Sheet::upper(&roots.1);
            let q12 = Sheet::lower(&r12);
            let q13 = Sheet::lower(&r13);
            let q14 = Sheet::lower(&r14);
            let q23 = Sheet::lower(&r23);
            let q24 = Sheet::lower(&r24);
            let q34 = Sheet::lower(&r34);
            let y1 = qx1.quotient(&q24);
            let y2 = qx2.quotient(&q24);
            let leading = divided_difference(&y1.product(&q12), &y2.product(&q12)).times(&r12).over(&r24).plus(
                &divided_difference(&y1.quotient(&q12), &y2.quotient(&q12)).over(&r24.times(&r12)),
            ).minus(&divided_difference(&qx1.product(&q14), &qx2.product(&q14)).times(&r14)).minus(
                &divided_difference(&qx1.quotient(&q14), &qx2.quotient(&q14)).over(&r14),
            );
            let scale23 = q23.quotient(&q13).quotient(&q24);
            let scale34 = q34.quotient(&q13);
            let nonzero_r13 = if_nonzero(
                &r23,
                &divided_difference(&qx1.product(&scale23), &qx2.product(&scale23)).times(&r23).over(&r13.times(&r24)),
            ).negated().plus(
                &if_nonzero(
                    &r34,
                    &divided_difference(&qx1.product(&scale34), &qx2.product(&scale34)).times(&r34).over(&r13),
                ),
            );
            let zero_r13 = qx1.quotient(&qx2).log_over_one_minus().negated().times(
                &q23.log().minus(&q24.log()).minus(&q34.log()),
            ).over(&roots.1);
            let finite = leading.plus(&if_nonzero_else(&r13, &nonzero_r13, &zero_r13));
            if_nonzero(&a, &finite.negated().over(&a.times(&sm1).times(&sm2).times(&sr).times(&sm4)))
        }),
{
    let sm1 = sqrt_lower(mass_1);
    let sm2 = sqrt_lower(mass_2);
    let sm4 = sqrt_lower(mass_4);
    let sr = square_root_magnitude(mass_2);
    let k12 = mass_1.plus(mass_2).minus(p1).over(&sm1.times(&sm2));
    let r13 = mass_1.minus(p12).over(&sm1.times(&sr));
    let k14 = mass_1.plus(mass_4).minus(p4).over(&sm1.times(&sm4));
    let r23 = mass_2.minus(p2).over(&sm2.times(&sr));
    let k24 = mass_2.plus(mass_4).minus(p23).over(&sm2.times(&sm4));
    let r34 = mass_4.minus(p3).over(&sr.times(&sm4));
    let r12 = r_function(&k12).0;
    let r14 = r_function(&k14).0;
    let rd24 = r_function(&k24);
    let r24 = rd24.0;
    let d24 = rd24.1;
    let a = r34.over(&r24).minus(&r23);
    let b = r13.negated().times(&d24).plus(&k12.times(&r34)).minus(&k14.times(&r23));
    let c = k12.times(&r13).plus(&r24.times(&r34)).minus(&k14.times(&r24).times(&r13)).minus(&r23);
    let roots = negative_quadratic_roots(&a, &b, &c);
    let qx1 = Sheet::upper(&roots.0);
    let qx2 = Sheet::upper(&roots.1);
    let q12 = Sheet::lower(&r12);
    let q13 = Sheet::lower(&r13);
    let q14 = Sheet::lower(&r14);
    let q23 = Sheet::lower(&r23);
    let q24 = Sheet::lower(&r24);
    let q34 = Sheet::lower(&r34);
    let y1 = qx1.quotient(&q24);
    let y2 = qx2.quotient(&q24);
    let leading = divided_difference(&y1.product(&q12), &y2.product(&q12)).times(&r12).over(&r24).plus(
        &divided_difference(&y1.quotient(&q12), &y2.quotient(&q12)).over(&r24.times(&r12)),
    ).minus(&divided_difference(&qx1.product(&q14), &qx2.product(&q14)).times(&r14)).minus(
        &divided_difference(&qx1.quotient(&q14), &qx2.quotient(&q14)).over(&r14),
    );
    let scale23 = q23.quotient(&q13).quotient(&q24);
    let scale34 = q34.quotient(&q13);
    let nonzero_r13 = if_nonzero(
        &r23,
        &divided_difference(&qx1.product(&scale23), &qx2.product(&scale23)).times(&r23).over(&r13.times(&r24)),
    ).negated().plus(
        &if_nonzero(
            &r34,
            &divided_difference(&qx1.product(&scale34), &qx2.product(&scale34)).times(&r34).over(&r13),
        ),
    );
    let zero_r13 = qx1.quotient(&qx2).log_over_one_minus().negated().times(
        &q23.log().minus(&q24.log()).minus(&q34.log()),
    ).over(&roots.1);
    let finite = leading.plus(&if_nonzero_else(&r13, &nonzero_r13, &zero_r13));
    if_nonzero(&a, &finite.negated().over(&a.times(&sm1).times(&sm2).times(&sr).times(&sm4)))
}

/// The finite box whose third and fourth propagators are massive.
#[verifier::allow_in_spec]
pub fn box_finite_two_adjacent(
    p1: &Expr,
    p2: &Expr,
    p3: &Expr,
    p4: &Expr,
    p12: &Expr,
    p23: &Expr,
    mass_3: &Expr,
    mass_4: &Expr,
) -> Expr
    returns
        ({
            let sm3 = sqrt_lower(mass_3);
            let sm4 = sqrt_lower(mass_4);
            let sr = square_root_magnitude(mass_3);
            let r12 = mass_4.minus(p4).over(&sr.times(&sm4));
            let r13 = mass_4.minus(p23).over(&sr.times(&sm4));
            let k14 = mass_3.plus(mass_4).minus(p3).over(&sm3.times(&sm4));
            let r23 = p1.negated().over(&sr.times(&sr));
            let r24 = mass_3.minus(p12).over(&sr.times(&sm3));
            let r34 = mass_3.minus(p2).over(&sr.times(&sm3));
            let r14 = r_function(&k14).0;
            let a = r34.times(&r24).minus(&r23);
            let b = r13.times(&r24).plus(&r12.times(&r34)).minus(&k14.times(&r23));
            let c = r12.times(&r13).minus(&r23);
            let roots = negative_quadratic_roots(&a, &b, &c);
            let qx1 = Sheet::upper(&roots.0);
            let qx2 = Sheet::upper(&roots.1);
            let q12 = Sheet::lower(&r12);
            let q13 = Sheet::lower(&r13);
            let q14 = Sheet::lower(&r14);
            let q23 = Sheet::lower(&r23);
            let q24 = Sheet::lower(&r24);
            let q34 = Sheet::lower(&r34);
            let scale_13 = q34.quotient(&q13);
            let scale_12 = q24.quotient(&q12);
            let log_scale = q12.product(&q13).quotient(&q23);
            let lr = qx1.quotient(&qx2).log_over_one_minus();
            let root_log = qx1.log().plus(&qx2.log());
            let limit_13 = lr.times(&root_log.over_int(2).plus(&q34.log()).plus(&q12.log()).minus(&q23.log())).over(
                &roots.1,
            );
            let limit_12 = lr.times(&root_log.over_int(2).plus(&q24.log()).plus(&q13.log()).minus(&q23.log())).over(
                &roots.1,
            );
            let both_zero = lr.times(&root_log.plus(&q34.log()).plus(&q24.log()).minus(&q23.log())).over(&roots.1);
            let term_13 = if_nonzero_else(
                &r13,
                &if_nonzero(
                    &r34,
                    &divided_difference(&qx1.product(&scale_13), &qx2.product(&scale_13)).times(&r34).over(&r13),
                ),
                &limit_13,
            );
            let term_12 = if_nonzero_else(
                &r12,
                &if_nonzero(
                    &r24,
                    &divided_difference(&qx1.product(&scale_12), &qx2.product(&scale_12)).times(&r24).over(&r12),
                ),
                &limit_12,
            );
            let ordinary = term_13.plus(&term_12).plus(&if_nonzero(&r12.times(&r13), &lr.times(&log_scale.log()).over(&roots.1)));
            let finite = divided_difference(&qx1.product(&q14), &qx2.product(&q14)).negated().times(&r14).minus(
                &divided_difference(&qx1.quotient(&q14), &qx2.quotient(&q14)).over(&r14),
            ).plus(&if_nonzero_else(&r12, &ordinary, &if_nonzero_else(&r13, &ordinary, &both_zero)));
            if_nonzero(&a, &finite.negated().over(&a.times(&sr).times(&sr).times(&sm3).times(&sm4)))
        }),
{
    let sm3 = sqrt_lower(mass_3);
    let sm4 = sqrt_lower(mass_4);
    let sr = square_root_magnitude(mass_3);
    let r12 = mass_4.minus(p4).over(&sr.times(&sm4));
    let r13 = mass_4.minus(p23).over(&sr.times(&sm4));
    let k14 = mass_3.plus(mass_4).minus(p3).over(&sm3.times(&sm4));
    let r23 = p1.negated().over(&sr.times(&sr));
    let r24 = mass_3.minus(p12).over(&sr.times(&sm3));
    let r34 = mass_3.minus(p2).over(&sr.times(&sm3));
    let r14 = r_function(&k14).0;
    let a = r34.times(&r24).minus(&r23);
    let b = r13.times(&r24).plus(&r12.times(&r34)).minus(&k14.times(&r23));
    let c = r12.times(&r13).minus(&r23);
    let roots = negative_quadratic_roots(&a, &b, &c);
    let qx1 = Sheet::upper(&roots.0);
    let qx2 = Sheet::upper(&roots.1);
    let q12 = Sheet::lower(&r12);
    let q13 = Sheet::lower(&r13);
    let q14 = Sheet::lower(&r14);
    let q23 = Sheet::lower(&r23);
    let q24 = Sheet::lower(&r24);
    let q34 = Sheet::lower(&r34);
    let scale_13 = q34.quotient(&q13);
    let scale_12 = q24.quotient(&q12);
    let log_scale = q12.product(&q13).quotient(&q23);
    let lr = qx1.quotient(&qx2).log_over_one_minus();
    let root_log = qx1.log().plus(&qx2.log());
    let limit_13 = lr.times(&root_log.over_int(2).plus(&q34.log()).plus(&q12.log()).minus(&q23.log())).over(
        &roots.1,
    );
    let limit_12 = lr.times(&root_log.over_int(2).plus(&q24.log()).plus(&q13.log()).minus(&q23.log())).over(
        &roots.1,
    );
    let both_zero = lr.times(&root_log.plus(&q34.log()).plus(&q24.log()).minus(&q23.log())).over(&roots.1);
    let term_13 = if_nonzero_else(
        &r13,
        &if_nonzero(
            &r34,
            &divided_difference(&qx1.product(&scale_13), &qx2.product(&scale_13)).times(&r34).over(&r13),
        ),
        &limit_13,
    );
    let term_12 = if_nonzero_else(
        &r12,
        &if_nonzero(
            &r24,
            &divided_difference(&qx1.product(&scale_12), &qx2.product(&scale_12)).times(&r24).over(&r12),
        ),
        &limit_12,
    );
    let ordinary = term_13.plus(&term_12).plus(&if_nonzero(&r12.times(&r13), &lr.times(&log_scale.log()).over(&roots.1)));
    let finite = divided_difference(&qx1.product(&q14), &qx2.product(&q14)).negated().times(&r14).minus(
        &divided_difference(&qx1.quotient(&q14), &qx2.quotient(&q14)).over(&r14),
    ).plus(&if_nonzero_else(&r12, &ordinary, &if_nonzero_else(&r13, &ordinary, &both_zero)));
    if_nonzero(&a, &finite.negated().over(&a.times(&sr).times(&sr).times(&sm3).times(&sm4)))
}

/// The finite box whose second and fourth propagators are massive.
#[verifier::allow_in_spec]
pub fn box_finite_two_opposite(
    p1: &Expr,
    p2: &Expr,
    p3: &Expr,
    p4: &Expr,
    p12: &Expr,
    p23: &Expr,
    mass_2: &Expr,
    mass_4: &Expr,
) -> Expr
    returns
        box_finite_two_adjacent(p12, p2, p23, p4, p1, p3, mass_2, mass_4),
{
    box_finite_two_adjacent(p12, p2, p23, p4, p1, p3, mass_2, mass_4)
}

} // verus!
