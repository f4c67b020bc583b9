//! The scalar box, dispatched on which propagators are massive.
//!
//! Momenta are `[p1^2, p2^2, p3^2, p4^2, (p1 + p2)^2, (p2 + p3)^2]`; masses
//! follow the propagators and are squared. Each mass pattern is a helper
//! definition `BoxSector`; patterns that are rotations of one another share
//! one canonical definition.
use vstd::prelude::*;
use crate::expr::{Expr, if_nonzero, if_nonzero_else, args4, args7, folded, args_of, arguments_at, lemma_args_of_append, lemma_folded_if, lemma_args4_of, lemma_args7_of};
use crate::series::lemma_folded_if_series;
use crate::sectors::{spec_four_index, spec_box_sector, spec_box_rotation, BoxSector, spec_massless_case, spec_massless_shift, spec_box_momentum_rotation, MasslessBoxCase};
use std::rc::Rc;
use crate::elementary::{physical_log, dilog_complement, dilog_divided_difference, log_over_one_minus};
use crate::sheet::{negative, pi_squared};
use crate::series::{LaurentSeries, Order, finite_series, if_series, with_box_normalization};
use crate::box_infrared::{
    box_one_mass_06, box_one_mass_07, box_one_mass_08, box_one_mass_09, box_one_mass_10,
    box_two_adjacent_11, box_two_adjacent_12, box_two_adjacent_13, box_two_opposite_14,
    box_two_opposite_15, box_three_masses_16,
};
use crate::box_finite::{
    box_finite_massless, box_finite_one_mass, box_finite_two_adjacent, box_finite_two_opposite,
    box_finite_three_masses_zero_third, box_finite_four_masses, finite_box_representation,
};
use crate::functions::Func;

verus! {

/// The box with one massive propagator (the fourth), dispatched on its
/// infrared sectors.
#[verifier::allow_in_spec]
pub fn box_one_mass_ir(
    p1: &Expr,
    p2: &Expr,
    p3: &Expr,
    p4: &Expr,
    p12: &Expr,
    p23: &Expr,
    mass: &Expr,
    mu_squared: &Expr,
) -> LaurentSeries
    returns
        ({
            let d3 = p3.minus(mass);
            let d4 = p4.minus(mass);
            let case_06 = box_one_mass_06(p12, p23, mass, mu_squared);
            let case_07_d4 = box_one_mass_07(p4, p12, p23, mass, mu_squared);
            let case_07_d3 = box_one_mass_07(p3, p12, p23, mass, mu_squared);
            let case_08 = box_one_mass_08(p3, p4, p12, p23, mass, mu_squared);
            let case_09_p2 = box_one_mass_09(p2, p3, p12, p23, mass, mu_squared);
            let case_10_p2 = box_one_mass_10(p2, p3, p4, p12, p23, mass, mu_squared);
            let case_09_p1 = box_one_mass_09(p1, p4, p12, p23, mass, mu_squared);
            let case_10_p1 = box_one_mass_10(p1, p4, p3, p12, p23, mass, mu_squared);
            if_series(
                p1,
                &if_series(&d3, &case_10_p1, &case_09_p1),
                &if_series(
                    p2,
                    &if_series(&d4, &case_10_p2, &case_09_p2),
                    &if_series(&d3, &if_series(&d4, &case_08, &case_07_d3), &if_series(&d4, &case_07_d4, &case_06)),
                ),
            )
        }),
{
    let d3 = p3.minus(mass);
    let d4 = p4.minus(mass);
    let case_06 = box_one_mass_06(p12, p23, mass, mu_squared);
    let case_07_d4 = box_one_mass_07(p4, p12, p23, mass, mu_squared);
    let case_07_d3 = box_one_mass_07(p3, p12, p23, mass, mu_squared);
    let case_08 = box_one_mass_08(p3, p4, p12, p23, mass, mu_squared);
    let case_09_p2 = box_one_mass_09(p2, p3, p12, p23, mass, mu_squared);
    let case_10_p2 = box_one_mass_10(p2, p3, p4, p12, p23, mass, mu_squared);
    let case_09_p1 = box_one_mass_09(p1, p4, p12, p23, mass, mu_squared);
    let case_10_p1 = box_one_mass_10(p1, p4, p3, p12, p23, mass, mu_squared);
    if_series(
        p1,
        &if_series(&d3, &case_10_p1, &case_09_p1),
        &if_series(
            p2,
            &if_series(&d4, &case_10_p2, &case_09_p2),
            &if_series(&d3, &if_series(&d4, &case_08, &case_07_d3), &if_series(&d4, &case_07_d4, &case_06)),
        ),
    )
}

/// The box with one massive propagator (the fourth).
#[verifier::allow_in_spec]
pub fn box_one_mass(
    p1: &Expr,
    p2: &Expr,
    p3: &Expr,
    p4: &Expr,
    p12: &Expr,
    p23: &Expr,
    mass: &Expr,
    mu_squared: &Expr,
) -> LaurentSeries
    returns
        ({
            let infrared = box_one_mass_ir(p1, p2, p3, p4, p12, p23, mass, mu_squared);
            if_series(
                p1,
                &if_series(p2, &finite_series(box_finite_one_mass(p1, p2, p3, p4, p12, p23, mass)), &infrared),
                &infrared,
            )
        }),
{
    let infrared = box_one_mass_ir(p1, p2, p3, p4, p12, p23, mass, mu_squared);
    if_series(
        p1,
        &if_series(p2, &finite_series(box_finite_one_mass(p1, p2, p3, p4, p12, p23, mass)), &infrared),
        &infrared,
    )
}

/// The box with two adjacent massive propagators (the third and fourth).
#[verifier::allow_in_spec]
pub fn box_two_adjacent_ir(
    p1: &Expr,
    p2: &Expr,
    p3: &Expr,
    p4: &Expr,
    p12: &Expr,
    p23: &Expr,
    mass_3: &Expr,
    mass_4: &Expr,
    mu_squared: &Expr,
) -> LaurentSeries
    returns
        ({
            let d2 = p2.minus(mass_3);
            let d4 = p4.minus(mass_4);
            let case_11 = box_two_adjacent_11(p3, p12, p23, mass_3, mass_4, mu_squared);
            let case_12_d4 = box_two_adjacent_12(p3, p4, p12, p23, mass_3, mass_4, mu_squared);
            let case_12_d2 = box_two_adjacent_12(p3, p2, p23, p12, mass_4, mass_3, mu_squared);
            let case_13 = box_two_adjacent_13(p2, p3, p4, p12, p23, mass_3, mass_4, mu_squared);
            let infrared = if_series(&d2, &if_series(&d4, &case_13, &case_12_d2), &if_series(&d4, &case_12_d4, &case_11));
            if_series(
                p1,
                &finite_series(box_finite_two_adjacent(p1, p2, p3, p4, p12, p23, mass_3, mass_4)),
                &infrared,
            )
        }),
{
    let d2 = p2.minus(mass_3);
    let d4 = p4.minus(mass_4);
    let case_11 = box_two_adjacent_11(p3, p12, p23, mass_3, mass_4, mu_squared);
    let case_12_d4 = box_two_adjacent_12(p3, p4, p12, p23, mass_3, mass_4, mu_squared);
    let case_12_d2 = box_two_adjacent_12(p3, p2, p23, p12, mass_4, mass_3, mu_squared);
    let case_13 = box_two_adjacent_13(p2, p3, p4, p12, p23, mass_3, mass_4, mu_squared);
    let infrared = if_series(&d2, &if_series(&d4, &case_13, &case_12_d2), &if_series(&d4, &case_12_d4, &case_11));
    if_series(
        p1,
        &finite_series(box_finite_two_adjacent(p1, p2, p3, p4, p12, p23, mass_3, mass_4)),
        &infrared,
    )
}

/// The box with two opposite massive propagators (the second and fourth).
#[verifier::allow_in_spec]
pub fn box_two_opposite_ir(
    p1: &Expr,
    p2: &Expr,
    p3: &Expr,
    p4: &Expr,
    p12: &Expr,
    p23: &Expr,
    mass_2: &Expr,
    mass_4: &Expr,
    mu_squared: &Expr,
) -> LaurentSeries
    returns
        ({
            let d1 = p1.minus(mass_2);
            let d4 = p4.minus(mass_4);
            let d2 = p2.minus(mass_2);
            let d3 = p3.minus(mass_4);
            let finite = finite_series(box_finite_two_opposite(p1, p2, p3, p4, p12, p23, mass_2, mass_4));
            let case_15_first = box_two_opposite_15(p1, p4, p12, p23, mass_2, mass_4, mu_squared);
            let case_15_second = box_two_opposite_15(p2, p3, p12, p23, mass_2, mass_4, mu_squared);
            let case_14 = box_two_opposite_14(p12, p23, mass_2, mass_4, mu_squared);
            let first_true = if_series(&d2, &finite, &if_series(&d3, &finite, &case_15_first));
            let first_false = if_series(&d2, &case_15_second, &if_series(&d3, &case_15_second, &case_14));
            if_series(&d1, &first_true, &if_series(&d4, &first_true, &first_false))
        }),
{
    let d1 = p1.minus(mass_2);
    let d4 = p4.minus(mass_4);
    let d2 = p2.minus(mass_2);
    let d3 = p3.minus(mass_4);
    let finite = finite_series(box_finite_two_opposite(p1, p2, p3, p4, p12, p23, mass_2, mass_4));
    let case_15_first = box_two_opposite_15(p1, p4, p12, p23, mass_2, mass_4, mu_squared);
    let case_15_second = box_two_opposite_15(p2, p3, p12, p23, mass_2, mass_4, mu_squared);
    let case_14 = box_two_opposite_14(p12, p23, mass_2, mass_4, mu_squared);
    let first_true = if_series(&d2, &finite, &if_series(&d3, &finite, &case_15_first));
    let first_false = if_series(&d2, &case_15_second, &if_series(&d3, &case_15_second, &case_14));
    if_series(&d1, &first_true, &if_series(&d4, &first_true, &first_false))
}

/// The box with three massive propagators (all but the first).
#[verifier::allow_in_spec]
pub fn box_three_masses_ir(
    p1: &Expr,
    p2: &Expr,
    p3: &Expr,
    p4: &Expr,
    p12: &Expr,
    p23: &Expr,
    m1: &Expr,
    m2: &Expr,
    m3: &Expr,
    m4: &Expr,
    mu_squared: &Expr,
) -> LaurentSeries
    returns
        ({
            let d1 = p1.minus(m2);
            let d4 = p4.minus(m4);
            let ordinary = box_finite_three_masses_zero_third(p3, p4, p1, p2, p12, p23, m3, m4, m2);
            let finite = finite_series(finite_box_representation(p1, p2, p3, p4, p12, p23, m1, m2, m3, m4, &ordinary));
            let infrared = box_three_masses_16(p2, p3, p12, p23, m2, m3, m4, mu_squared);
            if_series(&d1, &finite, &if_series(&d4, &finite, &infrared))
        }),
{
    let d1 = p1.minus(m2);
    let d4 = p4.minus(m4);
    let ordinary = box_finite_three_masses_zero_third(p3, p4, p1, p2, p12, p23, m3, m4, m2);
    let finite = finite_series(finite_box_representation(p1, p2, p3, p4, p12, p23, m1, m2, m3, m4, &ordinary));
    let infrared = box_three_masses_16(p2, p3, p12, p23, m2, m3, m4, mu_squared);
    if_series(&d1, &finite, &if_series(&d4, &finite, &infrared))
}

/// The massless box with two opposite off-shell legs.
#[verifier::allow_in_spec]
pub fn box_massless_two_opposite(p2: &Expr, p4: &Expr, p12: &Expr, p23: &Expr, mu_squared: &Expr) -> LaurentSeries
    returns
        ({
            let q2 = p2.negated();
            let q4 = p4.negated();
            let q5 = p12.negated();
            let q6 = p23.negated();
            let q26 = q2.over(&q6);
            let q54 = q5.over(&q4);
            let y = q26.over(&q54);
            let log_y = log_over_one_minus(&y).over(&p12.times(p23));
            let finite = dilog_divided_difference(&q6.over(&q4), &q2.over(&q5)).over(&p4.times(p12)).plus(
                &dilog_divided_difference(&q54, &q26).over(&p4.times(p23)),
            ).minus(&dilog_divided_difference(&Expr::num(1), &y).over(&p12.times(p23))).minus(
                &log_y.times(&physical_log(&q54.times(&q2).times(&q6).over(&mu_squared.times(mu_squared)))).over_int(2),
            ).times_int(2);
            with_box_normalization(&LaurentSeries::new(finite, log_y.times_int(2), Expr::num(0)))
        }),
{
    let q2 = p2.negated();
    let q4 = p4.negated();
    let q5 = p12.negated();
    let q6 = p23.negated();
    let q26 = q2.over(&q6);
    let q54 = q5.over(&q4);
    let y = q26.over(&q54);
    let log_y = log_over_one_minus(&y).over(&p12.times(p23));
    let finite = dilog_divided_difference(&q6.over(&q4), &q2.over(&q5)).over(&p4.times(p12)).plus(
        &dilog_divided_difference(&q54, &q26).over(&p4.times(p23)),
    ).minus(&dilog_divided_difference(&Expr::num(1), &y).over(&p12.times(p23))).minus(
        &log_y.times(&physical_log(&q54.times(&q2).times(&q6).over(&mu_squared.times(mu_squared)))).over_int(2),
    ).times_int(2);
    with_box_normalization(&LaurentSeries::new(finite, log_y.times_int(2), Expr::num(0)))
}

/// The massless box with three off-shell legs.
#[verifier::allow_in_spec]
pub fn box_massless_three_nonzero(
    p2: &Expr,
    p3: &Expr,
    p4: &Expr,
    p12: &Expr,
    p23: &Expr,
    mu_squared: &Expr,
) -> LaurentSeries
    returns
        ({
            let q2 = p2.negated();
            let q3 = p3.negated();
            let q4 = p4.negated();
            let q5 = p12.negated();
            let q6 = p23.negated();
            let q25 = q2.over(&q5);
            let q64 = q6.over(&q4);
            let y = q25.over(&q64);
            let log_y = log_over_one_minus(&y).over(&p12.times(p23));
            let z = q64.times(&q2).times(&q5).times(&q6).times(&q6).over(
                &q3.times(&q3).times(mu_squared).times(mu_squared),
            );
            let finite = dilog_divided_difference(&q64, &q25).over(&p4.times(p12)).minus(
                &dilog_divided_difference(&Expr::num(1), &y).over(&p12.times(p23)),
            ).minus(&log_y.times(&physical_log(&z)).over_int(4)).times_int(2);
            with_box_normalization(&LaurentSeries::new(finite, log_y, Expr::num(0)))
        }),
{
    let q2 = p2.negated();
    let q3 = p3.negated();
    let q4 = p4.negated();
    let q5 = p12.negated();
    let q6 = p23.negated();
    let q25 = q2.over(&q5);
    let q64 = q6.over(&q4);
    let y = q25.over(&q64);
    let log_y = log_over_one_minus(&y).over(&p12.times(p23));
    let z = q64.times(&q2).times(&q5).times(&q6).times(&q6).over(
        &q3.times(&q3).times(mu_squared).times(mu_squared),
    );
    let finite = dilog_divided_difference(&q64, &q25).over(&p4.times(p12)).minus(
        &dilog_divided_difference(&Expr::num(1), &y).over(&p12.times(p23)),
    ).minus(&log_y.times(&physical_log(&z)).over_int(4)).times_int(2);
    with_box_normalization(&LaurentSeries::new(finite, log_y, Expr::num(0)))
}

/// The massless box in one of its low cases: both channels only (`0`),
/// one off-shell leg (`1`), two adjacent ones (`2`), three (`3`), all four
/// (`4`) and two opposite ones (`5`).
#[verifier::allow_in_spec]
pub fn box_massless_low_case(
    p1: &Expr,
    p2: &Expr,
    p3: &Expr,
    p4: &Expr,
    p12: &Expr,
    p23: &Expr,
    case: u8,
    mu_squared: &Expr,
) -> LaurentSeries
    returns
        ({
            let factor = Expr::num(1).over(&p12.times(p23));
            let l3 = physical_log(&p3.negated().over(mu_squared));
            let l4 = physical_log(&p4.negated().over(mu_squared));
            let l5 = physical_log(&p12.negated().over(mu_squared));
            let l6 = physical_log(&p23.negated().over(mu_squared));
            let scaled = factor.times(&p12.plus(p23).minus(p4));
            let li4 = dilog_complement(&p4.times(&scaled));
            let li5 = dilog_complement(&p12.times(&scaled));
            let li6 = dilog_complement(&p23.times(&scaled));
            if case == 5 {
                box_massless_two_opposite(p2, p4, p12, p23, mu_squared)
            } else if case == 3 {
                box_massless_three_nonzero(p2, p3, p4, p12, p23, mu_squared)
            } else if case == 4 {
                finite_series(box_finite_massless(p1, p2, p3, p4, p12, p23))
            } else if case == 0 {
                let ratio = l5.minus(&l6);
                with_box_normalization(
                    &LaurentSeries::new(
                        factor.times(
                            &l5.times(&l5).plus(&l6.times(&l6)).minus(&ratio.times(&ratio)).minus(
                                &pi_squared().times_int(4).over_int(3),
                            ),
                        ),
                        factor.times_int(-2i64).times(&l5.plus(&l6)),
                        factor.times_int(4),
                    ),
                )
            } else if case == 1 {
                with_box_normalization(
                    &LaurentSeries::new(
                        factor.times(
                            &l5.times(&l5).plus(&l6.times(&l6)).minus(&l4.times(&l4)).minus(&pi_squared().over_int(2)).plus(
                                &li5.plus(&li6).minus(&li4).times_int(2),
                            ),
                        ),
                        factor.times_int(2).times(&l4.minus(&l5).minus(&l6)),
                        factor.times_int(2),
                    ),
                )
            } else if case == 2 {
                let li54 = dilog_complement(&p4.over(p12));
                let li63 = dilog_complement(&p3.over(p23));
                let l345 = l3.plus(&l4).minus(&l5);
                with_box_normalization(
                    &LaurentSeries::new(
                        factor.times(
                            &l5.times(&l5).plus(&l6.times(&l6)).minus(&l3.times(&l3)).minus(&l4.times(&l4)).plus(
                                &l345.times(&l345).over_int(2),
                            ).minus(&pi_squared().over_int(12)).plus(
                                &li54.minus(&li63).plus(&li5).plus(&li6).minus(&li4).times_int(2),
                            ),
                        ),
                        factor.times(&l4.plus(&l3).minus(&l5).minus(&l6.times_int(2))),
                        factor,
                    ),
                )
            } else {
                with_box_normalization(&LaurentSeries::new(Expr::num(0), Expr::num(0), Expr::num(0)))
            }
        }),
{
    let factor = Expr::num(1).over(&p12.times(p23));
    let l3 = physical_log(&p3.negated().over(mu_squared));
    let l4 = physical_log(&p4.negated().over(mu_squared));
    let l5 = physical_log(&p12.negated().over(mu_squared));
    let l6 = physical_log(&p23.negated().over(mu_squared));
    let scaled = factor.times(&p12.plus(p23).minus(p4));
    let li4 = dilog_complement(&p4.times(&scaled));
    let li5 = dilog_complement(&p12.times(&scaled));
    let li6 = dilog_complement(&p23.times(&scaled));
    if case == 5 {
        box_massless_two_opposite(p2, p4, p12, p23, mu_squared)
    } else if case == 3 {
        box_massless_three_nonzero(p2, p3, p4, p12, p23, mu_squared)
    } else if case == 4 {
        finite_series(box_finite_massless(p1, p2, p3, p4, p12, p23))
    } else if case == 0 {
        let ratio = l5.minus(&l6);
        with_box_normalization(
            &LaurentSeries::new(
                factor.times(
                    &l5.times(&l5).plus(&l6.times(&l6)).minus(&ratio.times(&ratio)).minus(
                        &pi_squared().times_int(4).over_int(3),
                    ),
                ),
                factor.times_int(-2i64).times(&l5.plus(&l6)),
                factor.times_int(4),
            ),
        )
    } else if case == 1 {
        with_box_normalization(
            &LaurentSeries::new(
                factor.times(
                    &l5.times(&l5).plus(&l6.times(&l6)).minus(&l4.times(&l4)).minus(&pi_squared().over_int(2)).plus(
                        &li5.plus(&li6).minus(&li4).times_int(2),
                    ),
                ),
                factor.times_int(2).times(&l4.minus(&l5).minus(&l6)),
                factor.times_int(2),
            ),
        )
    } else if case == 2 {
        let li54 = dilog_complement(&p4.over(p12));
        let li63 = dilog_complement(&p3.over(p23));
        let l345 = l3.plus(&l4).minus(&l5);
        with_box_normalization(
            &LaurentSeries::new(
                factor.times(
                    &l5.times(&l5).plus(&l6.times(&l6)).minus(&l3.times(&l3)).minus(&l4.times(&l4)).plus(
                        &l345.times(&l345).over_int(2),
                    ).minus(&pi_squared().over_int(12)).plus(
                        &li54.minus(&li63).plus(&li5).plus(&li6).minus(&li4).times_int(2),
                    ),
                ),
                factor.times(&l4.plus(&l3).minus(&l5).minus(&l6.times_int(2))),
                factor,
            ),
        )
    } else {
        with_box_normalization(&LaurentSeries::new(Expr::num(0), Expr::num(0), Expr::num(0)))
    }
}

/// The series of branch `8 a + 4 b + 2 c + d`, where `a` .. `d` tell whether
/// the four conditions are nonzero.
#[verifier::allow_in_spec]
pub fn select_four_series(
    c1: &Expr,
    c2: &Expr,
    c3: &Expr,
    c4: &Expr,
    branches: &[LaurentSeries; 16],
) -> LaurentSeries
    returns
        ({
            let pair_0 = if_series(c4, &branches[1], &branches[0]);
            let pair_2 = if_series(c4, &branches[3], &branches[2]);
            let pair_4 = if_series(c4, &branches[5], &branches[4]);
            let pair_6 = if_series(c4, &branches[7], &branches[6]);
            let pair_8 = if_series(c4, &branches[9], &branches[8]);
            let pair_10 = if_series(c4, &branches[11], &branches[10]);
            let pair_12 = if_series(c4, &branches[13], &branches[12]);
            let pair_14 = if_series(c4, &branches[15], &branches[14]);
            if_series(
                c1,
                &if_series(c2, &if_series(c3, &pair_14, &pair_12), &if_series(c3, &pair_10, &pair_8)),
                &if_series(c2, &if_series(c3, &pair_6, &pair_4), &if_series(c3, &pair_2, &pair_0)),
            )
        }),
{
    let pair_0 = if_series(c4, &branches[1], &branches[0]);
    let pair_2 = if_series(c4, &branches[3], &branches[2]);
    let pair_4 = if_series(c4, &branches[5], &branches[4]);
    let pair_6 = if_series(c4, &branches[7], &branches[6]);
    let pair_8 = if_series(c4, &branches[9], &branches[8]);
    let pair_10 = if_series(c4, &branches[11], &branches[10]);
    let pair_12 = if_series(c4, &branches[13], &branches[12]);
    let pair_14 = if_series(c4, &branches[15], &branches[14]);
    if_series(
        c1,
        &if_series(c2, &if_series(c3, &pair_14, &pair_12), &if_series(c3, &pair_10, &pair_8)),
        &if_series(c2, &if_series(c3, &pair_6, &pair_4), &if_series(c3, &pair_2, &pair_0)),
    )
}

/// The massless box, dispatched on which legs are off shell.
#[verifier::allow_in_spec]
pub fn box_massless(p1: &Expr, p2: &Expr, p3: &Expr, p4: &Expr, p12: &Expr, p23: &Expr, mu_squared: &Expr) -> LaurentSeries
    returns
        ({
            let branches = [
                box_massless_low_case(p1, p2, p3, p4, p12, p23, 0, mu_squared),
                box_massless_low_case(p1, p2, p3, p4, p12, p23, 1, mu_squared),
                box_massless_low_case(p4, p1, p2, p3, p23, p12, 1, mu_squared),
                box_massless_low_case(p1, p2, p3, p4, p12, p23, 2, mu_squared),
                box_massless_low_case(p3, p4, p1, p2, p12, p23, 1, mu_squared),
                box_massless_low_case(p1, p2, p3, p4, p12, p23, 5, mu_squared),
                box_massless_low_case(p4, p1, p2, p3, p23, p12, 2, mu_squared),
                box_massless_low_case(p1, p2, p3, p4, p12, p23, 3, mu_squared),
                box_massless_low_case(p2, p3, p4, p1, p23, p12, 1, mu_squared),
                box_massless_low_case(p2, p3, p4, p1, p23, p12, 2, mu_squared),
                box_massless_low_case(p4, p1, p2, p3, p23, p12, 5, mu_squared),
                box_massless_low_case(p2, p3, p4, p1, p23, p12, 3, mu_squared),
                box_massless_low_case(p3, p4, p1, p2, p12, p23, 2, mu_squared),
                box_massless_low_case(p3, p4, p1, p2, p12, p23, 3, mu_squared),
                box_massless_low_case(p4, p1, p2, p3, p23, p12, 3, mu_squared),
                box_massless_low_case(p1, p2, p3, p4, p12, p23, 4, mu_squared),
            ];
            select_four_series(p1, p2, p3, p4, &branches)
        }),
{
    let branches = [
        box_massless_low_case(p1, p2, p3, p4, p12, p23, 0, mu_squared),
        box_massless_low_case(p1, p2, p3, p4, p12, p23, 1, mu_squared),
        box_massless_low_case(p4, p1, p2, p3, p23, p12, 1, mu_squared),
        box_massless_low_case(p1, p2, p3, p4, p12, p23, 2, mu_squared),
        box_massless_low_case(p3, p4, p1, p2, p12, p23, 1, mu_squared),
        box_massless_low_case(p1, p2, p3, p4, p12, p23, 5, mu_squared),
        box_massless_low_case(p4, p1, p2, p3, p23, p12, 2, mu_squared),
        box_massless_low_case(p1, p2, p3, p4, p12, p23, 3, mu_squared),
        box_massless_low_case(p2, p3, p4, p1, p23, p12, 1, mu_squared),
        box_massless_low_case(p2, p3, p4, p1, p23, p12, 2, mu_squared),
        box_massless_low_case(p4, p1, p2, p3, p23, p12, 5, mu_squared),
        box_massless_low_case(p2, p3, p4, p1, p23, p12, 3, mu_squared),
        box_massless_low_case(p3, p4, p1, p2, p12, p23, 2, mu_squared),
        box_massless_low_case(p3, p4, p1, p2, p12, p23, 3, mu_squared),
        box_massless_low_case(p4, p1, p2, p3, p23, p12, 3, mu_squared),
        box_massless_low_case(p1, p2, p3, p4, p12, p23, 4, mu_squared),
    ];
    select_four_series(p1, p2, p3, p4, &branches)
}

/// The argument list of the eleven arguments of a box sector.
#[verifier::allow_in_spec]
pub fn box_args(
    p1: &Expr,
    p2: &Expr,
    p3: &Expr,
    p4: &Expr,
    p12: &Expr,
    p23: &Expr,
    m1: &Expr,
    m2: &Expr,
    m3: &Expr,
    m4: &Expr,
    mu_squared: &Expr,
) -> crate::expr::Args
    returns
        args4(p1, p2, p3, p4).append(args7(p12, p23, m1, m2, m3, m4, mu_squared)),
{
    args4(p1, p2, p3, p4).append(args7(p12, p23, m1, m2, m3, m4, mu_squared))
}

/// The series of a canonical box sector over the arguments
/// `(p1, p2, p3, p4, p12, p23, m1, m2, m3, m4, mu^2)`: sector 0 is massless,
/// 1 has the fourth mass, 3 the third and fourth, 5 the second and fourth,
/// 7 all but the first, and 15 all four.
#[verifier::allow_in_spec]
pub fn canonical_box_sector(sector: u8) -> LaurentSeries
    returns
        ({
            let p1 = Expr::arg(0);
            let p2 = Expr::arg(1);
            let p3 = Expr::arg(2);
            let p4 = Expr::arg(3);
            let p12 = Expr::arg(4);
            let p23 = Expr::arg(5);
            let m1 = Expr::arg(6);
            let m2 = Expr::arg(7);
            let m3 = Expr::arg(8);
            let m4 = Expr::arg(9);
            let mu = Expr::arg(10);
            if sector == 0 {
                box_massless(&p1, &p2, &p3, &p4, &p12, &p23, &mu)
            } else if sector == 1 {
                box_one_mass(&p1, &p2, &p3, &p4, &p12, &p23, &m4, &mu)
            } else if sector == 3 {
                box_two_adjacent_ir(&p1, &p2, &p3, &p4, &p12, &p23, &m3, &m4, &mu)
            } else if sector == 5 {
                box_two_opposite_ir(&p1, &p2, &p3, &p4, &p12, &p23, &m2, &m4, &mu)
            } else if sector == 7 {
                box_three_masses_ir(&p1, &p2, &p3, &p4, &p12, &p23, &m1, &m2, &m3, &m4, &mu)
            } else {
                finite_series(box_finite_four_masses(&p1, &p2, &p3, &p4, &p12, &p23, &m1, &m2, &m3, &m4))
            }
        }),
{
    let p1 = Expr::arg(0);
    let p2 = Expr::arg(1);
    let p3 = Expr::arg(2);
    let p4 = Expr::arg(3);
    let p12 = Expr::arg(4);
    let p23 = Expr::arg(5);
    let m1 = Expr::arg(6);
    let m2 = Expr::arg(7);
    let m3 = Expr::arg(8);
    let m4 = Expr::arg(9);
    let mu = Expr::arg(10);
    if sector == 0 {
        box_massless(&p1, &p2, &p3, &p4, &p12, &p23, &mu)
    } else if sector == 1 {
        box_one_mass(&p1, &p2, &p3, &p4, &p12, &p23, &m4, &mu)
    } else if sector == 3 {
        box_two_adjacent_ir(&p1, &p2, &p3, &p4, &p12, &p23, &m3, &m4, &mu)
    } else if sector == 5 {
        box_two_opposite_ir(&p1, &p2, &p3, &p4, &p12, &p23, &m2, &m4, &mu)
    } else if sector == 7 {
        box_three_masses_ir(&p1, &p2, &p3, &p4, &p12, &p23, &m1, &m2, &m3, &m4, &mu)
    } else {
        finite_series(box_finite_four_masses(&p1, &p2, &p3, &p4, &p12, &p23, &m1, &m2, &m3, &m4))
    }
}

/// A call of the canonical sector `canonical` with the legs and the
/// propagators rotated by `shift` places.
#[verifier::allow_in_spec]
pub fn rotated_sector_call(canonical: u8, shift: u8, order: Order) -> Expr
    returns
        ({
            let x0 = Expr::arg(0);
            let x1 = Expr::arg(1);
            let x2 = Expr::arg(2);
            let x3 = Expr::arg(3);
            let x4 = Expr::arg(4);
            let x5 = Expr::arg(5);
            let x6 = Expr::arg(6);
            let x7 = Expr::arg(7);
            let x8 = Expr::arg(8);
            let x9 = Expr::arg(9);
            let x10 = Expr::arg(10);
            let f = Func::BoxSector(canonical, order);
            if shift == 1 {
                Expr::call(f, box_args(&x1, &x2, &x3, &x0, &x5, &x4, &x7, &x8, &x9, &x6, &x10))
            } else if shift == 2 {
                Expr::call(f, box_args(&x2, &x3, &x0, &x1, &x4, &x5, &x8, &x9, &x6, &x7, &x10))
            } else {
                Expr::call(f, box_args(&x3, &x0, &x1, &x2, &x5, &x4, &x9, &x6, &x7, &x8, &x10))
            }
        }),
{
    let x0 = Expr::arg(0);
    let x1 = Expr::arg(1);
    let x2 = Expr::arg(2);
    let x3 = Expr::arg(3);
    let x4 = Expr::arg(4);
    let x5 = Expr::arg(5);
    let x6 = Expr::arg(6);
    let x7 = Expr::arg(7);
    let x8 = Expr::arg(8);
    let x9 = Expr::arg(9);
    let x10 = Expr::arg(10);
    let f = Func::BoxSector(canonical, order);
    if shift == 1 {
        Expr::call(f, box_args(&x1, &x2, &x3, &x0, &x5, &x4, &x7, &x8, &x9, &x6, &x10))
    } else if shift == 2 {
        Expr::call(f, box_args(&x2, &x3, &x0, &x1, &x4, &x5, &x8, &x9, &x6, &x7, &x10))
    } else {
        Expr::call(f, box_args(&x3, &x0, &x1, &x2, &x5, &x4, &x9, &x6, &x7, &x8, &x10))
    }
}

/// The body of the helper `BoxSector(sector, order)`: the canonical sectors
/// 0, 1, 3, 5, 7 and 15, and the other mass patterns as rotations of them.
#[verifier::allow_in_spec]
pub fn box_sector_definition(sector: u8, order: Order) -> Expr
    returns
        ({
            if sector == 2 {
                rotated_sector_call(1, 3, order)
            } else if sector == 4 {
                rotated_sector_call(1, 2, order)
            } else if sector == 6 {
                rotated_sector_call(3, 3, order)
            } else if sector == 8 {
                rotated_sector_call(1, 1, order)
            } else if sector == 9 {
                rotated_sector_call(3, 1, order)
            } else if sector == 10 {
                rotated_sector_call(5, 3, order)
            } else if sector == 11 {
                rotated_sector_call(7, 1, order)
            } else if sector == 12 {
                rotated_sector_call(3, 2, order)
            } else if sector == 13 {
                rotated_sector_call(7, 2, order)
            } else if sector == 14 {
                rotated_sector_call(7, 3, order)
            } else {
                canonical_box_sector(sector).coefficient(order)
            }
        }),
{
    if sector == 2 {
        rotated_sector_call(1, 3, order)
    } else if sector == 4 {
        rotated_sector_call(1, 2, order)
    } else if sector == 6 {
        rotated_sector_call(3, 3, order)
    } else if sector == 8 {
        rotated_sector_call(1, 1, order)
    } else if sector == 9 {
        rotated_sector_call(3, 1, order)
    } else if sector == 10 {
        rotated_sector_call(5, 3, order)
    } else if sector == 11 {
        rotated_sector_call(7, 1, order)
    } else if sector == 12 {
        rotated_sector_call(3, 2, order)
    } else if sector == 13 {
        rotated_sector_call(7, 2, order)
    } else if sector == 14 {
        rotated_sector_call(7, 3, order)
    } else {
        canonical_box_sector(sector).coefficient(order)
    }
}

/// `ordinary`, unless both channels vanish; then `paired_13` where the
/// smaller invariant of the legs 1 and 3 is the smallest pair minimum, or
/// `paired_24` where that of the legs 2 and 4 is.
#[verifier::allow_in_spec]
pub fn channel_select(
    hard: &Expr,
    choose13: &Expr,
    choose24: &Expr,
    ordinary: &Expr,
    paired_13: &Expr,
    paired_24: &Expr,
) -> Expr
    returns
        if_nonzero_else(
            hard,
            ordinary,
            &if_nonzero_else(choose13, paired_13, &if_nonzero_else(choose24, paired_24, ordinary)),
        ),
{
    if_nonzero_else(hard, ordinary, &if_nonzero_else(choose13, paired_13, &if_nonzero_else(choose24, paired_24, ordinary)))
}

/// The series of box sector `sector`, as calls of its helpers.
#[verifier::allow_in_spec]
pub fn box_sector_call(sector: u8, arguments: &crate::expr::Args) -> LaurentSeries
    returns
        LaurentSeries::new(
            Expr::call(Func::BoxSector(sector, Order::Finite), *arguments),
            Expr::call(Func::BoxSector(sector, Order::SimplePole), *arguments),
            Expr::call(Func::BoxSector(sector, Order::DoublePole), *arguments),
        ),
{
    LaurentSeries::new(
        Expr::call(Func::BoxSector(sector, Order::Finite), arguments.clone()),
        Expr::call(Func::BoxSector(sector, Order::SimplePole), arguments.clone()),
        Expr::call(Func::BoxSector(sector, Order::DoublePole), arguments.clone()),
    )
}

/// The scalar box `D0` with momenta
/// `[p1^2, p2^2, p3^2, p4^2, (p1 + p2)^2, (p2 + p3)^2]`, squared masses in
/// propagator order and the squared scale.
///
/// Where a channel vanishes, the legs are first relabelled so that the
/// channels become a nonzero pair; then the box is dispatched on which
/// masses are exactly zero.
#[verifier::allow_in_spec]
pub fn d0(
    p1: &Expr,
    p2: &Expr,
    p3: &Expr,
    p4: &Expr,
    p12: &Expr,
    p23: &Expr,
    m1: &Expr,
    m2: &Expr,
    m3: &Expr,
    m4: &Expr,
    mu_squared: &Expr,
) -> LaurentSeries
    returns
        ({
            let min13 = crate::box_contour::min(&p1.modulus(), &p3.modulus());
            let min24 = crate::box_contour::min(&p2.modulus(), &p4.modulus());
            let min56 = crate::box_contour::min(&p12.modulus(), &p23.modulus());
            let choose13 = negative(&min24.minus(&min13)).times(&negative(&min56.minus(&min13)));
            let choose24 = negative(&min13.minus(&min24)).times(&negative(&min56.minus(&min24)));
            let hard = if_nonzero(p12, &if_nonzero(p23, &Expr::num(1)));
            let q1 = channel_select(&hard, &choose13, &choose24, p1, p12, p1);
            let q2 = channel_select(&hard, &choose13, &choose24, p2, p2, p23);
            let q3 = channel_select(&hard, &choose13, &choose24, p3, p23, p3);
            let q4 = channel_select(&hard, &choose13, &choose24, p4, p4, p12);
            let q12 = channel_select(&hard, &choose13, &choose24, p12, p1, p4);
            let q23 = channel_select(&hard, &choose13, &choose24, p23, p3, p2);
            let n1 = channel_select(&hard, &choose13, &choose24, m1, m1, m1);
            let n2 = channel_select(&hard, &choose13, &choose24, m2, m3, m2);
            let n3 = channel_select(&hard, &choose13, &choose24, m3, m2, m4);
            let n4 = channel_select(&hard, &choose13, &choose24, m4, m4, m3);
            let arguments = box_args(&q1, &q2, &q3, &q4, &q12, &q23, &n1, &n2, &n3, &n4, mu_squared);
            let branches = [
                box_sector_call(0, &arguments),
                box_sector_call(1, &arguments),
                box_sector_call(2, &arguments),
                box_sector_call(3, &arguments),
                box_sector_call(4, &arguments),
                box_sector_call(5, &arguments),
                box_sector_call(6, &arguments),
                box_sector_call(7, &arguments),
                box_sector_call(8, &arguments),
                box_sector_call(9, &arguments),
                box_sector_call(10, &arguments),
                box_sector_call(11, &arguments),
                box_sector_call(12, &arguments),
                box_sector_call(13, &arguments),
                box_sector_call(14, &arguments),
                box_sector_call(15, &arguments),
            ];
            select_four_series(&n1, &n2, &n3, &n4, &branches)
        }),
{
    let min13 = crate::box_contour::min(&p1.modulus(), &p3.modulus());
    let min24 = crate::box_contour::min(&p2.modulus(), &p4.modulus());
    let min56 = crate::box_contour::min(&p12.modulus(), &p23.modulus());
    let choose13 = negative(&min24.minus(&min13)).times(&negative(&min56.minus(&min13)));
    let choose24 = negative(&min13.minus(&min24)).times(&negative(&min56.minus(&min24)));
    let hard = if_nonzero(p12, &if_nonzero(p23, &Expr::num(1)));
    let q1 = channel_select(&hard, &choose13, &choose24, p1, p12, p1);
    let q2 = channel_select(&hard, &choose13, &choose24, p2, p2, p23);
    let q3 = channel_select(&hard, &choose13, &choose24, p3, p23, p3);
    let q4 = channel_select(&hard, &choose13, &choose24, p4, p4, p12);
    let q12 = channel_select(&hard, &choose13, &choose24, p12, p1, p4);
    let q23 = channel_select(&hard, &choose13, &choose24, p23, p3, p2);
    let n1 = channel_select(&hard, &choose13, &choose24, m1, m1, m1);
    let n2 = channel_select(&hard, &choose13, &choose24, m2, m3, m2);
    let n3 = channel_select(&hard, &choose13, &choose24, m3, m2, m4);
    let n4 = channel_select(&hard, &choose13, &choose24, m4, m4, m3);
    let arguments = box_args(&q1, &q2, &q3, &q4, &q12, &q23, &n1, &n2, &n3, &n4, mu_squared);
    let branches = [
        box_sector_call(0, &arguments),
        box_sector_call(1, &arguments),
        box_sector_call(2, &arguments),
        box_sector_call(3, &arguments),
        box_sector_call(4, &arguments),
        box_sector_call(5, &arguments),
        box_sector_call(6, &arguments),
        box_sector_call(7, &arguments),
        box_sector_call(8, &arguments),
        box_sector_call(9, &arguments),
        box_sector_call(10, &arguments),
        box_sector_call(11, &arguments),
        box_sector_call(12, &arguments),
        box_sector_call(13, &arguments),
        box_sector_call(14, &arguments),
        box_sector_call(15, &arguments),
    ];
    select_four_series(&n1, &n2, &n3, &n4, &branches)
}

/// Where the four conditions fold to integers, [`select_four_series`]
/// folds to the branch numbered by which of them are nonzero, the first
/// condition the highest bit.
pub proof fn lemma_select_four_series_dispatch(
    c1: Expr,
    c2: Expr,
    c3: Expr,
    c4: Expr,
    branches: [LaurentSeries; 16],
    order: Order,
    k1: i64,
    k2: i64,
    k3: i64,
    k4: i64,
)
    requires
        folded(c1) == Expr::Int(k1),
        folded(c2) == Expr::Int(k2),
        folded(c3) == Expr::Int(k3),
        folded(c4) == Expr::Int(k4),
    ensures
        folded(select_four_series(&c1, &c2, &c3, &c4, &branches).coefficient(order)) == folded(
            branches[spec_four_index(k1 != 0, k2 != 0, k3 != 0, k4 != 0) as int].coefficient(order),
        ),
{
    let b = branches@;
    let pair_0 = if_series(&c4, &b[1], &b[0]);
    let pair_2 = if_series(&c4, &b[3], &b[2]);
    let pair_4 = if_series(&c4, &b[5], &b[4]);
    let pair_6 = if_series(&c4, &b[7], &b[6]);
    let pair_8 = if_series(&c4, &b[9], &b[8]);
    let pair_10 = if_series(&c4, &b[11], &b[10]);
    let pair_12 = if_series(&c4, &b[13], &b[12]);
    let pair_14 = if_series(&c4, &b[15], &b[14]);
    lemma_folded_if_series(c4, b[1], b[0], order, k4);
    lemma_folded_if_series(c4, b[3], b[2], order, k4);
    lemma_folded_if_series(c4, b[5], b[4], order, k4);
    lemma_folded_if_series(c4, b[7], b[6], order, k4);
    lemma_folded_if_series(c4, b[9], b[8], order, k4);
    lemma_folded_if_series(c4, b[11], b[10], order, k4);
    lemma_folded_if_series(c4, b[13], b[12], order, k4);
    lemma_folded_if_series(c4, b[15], b[14], order, k4);
    let q7 = if_series(&c3, &pair_14, &pair_12);
    let q6 = if_series(&c3, &pair_10, &pair_8);
    let q5 = if_series(&c3, &pair_6, &pair_4);
    let q4 = if_series(&c3, &pair_2, &pair_0);
    lemma_folded_if_series(c3, pair_14, pair_12, order, k3);
    lemma_folded_if_series(c3, pair_10, pair_8, order, k3);
    lemma_folded_if_series(c3, pair_6, pair_4, order, k3);
    lemma_folded_if_series(c3, pair_2, pair_0, order, k3);
    lemma_folded_if_series(c2, q7, q6, order, k2);
    lemma_folded_if_series(c2, q5, q4, order, k2);
    lemma_folded_if_series(c1, if_series(&c2, &q7, &q6), if_series(&c2, &q5, &q4), order, k1);
}

/// Where both channels fold to nonzero integers and the squared masses fold
/// to integers, every coefficient of the box folds to the call of the box
/// sector whose masses are nonzero where the given ones are.
pub proof fn lemma_d0_dispatches_on_zero_masses(
    p1: Expr,
    p2: Expr,
    p3: Expr,
    p4: Expr,
    p12: Expr,
    p23: Expr,
    m1: Expr,
    m2: Expr,
    m3: Expr,
    m4: Expr,
    mu_squared: Expr,
    order: Order,
    c12: i64,
    c23: i64,
    k1: i64,
    k2: i64,
    k3: i64,
    k4: i64,
)
    requires
        folded(p12) == Expr::Int(c12),
        folded(p23) == Expr::Int(c23),
        c12 != 0,
        c23 != 0,
        folded(m1) == Expr::Int(k1),
        folded(m2) == Expr::Int(k2),
        folded(m3) == Expr::Int(k3),
        folded(m4) == Expr::Int(k4),
    ensures
        folded(d0(&p1, &p2, &p3, &p4, &p12, &p23, &m1, &m2, &m3, &m4, &mu_squared).coefficient(order)) matches Expr::Call(
            f,
            _,
        ) && f == Func::BoxSector(spec_four_index(k1 != 0, k2 != 0, k3 != 0, k4 != 0) as u8, order),
{
    let min13 = crate::box_contour::min(&p1.modulus(), &p3.modulus());
    let min24 = crate::box_contour::min(&p2.modulus(), &p4.modulus());
    let min56 = crate::box_contour::min(&p12.modulus(), &p23.modulus());
    let choose13 = negative(&min24.minus(&min13)).times(&negative(&min56.minus(&min13)));
    let choose24 = negative(&min13.minus(&min24)).times(&negative(&min56.minus(&min24)));
    let hard = if_nonzero(&p12, &if_nonzero(&p23, &Expr::num(1)));
    lemma_folded_if(p23, Expr::Int(1), Expr::Int(0), c23);
    lemma_folded_if(p12, if_nonzero(&p23, &Expr::num(1)), Expr::Int(0), c12);
    assert(folded(hard) == Expr::Int(1));
    let q1 = channel_select(&hard, &choose13, &choose24, &p1, &p12, &p1);
    let q2 = channel_select(&hard, &choose13, &choose24, &p2, &p2, &p23);
    let q3 = channel_select(&hard, &choose13, &choose24, &p3, &p23, &p3);
    let q4 = channel_select(&hard, &choose13, &choose24, &p4, &p4, &p12);
    let q12 = channel_select(&hard, &choose13, &choose24, &p12, &p1, &p4);
    let q23 = channel_select(&hard, &choose13, &choose24, &p23, &p3, &p2);
    let n1 = channel_select(&hard, &choose13, &choose24, &m1, &m1, &m1);
    let n2 = channel_select(&hard, &choose13, &choose24, &m2, &m3, &m2);
    let n3 = channel_select(&hard, &choose13, &choose24, &m3, &m2, &m4);
    let n4 = channel_select(&hard, &choose13, &choose24, &m4, &m4, &m3);
    lemma_folded_if(hard, m1, if_nonzero_else(&choose13, &m1, &if_nonzero_else(&choose24, &m1, &m1)), 1);
    lemma_folded_if(hard, m2, if_nonzero_else(&choose13, &m3, &if_nonzero_else(&choose24, &m2, &m2)), 1);
    lemma_folded_if(hard, m3, if_nonzero_else(&choose13, &m2, &if_nonzero_else(&choose24, &m4, &m3)), 1);
    lemma_folded_if(hard, m4, if_nonzero_else(&choose13, &m4, &if_nonzero_else(&choose24, &m3, &m4)), 1);
    let arguments = box_args(&q1, &q2, &q3, &q4, &q12, &q23, &n1, &n2, &n3, &n4, &mu_squared);
    let branches = [
        box_sector_call(0, &arguments),
        box_sector_call(1, &arguments),
        box_sector_call(2, &arguments),
        box_sector_call(3, &arguments),
        box_sector_call(4, &arguments),
        box_sector_call(5, &arguments),
        box_sector_call(6, &arguments),
        box_sector_call(7, &arguments),
        box_sector_call(8, &arguments),
        box_sector_call(9, &arguments),
        box_sector_call(10, &arguments),
        box_sector_call(11, &arguments),
        box_sector_call(12, &arguments),
        box_sector_call(13, &arguments),
        box_sector_call(14, &arguments),
        box_sector_call(15, &arguments),
    ];
    let index = spec_four_index(k1 != 0, k2 != 0, k3 != 0, k4 != 0);
    assert(branches@[index as int] == box_sector_call(index as u8, &arguments));
    assert(d0(&p1, &p2, &p3, &p4, &p12, &p23, &m1, &m2, &m3, &m4, &mu_squared) == select_four_series(
        &n1,
        &n2,
        &n3,
        &n4,
        &branches,
    ));
    lemma_select_four_series_dispatch(n1, n2, n3, n4, branches, order, k1, k2, k3, k4);
}

/// The relabeled call of a canonical box sector passes its formal
/// arguments reordered by the relabeling of `shift` vertices.
proof fn lemma_rotated_sector_call_arguments(canonical: u8, shift: u8, order: Order)
    requires
        1 <= shift < 4,
    ensures
        rotated_sector_call(canonical, shift, order) == Expr::Call(
            Func::BoxSector(canonical, order),
            Rc::new(args_of(arguments_at(spec_box_rotation(shift as nat)))),
        ),
{
    let x = Seq::new(11, |i: int| Expr::Arg(i as u32));
    let a = arguments_at(spec_box_rotation(shift as nat));
    let head = a.take(4);
    let tail = a.skip(4);
    assert(a =~= head + tail);
    lemma_args_of_append(head, tail);
    if shift == 1 {
        assert(head =~= seq![x[1], x[2], x[3], x[0]]);
        assert(tail =~= seq![x[5], x[4], x[7], x[8], x[9], x[6], x[10]]);
        lemma_args4_of(x[1], x[2], x[3], x[0]);
        lemma_args7_of(x[5], x[4], x[7], x[8], x[9], x[6], x[10]);
    } else if shift == 2 {
        assert(head =~= seq![x[2], x[3], x[0], x[1]]);
        assert(tail =~= seq![x[4], x[5], x[8], x[9], x[6], x[7], x[10]]);
        lemma_args4_of(x[2], x[3], x[0], x[1]);
        lemma_args7_of(x[4], x[5], x[8], x[9], x[6], x[7], x[10]);
    } else {
        assert(head =~= seq![x[3], x[0], x[1], x[2]]);
        assert(tail =~= seq![x[5], x[4], x[9], x[6], x[7], x[8], x[10]]);
        lemma_args4_of(x[3], x[0], x[1], x[2]);
        lemma_args7_of(x[5], x[4], x[9], x[6], x[7], x[8], x[10]);
    }
}

/// A box sector without a formula of its own is the call of the canonical
/// sector it rotates to, with its legs, channels and propagators relabeled
/// as the sector table says; the other sectors are their own formulas.
pub proof fn lemma_box_sector_definitions_rotate(sector: u8, order: Order)
    requires
        sector < 16,
    ensures
        match spec_box_sector(sector as nat) {
            BoxSector::Rotated { canonical, shift } => box_sector_definition(sector, order) == Expr::Call(
                Func::BoxSector(canonical as u8, order),
                Rc::new(args_of(arguments_at(spec_box_rotation(shift as nat)))),
            ),
            BoxSector::Canonical => box_sector_definition(sector, order) == canonical_box_sector(sector).coefficient(order),
        },
{
    match spec_box_sector(sector as nat) {
        BoxSector::Rotated { canonical, shift } => {
            lemma_rotated_sector_call_arguments(canonical as u8, shift as u8, order);
        },
        BoxSector::Canonical => {},
    }
}

/// The case number of [`box_massless_low_case`] that evaluates a massless
/// box case.
pub open spec fn massless_case_code(case: MasslessBoxCase) -> u8 {
    match case {
        MasslessBoxCase::NoScale => 0,
        MasslessBoxCase::OneScale => 1,
        MasslessBoxCase::AdjacentScales => 2,
        MasslessBoxCase::ThreeScales => 3,
        MasslessBoxCase::Finite => 4,
        MasslessBoxCase::OppositeScales => 5,
    }
}

/// The series the massless box routes the off-shell pattern `pattern` to:
/// the low case of the pattern's case, on the invariants relabeled by the
/// pattern's vertex shift.
pub open spec fn massless_route(pattern: nat, invariants: Seq<Expr>, mu_squared: Expr) -> LaurentSeries {
    let r = spec_box_momentum_rotation(spec_massless_shift(pattern));
    box_massless_low_case(
        &invariants[r[0] as int],
        &invariants[r[1] as int],
        &invariants[r[2] as int],
        &invariants[r[3] as int],
        &invariants[r[4] as int],
        &invariants[r[5] as int],
        massless_case_code(spec_massless_case(pattern)),
        &mu_squared,
    )
}

/// Where the four external squares fold to integers, every coefficient of
/// the massless box folds to that of the low case of its off-shell pattern,
/// evaluated on the invariants relabeled so that the pattern becomes the
/// case's own.
pub proof fn lemma_box_massless_routes_off_shell_patterns(
    p1: Expr,
    p2: Expr,
    p3: Expr,
    p4: Expr,
    p12: Expr,
    p23: Expr,
    mu_squared: Expr,
    order: Order,
    k1: i64,
    k2: i64,
    k3: i64,
    k4: i64,
)
    requires
        folded(p1) == Expr::Int(k1),
        folded(p2) == Expr::Int(k2),
        folded(p3) == Expr::Int(k3),
        folded(p4) == Expr::Int(k4),
    ensures
        folded(box_massless(&p1, &p2, &p3, &p4, &p12, &p23, &mu_squared).coefficient(order)) == folded(
            massless_route(
                spec_four_index(k1 != 0, k2 != 0, k3 != 0, k4 != 0),
                seq![p1, p2, p3, p4, p12, p23],
                mu_squared,
            ).coefficient(order),
        ),
{
    let branches = [
        box_massless_low_case(&p1, &p2, &p3, &p4, &p12, &p23, 0, &mu_squared),
        box_massless_low_case(&p1, &p2, &p3, &p4, &p12, &p23, 1, &mu_squared),
        box_massless_low_case(&p4, &p1, &p2, &p3, &p23, &p12, 1, &mu_squared),
        box_massless_low_case(&p1, &p2, &p3, &p4, &p12, &p23, 2, &mu_squared),
        box_massless_low_case(&p3, &p4, &p1, &p2, &p12, &p23, 1, &mu_squared),
        box_massless_low_case(&p1, &p2, &p3, &p4, &p12, &p23, 5, &mu_squared),
        box_massless_low_case(&p4, &p1, &p2, &p3, &p23, &p12, 2, &mu_squared),
        box_massless_low_case(&p1, &p2, &p3, &p4, &p12, &p23, 3, &mu_squared),
        box_massless_low_case(&p2, &p3, &p4, &p1, &p23, &p12, 1, &mu_squared),
        box_massless_low_case(&p2, &p3, &p4, &p1, &p23, &p12, 2, &mu_squared),
        box_massless_low_case(&p4, &p1, &p2, &p3, &p23, &p12, 5, &mu_squared),
        box_massless_low_case(&p2, &p3, &p4, &p1, &p23, &p12, 3, &mu_squared),
        box_massless_low_case(&p3, &p4, &p1, &p2, &p12, &p23, 2, &mu_squared),
        box_massless_low_case(&p3, &p4, &p1, &p2, &p12, &p23, 3, &mu_squared),
        box_massless_low_case(&p4, &p1, &p2, &p3, &p23, &p12, 3, &mu_squared),
        box_massless_low_case(&p1, &p2, &p3, &p4, &p12, &p23, 4, &mu_squared),
    ];
    let v = seq![p1, p2, p3, p4, p12, p23];
    let pattern = spec_four_index(k1 != 0, k2 != 0, k3 != 0, k4 != 0);
    assert(branches@[pattern as int] == massless_route(pattern, v, mu_squared)) by {
        assert(v[0] == p1 && v[1] == p2 && v[2] == p3 && v[3] == p4 && v[4] == p12 && v[5] == p23);
    }
    lemma_select_four_series_dispatch(p1, p2, p3, p4, branches, order, k1, k2, k3, k4);
}

} // verus!
