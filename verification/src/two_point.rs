//! Tadpoles and bubbles, and their tensor coefficients through rank four.
//!
//! Masses and scales are squared quantities. A literal zero argument selects
//! the scaleless formulas while the expression is built; any other argument
//! is tested for an exact zero when the expression is evaluated.
use vstd::prelude::*;
use crate::expr::{Expr, if_nonzero, if_nonzero_else};
use crate::elementary::{physical_log, upper_log};
use crate::series::{LaurentSeries, zero_series};

verus! {

/// Error for tensor ranks above four.
#[derive(Clone, Copy, Debug, PartialEq, Eq, Structural)]
pub struct UnsupportedRank(pub usize);

/// `value log(value / mu^2)`, zero at `value = 0`.
#[verifier::allow_in_spec]
pub fn x_log_ratio(value: &Expr, mu_squared: &Expr) -> Expr
    returns
        ({
            if value.is_literal_zero() {
                Expr::num(0)
            } else {
                if_nonzero(value, &value.times(&physical_log(&value.over(mu_squared))))
            }
        }),
{
    if value.is_literal_zero() {
        Expr::num(0)
    } else {
        if_nonzero(value, &value.times(&physical_log(&value.over(mu_squared))))
    }
}

/// `1/1 + 1/2 + ... + 1/n`, summed from the left starting at zero.
pub open spec fn harmonic_sum(n: nat) -> Expr
    decreases n,
{
    if n == 0 {
        Expr::Int(0)
    } else {
        harmonic_sum((n - 1) as nat).plus(&Expr::Int(1).over(&Expr::Int(n as i64)))
    }
}

/// `-(1/1 + ... + 1/(rank + 1))`.
#[verifier::allow_in_spec]
pub fn harmonic(rank: usize) -> Expr
    requires
        rank <= 4,
    returns
        harmonic_sum((rank + 1) as nat).negated(),
{
    let mut sum = Expr::num(0);
    let mut index: usize = 1;
    while index <= rank + 1
        invariant
            1 <= index <= rank + 2,
            rank <= 4,
            sum == harmonic_sum((index - 1) as nat),
        decreases rank + 2 - index,
    {
        sum = sum.plus(&Expr::num(1).over(&Expr::num(index as i64)));
        index = index + 1;
    }
    sum.negated()
}

/// `root^k`, as a product starting from one.
pub open spec fn root_power_of(root: Expr, k: nat) -> Expr
    decreases k,
{
    if k == 0 {
        Expr::Int(1)
    } else {
        root_power_of(root, (k - 1) as nat).times(&root)
    }
}

/// `sum_{p < k} root^p / (rank + 1 - p)`, summed from the left.
pub open spec fn polynomial_of(root: Expr, rank: nat, k: nat) -> Expr
    decreases k,
{
    if k == 0 {
        Expr::Int(0)
    } else {
        polynomial_of(root, rank, (k - 1) as nat).plus(
            &root_power_of(root, (k - 1) as nat).over_int((rank + 1 - (k - 1)) as i64),
        )
    }
}

/// The polynomial and the power `root^(rank + 1)` of the subtraction in
/// `bnlog`.
#[verifier::allow_in_spec]
pub fn bnlog_polynomial(rank: usize, root: &Expr) -> (Expr, Expr)
    requires
        rank <= 4,
    returns
        (polynomial_of(*root, rank as nat, (rank + 1) as nat), root_power_of(*root, (rank + 1) as nat)),
{
    let mut root_power = Expr::num(1);
    let mut polynomial = Expr::num(0);
    let mut power: usize = 0;
    while power <= rank
        invariant
            power <= rank + 1,
            rank <= 4,
            root_power == root_power_of(*root, power as nat),
            polynomial == polynomial_of(*root, rank as nat, power as nat),
        decreases rank + 1 - power,
    {
        polynomial = polynomial.plus(&root_power.over_int((rank + 1 - power) as i64));
        root_power = root_power.times(root);
        power = power + 1;
    }
    (polynomial, root_power)
}

/// `(1 - root^(n+1)) log(1 - 1/root) - sum_{p <= n} root^p / (n + 1 - p)`
/// for `n = rank`, with its limits at `root = 0` and `root = 1`; the
/// logarithm on the upper lip where `upper_lip` is set.
#[verifier::allow_in_spec]
pub fn bnlog_with_real_axis_lip(rank: usize, root: &Expr, upper_lip: bool) -> Expr
    requires
        rank <= 4,
    returns
        ({
            if root.is_literal_zero() {
                Expr::num(0)
            } else if root.is_literal(1) {
                harmonic(rank)
            } else {
                let parts = bnlog_polynomial(rank, root);
                let argument = Expr::num(1).over(root).int_minus(1);
                let logarithm = if upper_lip {
                    upper_log(&argument)
                } else {
                    physical_log(&argument)
                };
                let regular = parts.1.int_minus(1).times(&logarithm).minus(&parts.0);
                if_nonzero_else(root, &if_nonzero_else(&root.int_minus(1), &regular, &harmonic(rank)), &Expr::num(0))
            }
        }),
{
    if root.is_literal_zero() {
        Expr::num(0)
    } else if root.is_literal(1) {
        harmonic(rank)
    } else {
        let parts = bnlog_polynomial(rank, root);
        let argument = Expr::num(1).over(root).int_minus(1);
        let logarithm = if upper_lip {
            upper_log(&argument)
        } else {
            physical_log(&argument)
        };
        let regular = parts.1.int_minus(1).times(&logarithm).minus(&parts.0);
        if_nonzero_else(root, &if_nonzero_else(&root.int_minus(1), &regular, &harmonic(rank)), &Expr::num(0))
    }
}

/// `bnlog` on the lower lip.
#[verifier::allow_in_spec]
pub fn bnlog(rank: usize, root: &Expr) -> Expr
    requires
        rank <= 4,
    returns
        bnlog_with_real_axis_lip(rank, root, false),
{
    bnlog_with_real_axis_lip(rank, root, false)
}

/// `bnlog` of rank zero.
#[verifier::allow_in_spec]
pub fn bnlog0(root: &Expr) -> Expr
    returns
        bnlog(0, root),
{
    bnlog(0, root)
}

/// The finite part of `B0` at zero momentum.
#[verifier::allow_in_spec]
pub fn b0_at_zero_momentum(mass_0: &Expr, mass_1: &Expr, mu_squared: &Expr) -> Expr
    returns
        ({
            let difference = mass_0.minus(mass_1);
            let unequal = x_log_ratio(mass_0, mu_squared).minus(&x_log_ratio(mass_1, mu_squared)).over(&difference).int_minus(1);
            let equal = if mass_0.is_literal_zero() {
                Expr::num(0)
            } else {
                if_nonzero(mass_0, &physical_log(&mass_0.over(mu_squared)).negated())
            };
            if_nonzero_else(&difference, &unequal, &equal)
        }),
{
    let difference = mass_0.minus(mass_1);
    let unequal = x_log_ratio(mass_0, mu_squared).minus(&x_log_ratio(mass_1, mu_squared)).over(&difference).int_minus(1);
    let equal = if mass_0.is_literal_zero() {
        Expr::num(0)
    } else {
        if_nonzero(mass_0, &physical_log(&mass_0.over(mu_squared)).negated())
    };
    if_nonzero_else(&difference, &unequal, &equal)
}

/// The finite part of `B0` with a massless first propagator.
#[verifier::allow_in_spec]
pub fn b0_with_first_mass_zero(momentum: &Expr, mass_1: &Expr, mu_squared: &Expr) -> Expr
    returns
        ({
            let shifted_mass = mass_1.minus(momentum);
            x_log_ratio(mass_1, mu_squared).minus(&x_log_ratio(&shifted_mass, mu_squared)).over(momentum).int_minus(2)
        }),
{
    let shifted_mass = mass_1.minus(momentum);
    x_log_ratio(mass_1, mu_squared).minus(&x_log_ratio(&shifted_mass, mu_squared)).over(momentum).int_minus(2)
}

/// The finite part of `B0` at nonzero momentum and first mass.
#[verifier::allow_in_spec]
pub fn b0_with_nonzero_momentum_and_mass(momentum: &Expr, mass_0: &Expr, mass_1: &Expr, mu_squared: &Expr) -> Expr
    returns
        ({
            let linear = mass_1.minus(mass_0).minus(momentum);
            let discriminant = linear.times(&linear).minus(&momentum.times_int(4).times(mass_0)).root();
            let denominator = momentum.times_int(2);
            let root_plus = linear.negated().plus(&discriminant).over(&denominator);
            let root_minus = linear.negated().minus(&discriminant).over(&denominator);
            physical_log(&mass_0.over(mu_squared)).negated().minus(&bnlog_with_real_axis_lip(0, &root_plus, true)).minus(
                &bnlog0(&root_minus),
            )
        }),
{
    let linear = mass_1.minus(mass_0).minus(momentum);
    let discriminant = linear.times(&linear).minus(&momentum.times_int(4).times(mass_0)).root();
    let denominator = momentum.times_int(2);
    let root_plus = linear.negated().plus(&discriminant).over(&denominator);
    let root_minus = linear.negated().minus(&discriminant).over(&denominator);
    physical_log(&mass_0.over(mu_squared)).negated().minus(&bnlog_with_real_axis_lip(0, &root_plus, true)).minus(
        &bnlog0(&root_minus),
    )
}

/// The finite part of `B0` at nonzero momentum.
#[verifier::allow_in_spec]
pub fn b0_with_nonzero_momentum(momentum: &Expr, mass_0: &Expr, mass_1: &Expr, mu_squared: &Expr) -> Expr
    returns
        ({
            if mass_0.is_literal_zero() {
                b0_with_first_mass_zero(momentum, mass_1, mu_squared)
            } else {
                if_nonzero_else(
                    mass_0,
                    &b0_with_nonzero_momentum_and_mass(momentum, mass_0, mass_1, mu_squared),
                    &b0_with_first_mass_zero(momentum, mass_1, mu_squared),
                )
            }
        }),
{
    if mass_0.is_literal_zero() {
        b0_with_first_mass_zero(momentum, mass_1, mu_squared)
    } else {
        if_nonzero_else(
            mass_0,
            &b0_with_nonzero_momentum_and_mass(momentum, mass_0, mass_1, mu_squared),
            &b0_with_first_mass_zero(momentum, mass_1, mu_squared),
        )
    }
}

/// `(log(value) / (value - 1) - 1) / (value - 1) + 1/2) / (value - 1)`, with
/// its limit one third at `value = 1`.
#[verifier::allow_in_spec]
pub fn ordinary_log3(value: &Expr) -> Expr
    returns
        ({
            let delta = value.minus(&Expr::num(1));
            let regular = physical_log(value).over(&delta).minus(&Expr::num(1)).over(&delta).plus(
                &Expr::num(1).over_int(2),
            ).over(&delta);
            if_nonzero_else(&delta, &regular, &Expr::num(1).over_int(3))
        }),
{
    let delta = value.minus(&Expr::num(1));
    let regular = physical_log(value).over(&delta).minus(&Expr::num(1)).over(&delta).plus(
        &Expr::num(1).over_int(2),
    ).over(&delta);
    if_nonzero_else(&delta, &regular, &Expr::num(1).over_int(3))
}

/// The derivative of `B0` at zero momentum.
#[verifier::allow_in_spec]
pub fn db0_at_zero_momentum(mass_0: &Expr, mass_1: &Expr) -> Expr
    returns
        ({
            if mass_1.is_literal_zero() {
                if mass_0.is_literal_zero() {
                    Expr::indeterminate()
                } else {
                    Expr::num(1).over(&mass_0.times_int(2))
                }
            } else if mass_0.is_literal_zero() {
                Expr::num(1).over(&mass_1.times_int(2))
            } else {
                let difference = mass_0.minus(mass_1);
                let ratio = mass_0.over(mass_1);
                let denominator_real = mass_1.plus(&mass_1.conjugate());
                let negative_denominator = denominator_real.minus(&denominator_real.modulus());
                let continued_log3 = if_nonzero_else(
                    &negative_denominator,
                    &ordinary_log3(&ratio),
                    &ordinary_log3(&ratio.conjugate()).conjugate(),
                );
                let unequal = Expr::num(1).over_int(2).minus(&ratio.times(&continued_log3)).over(mass_1);
                let equal = Expr::num(1).over(&mass_1.times_int(6));
                let both_nonzero = if_nonzero_else(&difference, &unequal, &equal);
                let first_massless = Expr::num(1).over(&mass_1.times_int(2));
                let second_massless = if_nonzero_else(
                    mass_0,
                    &Expr::num(1).over(&mass_0.times_int(2)),
                    &Expr::num(1).over(&mass_0.plus(mass_1)),
                );
                if_nonzero_else(mass_1, &if_nonzero_else(mass_0, &both_nonzero, &first_massless), &second_massless)
            }
        }),
{
    if mass_1.is_literal_zero() {
        if mass_0.is_literal_zero() {
            Expr::indeterminate()
        } else {
            Expr::num(1).over(&mass_0.times_int(2))
        }
    } else if mass_0.is_literal_zero() {
        Expr::num(1).over(&mass_1.times_int(2))
    } else {
        let difference = mass_0.minus(mass_1);
        let ratio = mass_0.over(mass_1);
        let denominator_real = mass_1.plus(&mass_1.conjugate());
        let negative_denominator = denominator_real.minus(&denominator_real.modulus());
        let continued_log3 = if_nonzero_else(
            &negative_denominator,
            &ordinary_log3(&ratio),
            &ordinary_log3(&ratio.conjugate()).conjugate(),
        );
        let unequal = Expr::num(1).over_int(2).minus(&ratio.times(&continued_log3)).over(mass_1);
        let equal = Expr::num(1).over(&mass_1.times_int(6));
        let both_nonzero = if_nonzero_else(&difference, &unequal, &equal);
        let first_massless = Expr::num(1).over(&mass_1.times_int(2));
        let second_massless = if_nonzero_else(
            mass_0,
            &Expr::num(1).over(&mass_0.times_int(2)),
            &Expr::num(1).over(&mass_0.plus(mass_1)),
        );
        if_nonzero_else(mass_1, &if_nonzero_else(mass_0, &both_nonzero, &first_massless), &second_massless)
    }
}

/// The derivative of `B0` with one massless propagator.
#[verifier::allow_in_spec]
pub fn db0_with_one_massless(momentum: &Expr, mass: &Expr, mu_squared: &Expr) -> Expr
    returns
        ({
            let shifted_mass = mass.minus(momentum);
            let logarithmic_difference = x_log_ratio(mass, mu_squared).minus(&x_log_ratio(&shifted_mass, mu_squared));
            logarithmic_difference.over(&momentum.times(momentum)).minus(
                &physical_log(&shifted_mass.over(mu_squared)).plus(&Expr::num(1)).over(momentum),
            )
        }),
{
    let shifted_mass = mass.minus(momentum);
    let logarithmic_difference = x_log_ratio(mass, mu_squared).minus(&x_log_ratio(&shifted_mass, mu_squared));
    logarithmic_difference.over(&momentum.times(momentum)).minus(
        &physical_log(&shifted_mass.over(mu_squared)).plus(&Expr::num(1)).over(momentum),
    )
}

/// The modulus measure `|2 Re m| + |2 Im m|` by which masses are ordered.
#[verifier::allow_in_spec]
pub fn mass_size(mass: &Expr) -> Expr
    returns
        mass.plus(&mass.conjugate()).modulus().plus(&mass.minus(&mass.conjugate()).over(&Expr::I).modulus()),
{
    mass.plus(&mass.conjugate()).modulus().plus(&mass.minus(&mass.conjugate()).over(&Expr::i()).modulus())
}

/// The derivative of `B0` with two massive propagators.
#[verifier::allow_in_spec]
pub fn db0_with_two_masses(momentum: &Expr, mass_0: &Expr, mass_1: &Expr, mu_squared: &Expr) -> Expr
    returns
        ({
            let mass_difference = mass_1.minus(mass_0);
            let linear = mass_difference.minus(momentum);
            let discriminant_squared = linear.times(&linear).minus(&momentum.times_int(4).times(mass_0));
            let discriminant = discriminant_squared.root();
            let denominator = momentum.times_int(2);
            let root_plus = linear.negated().plus(&discriminant).over(&denominator);
            let root_minus = linear.negated().minus(&discriminant).over(&denominator);
            let plus_ratio = Expr::num(1).minus(&Expr::num(1).over(&root_plus));
            let minus_ratio = Expr::num(1).minus(&Expr::num(1).over(&root_minus));
            let inverse_quadratic_integral = upper_log(&plus_ratio).minus(&physical_log(&minus_ratio)).over(&discriminant);
            let momentum_squared = momentum.times(momentum);
            let logarithmic_term = mass_difference.times(
                &physical_log(&mass_1.over(mu_squared)).minus(&physical_log(&mass_0.over(mu_squared))),
            ).over(&momentum_squared.times_int(2));
            let inverse_quadratic_coefficient = momentum.times(&mass_0.plus(mass_1)).minus(
                &mass_difference.times(&mass_difference),
            ).over(&momentum_squared.times_int(2));
            let distinct_roots = Expr::num(-1i64).over(momentum).plus(&logarithmic_term).plus(
                &inverse_quadratic_coefficient.times(&inverse_quadratic_integral),
            );
            let size_difference = mass_size(mass_1).minus(&mass_size(mass_0));
            let swap = size_difference.minus(&size_difference.modulus());
            let ordered_difference = if_nonzero_else(&swap, &mass_difference.negated(), &mass_difference);
            let root = momentum.plus(&ordered_difference).over(&momentum.times_int(2));
            let ratio = root.over(&root.minus(&Expr::num(1)));
            let negative_momentum = momentum.minus(&momentum.modulus());
            let logarithm = if_nonzero_else(&negative_momentum, &upper_log(&ratio), &physical_log(&ratio));
            let coincident_roots = root.times_int(2).minus(&Expr::num(1)).times(&logarithm).minus(&Expr::num(2)).over(
                momentum,
            );
            if_nonzero_else(&discriminant_squared, &distinct_roots, &coincident_roots)
        }),
{
    let mass_difference = mass_1.minus(mass_0);
    let linear = mass_difference.minus(momentum);
    let discriminant_squared = linear.times(&linear).minus(&momentum.times_int(4).times(mass_0));
    let discriminant = discriminant_squared.root();
    let denominator = momentum.times_int(2);
    let root_plus = linear.negated().plus(&discriminant).over(&denominator);
    let root_minus = linear.negated().minus(&discriminant).over(&denominator);
    let plus_ratio = Expr::num(1).minus(&Expr::num(1).over(&root_plus));
    let minus_ratio = Expr::num(1).minus(&Expr::num(1).over(&root_minus));
    let inverse_quadratic_integral = upper_log(&plus_ratio).minus(&physical_log(&minus_ratio)).over(&discriminant);
    let momentum_squared = momentum.times(momentum);
    let logarithmic_term = mass_difference.times(
        &physical_log(&mass_1.over(mu_squared)).minus(&physical_log(&mass_0.over(mu_squared))),
    ).over(&momentum_squared.times_int(2));
    let inverse_quadratic_coefficient = momentum.times(&mass_0.plus(mass_1)).minus(
        &mass_difference.times(&mass_difference),
    ).over(&momentum_squared.times_int(2));
    let distinct_roots = Expr::num(-1i64).over(momentum).plus(&logarithmic_term).plus(
        &inverse_quadratic_coefficient.times(&inverse_quadratic_integral),
    );
    let size_difference = mass_size(mass_1).minus(&mass_size(mass_0));
    let swap = size_difference.minus(&size_difference.modulus());
    let ordered_difference = if_nonzero_else(&swap, &mass_difference.negated(), &mass_difference);
    let root = momentum.plus(&ordered_difference).over(&momentum.times_int(2));
    let ratio = root.over(&root.minus(&Expr::num(1)));
    let negative_momentum = momentum.minus(&momentum.modulus());
    let logarithm = if_nonzero_else(&negative_momentum, &upper_log(&ratio), &physical_log(&ratio));
    let coincident_roots = root.times_int(2).minus(&Expr::num(1)).times(&logarithm).minus(&Expr::num(2)).over(
        momentum,
    );
    if_nonzero_else(&discriminant_squared, &distinct_roots, &coincident_roots)
}

/// The derivative of `B0` at nonzero momentum, off the massless shells.
#[verifier::allow_in_spec]
pub fn db0_regular_nonzero_momentum(momentum: &Expr, mass_0: &Expr, mass_1: &Expr, mu_squared: &Expr) -> Expr
    returns
        ({
            if mass_0.is_literal_zero() {
                db0_with_one_massless(momentum, mass_1, mu_squared)
            } else if mass_1.is_literal_zero() {
                db0_with_one_massless(momentum, mass_0, mu_squared)
            } else {
                if_nonzero_else(
                    mass_0,
                    &if_nonzero_else(
                        mass_1,
                        &db0_with_two_masses(momentum, mass_0, mass_1, mu_squared),
                        &db0_with_one_massless(momentum, mass_0, mu_squared),
                    ),
                    &db0_with_one_massless(momentum, mass_1, mu_squared),
                )
            }
        }),
{
    if mass_0.is_literal_zero() {
        db0_with_one_massless(momentum, mass_1, mu_squared)
    } else if mass_1.is_literal_zero() {
        db0_with_one_massless(momentum, mass_0, mu_squared)
    } else {
        if_nonzero_else(
            mass_0,
            &if_nonzero_else(
                mass_1,
                &db0_with_two_masses(momentum, mass_0, mass_1, mu_squared),
                &db0_with_one_massless(momentum, mass_0, mu_squared),
            ),
            &db0_with_one_massless(momentum, mass_1, mu_squared),
        )
    }
}

/// The derivative of `B0` at nonzero momentum, with the infrared pole on a
/// massless shell.
#[verifier::allow_in_spec]
pub fn db0_at_nonzero_momentum(momentum: &Expr, mass_0: &Expr, mass_1: &Expr, mu_squared: &Expr) -> LaurentSeries
    returns
        ({
            let regular = db0_regular_nonzero_momentum(momentum, mass_0, mass_1, mu_squared);
            let shell_log = upper_log(&mu_squared.over(momentum));
            let shell_finite = Expr::num(1).plus(&shell_log.over_int(2)).negated().over(momentum);
            let shell_pole = Expr::num(-1i64).over(&momentum.times_int(2));
            let zero = Expr::num(0);
            let finite = if_nonzero_else(
                mass_0,
                &if_nonzero_else(mass_1, &regular, &if_nonzero_else(&momentum.minus(mass_0), &regular, &shell_finite)),
                &if_nonzero_else(&momentum.minus(mass_1), &regular, &shell_finite),
            );
            let pole = if_nonzero_else(
                mass_0,
                &if_nonzero_else(mass_1, &zero, &if_nonzero_else(&momentum.minus(mass_0), &zero, &shell_pole)),
                &if_nonzero_else(&momentum.minus(mass_1), &zero, &shell_pole),
            );
            LaurentSeries::new(finite, pole, Expr::num(0))
        }),
{
    let regular = db0_regular_nonzero_momentum(momentum, mass_0, mass_1, mu_squared);
    let shell_log = upper_log(&mu_squared.over(momentum));
    let shell_finite = Expr::num(1).plus(&shell_log.over_int(2)).negated().over(momentum);
    let shell_pole = Expr::num(-1i64).over(&momentum.times_int(2));
    let zero = Expr::num(0);
    let finite = if_nonzero_else(
        mass_0,
        &if_nonzero_else(mass_1, &regular, &if_nonzero_else(&momentum.minus(mass_0), &regular, &shell_finite)),
        &if_nonzero_else(&momentum.minus(mass_1), &regular, &shell_finite),
    );
    let pole = if_nonzero_else(
        mass_0,
        &if_nonzero_else(mass_1, &zero, &if_nonzero_else(&momentum.minus(mass_0), &zero, &shell_pole)),
        &if_nonzero_else(&momentum.minus(mass_1), &zero, &shell_pole),
    );
    LaurentSeries::new(finite, pole, Expr::num(0))
}

/// The scalar tadpole `A0`; zero for a literal zero mass. Its logarithm is
/// `conj(log(conj(m^2 / mu^2)))`, the principal logarithm reached from
/// below the real axis, where squared masses with a nonpositive imaginary
/// part lie.
#[verifier::allow_in_spec]
pub fn a0(mass_squared: &Expr, mu_squared: &Expr) -> LaurentSeries
    returns
        ({
            if mass_squared.is_literal_zero() {
                zero_series()
            } else {
                let logarithm = mass_squared.over(mu_squared).conjugate().ln().conjugate();
                LaurentSeries::new(
                    if_nonzero(mass_squared, &mass_squared.times(&logarithm.int_minus(1))),
                    mass_squared.copied(),
                    Expr::num(0),
                )
            }
        }),
{
    if mass_squared.is_literal_zero() {
        zero_series()
    } else {
        let logarithm = mass_squared.over(mu_squared).conjugate().ln().conjugate();
        LaurentSeries::new(
            if_nonzero(mass_squared, &mass_squared.times(&logarithm.int_minus(1))),
            mass_squared.copied(),
            Expr::num(0),
        )
    }
}

/// The rank-two tadpole coefficient `A00`.
#[verifier::allow_in_spec]
pub fn a00(mass_squared: &Expr, mu_squared: &Expr) -> LaurentSeries
    returns
        ({
            if mass_squared.is_literal_zero() {
                zero_series()
            } else {
                let logarithm = mass_squared.over(mu_squared).conjugate().ln().conjugate();
                let squared = mass_squared.times(mass_squared);
                LaurentSeries::new(
                    if_nonzero(mass_squared, &squared.times(&Expr::num(3).over_int(2).minus(&logarithm)).over_int(4)),
                    squared.over_int(4),
                    Expr::num(0),
                )
            }
        }),
{
    if mass_squared.is_literal_zero() {
        zero_series()
    } else {
        let logarithm = mass_squared.over(mu_squared).conjugate().ln().conjugate();
        let squared = mass_squared.times(mass_squared);
        LaurentSeries::new(
            if_nonzero(mass_squared, &squared.times(&Expr::num(3).over_int(2).minus(&logarithm)).over_int(4)),
            squared.over_int(4),
            Expr::num(0),
        )
    }
}

/// The rank-four tadpole coefficient `A0000`.
#[verifier::allow_in_spec]
pub fn a0000(mass_squared: &Expr, mu_squared: &Expr) -> LaurentSeries
    returns
        ({
            if mass_squared.is_literal_zero() {
                zero_series()
            } else {
                let logarithm = mass_squared.over(mu_squared).conjugate().ln().conjugate();
                let cubed = mass_squared.times(mass_squared).times(mass_squared);
                LaurentSeries::new(
                    if_nonzero(mass_squared, &cubed.times(&Expr::num(11).over_int(6).minus(&logarithm)).over_int(24)),
                    cubed.over_int(24),
                    Expr::num(0),
                )
            }
        }),
{
    if mass_squared.is_literal_zero() {
        zero_series()
    } else {
        let logarithm = mass_squared.over(mu_squared).conjugate().ln().conjugate();
        let cubed = mass_squared.times(mass_squared).times(mass_squared);
        LaurentSeries::new(
            if_nonzero(mass_squared, &cubed.times(&Expr::num(11).over_int(6).minus(&logarithm)).over_int(24)),
            cubed.over_int(24),
            Expr::num(0),
        )
    }
}

/// The tadpole coefficients `A0, A00, A0000` up to tensor rank `rank`.
pub open spec fn an_coefficients(rank: nat, mass_squared: Expr, mu_squared: Expr) -> Seq<LaurentSeries> {
    if rank >= 4 {
        seq![a0(&mass_squared, &mu_squared), a00(&mass_squared, &mu_squared), a0000(&mass_squared, &mu_squared)]
    } else if rank >= 2 {
        seq![a0(&mass_squared, &mu_squared), a00(&mass_squared, &mu_squared)]
    } else {
        seq![a0(&mass_squared, &mu_squared)]
    }
}

/// All tadpole coefficients through tensor rank `rank`, in the order `A0,
/// A00, A0000`; odd ranks have the coefficients of the rank below. Ranks
/// above four are refused.
pub fn an(rank: usize, mass_squared: &Expr, mu_squared: &Expr) -> (r: Result<Vec<LaurentSeries>, UnsupportedRank>)
    ensures
        rank > 4 ==> r == Err::<Vec<LaurentSeries>, UnsupportedRank>(UnsupportedRank(rank)),
        rank <= 4 ==> (r matches Ok(v) && v@ == an_coefficients(rank as nat, *mass_squared, *mu_squared)),
{
    if rank > 4 {
        return Err(UnsupportedRank(rank));
    }
    let mut coefficients: Vec<LaurentSeries> = Vec::new();
    coefficients.push(a0(mass_squared, mu_squared));
    if rank >= 2 {
        coefficients.push(a00(mass_squared, mu_squared));
    }
    if rank >= 4 {
        coefficients.push(a0000(mass_squared, mu_squared));
    }
    Ok(coefficients)
}

/// The scalar bubble `B0`; zero for a literal zero momentum and masses.
#[verifier::allow_in_spec]
pub fn b0(momentum_squared: &Expr, mass_0_squared: &Expr, mass_1_squared: &Expr, mu_squared: &Expr) -> LaurentSeries
    returns
        ({
            if momentum_squared.is_literal_zero() && mass_0_squared.is_literal_zero() && mass_1_squared.is_literal_zero() {
                zero_series()
            } else {
                let one = Expr::num(1);
                LaurentSeries::new(
                    if_nonzero_else(
                        momentum_squared,
                        &b0_with_nonzero_momentum(momentum_squared, mass_0_squared, mass_1_squared, mu_squared),
                        &b0_at_zero_momentum(mass_0_squared, mass_1_squared, mu_squared),
                    ),
                    if_nonzero_else(
                        momentum_squared,
                        &one,
                        &if_nonzero_else(mass_0_squared, &one, &if_nonzero(mass_1_squared, &one)),
                    ),
                    Expr::num(0),
                )
            }
        }),
{
    if momentum_squared.is_literal_zero() && mass_0_squared.is_literal_zero() && mass_1_squared.is_literal_zero() {
        zero_series()
    } else {
        let one = Expr::num(1);
        LaurentSeries::new(
            if_nonzero_else(
                momentum_squared,
                &b0_with_nonzero_momentum(momentum_squared, mass_0_squared, mass_1_squared, mu_squared),
                &b0_at_zero_momentum(mass_0_squared, mass_1_squared, mu_squared),
            ),
            if_nonzero_else(
                momentum_squared,
                &one,
                &if_nonzero_else(mass_0_squared, &one, &if_nonzero(mass_1_squared, &one)),
            ),
            Expr::num(0),
        )
    }
}

/// The derivative `dB0/dp^2`; undefined for a literal zero momentum and
/// masses.
#[verifier::allow_in_spec]
pub fn db0(momentum_squared: &Expr, mass_0_squared: &Expr, mass_1_squared: &Expr, mu_squared: &Expr) -> LaurentSeries
    returns
        ({
            if momentum_squared.is_literal_zero() && mass_0_squared.is_literal_zero() && mass_1_squared.is_literal_zero() {
                LaurentSeries::new(Expr::indeterminate(), Expr::indeterminate(), Expr::num(0))
            } else if momentum_squared.is_literal_zero() {
                LaurentSeries::new(db0_at_zero_momentum(mass_0_squared, mass_1_squared), Expr::num(0), Expr::num(0))
            } else {
                let nonzero = db0_at_nonzero_momentum(momentum_squared, mass_0_squared, mass_1_squared, mu_squared);
                LaurentSeries::new(
                    if_nonzero_else(
                        momentum_squared,
                        &nonzero.finite,
                        &db0_at_zero_momentum(mass_0_squared, mass_1_squared),
                    ),
                    if_nonzero_else(momentum_squared, &nonzero.simple_pole, &Expr::num(0)),
                    Expr::num(0),
                )
            }
        }),
{
    if momentum_squared.is_literal_zero() && mass_0_squared.is_literal_zero() && mass_1_squared.is_literal_zero() {
        LaurentSeries::new(Expr::indeterminate(), Expr::indeterminate(), Expr::num(0))
    } else if momentum_squared.is_literal_zero() {
        LaurentSeries::new(db0_at_zero_momentum(mass_0_squared, mass_1_squared), Expr::num(0), Expr::num(0))
    } else {
        let nonzero = db0_at_nonzero_momentum(momentum_squared, mass_0_squared, mass_1_squared, mu_squared);
        LaurentSeries::new(
            if_nonzero_else(
                momentum_squared,
                &nonzero.finite,
                &db0_at_zero_momentum(mass_0_squared, mass_1_squared),
            ),
            if_nonzero_else(momentum_squared, &nonzero.simple_pole, &Expr::num(0)),
            Expr::num(0),
        )
    }
}

/// The zero-momentum anchor of `B1`.
#[verifier::allow_in_spec]
pub fn b1_zero_momentum_anchor(mass_0: &Expr, mass_1: &Expr, mu_squared: &Expr) -> Expr
    returns
        ({
            let logarithm = physical_log(&mass_1.over(mu_squared));
            let difference = mass_1.minus(mass_0);
            let unequal = logarithm.plus(&bnlog(1, &mass_1.over(&difference))).over_int(2);
            if_nonzero_else(&difference, &unequal, &logarithm.over_int(2))
        }),
{
    let logarithm = physical_log(&mass_1.over(mu_squared));
    let difference = mass_1.minus(mass_0);
    let unequal = logarithm.plus(&bnlog(1, &mass_1.over(&difference))).over_int(2);
    if_nonzero_else(&difference, &unequal, &logarithm.over_int(2))
}

/// The finite part of `B1` at zero momentum.
#[verifier::allow_in_spec]
pub fn b1_at_zero_momentum(mass_0: &Expr, mass_1: &Expr, mu_squared: &Expr) -> Expr
    returns
        ({
            if mass_0.is_literal_zero() && mass_1.is_literal_zero() {
                Expr::num(0)
            } else if mass_1.is_literal_zero() {
                b1_zero_momentum_anchor(mass_1, mass_0, mu_squared)
            } else {
                let anchored_at_mass_1 = b0_at_zero_momentum(mass_0, mass_1, mu_squared).negated().minus(
                    &b1_zero_momentum_anchor(mass_0, mass_1, mu_squared),
                );
                if mass_0.is_literal_zero() {
                    anchored_at_mass_1
                } else {
                    if_nonzero_else(
                        mass_1,
                        &anchored_at_mass_1,
                        &if_nonzero(mass_0, &b1_zero_momentum_anchor(mass_1, mass_0, mu_squared)),
                    )
                }
            }
        }),
{
    if mass_0.is_literal_zero() && mass_1.is_literal_zero() {
        Expr::num(0)
    } else if mass_1.is_literal_zero() {
        b1_zero_momentum_anchor(mass_1, mass_0, mu_squared)
    } else {
        let anchored_at_mass_1 = b0_at_zero_momentum(mass_0, mass_1, mu_squared).negated().minus(
            &b1_zero_momentum_anchor(mass_0, mass_1, mu_squared),
        );
        if mass_0.is_literal_zero() {
            anchored_at_mass_1
        } else {
            if_nonzero_else(
                mass_1,
                &anchored_at_mass_1,
                &if_nonzero(mass_0, &b1_zero_momentum_anchor(mass_1, mass_0, mu_squared)),
            )
        }
    }
}

/// The finite part of `B1` at nonzero momentum, by reduction to `A0`, `B0`.
#[verifier::allow_in_spec]
pub fn b1_at_nonzero_momentum(momentum: &Expr, mass_0: &Expr, mass_1: &Expr, mu_squared: &Expr) -> Expr
    returns
        ({
            let a0_mass_0 = a0(mass_0, mu_squared).finite;
            let a0_mass_1 = a0(mass_1, mu_squared).finite;
            let b0_finite = b0(momentum, mass_0, mass_1, mu_squared).finite;
            a0_mass_0.minus(&a0_mass_1).plus(&mass_1.minus(mass_0).minus(momentum).times(&b0_finite)).over(
                &momentum.times_int(2),
            )
        }),
{
    let a0_mass_0 = a0(mass_0, mu_squared).finite;
    let a0_mass_1 = a0(mass_1, mu_squared).finite;
    let b0_finite = b0(momentum, mass_0, mass_1, mu_squared).finite;
    a0_mass_0.minus(&a0_mass_1).plus(&mass_1.minus(mass_0).minus(momentum).times(&b0_finite)).over(
        &momentum.times_int(2),
    )
}

/// The rank-one bubble coefficient `B1`.
#[verifier::allow_in_spec]
pub fn b1(momentum_squared: &Expr, mass_0_squared: &Expr, mass_1_squared: &Expr, mu_squared: &Expr) -> LaurentSeries
    returns
        ({
            if momentum_squared.is_literal_zero() && mass_0_squared.is_literal_zero() && mass_1_squared.is_literal_zero() {
                zero_series()
            } else {
                let half = Expr::num(-1i64).over_int(2);
                LaurentSeries::new(
                    if_nonzero_else(
                        momentum_squared,
                        &b1_at_nonzero_momentum(momentum_squared, mass_0_squared, mass_1_squared, mu_squared),
                        &b1_at_zero_momentum(mass_0_squared, mass_1_squared, mu_squared),
                    ),
                    if_nonzero_else(
                        momentum_squared,
                        &half,
                        &if_nonzero_else(mass_0_squared, &half, &if_nonzero(mass_1_squared, &half)),
                    ),
                    Expr::num(0),
                )
            }
        }),
{
    if momentum_squared.is_literal_zero() && mass_0_squared.is_literal_zero() && mass_1_squared.is_literal_zero() {
        zero_series()
    } else {
        let half = Expr::num(-1i64).over_int(2);
        LaurentSeries::new(
            if_nonzero_else(
                momentum_squared,
                &b1_at_nonzero_momentum(momentum_squared, mass_0_squared, mass_1_squared, mu_squared),
                &b1_at_zero_momentum(mass_0_squared, mass_1_squared, mu_squared),
            ),
            if_nonzero_else(
                momentum_squared,
                &half,
                &if_nonzero_else(mass_0_squared, &half, &if_nonzero(mass_1_squared, &half)),
            ),
            Expr::num(0),
        )
    }
}

/// The transverse rank-two bubble coefficient `B00`.
#[verifier::allow_in_spec]
pub fn b00(momentum_squared: &Expr, mass_0_squared: &Expr, mass_1_squared: &Expr, mu_squared: &Expr) -> LaurentSeries
    returns
        ({
            let a0_mass_1 = a0(mass_1_squared, mu_squared);
            let b0_series = b0(momentum_squared, mass_0_squared, mass_1_squared, mu_squared);
            let b1_series = b1(momentum_squared, mass_0_squared, mass_1_squared, mu_squared);
            let kinematic = mass_1_squared.minus(mass_0_squared).minus(momentum_squared);
            let numerator_finite = a0_mass_1.finite.plus(&mass_0_squared.times_int(2).times(&b0_series.finite)).minus(
                &kinematic.times(&b1_series.finite),
            );
            let numerator_pole = a0_mass_1.simple_pole.plus(&mass_0_squared.times_int(2).times(&b0_series.simple_pole)).minus(
                &kinematic.times(&b1_series.simple_pole),
            );
            LaurentSeries::new(
                numerator_finite.over_int(6).plus(&numerator_pole.over_int(9)),
                numerator_pole.over_int(6),
                Expr::num(0),
            )
        }),
{
    let a0_mass_1 = a0(mass_1_squared, mu_squared);
    let b0_series = b0(momentum_squared, mass_0_squared, mass_1_squared, mu_squared);
    let b1_series = b1(momentum_squared, mass_0_squared, mass_1_squared, mu_squared);
    let kinematic = mass_1_squared.minus(mass_0_squared).minus(momentum_squared);
    let numerator_finite = a0_mass_1.finite.plus(&mass_0_squared.times_int(2).times(&b0_series.finite)).minus(
        &kinematic.times(&b1_series.finite),
    );
    let numerator_pole = a0_mass_1.simple_pole.plus(&mass_0_squared.times_int(2).times(&b0_series.simple_pole)).minus(
        &kinematic.times(&b1_series.simple_pole),
    );
    LaurentSeries::new(
        numerator_finite.over_int(6).plus(&numerator_pole.over_int(9)),
        numerator_pole.over_int(6),
        Expr::num(0),
    )
}

/// The zero-momentum anchor of `B11`.
#[verifier::allow_in_spec]
pub fn b11_zero_momentum_anchor(mass_0: &Expr, mass_1: &Expr, mu_squared: &Expr) -> Expr
    returns
        ({
            let logarithm = physical_log(&mass_1.over(mu_squared));
            let difference = mass_1.minus(mass_0);
            let unequal = logarithm.negated().minus(&bnlog(2, &mass_1.over(&difference))).over_int(3);
            if_nonzero_else(&difference, &unequal, &logarithm.negated().over_int(3))
        }),
{
    let logarithm = physical_log(&mass_1.over(mu_squared));
    let difference = mass_1.minus(mass_0);
    let unequal = logarithm.negated().minus(&bnlog(2, &mass_1.over(&difference))).over_int(3);
    if_nonzero_else(&difference, &unequal, &logarithm.negated().over_int(3))
}

/// The finite part of `B11` at zero momentum.
#[verifier::allow_in_spec]
pub fn b11_at_zero_momentum(mass_0: &Expr, mass_1: &Expr, mu_squared: &Expr) -> Expr
    returns
        ({
            if mass_0.is_literal_zero() && mass_1.is_literal_zero() {
                Expr::num(0)
            } else if mass_1.is_literal_zero() {
                b11_zero_momentum_anchor(mass_1, mass_0, mu_squared)
            } else {
                let anchored_at_mass_1 = b11_zero_momentum_anchor(mass_0, mass_1, mu_squared).plus(
                    &b1_zero_momentum_anchor(mass_0, mass_1, mu_squared).times_int(2),
                ).plus(&b0_at_zero_momentum(mass_0, mass_1, mu_squared));
                if mass_0.is_literal_zero() {
                    anchored_at_mass_1
                } else {
                    if_nonzero_else(
                        mass_1,
                        &anchored_at_mass_1,
                        &if_nonzero(mass_0, &b11_zero_momentum_anchor(mass_1, mass_0, mu_squared)),
                    )
                }
            }
        }),
{
    if mass_0.is_literal_zero() && mass_1.is_literal_zero() {
        Expr::num(0)
    } else if mass_1.is_literal_zero() {
        b11_zero_momentum_anchor(mass_1, mass_0, mu_squared)
    } else {
        let anchored_at_mass_1 = b11_zero_momentum_anchor(mass_0, mass_1, mu_squared).plus(
            &b1_zero_momentum_anchor(mass_0, mass_1, mu_squared).times_int(2),
        ).plus(&b0_at_zero_momentum(mass_0, mass_1, mu_squared));
        if mass_0.is_literal_zero() {
            anchored_at_mass_1
        } else {
            if_nonzero_else(
                mass_1,
                &anchored_at_mass_1,
                &if_nonzero(mass_0, &b11_zero_momentum_anchor(mass_1, mass_0, mu_squared)),
            )
        }
    }
}

/// The longitudinal rank-two bubble coefficient `B11`.
#[verifier::allow_in_spec]
pub fn b11(momentum_squared: &Expr, mass_0_squared: &Expr, mass_1_squared: &Expr, mu_squared: &Expr) -> LaurentSeries
    returns
        ({
            if momentum_squared.is_literal_zero() && mass_0_squared.is_literal_zero() && mass_1_squared.is_literal_zero() {
                zero_series()
            } else {
                let a0_mass_1 = a0(mass_1_squared, mu_squared);
                let b1_series = b1(momentum_squared, mass_0_squared, mass_1_squared, mu_squared);
                let b00_series = b00(momentum_squared, mass_0_squared, mass_1_squared, mu_squared);
                let kinematic = mass_1_squared.minus(mass_0_squared).minus(momentum_squared);
                let denominator = momentum_squared.times_int(2);
                let nonzero_finite = a0_mass_1.finite.plus(&kinematic.times(&b1_series.finite)).minus(
                    &b00_series.finite.times_int(2),
                ).over(&denominator);
                let nonzero_pole = a0_mass_1.simple_pole.plus(&kinematic.times(&b1_series.simple_pole)).minus(
                    &b00_series.simple_pole.times_int(2),
                ).over(&denominator);
                let third = Expr::num(1).over_int(3);
                LaurentSeries::new(
                    if_nonzero_else(
                        momentum_squared,
                        &nonzero_finite,
                        &b11_at_zero_momentum(mass_0_squared, mass_1_squared, mu_squared),
                    ),
                    if_nonzero_else(
                        momentum_squared,
                        &nonzero_pole,
                        &if_nonzero_else(mass_0_squared, &third, &if_nonzero(mass_1_squared, &third)),
                    ),
                    Expr::num(0),
                )
            }
        }),
{
    if momentum_squared.is_literal_zero() && mass_0_squared.is_literal_zero() && mass_1_squared.is_literal_zero() {
        zero_series()
    } else {
        let a0_mass_1 = a0(mass_1_squared, mu_squared);
        let b1_series = b1(momentum_squared, mass_0_squared, mass_1_squared, mu_squared);
        let b00_series = b00(momentum_squared, mass_0_squared, mass_1_squared, mu_squared);
        let kinematic = mass_1_squared.minus(mass_0_squared).minus(momentum_squared);
        let denominator = momentum_squared.times_int(2);
        let nonzero_finite = a0_mass_1.finite.plus(&kinematic.times(&b1_series.finite)).minus(
            &b00_series.finite.times_int(2),
        ).over(&denominator);
        let nonzero_pole = a0_mass_1.simple_pole.plus(&kinematic.times(&b1_series.simple_pole)).minus(
            &b00_series.simple_pole.times_int(2),
        ).over(&denominator);
        let third = Expr::num(1).over_int(3);
        LaurentSeries::new(
            if_nonzero_else(
                momentum_squared,
                &nonzero_finite,
                &b11_at_zero_momentum(mass_0_squared, mass_1_squared, mu_squared),
            ),
            if_nonzero_else(
                momentum_squared,
                &nonzero_pole,
                &if_nonzero_else(mass_0_squared, &third, &if_nonzero(mass_1_squared, &third)),
            ),
            Expr::num(0),
        )
    }
}

/// The mixed rank-three bubble coefficient `B001`.
#[verifier::allow_in_spec]
pub fn b001(momentum_squared: &Expr, mass_0_squared: &Expr, mass_1_squared: &Expr, mu_squared: &Expr) -> LaurentSeries
    returns
        ({
            let a0_mass_1 = a0(mass_1_squared, mu_squared);
            let b1_series = b1(momentum_squared, mass_0_squared, mass_1_squared, mu_squared);
            let b11_series = b11(momentum_squared, mass_0_squared, mass_1_squared, mu_squared);
            let kinematic = mass_1_squared.minus(mass_0_squared).minus(momentum_squared);
            let numerator_finite = mass_0_squared.times_int(2).times(&b1_series.finite).minus(&a0_mass_1.finite).minus(
                &kinematic.times(&b11_series.finite),
            );
            let numerator_pole = mass_0_squared.times_int(2).times(&b1_series.simple_pole).minus(&a0_mass_1.simple_pole).minus(
                &kinematic.times(&b11_series.simple_pole),
            );
            LaurentSeries::new(
                numerator_finite.over_int(8).plus(&numerator_pole.over_int(16)),
                numerator_pole.over_int(8),
                Expr::num(0),
            )
        }),
{
    let a0_mass_1 = a0(mass_1_squared, mu_squared);
    let b1_series = b1(momentum_squared, mass_0_squared, mass_1_squared, mu_squared);
    let b11_series = b11(momentum_squared, mass_0_squared, mass_1_squared, mu_squared);
    let kinematic = mass_1_squared.minus(mass_0_squared).minus(momentum_squared);
    let numerator_finite = mass_0_squared.times_int(2).times(&b1_series.finite).minus(&a0_mass_1.finite).minus(
        &kinematic.times(&b11_series.finite),
    );
    let numerator_pole = mass_0_squared.times_int(2).times(&b1_series.simple_pole).minus(&a0_mass_1.simple_pole).minus(
        &kinematic.times(&b11_series.simple_pole),
    );
    LaurentSeries::new(
        numerator_finite.over_int(8).plus(&numerator_pole.over_int(16)),
        numerator_pole.over_int(8),
        Expr::num(0),
    )
}

/// The zero-momentum anchor of `B111`.
#[verifier::allow_in_spec]
pub fn b111_zero_momentum_anchor(mass_0: &Expr, mass_1: &Expr, mu_squared: &Expr) -> Expr
    returns
        ({
            let logarithm = physical_log(&mass_1.over(mu_squared));
            let difference = mass_1.minus(mass_0);
            let unequal = logarithm.plus(&bnlog(3, &mass_1.over(&difference))).over_int(4);
            if_nonzero_else(&difference, &unequal, &logarithm.over_int(4))
        }),
{
    let logarithm = physical_log(&mass_1.over(mu_squared));
    let difference = mass_1.minus(mass_0);
    let unequal = logarithm.plus(&bnlog(3, &mass_1.over(&difference))).over_int(4);
    if_nonzero_else(&difference, &unequal, &logarithm.over_int(4))
}

/// The finite part of `B111` at zero momentum.
#[verifier::allow_in_spec]
pub fn b111_at_zero_momentum(mass_0: &Expr, mass_1: &Expr, mu_squared: &Expr) -> Expr
    returns
        ({
            if mass_0.is_literal_zero() && mass_1.is_literal_zero() {
                Expr::num(0)
            } else if mass_1.is_literal_zero() {
                b111_zero_momentum_anchor(mass_1, mass_0, mu_squared)
            } else {
                let anchored_at_mass_1 = b111_zero_momentum_anchor(mass_0, mass_1, mu_squared).negated().minus(
                    &b11_zero_momentum_anchor(mass_0, mass_1, mu_squared).times_int(3),
                ).minus(&b1_zero_momentum_anchor(mass_0, mass_1, mu_squared).times_int(3)).minus(
                    &b0_at_zero_momentum(mass_0, mass_1, mu_squared),
                );
                if mass_0.is_literal_zero() {
                    anchored_at_mass_1
                } else {
                    if_nonzero_else(
                        mass_1,
                        &anchored_at_mass_1,
                        &if_nonzero(mass_0, &b111_zero_momentum_anchor(mass_1, mass_0, mu_squared)),
                    )
                }
            }
        }),
{
    if mass_0.is_literal_zero() && mass_1.is_literal_zero() {
        Expr::num(0)
    } else if mass_1.is_literal_zero() {
        b111_zero_momentum_anchor(mass_1, mass_0, mu_squared)
    } else {
        let anchored_at_mass_1 = b111_zero_momentum_anchor(mass_0, mass_1, mu_squared).negated().minus(
            &b11_zero_momentum_anchor(mass_0, mass_1, mu_squared).times_int(3),
        ).minus(&b1_zero_momentum_anchor(mass_0, mass_1, mu_squared).times_int(3)).minus(
            &b0_at_zero_momentum(mass_0, mass_1, mu_squared),
        );
        if mass_0.is_literal_zero() {
            anchored_at_mass_1
        } else {
            if_nonzero_else(
                mass_1,
                &anchored_at_mass_1,
                &if_nonzero(mass_0, &b111_zero_momentum_anchor(mass_1, mass_0, mu_squared)),
            )
        }
    }
}

/// The longitudinal rank-three bubble coefficient `B111`.
#[verifier::allow_in_spec]
pub fn b111(momentum_squared: &Expr, mass_0_squared: &Expr, mass_1_squared: &Expr, mu_squared: &Expr) -> LaurentSeries
    returns
        ({
            if momentum_squared.is_literal_zero() && mass_0_squared.is_literal_zero() && mass_1_squared.is_literal_zero() {
                zero_series()
            } else {
                let a0_mass_1 = a0(mass_1_squared, mu_squared);
                let b11_series = b11(momentum_squared, mass_0_squared, mass_1_squared, mu_squared);
                let b001_series = b001(momentum_squared, mass_0_squared, mass_1_squared, mu_squared);
                let kinematic = mass_1_squared.minus(mass_0_squared).minus(momentum_squared);
                let denominator = momentum_squared.times_int(2);
                let nonzero_finite = a0_mass_1.finite.negated().plus(&kinematic.times(&b11_series.finite)).minus(
                    &b001_series.finite.times_int(4),
                ).over(&denominator);
                let nonzero_pole = a0_mass_1.simple_pole.negated().plus(&kinematic.times(&b11_series.simple_pole)).minus(
                    &b001_series.simple_pole.times_int(4),
                ).over(&denominator);
                let quarter = Expr::num(-1i64).over_int(4);
                LaurentSeries::new(
                    if_nonzero_else(
                        momentum_squared,
                        &nonzero_finite,
                        &b111_at_zero_momentum(mass_0_squared, mass_1_squared, mu_squared),
                    ),
                    if_nonzero_else(
                        momentum_squared,
                        &nonzero_pole,
                        &if_nonzero_else(mass_0_squared, &quarter, &if_nonzero(mass_1_squared, &quarter)),
                    ),
                    Expr::num(0),
                )
            }
        }),
{
    if momentum_squared.is_literal_zero() && mass_0_squared.is_literal_zero() && mass_1_squared.is_literal_zero() {
        zero_series()
    } else {
        let a0_mass_1 = a0(mass_1_squared, mu_squared);
        let b11_series = b11(momentum_squared, mass_0_squared, mass_1_squared, mu_squared);
        let b001_series = b001(momentum_squared, mass_0_squared, mass_1_squared, mu_squared);
        let kinematic = mass_1_squared.minus(mass_0_squared).minus(momentum_squared);
        let denominator = momentum_squared.times_int(2);
        let nonzero_finite = a0_mass_1.finite.negated().plus(&kinematic.times(&b11_series.finite)).minus(
            &b001_series.finite.times_int(4),
        ).over(&denominator);
        let nonzero_pole = a0_mass_1.simple_pole.negated().plus(&kinematic.times(&b11_series.simple_pole)).minus(
            &b001_series.simple_pole.times_int(4),
        ).over(&denominator);
        let quarter = Expr::num(-1i64).over_int(4);
        LaurentSeries::new(
            if_nonzero_else(
                momentum_squared,
                &nonzero_finite,
                &b111_at_zero_momentum(mass_0_squared, mass_1_squared, mu_squared),
            ),
            if_nonzero_else(
                momentum_squared,
                &nonzero_pole,
                &if_nonzero_else(mass_0_squared, &quarter, &if_nonzero(mass_1_squared, &quarter)),
            ),
            Expr::num(0),
        )
    }
}

/// The double-metric rank-four bubble coefficient `B0000`.
#[verifier::allow_in_spec]
pub fn b0000(momentum_squared: &Expr, mass_0_squared: &Expr, mass_1_squared: &Expr, mu_squared: &Expr) -> LaurentSeries
    returns
        ({
            let a00_mass_1 = a00(mass_1_squared, mu_squared);
            let b00_series = b00(momentum_squared, mass_0_squared, mass_1_squared, mu_squared);
            let b001_series = b001(momentum_squared, mass_0_squared, mass_1_squared, mu_squared);
            let kinematic = mass_1_squared.minus(mass_0_squared).minus(momentum_squared);
            let numerator_finite = mass_0_squared.times_int(2).times(&b00_series.finite).plus(&a00_mass_1.finite).minus(
                &kinematic.times(&b001_series.finite),
            );
            let numerator_pole = mass_0_squared.times_int(2).times(&b00_series.simple_pole).plus(&a00_mass_1.simple_pole).minus(
                &kinematic.times(&b001_series.simple_pole),
            );
            LaurentSeries::new(
                numerator_finite.over_int(10).plus(&numerator_pole.over_int(25)),
                numerator_pole.over_int(10),
                Expr::num(0),
            )
        }),
{
    let a00_mass_1 = a00(mass_1_squared, mu_squared);
    let b00_series = b00(momentum_squared, mass_0_squared, mass_1_squared, mu_squared);
    let b001_series = b001(momentum_squared, mass_0_squared, mass_1_squared, mu_squared);
    let kinematic = mass_1_squared.minus(mass_0_squared).minus(momentum_squared);
    let numerator_finite = mass_0_squared.times_int(2).times(&b00_series.finite).plus(&a00_mass_1.finite).minus(
        &kinematic.times(&b001_series.finite),
    );
    let numerator_pole = mass_0_squared.times_int(2).times(&b00_series.simple_pole).plus(&a00_mass_1.simple_pole).minus(
        &kinematic.times(&b001_series.simple_pole),
    );
    LaurentSeries::new(
        numerator_finite.over_int(10).plus(&numerator_pole.over_int(25)),
        numerator_pole.over_int(10),
        Expr::num(0),
    )
}

/// The mixed rank-four bubble coefficient `B0011`.
#[verifier::allow_in_spec]
pub fn b0011(momentum_squared: &Expr, mass_0_squared: &Expr, mass_1_squared: &Expr, mu_squared: &Expr) -> LaurentSeries
    returns
        ({
            let a0_mass_1 = a0(mass_1_squared, mu_squared);
            let b11_series = b11(momentum_squared, mass_0_squared, mass_1_squared, mu_squared);
            let b111_series = b111(momentum_squared, mass_0_squared, mass_1_squared, mu_squared);
            let kinematic = mass_1_squared.minus(mass_0_squared).minus(momentum_squared);
            let numerator_finite = mass_0_squared.times_int(2).times(&b11_series.finite).plus(&a0_mass_1.finite).minus(
                &kinematic.times(&b111_series.finite),
            );
            let numerator_pole = mass_0_squared.times_int(2).times(&b11_series.simple_pole).plus(&a0_mass_1.simple_pole).minus(
                &kinematic.times(&b111_series.simple_pole),
            );
            LaurentSeries::new(
                numerator_finite.over_int(10).plus(&numerator_pole.over_int(25)),
                numerator_pole.over_int(10),
                Expr::num(0),
            )
        }),
{
    let a0_mass_1 = a0(mass_1_squared, mu_squared);
    let b11_series = b11(momentum_squared, mass_0_squared, mass_1_squared, mu_squared);
    let b111_series = b111(momentum_squared, mass_0_squared, mass_1_squared, mu_squared);
    let kinematic = mass_1_squared.minus(mass_0_squared).minus(momentum_squared);
    let numerator_finite = mass_0_squared.times_int(2).times(&b11_series.finite).plus(&a0_mass_1.finite).minus(
        &kinematic.times(&b111_series.finite),
    );
    let numerator_pole = mass_0_squared.times_int(2).times(&b11_series.simple_pole).plus(&a0_mass_1.simple_pole).minus(
        &kinematic.times(&b111_series.simple_pole),
    );
    LaurentSeries::new(
        numerator_finite.over_int(10).plus(&numerator_pole.over_int(25)),
        numerator_pole.over_int(10),
        Expr::num(0),
    )
}

/// The zero-momentum anchor of `B1111`.
#[verifier::allow_in_spec]
pub fn b1111_zero_momentum_anchor(mass_0: &Expr, mass_1: &Expr, mu_squared: &Expr) -> Expr
    returns
        ({
            let logarithm = physical_log(&mass_1.over(mu_squared));
            let difference = mass_1.minus(mass_0);
            let unequal = logarithm.negated().minus(&bnlog(4, &mass_1.over(&difference))).over_int(5);
            if_nonzero_else(&difference, &unequal, &logarithm.negated().over_int(5))
        }),
{
    let logarithm = physical_log(&mass_1.over(mu_squared));
    let difference = mass_1.minus(mass_0);
    let unequal = logarithm.negated().minus(&bnlog(4, &mass_1.over(&difference))).over_int(5);
    if_nonzero_else(&difference, &unequal, &logarithm.negated().over_int(5))
}

/// The finite part of `B1111` at zero momentum.
#[verifier::allow_in_spec]
pub fn b1111_at_zero_momentum(mass_0: &Expr, mass_1: &Expr, mu_squared: &Expr) -> Expr
    returns
        ({
            if mass_0.is_literal_zero() && mass_1.is_literal_zero() {
                Expr::num(0)
            } else if mass_1.is_literal_zero() {
                b1111_zero_momentum_anchor(mass_1, mass_0, mu_squared)
            } else {
                let anchored_at_mass_1 = b1111_zero_momentum_anchor(mass_0, mass_1, mu_squared).negated().minus(
                    &b111_zero_momentum_anchor(mass_0, mass_1, mu_squared).times_int(4),
                ).minus(&b11_zero_momentum_anchor(mass_0, mass_1, mu_squared).times_int(6)).minus(
                    &b1_zero_momentum_anchor(mass_0, mass_1, mu_squared).times_int(4),
                ).minus(&b0_at_zero_momentum(mass_0, mass_1, mu_squared));
                if mass_0.is_literal_zero() {
                    anchored_at_mass_1
                } else {
                    if_nonzero_else(
                        mass_1,
                        &anchored_at_mass_1,
                        &if_nonzero(mass_0, &b1111_zero_momentum_anchor(mass_1, mass_0, mu_squared)),
                    )
                }
            }
        }),
{
    if mass_0.is_literal_zero() && mass_1.is_literal_zero() {
        Expr::num(0)
    } else if mass_1.is_literal_zero() {
        b1111_zero_momentum_anchor(mass_1, mass_0, mu_squared)
    } else {
        let anchored_at_mass_1 = b1111_zero_momentum_anchor(mass_0, mass_1, mu_squared).negated().minus(
            &b111_zero_momentum_anchor(mass_0, mass_1, mu_squared).times_int(4),
        ).minus(&b11_zero_momentum_anchor(mass_0, mass_1, mu_squared).times_int(6)).minus(
            &b1_zero_momentum_anchor(mass_0, mass_1, mu_squared).times_int(4),
        ).minus(&b0_at_zero_momentum(mass_0, mass_1, mu_squared));
        if mass_0.is_literal_zero() {
            anchored_at_mass_1
        } else {
            if_nonzero_else(
                mass_1,
                &anchored_at_mass_1,
                &if_nonzero(mass_0, &b1111_zero_momentum_anchor(mass_1, mass_0, mu_squared)),
            )
        }
    }
}

/// The longitudinal rank-four bubble coefficient `B1111`.
#[verifier::allow_in_spec]
pub fn b1111(momentum_squared: &Expr, mass_0_squared: &Expr, mass_1_squared: &Expr, mu_squared: &Expr) -> LaurentSeries
    returns
        ({
            if momentum_squared.is_literal_zero() && mass_0_squared.is_literal_zero() && mass_1_squared.is_literal_zero() {
                zero_series()
            } else {
                let a0_mass_1 = a0(mass_1_squared, mu_squared);
                let b111_series = b111(momentum_squared, mass_0_squared, mass_1_squared, mu_squared);
                let b0011_series = b0011(momentum_squared, mass_0_squared, mass_1_squared, mu_squared);
                let kinematic = mass_1_squared.minus(mass_0_squared).minus(momentum_squared);
                let denominator = momentum_squared.times_int(2);
                let nonzero_finite = a0_mass_1.finite.plus(&kinematic.times(&b111_series.finite)).minus(
                    &b0011_series.finite.times_int(6),
                ).over(&denominator);
                let nonzero_pole = a0_mass_1.simple_pole.plus(&kinematic.times(&b111_series.simple_pole)).minus(
                    &b0011_series.simple_pole.times_int(6),
                ).over(&denominator);
                let fifth = Expr::num(1).over_int(5);
                LaurentSeries::new(
                    if_nonzero_else(
                        momentum_squared,
                        &nonzero_finite,
                        &b1111_at_zero_momentum(mass_0_squared, mass_1_squared, mu_squared),
                    ),
                    if_nonzero_else(
                        momentum_squared,
                        &nonzero_pole,
                        &if_nonzero_else(mass_0_squared, &fifth, &if_nonzero(mass_1_squared, &fifth)),
                    ),
                    Expr::num(0),
                )
            }
        }),
{
    if momentum_squared.is_literal_zero() && mass_0_squared.is_literal_zero() && mass_1_squared.is_literal_zero() {
        zero_series()
    } else {
        let a0_mass_1 = a0(mass_1_squared, mu_squared);
        let b111_series = b111(momentum_squared, mass_0_squared, mass_1_squared, mu_squared);
        let b0011_series = b0011(momentum_squared, mass_0_squared, mass_1_squared, mu_squared);
        let kinematic = mass_1_squared.minus(mass_0_squared).minus(momentum_squared);
        let denominator = momentum_squared.times_int(2);
        let nonzero_finite = a0_mass_1.finite.plus(&kinematic.times(&b111_series.finite)).minus(
            &b0011_series.finite.times_int(6),
        ).over(&denominator);
        let nonzero_pole = a0_mass_1.simple_pole.plus(&kinematic.times(&b111_series.simple_pole)).minus(
            &b0011_series.simple_pole.times_int(6),
        ).over(&denominator);
        let fifth = Expr::num(1).over_int(5);
        LaurentSeries::new(
            if_nonzero_else(
                momentum_squared,
                &nonzero_finite,
                &b1111_at_zero_momentum(mass_0_squared, mass_1_squared, mu_squared),
            ),
            if_nonzero_else(
                momentum_squared,
                &nonzero_pole,
                &if_nonzero_else(mass_0_squared, &fifth, &if_nonzero(mass_1_squared, &fifth)),
            ),
            Expr::num(0),
        )
    }
}

/// The bubble coefficients through tensor rank `rank`, in the order
/// `B0, B1, B00, B11, B001, B111, B0000, B0011, B1111`.
pub open spec fn bn_coefficients(rank: nat, p: Expr, m0: Expr, m1: Expr, mu: Expr) -> Seq<LaurentSeries> {
    let rank_0 = seq![b0(&p, &m0, &m1, &mu)];
    let rank_1 = rank_0.push(b1(&p, &m0, &m1, &mu));
    let rank_2 = rank_1.push(b00(&p, &m0, &m1, &mu)).push(b11(&p, &m0, &m1, &mu));
    let rank_3 = rank_2.push(b001(&p, &m0, &m1, &mu)).push(b111(&p, &m0, &m1, &mu));
    let rank_4 = rank_3.push(b0000(&p, &m0, &m1, &mu)).push(b0011(&p, &m0, &m1, &mu)).push(b1111(&p, &m0, &m1, &mu));
    if rank == 0 {
        rank_0
    } else if rank == 1 {
        rank_1
    } else if rank == 2 {
        rank_2
    } else if rank == 3 {
        rank_3
    } else {
        rank_4
    }
}

/// All bubble coefficients through tensor rank `rank`; ranks above four
/// are refused.
pub fn bn(
    rank: usize,
    momentum_squared: &Expr,
    mass_0_squared: &Expr,
    mass_1_squared: &Expr,
    mu_squared: &Expr,
) -> (r: Result<Vec<LaurentSeries>, UnsupportedRank>)
    ensures
        rank > 4 ==> r == Err::<Vec<LaurentSeries>, UnsupportedRank>(UnsupportedRank(rank)),
        rank <= 4 ==> (r matches Ok(v) && v@ == bn_coefficients(
            rank as nat,
            *momentum_squared,
            *mass_0_squared,
            *mass_1_squared,
            *mu_squared,
        )),
{
    if rank > 4 {
        return Err(UnsupportedRank(rank));
    }
    let p = momentum_squared;
    let m0 = mass_0_squared;
    let m1 = mass_1_squared;
    let mu = mu_squared;
    let mut result: Vec<LaurentSeries> = Vec::new();
    result.push(b0(p, m0, m1, mu));
    if rank >= 1 {
        result.push(b1(p, m0, m1, mu));
    }
    if rank >= 2 {
        result.push(b00(p, m0, m1, mu));
        result.push(b11(p, m0, m1, mu));
    }
    if rank >= 3 {
        result.push(b001(p, m0, m1, mu));
        result.push(b111(p, m0, m1, mu));
    }
    if rank >= 4 {
        result.push(b0000(p, m0, m1, mu));
        result.push(b0011(p, m0, m1, mu));
        result.push(b1111(p, m0, m1, mu));
    }
    Ok(result)
}

/// The bubble coefficients through rank `rank` are, in order, `B0`, `B1`,
/// `B00`, `B11`, `B001`, `B111`, `B0000`, `B0011`, `B1111`, each given by its
/// own function, as many as the rank reaches: 1, 2, 4, 6 or 9.
pub proof fn lemma_bn_lists_each_coefficient(rank: nat, p: Expr, m0: Expr, m1: Expr, mu: Expr)
    requires
        rank <= 4,
    ensures
        bn_coefficients(rank, p, m0, m1, mu).len() == (if rank == 0 {
            1
        } else if rank == 1 {
            2
        } else if rank == 2 {
            4
        } else if rank == 3 {
            6
        } else {
            9nat
        }),
        bn_coefficients(rank, p, m0, m1, mu)[0] == b0(&p, &m0, &m1, &mu),
        rank >= 1 ==> bn_coefficients(rank, p, m0, m1, mu)[1] == b1(&p, &m0, &m1, &mu),
        rank >= 2 ==> bn_coefficients(rank, p, m0, m1, mu)[2] == b00(&p, &m0, &m1, &mu),
        rank >= 2 ==> bn_coefficients(rank, p, m0, m1, mu)[3] == b11(&p, &m0, &m1, &mu),
        rank >= 3 ==> bn_coefficients(rank, p, m0, m1, mu)[4] == b001(&p, &m0, &m1, &mu),
        rank >= 3 ==> bn_coefficients(rank, p, m0, m1, mu)[5] == b111(&p, &m0, &m1, &mu),
        rank >= 4 ==> bn_coefficients(rank, p, m0, m1, mu)[6] == b0000(&p, &m0, &m1, &mu),
        rank >= 4 ==> bn_coefficients(rank, p, m0, m1, mu)[7] == b0011(&p, &m0, &m1, &mu),
        rank >= 4 ==> bn_coefficients(rank, p, m0, m1, mu)[8] == b1111(&p, &m0, &m1, &mu),
{
}

/// The tadpole coefficients of a rank are those of rank four truncated to
/// the rank: `rank / 2 + 1` of them, in the order `A0, A00, A0000`; an odd
/// rank has the coefficients of the even rank below it.
pub proof fn lemma_an_truncates(rank: nat, mass_squared: Expr, mu_squared: Expr)
    requires
        rank <= 4,
    ensures
        an_coefficients(rank, mass_squared, mu_squared) == an_coefficients(4, mass_squared, mu_squared).take(
            (rank / 2 + 1) as int,
        ),
        rank % 2 == 1 ==> an_coefficients(rank, mass_squared, mu_squared) == an_coefficients(
            (rank - 1) as nat,
            mass_squared,
            mu_squared,
        ),
{
    let all = an_coefficients(4, mass_squared, mu_squared);
    assert(an_coefficients(rank, mass_squared, mu_squared) =~= all.take((rank / 2 + 1) as int));
}

/// The number of bubble coefficients through a rank.
pub open spec fn bn_count(rank: nat) -> nat {
    if rank == 0 {
        1
    } else if rank == 1 {
        2
    } else if rank == 2 {
        4
    } else if rank == 3 {
        6
    } else {
        9
    }
}

/// The bubble coefficients of a rank are those of rank four, in the order
/// `B0, B1, B00, B11, B001, B111, B0000, B0011, B1111`, truncated at the
/// rank.
pub proof fn lemma_bn_truncates(rank: nat, p: Expr, m0: Expr, m1: Expr, mu: Expr)
    requires
        rank <= 4,
    ensures
        bn_coefficients(rank, p, m0, m1, mu) == bn_coefficients(4, p, m0, m1, mu).take(bn_count(rank) as int),
{
    let all = bn_coefficients(4, p, m0, m1, mu);
    assert(bn_coefficients(rank, p, m0, m1, mu) =~= all.take(bn_count(rank) as int));
}

} // verus!
