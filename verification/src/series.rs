//! Laurent coefficients of dimensionally regulated integrals.
use vstd::prelude::*;
use crate::expr::{Expr, if_nonzero_else, folded, lemma_folded_if};
use crate::sectors::spec_three_index;
use crate::sheet::pi_squared;

verus! {

/// A coefficient of a Laurent series.
#[derive(Clone, Copy, Debug, PartialEq, Eq, Hash, Structural)]
pub enum Order {
    /// The coefficient of `epsilon^0`.
    Finite,
    /// The coefficient of `epsilon^-1`.
    SimplePole,
    /// The coefficient of `epsilon^-2`.
    DoublePole,
}

/// The finite, simple-pole and double-pole coefficients of an integral, in
/// the order `[epsilon^0, epsilon^-1, epsilon^-2]`.
#[derive(Debug, PartialEq, Eq)]
pub struct LaurentSeries {
    pub finite: Expr,
    pub simple_pole: Expr,
    pub double_pole: Expr,
}

impl Clone for LaurentSeries {
    fn clone(&self) -> (r: Self)
        ensures
            r == *self,
    {
        LaurentSeries {
            finite: self.finite.clone(),
            simple_pole: self.simple_pole.clone(),
            double_pole: self.double_pole.clone(),
        }
    }
}

impl LaurentSeries {
    /// The series with the three given coefficients.
    #[verifier::allow_in_spec]
    pub fn new(finite: Expr, simple_pole: Expr, double_pole: Expr) -> LaurentSeries
        returns
            (LaurentSeries { finite, simple_pole, double_pole }),
    {
        LaurentSeries { finite, simple_pole, double_pole }
    }

    /// The coefficient of the given order.
    #[verifier::allow_in_spec]
    pub fn coefficient(&self, order: Order) -> Expr
        returns
            match order {
                Order::Finite => self.finite,
                Order::SimplePole => self.simple_pole,
                Order::DoublePole => self.double_pole,
            },
    {
        match order {
            Order::Finite => self.finite.clone(),
            Order::SimplePole => self.simple_pole.clone(),
            Order::DoublePole => self.double_pole.clone(),
        }
    }

    /// The coefficients in the order `[epsilon^0, epsilon^-1, epsilon^-2]`.
    pub fn into_coefficients(self) -> (r: [Expr; 3])
        ensures
            r@ == seq![self.finite, self.simple_pole, self.double_pole],
    {
        [self.finite, self.simple_pole, self.double_pole]
    }
}

/// A series with a finite part only.
#[verifier::allow_in_spec]
pub fn finite_series(value: Expr) -> LaurentSeries
    returns
        LaurentSeries::new(value, Expr::Int(0), Expr::Int(0)),
{
    LaurentSeries::new(value, Expr::num(0), Expr::num(0))
}

/// The series whose every coefficient is zero.
#[verifier::allow_in_spec]
pub fn zero_series() -> LaurentSeries
    returns
        LaurentSeries::new(Expr::Int(0), Expr::Int(0), Expr::Int(0)),
{
    LaurentSeries::new(Expr::num(0), Expr::num(0), Expr::num(0))
}

/// `nonzero` where `condition` is nonzero and `zero` where it is zero,
/// coefficient by coefficient.
#[verifier::allow_in_spec]
pub fn if_series(condition: &Expr, nonzero: &LaurentSeries, zero: &LaurentSeries) -> LaurentSeries
    returns
        LaurentSeries::new(
            if_nonzero_else(condition, &nonzero.finite, &zero.finite),
            if_nonzero_else(condition, &nonzero.simple_pole, &zero.simple_pole),
            if_nonzero_else(condition, &nonzero.double_pole, &zero.double_pole),
        ),
{
    LaurentSeries::new(
        if_nonzero_else(condition, &nonzero.finite, &zero.finite),
        if_nonzero_else(condition, &nonzero.simple_pole, &zero.simple_pole),
        if_nonzero_else(condition, &nonzero.double_pole, &zero.double_pole),
    )
}

/// The series of branch `4 a + 2 b + c`, where `a`, `b` and `c` tell
/// whether the three conditions are nonzero.
#[verifier::allow_in_spec]
pub fn select_three_series(
    first: &Expr,
    second: &Expr,
    third: &Expr,
    branches: &[LaurentSeries; 8],
) -> LaurentSeries
    returns
        if_series(
            first,
            &if_series(
                second,
                &if_series(third, &branches@[7], &branches@[6]),
                &if_series(third, &branches@[5], &branches@[4]),
            ),
            &if_series(
                second,
                &if_series(third, &branches@[3], &branches@[2]),
                &if_series(third, &branches@[1], &branches@[0]),
            ),
        ),
{
    let with_first = if_series(
        second,
        &if_series(third, &branches[7], &branches[6]),
        &if_series(third, &branches[5], &branches[4]),
    );
    let without_first = if_series(
        second,
        &if_series(third, &branches[3], &branches[2]),
        &if_series(third, &branches[1], &branches[0]),
    );
    if_series(first, &with_first, &without_first)
}

/// Moves the `pi^2 / 12` of the triangle normalisation into the finite part.
#[verifier::allow_in_spec]
pub fn with_triangle_normalization(series: &LaurentSeries) -> LaurentSeries
    returns
        LaurentSeries::new(
            series.finite.plus(&pi_squared().times(&series.double_pole).over_int(12)),
            series.simple_pole,
            series.double_pole,
        ),
{
    LaurentSeries::new(
        series.finite.plus(&pi_squared().times(&series.double_pole).over_int(12)),
        series.simple_pole.clone(),
        series.double_pole.clone(),
    )
}

/// Moves the `pi^2 / 12` of the box normalisation into the finite part.
#[verifier::allow_in_spec]
pub fn with_box_normalization(series: &LaurentSeries) -> LaurentSeries
    returns
        LaurentSeries::new(
            series.finite.plus(&series.double_pole.times(&pi_squared()).over_int(12)),
            series.simple_pole,
            series.double_pole,
        ),
{
    LaurentSeries::new(
        series.finite.plus(&series.double_pole.times(&pi_squared()).over_int(12)),
        series.simple_pole.clone(),
        series.double_pole.clone(),
    )
}

/// Where `condition` folds to the integer `k`, each coefficient of
/// [`if_series`] folds as that of `nonzero` for nonzero `k` and as that of
/// `zero` for zero `k`.
pub proof fn lemma_folded_if_series(
    condition: Expr,
    nonzero: LaurentSeries,
    zero: LaurentSeries,
    order: Order,
    k: i64,
)
    requires
        folded(condition) == Expr::Int(k),
    ensures
        folded(if_series(&condition, &nonzero, &zero).coefficient(order)) == (if k != 0 {
            folded(nonzero.coefficient(order))
        } else {
            folded(zero.coefficient(order))
        }),
{
    lemma_folded_if(condition, nonzero.coefficient(order), zero.coefficient(order), k);
}

/// Where the three conditions fold to integers, [`select_three_series`]
/// folds to the branch numbered by which of them are nonzero, the first
/// condition the highest bit.
pub proof fn lemma_select_three_series_dispatch(
    first: Expr,
    second: Expr,
    third: Expr,
    branches: [LaurentSeries; 8],
    order: Order,
    k1: i64,
    k2: i64,
    k3: i64,
)
    requires
        folded(first) == Expr::Int(k1),
        folded(second) == Expr::Int(k2),
        folded(third) == Expr::Int(k3),
    ensures
        folded(select_three_series(&first, &second, &third, &branches).coefficient(order)) == folded(
            branches[spec_three_index(k1 != 0, k2 != 0, k3 != 0) as int].coefficient(order),
        ),
{
    let b = branches@;
    let t1 = if_series(&third, &b[7], &b[6]);
    let t0 = if_series(&third, &b[5], &b[4]);
    let u1 = if_series(&third, &b[3], &b[2]);
    let u0 = if_series(&third, &b[1], &b[0]);
    lemma_folded_if_series(third, b[7], b[6], order, k3);
    lemma_folded_if_series(third, b[5], b[4], order, k3);
    lemma_folded_if_series(third, b[3], b[2], order, k3);
    lemma_folded_if_series(third, b[1], b[0], order, k3);
    lemma_folded_if_series(second, t1, t0, order, k2);
    lemma_folded_if_series(second, u1, u0, order, k2);
    lemma_folded_if_series(first, if_series(&second, &t1, &t0), if_series(&second, &u1, &u0), order, k1);
}

} // verus!
