//! Logarithm, square root and dilogarithm with the Feynman continuation.
//!
//! Squared masses carry non-positive imaginary parts, so a real negative
//! argument is read on the lower lip of the cut. The lip is selected by an
//! exact test for a real argument rather than by the sign of a floating zero.
use vstd::prelude::*;
use crate::expr::{Expr, if_nonzero_else};

verus! {

/// `value`, kept as one evaluated group inside a predicate.
#[verifier::allow_in_spec]
pub fn grouped(value: &Expr) -> Expr
    returns
        if_nonzero_else(value, value, &Expr::Int(0)),
{
    if_nonzero_else(value, value, &Expr::num(0))
}

/// Nonzero exactly where `value` is off the real axis.
#[verifier::allow_in_spec]
pub fn off_real_axis(value: &Expr) -> Expr
    returns
        grouped(value).minus(&grouped(value).conjugate()),
{
    grouped(value).minus(&grouped(value).conjugate())
}

/// One where the real `value` is negative, else zero.
#[verifier::allow_in_spec]
pub fn negative_real(value: &Expr) -> Expr
    returns
        if_nonzero_else(
            &grouped(value).minus(&grouped(value).modulus()),
            &Expr::Int(1),
            &Expr::Int(0),
        ),
{
    if_nonzero_else(
        &grouped(value).minus(&grouped(value).modulus()),
        &Expr::num(1),
        &Expr::num(0),
    )
}

/// The principal logarithm, continued to the lower lip of the negative
/// real axis.
#[verifier::allow_in_spec]
pub fn physical_log(value: &Expr) -> Expr
    returns
        if_nonzero_else(
            &off_real_axis(value),
            &grouped(value).ln(),
            &grouped(value).modulus().ln().minus(
                &Expr::I.times(&Expr::Pi).times(&negative_real(value)),
            ),
        ),
{
    let lower_lip = grouped(value).modulus().ln().minus(
        &Expr::i().times(&Expr::pi()).times(&negative_real(value)),
    );
    if_nonzero_else(&off_real_axis(value), &grouped(value).ln(), &lower_lip)
}

/// The principal logarithm, continued to the upper lip of the negative
/// real axis.
#[verifier::allow_in_spec]
pub fn upper_log(value: &Expr) -> Expr
    returns
        if_nonzero_else(
            &off_real_axis(value),
            &grouped(value).ln(),
            &grouped(value).modulus().ln().plus(
                &Expr::I.times(&Expr::Pi).times(&negative_real(value)),
            ),
        ),
{
    let upper_lip = grouped(value).modulus().ln().plus(
        &Expr::i().times(&Expr::pi()).times(&negative_real(value)),
    );
    if_nonzero_else(&off_real_axis(value), &grouped(value).ln(), &upper_lip)
}

/// The dilogarithm on the upper lip of its cut.
#[verifier::allow_in_spec]
pub fn physical_dilog(value: &Expr) -> Expr
    returns
        value.conjugate().li2().conjugate(),
{
    value.conjugate().li2().conjugate()
}

/// The square root, continued to the lower lip of the negative real axis.
#[verifier::allow_in_spec]
pub fn physical_sqrt(value: &Expr) -> Expr
    returns
        if_nonzero_else(
            &off_real_axis(value),
            &grouped(value).root(),
            &if_nonzero_else(
                &grouped(value).minus(&grouped(value).modulus()),
                &Expr::I.negated().times(&grouped(value).modulus().root()),
                &grouped(value).modulus().root(),
            ),
        ),
{
    let absolute = grouped(value).modulus();
    let real_axis = if_nonzero_else(
        &grouped(value).minus(&absolute),
        &Expr::i().negated().times(&absolute.root()),
        &absolute.root(),
    );
    if_nonzero_else(&off_real_axis(value), &grouped(value).root(), &real_axis)
}

/// `log(value) / (1 - value)`, with its limit minus one at `value = 1`.
#[verifier::allow_in_spec]
pub fn log_over_one_minus(value: &Expr) -> Expr
    returns
        if_nonzero_else(
            &value.int_minus(1),
            &physical_log(value).over(&value.int_minus(1)),
            &Expr::Int(-1i64),
        ),
{
    let difference = value.int_minus(1);
    if_nonzero_else(&difference, &physical_log(value).over(&difference), &Expr::num(-1))
}

/// `Li2(1 - value)` on the upper lip.
#[verifier::allow_in_spec]
pub fn dilog_complement(value: &Expr) -> Expr
    returns
        physical_dilog(&value.int_minus(1)),
{
    physical_dilog(&value.int_minus(1))
}

/// `(Li2(1 - x) - Li2(1 - y)) / (x - y)`, with its limit `log(x) / (1 - x)`
/// at `x = y`.
#[verifier::allow_in_spec]
pub fn dilog_divided_difference(first: &Expr, second: &Expr) -> Expr
    returns
        if_nonzero_else(
            &first.minus(second),
            &dilog_complement(first).minus(&dilog_complement(second)).over(&first.minus(second)),
            &log_over_one_minus(first),
        ),
{
    let difference = first.minus(second);
    let unequal = dilog_complement(first).minus(&dilog_complement(second)).over(&difference);
    if_nonzero_else(&difference, &unequal, &log_over_one_minus(first))
}

/// One where `first` or `second` is nonzero, else zero.
#[verifier::allow_in_spec]
pub fn any_nonzero2(first: &Expr, second: &Expr) -> Expr
    returns
        if_nonzero_else(
            second,
            &Expr::Int(1),
            &if_nonzero_else(first, &Expr::Int(1), &Expr::Int(0)),
        ),
{
    if_nonzero_else(
        second,
        &Expr::num(1),
        &if_nonzero_else(first, &Expr::num(1), &Expr::num(0)),
    )
}

/// One where one of three conditions is nonzero, else zero.
#[verifier::allow_in_spec]
pub fn any_nonzero3(first: &Expr, second: &Expr, third: &Expr) -> Expr
    returns
        if_nonzero_else(third, &Expr::Int(1), &any_nonzero2(first, second)),
{
    if_nonzero_else(third, &Expr::num(1), &any_nonzero2(first, second))
}

/// One where some condition of `conditions` is nonzero, else zero; the
/// last condition is tested first.
pub open spec fn any_nonzero_of(conditions: Seq<Expr>) -> Expr
    decreases conditions.len(),
{
    if conditions.len() == 0 {
        Expr::Int(0)
    } else {
        if_nonzero_else(
            &conditions.last(),
            &Expr::Int(1),
            &any_nonzero_of(conditions.drop_last()),
        )
    }
}

/// One where some condition is nonzero, else zero.
pub fn any_nonzero(conditions: &Vec<Expr>) -> (r: Expr)
    ensures
        r == any_nonzero_of(conditions@),
{
    let mut predicate = Expr::num(0);
    let mut k: usize = 0;
    while k < conditions.len()
        invariant
            k <= conditions@.len(),
            predicate == any_nonzero_of(conditions@.take(k as int)),
        decreases conditions.len() - k,
    {
        assert(conditions@.take(k + 1).drop_last() == conditions@.take(k as int));
        predicate = if_nonzero_else(&conditions[k], &Expr::num(1), &predicate);
        k = k + 1;
    }
    assert(conditions@.take(conditions@.len() as int) == conditions@);
    predicate
}

} // verus!
