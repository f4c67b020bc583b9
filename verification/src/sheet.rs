//! Values continued across the cut of the logarithm.
//!
//! A continued value is a triple: a value moved into the closed right half
//! plane, the multiple of `i pi` its logarithm carries, and a flag that
//! records whether the value was reflected. Products and quotients add and
//! subtract the phases exactly, so logarithms and dilogarithms of products
//! keep the Feynman continuation of every factor.
use vstd::prelude::*;
use crate::expr::{Expr, Args, if_nonzero_else, args1, args3, args6};
use crate::functions::{Func, Part};

verus! {

/// The real part of `z`, as a call of its helper.
#[verifier::allow_in_spec]
pub fn re(z: &Expr) -> Expr
    returns
        Expr::call(Func::RealPart, args1(z)),
{
    Expr::call(Func::RealPart, args1(z))
}

/// The imaginary part of `z`, as a call of its helper.
#[verifier::allow_in_spec]
pub fn im(z: &Expr) -> Expr
    returns
        Expr::call(Func::ImaginaryPart, args1(z)),
{
    Expr::call(Func::ImaginaryPart, args1(z))
}

/// The lower-lip square root of `z`, as a call of its helper.
#[verifier::allow_in_spec]
pub fn sqrt_lower(z: &Expr) -> Expr
    returns
        Expr::call(Func::SqrtLower, args1(z)),
{
    Expr::call(Func::SqrtLower, args1(z))
}

/// Minus one where `x` is negative real, else one; `x` is evaluated once.
#[verifier::allow_in_spec]
pub fn sign_nonnegative(x: &Expr) -> Expr
    returns
        Expr::call(Func::SignNonnegative, args1(x)),
{
    Expr::call(Func::SignNonnegative, args1(x))
}

/// One where `x` is negative real, else zero.
#[verifier::allow_in_spec]
pub fn negative(x: &Expr) -> Expr
    returns
        sign_nonnegative(x).int_minus(1).over_int(2),
{
    sign_nonnegative(x).int_minus(1).over_int(2)
}

/// One where `x` is exactly zero, else zero.
#[verifier::allow_in_spec]
pub fn zero_test(x: &Expr) -> Expr
    returns
        if_nonzero_else(x, &Expr::Int(0), &Expr::Int(1)),
{
    if_nonzero_else(x, &Expr::num(0), &Expr::num(1))
}

/// Exclusive or of two flags in `{0, 1}`.
#[verifier::allow_in_spec]
pub fn xor(a: &Expr, b: &Expr) -> Expr
    returns
        a.plus(b).minus(&a.times_int(2).times(b)),
{
    a.plus(b).minus(&a.times_int(2).times(b))
}

/// The value a continued value stands for: `value`, reflected where `odd`.
#[verifier::allow_in_spec]
pub fn physical(value: &Expr, odd: &Expr) -> Expr
    returns
        odd.times_int(2).int_minus(1).times(value),
{
    odd.times_int(2).int_minus(1).times(value)
}

/// `i pi`.
#[verifier::allow_in_spec]
pub fn i_pi() -> Expr
    returns
        Expr::I.times(&Expr::Pi),
{
    Expr::i().times(&Expr::pi())
}

/// `pi^2`.
#[verifier::allow_in_spec]
pub fn pi_squared() -> Expr
    returns
        Expr::Pi.times(&Expr::Pi),
{
    Expr::pi().times(&Expr::pi())
}

/// The logarithm of the continued value `(value, phase, odd)`.
#[verifier::allow_in_spec]
pub fn log_body(value: &Expr, phase: &Expr, odd: &Expr) -> Expr
    returns
        ({
            let imaginary = im(value);
            let real_axis = zero_test(&imaginary);
            let on_axis = value.ln().plus(&i_pi().times(phase));
            let adjusted_phase = phase.plus(&odd.times(&sign_nonnegative(&imaginary)));
            let complex = physical(value, odd).ln().plus(&i_pi().times(&adjusted_phase));
            if_nonzero_else(&real_axis, &on_axis, &complex)
        }),
{
    let imaginary = im(value);
    let real_axis = zero_test(&imaginary);
    let on_axis = value.ln().plus(&i_pi().times(phase));
    let adjusted_phase = phase.plus(&odd.times(&sign_nonnegative(&imaginary)));
    let complex = physical(value, odd).ln().plus(&i_pi().times(&adjusted_phase));
    if_nonzero_else(&real_axis, &on_axis, &complex)
}

/// The dilogarithm of the continued value `(value, phase, odd)`.
#[verifier::allow_in_spec]
pub fn dilog_body(value: &Expr, phase: &Expr, odd: &Expr) -> Expr
    returns
        ({
            let even0 = phase.minus(odd);
            let argument = physical(value, odd);
            let nonunit = argument.minus(&Expr::num(1));
            let inverted = negative(&value.times(&value.conjugate()).int_minus(1));
            let normalized = if_nonzero_else(&inverted, &Expr::num(1).over(&argument), &argument);
            let logarithm = if_nonzero_else(&inverted, &value.ln().negated(), &value.ln());
            let even = if_nonzero_else(&inverted, &even0.negated(), &even0);
            let odd1 = if_nonzero_else(&inverted, &odd.negated(), odd);
            let sheet_logarithm = logarithm.plus(&i_pi().times(&even.plus(&odd1)));
            let log_one_minus = normalized.int_minus(1).ln();
            let below_half = negative(&re(&normalized).times_int(2).minus(&Expr::num(1)));
            let below = pi_squared().over_int(6).minus(&normalized.li2()).minus(
                &log_one_minus.times(&sheet_logarithm),
            );
            let above = normalized.int_minus(1).li2().minus(&log_one_minus.times(&i_pi()).times(&even));
            let base = if_nonzero_else(&below_half, &below, &above);
            let ordinary = if_nonzero_else(
                &inverted,
                &base.negated().minus(&sheet_logarithm.times(&sheet_logarithm).over_int(2)),
                &base,
            );
            if_nonzero_else(
                value,
                &if_nonzero_else(&nonunit, &ordinary, &Expr::num(0)),
                &pi_squared().over_int(6),
            )
        }),
{
    let even0 = phase.minus(odd);
    let argument = physical(value, odd);
    let nonunit = argument.minus(&Expr::num(1));
    let inverted = negative(&value.times(&value.conjugate()).int_minus(1));
    let normalized = if_nonzero_else(&inverted, &Expr::num(1).over(&argument), &argument);
    let logarithm = if_nonzero_else(&inverted, &value.ln().negated(), &value.ln());
    let even = if_nonzero_else(&inverted, &even0.negated(), &even0);
    let odd1 = if_nonzero_else(&inverted, &odd.negated(), odd);
    let sheet_logarithm = logarithm.plus(&i_pi().times(&even.plus(&odd1)));
    let log_one_minus = normalized.int_minus(1).ln();
    let below_half = negative(&re(&normalized).times_int(2).minus(&Expr::num(1)));
    let below = pi_squared().over_int(6).minus(&normalized.li2()).minus(
        &log_one_minus.times(&sheet_logarithm),
    );
    let above = normalized.int_minus(1).li2().minus(&log_one_minus.times(&i_pi()).times(&even));
    let base = if_nonzero_else(&below_half, &below, &above);
    let ordinary = if_nonzero_else(
        &inverted,
        &base.negated().minus(&sheet_logarithm.times(&sheet_logarithm).over_int(2)),
        &base,
    );
    if_nonzero_else(
        value,
        &if_nonzero_else(&nonunit, &ordinary, &Expr::num(0)),
        &pi_squared().over_int(6),
    )
}

/// The body of a component of a product or quotient of continued values.
#[verifier::allow_in_spec]
pub fn product_part(divide: bool, part: Part) -> Expr
    returns
        ({
            let x0 = Expr::arg(0);
            let x1 = Expr::arg(1);
            let x2 = Expr::arg(2);
            let x3 = Expr::arg(3);
            let x4 = Expr::arg(4);
            let x5 = Expr::arg(5);
            let raw = if divide {
                if_nonzero_else(&x0.minus(&x3), &x0.over(&x3), &Expr::num(1))
            } else {
                x0.times(&x3)
            };
            let n = negative(&re(&raw));
            let crossing = n.times(&sign_nonnegative(&im(&x3)));
            match part {
                Part::Value => n.times_int(2).int_minus(1).times(&raw),
                Part::Phase => if divide {
                    x1.minus(&x4).minus(&crossing)
                } else {
                    x1.plus(&x4).plus(&crossing)
                },
                Part::Odd => xor(&xor(&x2, &x5), &n),
            }
        }),
{
    let x0 = Expr::arg(0);
    let x1 = Expr::arg(1);
    let x2 = Expr::arg(2);
    let x3 = Expr::arg(3);
    let x4 = Expr::arg(4);
    let x5 = Expr::arg(5);
    let raw = if divide {
        if_nonzero_else(&x0.minus(&x3), &x0.over(&x3), &Expr::num(1))
    } else {
        x0.times(&x3)
    };
    let n = negative(&re(&raw));
    let crossing = n.times(&sign_nonnegative(&im(&x3)));
    match part {
        Part::Value => n.times_int(2).int_minus(1).times(&raw),
        Part::Phase => if divide {
            x1.minus(&x4).minus(&crossing)
        } else {
            x1.plus(&x4).plus(&crossing)
        },
        Part::Odd => xor(&xor(&x2, &x5), &n),
    }
}

/// A value continued across the cut of the logarithm.
pub struct Sheet {
    pub value: Expr,
    pub phase: Expr,
    pub odd: Expr,
}

impl Clone for Sheet {
    fn clone(&self) -> (r: Self)
        ensures
            r == *self,
    {
        Sheet { value: self.value.clone(), phase: self.phase.clone(), odd: self.odd.clone() }
    }
}

impl Sheet {
    /// `value` continued with the sign `zero_sign` of the imaginary part
    /// assumed where it is exactly zero.
    #[verifier::allow_in_spec]
    pub fn with_sign(value: &Expr, zero_sign: &Expr) -> Sheet
        returns
            (Sheet {
                value: negative(&re(value)).times_int(2).int_minus(1).times(value),
                phase: negative(&re(value)).times(
                    &if_nonzero_else(&im(value), &sign_nonnegative(&im(value)), zero_sign),
                ),
                odd: negative(&re(value)),
            }),
    {
        let n = negative(&re(value));
        let imaginary = im(value);
        let s = if_nonzero_else(&imaginary, &sign_nonnegative(&imaginary), zero_sign);
        Sheet { value: n.times_int(2).int_minus(1).times(value), phase: n.times(&s), odd: n }
    }

    /// `value` on the lower lip of the negative real axis.
    #[verifier::allow_in_spec]
    pub fn lower(value: &Expr) -> Sheet
        returns
            Sheet::with_sign(value, &Expr::Int(-1i64)),
    {
        Sheet::with_sign(value, &Expr::num(-1))
    }

    /// `value` on the upper lip of the negative real axis.
    #[verifier::allow_in_spec]
    pub fn upper(value: &Expr) -> Sheet
        returns
            Sheet::with_sign(value, &Expr::Int(1)),
    {
        Sheet::with_sign(value, &Expr::num(1))
    }

    /// The continued value multiplied by a positive `scale`.
    #[verifier::allow_in_spec]
    pub fn scale_positive(&self, scale: &Expr) -> Sheet
        returns
            (Sheet { value: self.value.times(scale), phase: self.phase, odd: self.odd }),
    {
        Sheet { value: self.value.times(scale), phase: self.phase.clone(), odd: self.odd.clone() }
    }

    /// The value this continued value stands for.
    #[verifier::allow_in_spec]
    pub fn physical_value(&self) -> Expr
        returns
            physical(&self.value, &self.odd),
    {
        physical(&self.value, &self.odd)
    }

    /// The argument list `(value, phase, odd)`.
    #[verifier::allow_in_spec]
    pub fn parts(&self) -> Args
        returns
            args3(&self.value, &self.phase, &self.odd),
    {
        args3(&self.value, &self.phase, &self.odd)
    }

    /// The continued logarithm.
    #[verifier::allow_in_spec]
    pub fn log(&self) -> Expr
        returns
            Expr::call(Func::SheetLog, self.parts()),
    {
        Expr::call(Func::SheetLog, self.parts())
    }

    /// The continued dilogarithm.
    #[verifier::allow_in_spec]
    pub fn dilog(&self) -> Expr
        returns
            Expr::call(Func::SheetDilog, self.parts()),
    {
        Expr::call(Func::SheetDilog, self.parts())
    }

    /// `log(x) / (1 - x)`, with its limit minus one at `x = 1`.
    #[verifier::allow_in_spec]
    pub fn log_over_one_minus(&self) -> Expr
        returns
            if_nonzero_else(
                &self.physical_value().int_minus(1),
                &self.log().over(&self.physical_value().int_minus(1)),
                &Expr::Int(-1i64),
            ),
    {
        let difference = self.physical_value().int_minus(1);
        if_nonzero_else(&difference, &self.log().over(&difference), &Expr::num(-1))
    }

    /// The six arguments of a product or quotient with `other`.
    #[verifier::allow_in_spec]
    pub fn pair(&self, other: &Sheet) -> Args
        returns
            args6(&self.value, &self.phase, &self.odd, &other.value, &other.phase, &other.odd),
    {
        args6(&self.value, &self.phase, &self.odd, &other.value, &other.phase, &other.odd)
    }

    /// The continued product `self * other`.
    #[verifier::allow_in_spec]
    pub fn product(&self, other: &Sheet) -> Sheet
        returns
            (Sheet {
                value: Expr::call(Func::SheetProduct(Part::Value), self.pair(other)),
                phase: Expr::call(Func::SheetProduct(Part::Phase), self.pair(other)),
                odd: Expr::call(Func::SheetProduct(Part::Odd), self.pair(other)),
            }),
    {
        Sheet {
            value: Expr::call(Func::SheetProduct(Part::Value), self.pair(other)),
            phase: Expr::call(Func::SheetProduct(Part::Phase), self.pair(other)),
            odd: Expr::call(Func::SheetProduct(Part::Odd), self.pair(other)),
        }
    }

    /// The continued quotient `self / other`.
    #[verifier::allow_in_spec]
    pub fn quotient(&self, other: &Sheet) -> Sheet
        returns
            (Sheet {
                value: Expr::call(Func::SheetQuotient(Part::Value), self.pair(other)),
                phase: Expr::call(Func::SheetQuotient(Part::Phase), self.pair(other)),
                odd: Expr::call(Func::SheetQuotient(Part::Odd), self.pair(other)),
            }),
    {
        Sheet {
            value: Expr::call(Func::SheetQuotient(Part::Value), self.pair(other)),
            phase: Expr::call(Func::SheetQuotient(Part::Phase), self.pair(other)),
            odd: Expr::call(Func::SheetQuotient(Part::Odd), self.pair(other)),
        }
    }
}

/// `(Li2(1 - x) - Li2(1 - y)) / (x - y)` on continued values, with its limit
/// `log(x) / (1 - x)` where the values coincide.
#[verifier::allow_in_spec]
pub fn divided_difference(first: &Sheet, second: &Sheet) -> Expr
    returns
        if_nonzero_else(
            &first.physical_value().minus(&second.physical_value()),
            &first.dilog().minus(&second.dilog()).over(
                &first.physical_value().minus(&second.physical_value()),
            ),
            &first.log_over_one_minus(),
        ),
{
    let difference = first.physical_value().minus(&second.physical_value());
    if_nonzero_else(
        &difference,
        &first.dilog().minus(&second.dilog()).over(&difference),
        &first.log_over_one_minus(),
    )
}

} // verus!
