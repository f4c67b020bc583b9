//! The finite box with complex masses, by the contour representation.
//!
//! The box is reduced to sums of three-dilogarithm blocks whose poles carry
//! the first two coefficients of their infinitesimal continuation, so that
//! every root lip is fixed exactly and no finite regulator is used. The
//! legs are first permuted into one of the canonical charts.
use vstd::prelude::*;
use crate::expr::{Expr, Args, if_nonzero, if_nonzero_else, args_cons, args3, args4, args6, args10, folded, lemma_folded_if};
use crate::sectors::{spec_four_index, spec_contour_route, spec_massless_shift, ContourRoute};
use crate::elementary::{off_real_axis, grouped};
use crate::sheet::{Sheet, divided_difference, i_pi, im, negative, re, sign_nonnegative};
use crate::functions::{Func, Contour};
use std::rc::Rc;

verus! {

/// `z` times its conjugate.
#[verifier::allow_in_spec]
pub fn norm(z: &Expr) -> Expr
    returns
        z.times(&z.conjugate()),
{
    z.times(&z.conjugate())
}

/// One where `a < b` on the real axis, else zero.
#[verifier::allow_in_spec]
pub fn less(a: &Expr, b: &Expr) -> Expr
    returns
        negative(&a.minus(b)),
{
    negative(&a.minus(b))
}

/// One where `a <= b` on the real axis, else zero.
#[verifier::allow_in_spec]
pub fn le(a: &Expr, b: &Expr) -> Expr
    returns
        less(b, a).int_minus(1),
{
    less(b, a).int_minus(1)
}

/// The smaller of two real values.
#[verifier::allow_in_spec]
pub fn min(a: &Expr, b: &Expr) -> Expr
    returns
        if_nonzero_else(&less(a, b), a, b),
{
    if_nonzero_else(&less(a, b), a, b)
}

/// The sign of the imaginary part of `z`, or `fallback` where it is zero.
#[verifier::allow_in_spec]
pub fn imaginary_sign(z: &Expr, fallback: &Expr) -> Expr
    returns
        if_nonzero_else(&im(z), &sign_nonnegative(&im(z)), fallback),
{
    if_nonzero_else(&im(z), &sign_nonnegative(&im(z)), fallback)
}

/// `IF(condition, 1, rest)`: the fold step of a disjunction of conditions.
#[verifier::allow_in_spec]
pub fn or_nonzero(condition: &Expr, rest: &Expr) -> Expr
    returns
        if_nonzero_else(condition, &Expr::Int(1), rest),
{
    if_nonzero_else(condition, &Expr::num(1), rest)
}

/// The `slot`-th and later values of `values` selected by the integer
/// `index`, counted from one.
pub open spec fn pick_from(index: Expr, values: Seq<Expr>, slot: int) -> Expr
    decreases values.len() - slot,
{
    if slot + 1 >= values.len() {
        values.last()
    } else {
        if_nonzero_else(
            &index.minus(&Expr::Int((slot + 1) as i64)),
            &pick_from(index, values, slot + 1),
            &values[slot],
        )
    }
}

/// The value of `values` at the integer `index`, counted from one; the last
/// value for any other index.
#[verifier::allow_in_spec]
pub fn pick<const N: usize>(index: &Expr, values: &[Expr; N]) -> Expr
    requires
        N >= 1,
    returns
        pick_from(*index, values@, 0),
{
    let mut result = values[N - 1].clone();
    let mut slot: usize = N - 1;
    while slot > 0
        invariant
            0 < N,
            slot < N,
            values@.len() == N,
            result == pick_from(*index, values@, slot as int),
        decreases slot,
    {
        slot = slot - 1;
        result = if_nonzero_else(&index.minus(&Expr::num((slot + 1) as i64)), &result, &values[slot]);
    }
    result
}

/// Where each condition `index - j` of `pick_from(index, values, slot)` is
/// decided nonzero exactly for `j != k`, the selected value is value `k`,
/// counted from one.
proof fn lemma_pick_from_selects(index: Expr, values: Seq<Expr>, slot: int, k: int, holds: spec_fn(Expr) -> bool)
    requires
        0 <= slot < k <= values.len(),
        values.len() <= i64::MAX,
        forall|j: i64| 1 <= j < values.len() ==> holds(#[trigger] index.minus(&Expr::Int(j))) == (j != k),
    ensures
        resolved(pick_from(index, values, slot), holds) == resolved(values[k - 1], holds),
    decreases values.len() - slot,
{
    if slot + 1 < values.len() {
        let j = (slot + 1) as i64;
        assert(holds(index.minus(&Expr::Int(j))) == (j != k));
        if slot + 1 != k {
            lemma_pick_from_selects(index, values, slot + 1, k, holds);
        }
    }
}

/// Where each condition `index - j` of `pick(index, values)` is decided
/// nonzero exactly for `j != k`, as for an index equal to `k`, `pick`
/// selects value `k`, counted from one.
pub proof fn lemma_pick_selects<const N: usize>(index: Expr, values: [Expr; N], k: int, holds: spec_fn(Expr) -> bool)
    requires
        1 <= k <= N,
        N <= i64::MAX,
        forall|j: i64| 1 <= j < N ==> holds(#[trigger] index.minus(&Expr::Int(j))) == (j != k),
    ensures
        resolved(pick(&index, &values), holds) == resolved(values@[k - 1], holds),
{
    lemma_pick_from_selects(index, values@, 0, k, holds);
}

/// A value and the first two coefficients of its infinitesimal
/// continuation, which are symbolic directions and never finite offsets.
pub struct Continued {
    pub value: Expr,
    pub first: Expr,
    pub second: Expr,
}

impl Continued {
    /// The continued value `(value, first, second)`.
    #[verifier::allow_in_spec]
    pub fn new(value: &Expr, first: &Expr, second: &Expr) -> Continued
        returns
            (Continued { value: *value, first: *first, second: *second }),
    {
        Continued { value: value.clone(), first: first.clone(), second: second.clone() }
    }

    /// The sign of the imaginary part of the continued value.
    #[verifier::allow_in_spec]
    pub fn sign(&self) -> Expr
        returns
            imaginary_sign(
                &self.value,
                &imaginary_sign(&self.first, &imaginary_sign(&self.second, &Expr::Int(1))),
            ),
    {
        imaginary_sign(
            &self.value,
            &imaginary_sign(&self.first, &imaginary_sign(&self.second, &Expr::num(1))),
        )
    }

    /// The continued value on its logarithmic sheet.
    #[verifier::allow_in_spec]
    pub fn sheet(&self) -> Sheet
        returns
            Sheet::with_sign(&self.value, &self.sign()),
    {
        Sheet::with_sign(&self.value, &self.sign())
    }

    /// `constant - self`.
    #[verifier::allow_in_spec]
    pub fn complement(&self, constant: i64) -> Continued
        returns
            Continued::new(
                &self.value.int_minus(constant),
                &self.first.negated(),
                &self.second.negated(),
            ),
    {
        Continued::new(&self.value.int_minus(constant), &self.first.negated(), &self.second.negated())
    }

    /// `self - other`.
    #[verifier::allow_in_spec]
    pub fn subtract(&self, other: &Continued) -> Continued
        returns
            Continued::new(
                &self.value.minus(&other.value),
                &self.first.minus(&other.first),
                &self.second.minus(&other.second),
            ),
    {
        Continued::new(
            &self.value.minus(&other.value),
            &self.first.minus(&other.first),
            &self.second.minus(&other.second),
        )
    }
}

/// The width direction of a squared mass: zero for a complex mass, else
/// `-i |Re m|`.
#[verifier::allow_in_spec]
pub fn mass_direction(mass: &Expr) -> Expr
    returns
        if_nonzero_else(&im(mass), &Expr::Int(0), &Expr::I.negated().times(&re(mass).modulus())),
{
    if_nonzero_else(&im(mass), &Expr::num(0), &Expr::i().negated().times(&re(mass).modulus()))
}

/// The root `y` of `k y^2 + l y + n = 0` continued to second order in the
/// infinitesimal directions `dl`, `dn` and `dn2` of its coefficients.
#[verifier::allow_in_spec]
pub fn continued_root(y: &Expr, k: &Expr, l: &Expr, dl: &Expr, dn: &Expr, dn2: &Expr) -> Continued
    returns
        ({
            let derivative = k.times_int(2).times(y).plus(l);
            let first = dl.times(y).plus(dn).negated().over(&derivative);
            let second = k.times(&first).times(&first).plus(&dl.times(&first)).plus(dn2).negated().over(
                &derivative,
            );
            Continued::new(y, &first, &second)
        }),
{
    let derivative = k.times_int(2).times(y).plus(l);
    let first = dl.times(y).plus(dn).negated().over(&derivative);
    let second = k.times(&first).times(&first).plus(&dl.times(&first)).plus(dn2).negated().over(
        &derivative,
    );
    Continued::new(y, &first, &second)
}

/// The arguments `(value, first, second)` of a continued value followed by
/// `rest`.
#[verifier::allow_in_spec]
pub fn continued_args(y: &Continued, rest: Args) -> Args
    returns
        args_cons(&y.value, args_cons(&y.first, args_cons(&y.second, rest))),
{
    args_cons(&y.value, args_cons(&y.first, args_cons(&y.second, rest)))
}

/// A call of the helper `R0`.
#[verifier::allow_in_spec]
pub fn r0_call(y1: &Continued, y2: &Continued) -> Expr
    returns
        Expr::call(Func::Contour(Contour::R0), continued_args(y1, continued_args(y2, Args::Empty))),
{
    Expr::call(Func::Contour(Contour::R0), continued_args(y1, continued_args(y2, Args::Empty)))
}

/// A call of the helper `R1`.
#[verifier::allow_in_spec]
pub fn r1_call(z: &Continued, y1: &Continued, y2: &Continued, fy: &Expr) -> Expr
    returns
        Expr::call(
            Func::Contour(Contour::R1),
            continued_args(z, continued_args(y1, continued_args(y2, args_cons(fy, Args::Empty)))),
        ),
{
    Expr::call(
        Func::Contour(Contour::R1),
        continued_args(z, continued_args(y1, continued_args(y2, args_cons(fy, Args::Empty)))),
    )
}

/// A call of the helper `S3`: the block of the integral with the poles
/// `y1`, `y2` over `(d + e x)` and the quadratic `a x^2 + b x + c` with the
/// directions `db`, `dc`.
#[verifier::allow_in_spec]
pub fn s3_call(
    y1: &Continued,
    y2: &Continued,
    d: &Expr,
    e: &Expr,
    a: &Expr,
    b: &Expr,
    c: &Expr,
    db: &Expr,
    dc: &Expr,
) -> Expr
    returns
        Expr::call(
            Func::Contour(Contour::S3),
            continued_args(
                y1,
                continued_args(
                    y2,
                    args_cons(d, args_cons(e, args_cons(a, args4(b, c, db, dc)))),
                ),
            ),
        ),
{
    Expr::call(
        Func::Contour(Contour::S3),
        continued_args(y1, continued_args(y2, args_cons(d, args_cons(e, args_cons(a, args4(b, c, db, dc)))))),
    )
}

/// The `2 pi i` multiple left by a product, with fallback signs where the
/// imaginary parts are zero.
#[verifier::allow_in_spec]
pub fn eta(a: &Expr, sa: &Expr, b: &Expr, sb: &Expr, c: &Expr, sc: &Expr) -> Expr
    returns
        ({
            let sa1 = imaginary_sign(a, sa);
            let sb1 = imaginary_sign(b, sb);
            let sc1 = imaginary_sign(c, sc);
            i_pi().times(&sc1).times(&Expr::num(1).plus(&sa1.times(&sb1))).times(
                &sa1.times(&sc1).int_minus(1),
            ).over_int(2)
        }),
{
    let sa1 = imaginary_sign(a, sa);
    let sb1 = imaginary_sign(b, sb);
    let sc1 = imaginary_sign(c, sc);
    i_pi().times(&sc1).times(&Expr::num(1).plus(&sa1.times(&sb1))).times(
        &sa1.times(&sc1).int_minus(1),
    ).over_int(2)
}

/// The two roots of `a x^2 + b x + c`, as calls of their helpers.
#[verifier::allow_in_spec]
pub fn roots(a: &Expr, b: &Expr, c: &Expr) -> (Expr, Expr)
    returns
        (
            Expr::call(Func::Contour(Contour::Root1), args3(a, b, c)),
            Expr::call(Func::Contour(Contour::Root2), args3(a, b, c)),
        ),
{
    (
        Expr::call(Func::Contour(Contour::Root1), args3(a, b, c)),
        Expr::call(Func::Contour(Contour::Root2), args3(a, b, c)),
    )
}

/// The principal square root, exact on the axes, with its small
/// rectangular component recovered from `2 u v = Im z`.
#[verifier::allow_in_spec]
pub fn principal_sqrt(value: &Expr) -> Expr
    returns
        ({
            let v = grouped(value);
            let absolute = v.modulus();
            let axis = if_nonzero_else(
                &v.minus(&absolute),
                &Expr::i().times(&absolute.root()),
                &absolute.root(),
            );
            let real_part = re(&v);
            let imaginary = im(&v);
            let u = absolute.plus(&real_part).over_int(2).root();
            let w = sign_nonnegative(&imaginary).times(&absolute.minus(&real_part).over_int(2).root());
            let positive = u.plus(&Expr::i().times(&imaginary).over(&u.times_int(2)));
            let negative_real = imaginary.over(&w.times_int(2)).plus(&Expr::i().times(&w));
            if_nonzero_else(
                &off_real_axis(value),
                &if_nonzero_else(&negative(&real_part), &negative_real, &positive),
                &axis,
            )
        }),
{
    let v = grouped(value);
    let absolute = v.modulus();
    let axis = if_nonzero_else(
        &v.minus(&absolute),
        &Expr::i().times(&absolute.root()),
        &absolute.root(),
    );
    let real_part = re(&v);
    let imaginary = im(&v);
    let u = absolute.plus(&real_part).over_int(2).root();
    let w = sign_nonnegative(&imaginary).times(&absolute.minus(&real_part).over_int(2).root());
    let positive = u.plus(&Expr::i().times(&imaginary).over(&u.times_int(2)));
    let negative_real = imaginary.over(&w.times_int(2)).plus(&Expr::i().times(&w));
    if_nonzero_else(
        &off_real_axis(value),
        &if_nonzero_else(&negative(&real_part), &negative_real, &positive),
        &axis,
    )
}

/// The roots of `a x^2 + b x + c` with the labels and the
/// cancellation-free product relation of the contour solver, and their
/// linear and constant limits.
#[verifier::allow_in_spec]
pub fn root_bodies(a: &Expr, b: &Expr, c: &Expr) -> (Expr, Expr)
    returns
        ({
            let delta = principal_sqrt(&b.times(b).minus(&a.times_int(4).times(c)));
            let plus = b.negated().plus(&delta);
            let minus = b.negated().minus(&delta);
            let swap = less(&norm(&plus), &norm(&minus));
            let first = if_nonzero_else(&swap, &c.times_int(2).over(&minus), &plus.over(&a.times_int(2)));
            let second = if_nonzero_else(&swap, &minus.over(&a.times_int(2)), &c.times_int(2).over(&plus));
            let linear = if_nonzero(b, &c.negated().over(b));
            (
                if_nonzero_else(c, &if_nonzero_else(a, &first, &linear), &if_nonzero(a, &b.negated().over(a))),
                if_nonzero_else(c, &if_nonzero_else(a, &second, &linear), &if_nonzero(a, &Expr::num(0))),
            )
        }),
{
    let delta = principal_sqrt(&b.times(b).minus(&a.times_int(4).times(c)));
    let plus = b.negated().plus(&delta);
    let minus = b.negated().minus(&delta);
    let swap = less(&norm(&plus), &norm(&minus));
    let first = if_nonzero_else(&swap, &c.times_int(2).over(&minus), &plus.over(&a.times_int(2)));
    let second = if_nonzero_else(&swap, &minus.over(&a.times_int(2)), &c.times_int(2).over(&plus));
    let linear = if_nonzero(b, &c.negated().over(b));
    (
        if_nonzero_else(c, &if_nonzero_else(a, &first, &linear), &if_nonzero(a, &b.negated().over(a))),
        if_nonzero_else(c, &if_nonzero_else(a, &second, &linear), &if_nonzero(a, &Expr::num(0))),
    )
}

/// The body of `R0` over two continued poles: the integral of the
/// logarithmic kernel between them.
#[verifier::allow_in_spec]
pub fn r0(y1: &Continued, y2: &Continued) -> Expr
    returns
        ({
            let first = y2.complement(0).sheet().quotient(&y1.complement(0).sheet()).log_over_one_minus().over(
                &y1.value,
            );
            let second = y2.complement(1).sheet().quotient(&y1.complement(1).sheet()).log_over_one_minus().over(
                &y1.value.int_minus(1),
            );
            first.plus(&second)
        }),
{
    let first = y2.complement(0).sheet().quotient(&y1.complement(0).sheet()).log_over_one_minus().over(
        &y1.value,
    );
    let second = y2.complement(1).sheet().quotient(&y1.complement(1).sheet()).log_over_one_minus().over(
        &y1.value.int_minus(1),
    );
    first.plus(&second)
}

/// The body of `R1`: the contribution of the pole `z` to a block with the
/// poles `y1`, `y2` and their `R0` value `fy`.
#[verifier::allow_in_spec]
pub fn r1(zz: &Continued, yy1: &Continued, yy2: &Continued, fy: &Expr) -> Expr
    returns
        ({
            let z = zz.value.copied();
            let y1 = yy1.value.copied();
            let y2 = yy2.value.copied();
            let oz = z.int_minus(1);
            let yz1 = y1.minus(&z);
            let yz2 = y2.minus(&z);
            let q1 = yy1.subtract(zz).sheet();
            let q2 = yy2.subtract(zz).sheet();
            let qz = zz.complement(0).sheet();
            let qo = zz.complement(1).sheet();
            let h12 = norm(&y1.minus(&y2));
            let hz1 = norm(&yz1);
            let hz2 = norm(&yz2);
            let hzz = norm(&z);
            let hoz = norm(&oz);
            let zsmall = less(&hzz, &hz1).times(&less(&hzz, &hz2)).times(&less(&hzz, &hoz));
            let osmall = less(&hoz, &hz1).times(&less(&hoz, &hz2));
            let product_log = q1.log().plus(&q2.log());
            let y2_squared = y2.times(&y2);
            let yratio = Continued::new(
                &y2.minus(&Expr::num(1)).over(&y2),
                &yy2.first.over(&y2_squared),
                &yy2.second.over(&y2_squared).minus(&yy2.first.times(&yy2.first).over(&y2_squared.times(&y2))),
            );
            let ylog = yratio.sheet().log();
            let ratio = q1.quotient(&q2).log_over_one_minus();
            let zlimit = fy.times(&q1.log()).minus(
                &product_log.over_int(2).plus(&ylog).minus(&qo.log()).times(&ratio).over(&yz2),
            );
            let olimit = fy.times(&q1.log()).minus(
                &product_log.negated().over_int(2).plus(&ylog).plus(&qz.log()).times(&ratio).over(&yz2),
            );
            let near_y2 = fy.times(&q1.log()).minus(&r0_call(yy2, zz).times(&ratio));
            let near_y1 = fy.times(&q2.log()).minus(&r0_call(yy1, zz).times(&q2.quotient(&q1).log_over_one_minus()));
            let ordinary = if_nonzero(&yz1, &yz1.times(&q1.log()).times(&r0_call(yy1, zz))).minus(
                &if_nonzero(&yz2, &yz2.times(&q2.log()).times(&r0_call(yy2, zz))),
            ).over(&y1.minus(&y2));
            let logarithms = if_nonzero_else(
                &zsmall,
                &zlimit,
                &if_nonzero_else(
                    &osmall,
                    &olimit,
                    &if_nonzero_else(
                        &le(&h12, &hz2).times(&le(&hz2, &hz1)),
                        &near_y2,
                        &if_nonzero_else(&le(&h12, &hz1).times(&le(&hz1, &hz2)), &near_y1, &ordinary),
                    ),
                ),
            );
            let dilog_z = if_nonzero_else(
                &zsmall,
                &if_nonzero(
                    &z,
                    &divided_difference(&qz.quotient(&q1), &qz.quotient(&q2)).times(&z).over(&yz1.times(&yz2)),
                ),
                &divided_difference(&q1.quotient(&qz), &q2.quotient(&qz)).over(&z),
            );
            let dilog_o = if_nonzero_else(
                &zsmall.int_minus(1).times(&osmall),
                &if_nonzero(
                    &oz,
                    &divided_difference(&qo.quotient(&q1), &qo.quotient(&q2)).times(&oz).over(&yz1.times(&yz2)),
                ),
                &divided_difference(&q1.quotient(&qo), &q2.quotient(&qo)).over(&oz),
            );
            logarithms.plus(&dilog_z).plus(&dilog_o)
        }),
{
    let z = zz.value.copied();
    let y1 = yy1.value.copied();
    let y2 = yy2.value.copied();
    let oz = z.int_minus(1);
    let yz1 = y1.minus(&z);
    let yz2 = y2.minus(&z);
    let q1 = yy1.subtract(zz).sheet();
    let q2 = yy2.subtract(zz).sheet();
    let qz = zz.complement(0).sheet();
    let qo = zz.complement(1).sheet();
    let h12 = norm(&y1.minus(&y2));
    let hz1 = norm(&yz1);
    let hz2 = norm(&yz2);
    let hzz = norm(&z);
    let hoz = norm(&oz);
    let zsmall = less(&hzz, &hz1).times(&less(&hzz, &hz2)).times(&less(&hzz, &hoz));
    let osmall = less(&hoz, &hz1).times(&less(&hoz, &hz2));
    let product_log = q1.log().plus(&q2.log());
    let y2_squared = y2.times(&y2);
    let yratio = Continued::new(
        &y2.minus(&Expr::num(1)).over(&y2),
        &yy2.first.over(&y2_squared),
        &yy2.second.over(&y2_squared).minus(&yy2.first.times(&yy2.first).over(&y2_squared.times(&y2))),
    );
    let ylog = yratio.sheet().log();
    let ratio = q1.quotient(&q2).log_over_one_minus();
    let zlimit = fy.times(&q1.log()).minus(
        &product_log.over_int(2).plus(&ylog).minus(&qo.log()).times(&ratio).over(&yz2),
    );
    let olimit = fy.times(&q1.log()).minus(
        &product_log.negated().over_int(2).plus(&ylog).plus(&qz.log()).times(&ratio).over(&yz2),
    );
    let near_y2 = fy.times(&q1.log()).minus(&r0_call(yy2, zz).times(&ratio));
    let near_y1 = fy.times(&q2.log()).minus(&r0_call(yy1, zz).times(&q2.quotient(&q1).log_over_one_minus()));
    let ordinary = if_nonzero(&yz1, &yz1.times(&q1.log()).times(&r0_call(yy1, zz))).minus(
        &if_nonzero(&yz2, &yz2.times(&q2.log()).times(&r0_call(yy2, zz))),
    ).over(&y1.minus(&y2));
    let logarithms = if_nonzero_else(
        &zsmall,
        &zlimit,
        &if_nonzero_else(
            &osmall,
            &olimit,
            &if_nonzero_else(
                &le(&h12, &hz2).times(&le(&hz2, &hz1)),
                &near_y2,
                &if_nonzero_else(&le(&h12, &hz1).times(&le(&hz1, &hz2)), &near_y1, &ordinary),
            ),
        ),
    );
    let dilog_z = if_nonzero_else(
        &zsmall,
        &if_nonzero(
            &z,
            &divided_difference(&qz.quotient(&q1), &qz.quotient(&q2)).times(&z).over(&yz1.times(&yz2)),
        ),
        &divided_difference(&q1.quotient(&qz), &q2.quotient(&qz)).over(&z),
    );
    let dilog_o = if_nonzero_else(
        &zsmall.int_minus(1).times(&osmall),
        &if_nonzero(
            &oz,
            &divided_difference(&qo.quotient(&q1), &qo.quotient(&q2)).times(&oz).over(&yz1.times(&yz2)),
        ),
        &divided_difference(&q1.quotient(&qo), &q2.quotient(&qo)).over(&oz),
    );
    logarithms.plus(&dilog_z).plus(&dilog_o)
}

/// The body of `S3DoubleReal`: the block with a real double root of a
/// positive quadratic inside the integration interval.
#[verifier::allow_in_spec]
pub fn s3_double_real(y1: &Expr, y2: &Expr, z: &Expr, a: &Expr) -> Expr
    returns
        ({
            let a1 = z.minus(y1);
            let a2 = z.minus(y2);
            let oz = z.int_minus(1);
            let q01 = Sheet::upper(&y1.negated()).quotient(&Sheet::upper(&a1));
            let q02 = Sheet::upper(&y2.negated()).quotient(&Sheet::upper(&a2));
            let q11 = Sheet::upper(&y1.int_minus(1)).quotient(&Sheet::upper(&a1));
            let q12 = Sheet::upper(&y2.int_minus(1)).quotient(&Sheet::upper(&a2));
            let jdd = z.times(&divided_difference(&q01, &q02)).plus(&oz.times(&divided_difference(&q11, &q12))).minus(
                &z.times(&z.ln()).times(&q01.quotient(&q02).log_over_one_minus()).over(&q02.physical_value()),
            ).minus(
                &oz.times(&oz.ln()).times(&q11.quotient(&q12).log_over_one_minus()).over(&q12.physical_value()),
            ).over(&a1.times(&a2));
            let zero = Expr::num(0);
            r0_call(&Continued::new(y1, &zero, &zero), &Continued::new(y2, &zero, &zero)).times(&a.ln()).plus(
                &jdd.times_int(2),
            )
        }),
{
    let a1 = z.minus(y1);
    let a2 = z.minus(y2);
    let oz = z.int_minus(1);
    let q01 = Sheet::upper(&y1.negated()).quotient(&Sheet::upper(&a1));
    let q02 = Sheet::upper(&y2.negated()).quotient(&Sheet::upper(&a2));
    let q11 = Sheet::upper(&y1.int_minus(1)).quotient(&Sheet::upper(&a1));
    let q12 = Sheet::upper(&y2.int_minus(1)).quotient(&Sheet::upper(&a2));
    let jdd = z.times(&divided_difference(&q01, &q02)).plus(&oz.times(&divided_difference(&q11, &q12))).minus(
        &z.times(&z.ln()).times(&q01.quotient(&q02).log_over_one_minus()).over(&q02.physical_value()),
    ).minus(
        &oz.times(&oz.ln()).times(&q11.quotient(&q12).log_over_one_minus()).over(&q12.physical_value()),
    ).over(&a1.times(&a2));
    let zero = Expr::num(0);
    r0_call(&Continued::new(y1, &zero, &zero), &Continued::new(y2, &zero, &zero)).times(&a.ln()).plus(
        &jdd.times_int(2),
    )
}

/// One where `y` is off the closed interval `[0, 1]`.
#[verifier::allow_in_spec]
pub fn outside_closed_interval(y: &Expr) -> Expr
    returns
        if_nonzero_else(
            &im(y),
            &Expr::Int(1),
            &negative(&re(y)).plus(&negative(&re(y).int_minus(1))),
        ),
{
    if_nonzero_else(&im(y), &Expr::num(1), &negative(&re(y)).plus(&negative(&re(y).int_minus(1))))
}

/// A root of the continuation of `S3` with its second-order direction
/// completed where all its parts are real.
#[verifier::allow_in_spec]
pub fn completed_root(z: &Continued, fallback: &Expr) -> Continued
    returns
        ({
            let known = or_nonzero(&im(&z.second), &or_nonzero(&im(&z.first), &or_nonzero(&im(&z.value), &Expr::num(0))));
            Continued::new(&z.value, &z.first, &if_nonzero_else(&known, &z.second, &fallback.times(&re(&z.value).modulus())))
        }),
{
    let known = or_nonzero(&im(&z.second), &or_nonzero(&im(&z.first), &or_nonzero(&im(&z.value), &Expr::num(0))));
    Continued::new(&z.value, &z.first, &if_nonzero_else(&known, &z.second, &fallback.times(&re(&z.value).modulus())))
}

/// The body of `S3`.
#[verifier::allow_in_spec]
pub fn s3(
    y1_in: &Continued,
    y2_in: &Continued,
    d: &Expr,
    e: &Expr,
    a: &Expr,
    b: &Expr,
    c: &Expr,
    db: &Expr,
    dc: &Expr,
) -> Expr
    returns
        ({
            let simc = imaginary_sign(c, &imaginary_sign(dc, &imaginary_sign(b, &imaginary_sign(db, &Expr::num(-1i64)))));
            let y1 = Continued::new(&d.plus(&y1_in.value).over(e), &y1_in.first.over(e), &y1_in.second.over(e));
            let y2 = Continued::new(&d.plus(&y2_in.value).over(e), &y2_in.first.over(e), &y2_in.second.over(e));
            let fy = r0_call(&y1, &y2);
            let quadratic_roots = roots(&re(a), b, c);
            let rea = sign_nonnegative(&re(a));
            let zero = Expr::num(0);
            let z1_raw = continued_root(&quadratic_roots.0, a, b, db, dc, &zero);
            let z2_raw = continued_root(&quadratic_roots.1, a, b, db, dc, &zero);
            let fallback1 = simc.times(&rea).times(&sign_nonnegative(&re(&z2_raw.value)));
            let fallback2 = simc.times(&rea).times(&sign_nonnegative(&re(&z1_raw.value)));
            let z1 = completed_root(&z1_raw, &Expr::i().times(&fallback1));
            let z2 = completed_root(&z2_raw, &Expr::i().times(&fallback2));
            let s1 = z1.sign();
            let s2 = z2.sign();
            let ordinary_quadratic = fy.times(
                &Sheet::with_sign(a, &simc).log().plus(
                    &eta(&z1.value.negated(), &s1.negated(), &z2.value.negated(), &s2.negated(), &zero, &simc.times(&rea)),
                ),
            ).plus(&r1_call(&z1, &y1, &y2, &fy)).plus(&r1_call(&z2, &y1, &y2, &fy));
            let z0 = b.negated().over(&a.times_int(2));
            let real_coefficients = or_nonzero(&im(c), &or_nonzero(&im(b), &or_nonzero(&im(a), &zero))).int_minus(1);
            let positive_a = negative(&re(a).negated());
            let interior_z = negative(&re(&z0).negated()).times(&negative(&re(&z0).minus(&Expr::num(1))));
            let regular_poles = outside_closed_interval(&y1.value).times(&outside_closed_interval(&y2.value));
            let double_root = if_nonzero_else(
                &b.times(b).minus(&a.times_int(4).times(c)),
                &zero,
                &real_coefficients.times(&positive_a).times(&interior_z).times(&regular_poles),
            );
            let quadratic = if_nonzero_else(
                &double_root,
                &Expr::call(Func::Contour(Contour::S3DoubleReal), args4(&y1.value, &y2.value, &z0, a)),
                &ordinary_quadratic,
            );
            let zl_raw = continued_root(&c.negated().over(b), &zero, b, db, dc, &zero);
            let zl = completed_root(&zl_raw, &Expr::i().negated().times(&simc).times(&sign_nonnegative(&re(b))));
            let sz = zl.sign();
            let sb = imaginary_sign(db, &simc);
            let linear = fy.times(
                &Sheet::with_sign(b, &sb).log().plus(&eta(b, &sb, &zl.value.negated(), &sz.negated(), c, &simc)),
            ).plus(&r1_call(&zl, &y1, &y2, &fy));
            let constant = if_nonzero(c, &Sheet::with_sign(c, &simc).log().times(&fy));
            if_nonzero(e, &if_nonzero_else(a, &quadratic, &if_nonzero_else(b, &linear, &constant)).over(e))
        }),
{
    let simc = imaginary_sign(c, &imaginary_sign(dc, &imaginary_sign(b, &imaginary_sign(db, &Expr::num(-1i64)))));
    let y1 = Continued::new(&d.plus(&y1_in.value).over(e), &y1_in.first.over(e), &y1_in.second.over(e));
    let y2 = Continued::new(&d.plus(&y2_in.value).over(e), &y2_in.first.over(e), &y2_in.second.over(e));
    let fy = r0_call(&y1, &y2);
    let quadratic_roots = roots(&re(a), b, c);
    let rea = sign_nonnegative(&re(a));
    let zero = Expr::num(0);
    let z1_raw = continued_root(&quadratic_roots.0, a, b, db, dc, &zero);
    let z2_raw = continued_root(&quadratic_roots.1, a, b, db, dc, &zero);
    let fallback1 = simc.times(&rea).times(&sign_nonnegative(&re(&z2_raw.value)));
    let fallback2 = simc.times(&rea).times(&sign_nonnegative(&re(&z1_raw.value)));
    let z1 = completed_root(&z1_raw, &Expr::i().times(&fallback1));
    let z2 = completed_root(&z2_raw, &Expr::i().times(&fallback2));
    let s1 = z1.sign();
    let s2 = z2.sign();
    let ordinary_quadratic = fy.times(
        &Sheet::with_sign(a, &simc).log().plus(
            &eta(&z1.value.negated(), &s1.negated(), &z2.value.negated(), &s2.negated(), &zero, &simc.times(&rea)),
        ),
    ).plus(&r1_call(&z1, &y1, &y2, &fy)).plus(&r1_call(&z2, &y1, &y2, &fy));
    let z0 = b.negated().over(&a.times_int(2));
    let real_coefficients = or_nonzero(&im(c), &or_nonzero(&im(b), &or_nonzero(&im(a), &zero))).int_minus(1);
    let positive_a = negative(&re(a).negated());
    let interior_z = negative(&re(&z0).negated()).times(&negative(&re(&z0).minus(&Expr::num(1))));
    let regular_poles = outside_closed_interval(&y1.value).times(&outside_closed_interval(&y2.value));
    let double_root = if_nonzero_else(
        &b.times(b).minus(&a.times_int(4).times(c)),
        &zero,
        &real_coefficients.times(&positive_a).times(&interior_z).times(&regular_poles),
    );
    let quadratic = if_nonzero_else(
        &double_root,
        &Expr::call(Func::Contour(Contour::S3DoubleReal), args4(&y1.value, &y2.value, &z0, a)),
        &ordinary_quadratic,
    );
    let zl_raw = continued_root(&c.negated().over(b), &zero, b, db, dc, &zero);
    let zl = completed_root(&zl_raw, &Expr::i().negated().times(&simc).times(&sign_nonnegative(&re(b))));
    let sz = zl.sign();
    let sb = imaginary_sign(db, &simc);
    let linear = fy.times(
        &Sheet::with_sign(b, &sb).log().plus(&eta(b, &sb, &zl.value.negated(), &sz.negated(), c, &simc)),
    ).plus(&r1_call(&zl, &y1, &y2, &fy));
    let constant = if_nonzero(c, &Sheet::with_sign(c, &simc).log().times(&fy));
    if_nonzero(e, &if_nonzero_else(a, &quadratic, &if_nonzero_else(b, &linear, &constant)).over(e))
}

/// The sheet of `a / value` continued along a pole `y` of the residue.
#[verifier::allow_in_spec]
pub fn planar_sheet(y: &Continued, value: &Expr, a: &Expr, b: &Expr, dc: &Expr) -> Sheet
    returns
        ({
            let first = b.times(&y.first).plus(dc);
            let second = b.times(&y.second);
            let squared = value.times(value);
            Continued::new(
                &a.over(value),
                &a.negated().times(&first).over(&squared),
                &a.times(&first).times(&first).over(&squared.times(value)).minus(&a.times(&second).over(&squared)),
            ).sheet()
        }),
{
    let first = b.times(&y.first).plus(dc);
    let second = b.times(&y.second);
    let squared = value.times(value);
    Continued::new(
        &a.over(value),
        &a.negated().times(&first).over(&squared),
        &a.times(&first).times(&first).over(&squared.times(value)).minus(&a.times(&second).over(&squared)),
    ).sheet()
}

/// The body of `Planar`: the residue of the poles inside the contour.
#[verifier::allow_in_spec]
pub fn planar(
    y1: &Continued,
    y2: &Continued,
    p1: &Expr,
    p2: &Expr,
    a: &Expr,
    b: &Expr,
    c: &Expr,
    dc: &Expr,
) -> Expr
    returns
        ({
            let x1 = b.times(&y1.value).plus(c);
            let x2 = b.times(&y2.value).plus(c);
            let q1 = planar_sheet(y1, &x1, a, b, dc);
            let q2 = planar_sheet(y2, &x2, a, b, dc);
            let both = q2.quotient(&q1).log_over_one_minus().times(b).over(&x2);
            let only_first = q1.log().over(&y1.value.minus(&y2.value));
            let only_second = q2.log().over(&y2.value.minus(&y1.value));
            Expr::num(2).times(&Expr::i()).times(&Expr::pi()).times(
                &if_nonzero_else(p1, &if_nonzero_else(p2, &both, &only_first), &if_nonzero(p2, &only_second)),
            )
        }),
{
    let x1 = b.times(&y1.value).plus(c);
    let x2 = b.times(&y2.value).plus(c);
    let q1 = planar_sheet(y1, &x1, a, b, dc);
    let q2 = planar_sheet(y2, &x2, a, b, dc);
    let both = q2.quotient(&q1).log_over_one_minus().times(b).over(&x2);
    let only_first = q1.log().over(&y1.value.minus(&y2.value));
    let only_second = q2.log().over(&y2.value.minus(&y1.value));
    Expr::num(2).times(&Expr::i()).times(&Expr::pi()).times(
        &if_nonzero_else(p1, &if_nonzero_else(p2, &both, &only_first), &if_nonzero(p2, &only_second)),
    )
}

/// The two continued roots of `k y^2 + l y + n`.
#[verifier::allow_in_spec]
pub fn continued_roots(k: &Expr, l: &Expr, n: &Expr, dl: &Expr, dn: &Expr, dn2: &Expr) -> (Continued, Continued)
    returns
        (
            continued_root(&roots(k, l, n).0, k, l, dl, dn, dn2),
            continued_root(&roots(k, l, n).1, k, l, dl, dn, dn2),
        ),
{
    let quadratic_roots = roots(k, l, n);
    (
        continued_root(&quadratic_roots.0, k, l, dl, dn, dn2),
        continued_root(&quadratic_roots.1, k, l, dl, dn, dn2),
    )
}

/// The body of `T1`: the reduction with one vanishing coefficient.
#[verifier::allow_in_spec]
pub fn t1(
    a: &Expr,
    c: &Expr,
    g: &Expr,
    h: &Expr,
    d: &Expr,
    e: &Expr,
    f: &Expr,
    j: &Expr,
    dpe: &Expr,
    dd: &Expr,
    de: &Expr,
    df: &Expr,
    dj: &Expr,
    ddpe: &Expr,
) -> Expr
    returns
        ({
            let k = h.times(a).minus(&c.times(g));
            let l = h.times(d).minus(&c.times(j)).minus(&e.times(g));
            let n = h.times(f).minus(&e.times(j));
            let dl = h.times(dd).minus(&c.times(dj)).minus(&de.times(g));
            let dn = h.times(df).minus(&de.times(j)).minus(&e.times(dj));
            let dn2 = de.negated().times(dj).minus(&Expr::i().times(&re(f).modulus()).times(h));
            let ys = continued_roots(&k, &l, &n, &dl, &dn, &dn2);
            let zero = Expr::num(0);
            let one = Expr::num(1);
            s3_call(&ys.0, &ys.1, &zero, &one, &a.plus(c), dpe, f, ddpe, df).negated().plus(
                &s3_call(&ys.0, &ys.1, &zero, &one, &zero, &g.plus(h), j, &zero, dj),
            ).minus(&s3_call(&ys.0, &ys.1, &zero, &one, &zero, g, j, &zero, dj)).plus(
                &s3_call(&ys.0, &ys.1, &zero, &one, a, d, f, dd, df),
            ).over(&k)
        }),
{
    let k = h.times(a).minus(&c.times(g));
    let l = h.times(d).minus(&c.times(j)).minus(&e.times(g));
    let n = h.times(f).minus(&e.times(j));
    let dl = h.times(dd).minus(&c.times(dj)).minus(&de.times(g));
    let dn = h.times(df).minus(&de.times(j)).minus(&e.times(dj));
    let dn2 = de.negated().times(dj).minus(&Expr::i().times(&re(f).modulus()).times(h));
    let ys = continued_roots(&k, &l, &n, &dl, &dn, &dn2);
    let zero = Expr::num(0);
    let one = Expr::num(1);
    s3_call(&ys.0, &ys.1, &zero, &one, &a.plus(c), dpe, f, ddpe, df).negated().plus(
        &s3_call(&ys.0, &ys.1, &zero, &one, &zero, &g.plus(h), j, &zero, dj),
    ).minus(&s3_call(&ys.0, &ys.1, &zero, &one, &zero, g, j, &zero, dj)).plus(
        &s3_call(&ys.0, &ys.1, &zero, &one, a, d, f, dd, df),
    ).over(&k)
}

/// The body of `T13`: the chart that keeps two opposite zero externals.
#[verifier::allow_in_spec]
pub fn t13(
    a: &Expr,
    c: &Expr,
    g: &Expr,
    h: &Expr,
    d: &Expr,
    e: &Expr,
    f: &Expr,
    j: &Expr,
    dpe: &Expr,
    dpj: &Expr,
    dpf: &Expr,
    dd: &Expr,
    de: &Expr,
    df: &Expr,
    dj: &Expr,
    ddpe: &Expr,
    ddpj: &Expr,
    ddpf: &Expr,
) -> Expr
    returns
        ({
            let k = h.times(a).minus(&c.times(g));
            let l = a.times(d).plus(&h.times(e)).minus(&d.times(g)).minus(&c.times(j));
            let n = d.times(&e.minus(j)).plus(&h.minus(c).times(f));
            let dl = a.minus(g).times(dd).plus(&h.times(de)).minus(&c.times(dj));
            let dn = dd.times(&e.minus(j)).plus(&d.times(&de.minus(dj))).plus(&h.minus(c).times(df));
            let dn2 = dd.times(&de.minus(dj)).minus(&Expr::i().times(&re(f).modulus()).times(&h.minus(c)));
            let ys = continued_roots(&k, &l, &n, &dl, &dn, &dn2);
            let zero = Expr::num(0);
            let one = Expr::num(1);
            s3_call(&ys.0, &ys.1, &zero, &one, a, &e.plus(c), dpf, de, ddpf).negated().plus(
                &s3_call(&ys.0, &ys.1, &zero, &one, g, &j.plus(h), dpf, dj, ddpf),
            ).minus(&s3_call(&ys.0, &ys.1, &zero, &one, &g.plus(h), dpj, f, ddpj, df)).plus(
                &s3_call(&ys.0, &ys.1, &zero, &one, &a.plus(c), dpe, f, ddpe, df),
            ).over(&k)
        }),
{
    let k = h.times(a).minus(&c.times(g));
    let l = a.times(d).plus(&h.times(e)).minus(&d.times(g)).minus(&c.times(j));
    let n = d.times(&e.minus(j)).plus(&h.minus(c).times(f));
    let dl = a.minus(g).times(dd).plus(&h.times(de)).minus(&c.times(dj));
    let dn = dd.times(&e.minus(j)).plus(&d.times(&de.minus(dj))).plus(&h.minus(c).times(df));
    let dn2 = dd.times(&de.minus(dj)).minus(&Expr::i().times(&re(f).modulus()).times(&h.minus(c)));
    let ys = continued_roots(&k, &l, &n, &dl, &dn, &dn2);
    let zero = Expr::num(0);
    let one = Expr::num(1);
    s3_call(&ys.0, &ys.1, &zero, &one, a, &e.plus(c), dpf, de, ddpf).negated().plus(
        &s3_call(&ys.0, &ys.1, &zero, &one, g, &j.plus(h), dpf, dj, ddpf),
    ).minus(&s3_call(&ys.0, &ys.1, &zero, &one, &g.plus(h), dpj, f, ddpj, df)).plus(
        &s3_call(&ys.0, &ys.1, &zero, &one, &a.plus(c), dpe, f, ddpe, df),
    ).over(&k)
}

/// The barycentric coordinates of `y` in the triangle `(0, -beta, 1 - beta)`.
#[verifier::allow_in_spec]
pub fn coordinates(beta: &Expr, y: &Expr) -> (Expr, Expr)
    returns
        ({
            let sum = im(y).negated().over(&im(beta));
            let x2 = re(y).plus(&re(beta).times(&sum));
            (sum.minus(&x2), x2)
        }),
{
    let sum = im(y).negated().over(&im(beta));
    let x2 = re(y).plus(&re(beta).times(&sum));
    (sum.minus(&x2), x2)
}

/// One where the continued value `(value, first, second)` is nonnegative.
#[verifier::allow_in_spec]
pub fn continued_nonnegative(value: &Expr, first: &Expr, second: &Expr) -> Expr
    returns
        if_nonzero_else(
            value,
            &negative(value).int_minus(1),
            &if_nonzero_else(first, &negative(first).int_minus(1), &negative(second).int_minus(1)),
        ),
{
    if_nonzero_else(
        value,
        &negative(value).int_minus(1),
        &if_nonzero_else(first, &negative(first).int_minus(1), &negative(second).int_minus(1)),
    )
}

/// The body of `Inside`: one where the continued pole lies in the triangle.
#[verifier::allow_in_spec]
pub fn inside(beta: &Expr, y: &Expr, dy: &Expr, ddy: &Expr) -> Expr
    returns
        ({
            let x = coordinates(beta, y);
            let d = coordinates(beta, dy);
            let dd = coordinates(beta, ddy);
            if_nonzero(
                &im(beta),
                &continued_nonnegative(&x.0, &d.0, &dd.0).times(&continued_nonnegative(&x.1, &d.1, &dd.1)).times(
                    &continued_nonnegative(
                        &Expr::num(1).minus(&x.0).minus(&x.1),
                        &d.0.negated().minus(&d.1),
                        &dd.0.negated().minus(&dd.1),
                    ),
                ),
            )
        }),
{
    let x = coordinates(beta, y);
    let d = coordinates(beta, dy);
    let dd = coordinates(beta, ddy);
    if_nonzero(
        &im(beta),
        &continued_nonnegative(&x.0, &d.0, &dd.0).times(&continued_nonnegative(&x.1, &d.1, &dd.1)).times(
            &continued_nonnegative(
                &Expr::num(1).minus(&x.0).minus(&x.1),
                &d.0.negated().minus(&d.1),
                &dd.0.negated().minus(&dd.1),
            ),
        ),
    )
}

/// The body of `Distance`: how close an enclosed pole is to an edge.
#[verifier::allow_in_spec]
pub fn distance(beta: &Expr, y: &Expr, dy: &Expr, ddy: &Expr) -> Expr
    returns
        ({
            let x = coordinates(beta, y);
            if_nonzero_else(
                &Expr::call(Func::Contour(Contour::Inside), args4(beta, y, dy, ddy)),
                &min(&x.0, &x.1),
                &Expr::num(1),
            )
        }),
{
    let x = coordinates(beta, y);
    if_nonzero_else(
        &Expr::call(Func::Contour(Contour::Inside), args4(beta, y, dy, ddy)),
        &min(&x.0, &x.1),
        &Expr::num(1),
    )
}

/// The quadratic of the contour through `beta` and its two poles.
pub struct BetaData {
    pub a: Expr,
    pub b: Expr,
    pub c: Expr,
    pub dc: Expr,
    pub k: Expr,
    pub y1: Continued,
    pub y2: Continued,
}

/// The quadratic of the contour through `beta`.
#[verifier::allow_in_spec]
pub fn beta_data(
    beta: &Expr,
    b: &Expr,
    c: &Expr,
    g: &Expr,
    h: &Expr,
    d: &Expr,
    e: &Expr,
    f: &Expr,
    j: &Expr,
    dd: &Expr,
    de: &Expr,
    df: &Expr,
    dj: &Expr,
) -> BetaData
    returns
        ({
            let a1 = g.plus(&beta.times(h));
            let b1 = c.plus(&beta.times_int(2).times(b));
            let c1 = d.plus(&beta.times(e));
            let k = b.times(&a1).minus(&h.times(&b1));
            let l = e.times(&a1).minus(&h.times(&c1)).minus(&j.times(&b1));
            let n = f.times(&a1).minus(&j.times(&c1));
            let dc1 = dd.plus(&beta.times(de));
            let dl = de.times(&a1).minus(&h.times(&dc1)).minus(&dj.times(&b1));
            let dn = df.times(&a1).minus(&dj.times(&c1)).minus(&j.times(&dc1));
            let dn2 = dj.negated().times(&dc1).minus(&Expr::i().times(&re(f).modulus()).times(&a1));
            let ys = continued_roots(&k, &l, &n, &dl, &dn, &dn2);
            BetaData { a: a1, b: b1, c: c1, dc: dc1, k, y1: ys.0, y2: ys.1 }
        }),
{
    let a1 = g.plus(&beta.times(h));
    let b1 = c.plus(&beta.times_int(2).times(b));
    let c1 = d.plus(&beta.times(e));
    let k = b.times(&a1).minus(&h.times(&b1));
    let l = e.times(&a1).minus(&h.times(&c1)).minus(&j.times(&b1));
    let n = f.times(&a1).minus(&j.times(&c1));
    let dc1 = dd.plus(&beta.times(de));
    let dl = de.times(&a1).minus(&h.times(&dc1)).minus(&dj.times(&b1));
    let dn = df.times(&a1).minus(&dj.times(&c1)).minus(&j.times(&dc1));
    let dn2 = dj.negated().times(&dc1).minus(&Expr::i().times(&re(f).modulus()).times(&a1));
    let ys = continued_roots(&k, &l, &n, &dl, &dn, &dn2);
    BetaData { a: a1, b: b1, c: c1, dc: dc1, k, y1: ys.0, y2: ys.1 }
}

/// A call of `Inside` for the pole `y` and the contour through `beta`.
#[verifier::allow_in_spec]
pub fn inside_call(beta: &Expr, y: &Continued) -> Expr
    returns
        Expr::call(Func::Contour(Contour::Inside), args4(beta, &y.value, &y.first, &y.second)),
{
    Expr::call(Func::Contour(Contour::Inside), args4(beta, &y.value, &y.first, &y.second))
}

/// The body of `TfunSelected`: the contour integral through `beta`.
#[verifier::allow_in_spec]
pub fn tfun_selected(
    a: &Expr,
    b: &Expr,
    c: &Expr,
    g: &Expr,
    h: &Expr,
    d: &Expr,
    e: &Expr,
    f: &Expr,
    j: &Expr,
    dpe: &Expr,
    dpf: &Expr,
    beta: &Expr,
    dd: &Expr,
    de: &Expr,
    df: &Expr,
    dj: &Expr,
    ddpe: &Expr,
    ddpf: &Expr,
) -> Expr
    returns
        ({
            let data = beta_data(beta, b, c, g, h, d, e, f, j, dd, de, df, dj);
            let y1 = &data.y1;
            let y2 = &data.y2;
            let zero = Expr::num(0);
            let one = Expr::num(1);
            let p1 = inside_call(beta, y1);
            let p2 = inside_call(beta, y2);
            let integral = s3_call(y1, y2, beta, &one, &zero, h, &g.plus(j), &zero, dj).minus(
                &s3_call(y1, y2, &zero, &beta.int_minus(1), &zero, &g.plus(h), j, &zero, dj),
            ).plus(&s3_call(y1, y2, &zero, &beta.negated(), &zero, g, j, &zero, dj)).minus(
                &s3_call(y1, y2, beta, &one, b, &c.plus(e), &a.plus(dpf), de, ddpf),
            ).plus(&s3_call(y1, y2, &zero, &beta.int_minus(1), &a.plus(b).plus(c), dpe, f, ddpe, df)).minus(
                &s3_call(y1, y2, &zero, &beta.negated(), a, d, f, dd, df),
            );
            let residue = Expr::call(
                Func::Contour(Contour::Planar),
                continued_args(
                    y1,
                    continued_args(
                        y2,
                        args_cons(&p1, args_cons(&p2, args4(&data.a, &data.b, &data.c, &data.dc))),
                    ),
                ),
            );
            integral.plus(&if_nonzero_else(&less(&zero, &im(beta)), &residue.negated(), &residue)).over(&data.k)
        }),
{
    let data = beta_data(beta, b, c, g, h, d, e, f, j, dd, de, df, dj);
    let y1 = &data.y1;
    let y2 = &data.y2;
    let zero = Expr::num(0);
    let one = Expr::num(1);
    let p1 = inside_call(beta, y1);
    let p2 = inside_call(beta, y2);
    let integral = s3_call(y1, y2, beta, &one, &zero, h, &g.plus(j), &zero, dj).minus(
        &s3_call(y1, y2, &zero, &beta.int_minus(1), &zero, &g.plus(h), j, &zero, dj),
    ).plus(&s3_call(y1, y2, &zero, &beta.negated(), &zero, g, j, &zero, dj)).minus(
        &s3_call(y1, y2, beta, &one, b, &c.plus(e), &a.plus(dpf), de, ddpf),
    ).plus(&s3_call(y1, y2, &zero, &beta.int_minus(1), &a.plus(b).plus(c), dpe, f, ddpe, df)).minus(
        &s3_call(y1, y2, &zero, &beta.negated(), a, d, f, dd, df),
    );
    let residue = Expr::call(
        Func::Contour(Contour::Planar),
        continued_args(
            y1,
            continued_args(
                y2,
                args_cons(&p1, args_cons(&p2, args4(&data.a, &data.b, &data.c, &data.dc))),
            ),
        ),
    );
    integral.plus(&if_nonzero_else(&less(&zero, &im(beta)), &residue.negated(), &residue)).over(&data.k)
}

/// A call of `Distance` for the pole `y` and the contour through `beta`.
#[verifier::allow_in_spec]
pub fn distance_call(beta: &Expr, y: &Continued) -> Expr
    returns
        Expr::call(Func::Contour(Contour::Distance), args4(beta, &y.value, &y.first, &y.second)),
{
    Expr::call(Func::Contour(Contour::Distance), args4(beta, &y.value, &y.first, &y.second))
}

/// A call of `T1`.
#[verifier::allow_in_spec]
pub fn t1_call(
    a: &Expr,
    c: &Expr,
    g: &Expr,
    h: &Expr,
    d: &Expr,
    e: &Expr,
    f: &Expr,
    j: &Expr,
    dpe: &Expr,
    dd: &Expr,
    de: &Expr,
    df: &Expr,
    dj: &Expr,
    ddpe: &Expr,
) -> Expr
    returns
        Expr::call(
            Func::Contour(Contour::T1),
            args4(a, c, g, h).append(args10(d, e, f, j, dpe, dd, de, df, dj, ddpe)),
        ),
{
    Expr::call(
        Func::Contour(Contour::T1),
        args4(a, c, g, h).append(args10(d, e, f, j, dpe, dd, de, df, dj, ddpe)),
    )
}

/// A call of `TfunSelected`.
#[verifier::allow_in_spec]
pub fn tfun_selected_call(
    a: &Expr,
    b: &Expr,
    c: &Expr,
    g: &Expr,
    h: &Expr,
    d: &Expr,
    e: &Expr,
    f: &Expr,
    j: &Expr,
    dpe: &Expr,
    dpf: &Expr,
    beta: &Expr,
    dd: &Expr,
    de: &Expr,
    df: &Expr,
    dj: &Expr,
    ddpe: &Expr,
    ddpf: &Expr,
) -> Expr
    returns
        Expr::call(
            Func::Contour(Contour::TfunSelected),
            args4(a, b, c, g).append(args4(h, d, e, f)).append(args10(j, dpe, dpf, beta, dd, de, df, dj, ddpe, ddpf)),
        ),
{
    Expr::call(
        Func::Contour(Contour::TfunSelected),
        args4(a, b, c, g).append(args4(h, d, e, f)).append(args10(j, dpe, dpf, beta, dd, de, df, dj, ddpe, ddpf)),
    )
}

/// The body of `Tfun`: the contour integral of one chart, choosing the
/// contour opposite the pole nearest an edge.
#[verifier::allow_in_spec]
pub fn tfun(
    a: &Expr,
    b: &Expr,
    c: &Expr,
    gin: &Expr,
    hin: &Expr,
    d: &Expr,
    e: &Expr,
    f: &Expr,
    jin: &Expr,
    dpe: &Expr,
    dpf: &Expr,
    dd: &Expr,
    de: &Expr,
    df: &Expr,
    djin: &Expr,
    ddpe: &Expr,
    ddpf: &Expr,
) -> Expr
    returns
        ({
            let sj = imaginary_sign(jin, &imaginary_sign(djin, &Expr::num(-1i64)));
            let g = sj.negated().times(gin);
            let h = sj.negated().times(hin);
            let j = sj.negated().times(jin);
            let dj = sj.negated().times(djin);
            let quadratic_roots = roots(b, c, a);
            let swap = less(&norm(&quadratic_roots.1), &norm(&quadratic_roots.0));
            let beta1 = if_nonzero_else(&swap, &quadratic_roots.1, &quadratic_roots.0);
            let beta2 = if_nonzero_else(&swap, &quadratic_roots.0, &quadratic_roots.1);
            let data1 = beta_data(&beta1, b, c, &g, &h, d, e, f, &j, dd, de, df, &dj);
            let data2 = beta_data(&beta2, b, c, &g, &h, d, e, f, &j, dd, de, df, &dj);
            let d1 = min(&distance_call(&beta1, &data1.y1), &distance_call(&beta1, &data1.y2));
            let d2 = min(&distance_call(&beta2, &data2.y1), &distance_call(&beta2, &data2.y2));
            let use_first = if_nonzero_else(&d1.minus(&Expr::num(1)), &less(&d2, &d1), &Expr::num(1));
            let beta = if_nonzero_else(&use_first, &beta1, &beta2);
            let general = tfun_selected_call(a, b, c, &g, &h, d, e, f, &j, dpe, dpf, &beta, dd, de, df, &dj, ddpe, ddpf);
            let no_b = t1_call(a, c, &g, &h, d, e, f, &j, dpe, dd, de, df, &dj, ddpe);
            let no_a = t1_call(
                &b.plus(c),
                &c.negated(),
                &g.negated().minus(&h),
                &g,
                &dpe.negated().minus(&b.plus(c).times_int(2)),
                &d.plus(c),
                &dpe.plus(b).plus(c).plus(f),
                &g.plus(&h).plus(&j),
                &e.negated().minus(&b.times_int(2)).minus(c),
                &ddpe.negated(),
                dd,
                &ddpe.plus(df),
                &dj,
                &de.negated(),
            );
            sj.negated().times(&if_nonzero_else(b, &if_nonzero_else(a, &general, &no_a), &no_b))
        }),
{
    let sj = imaginary_sign(jin, &imaginary_sign(djin, &Expr::num(-1i64)));
    let g = sj.negated().times(gin);
    let h = sj.negated().times(hin);
    let j = sj.negated().times(jin);
    let dj = sj.negated().times(djin);
    let quadratic_roots = roots(b, c, a);
    let swap = less(&norm(&quadratic_roots.1), &norm(&quadratic_roots.0));
    let beta1 = if_nonzero_else(&swap, &quadratic_roots.1, &quadratic_roots.0);
    let beta2 = if_nonzero_else(&swap, &quadratic_roots.0, &quadratic_roots.1);
    let data1 = beta_data(&beta1, b, c, &g, &h, d, e, f, &j, dd, de, df, &dj);
    let data2 = beta_data(&beta2, b, c, &g, &h, d, e, f, &j, dd, de, df, &dj);
    let d1 = min(&distance_call(&beta1, &data1.y1), &distance_call(&beta1, &data1.y2));
    let d2 = min(&distance_call(&beta2, &data2.y1), &distance_call(&beta2, &data2.y2));
    let use_first = if_nonzero_else(&d1.minus(&Expr::num(1)), &less(&d2, &d1), &Expr::num(1));
    let beta = if_nonzero_else(&use_first, &beta1, &beta2);
    let general = tfun_selected_call(a, b, c, &g, &h, d, e, f, &j, dpe, dpf, &beta, dd, de, df, &dj, ddpe, ddpf);
    let no_b = t1_call(a, c, &g, &h, d, e, f, &j, dpe, dd, de, df, &dj, ddpe);
    let no_a = t1_call(
        &b.plus(c),
        &c.negated(),
        &g.negated().minus(&h),
        &g,
        &dpe.negated().minus(&b.plus(c).times_int(2)),
        &d.plus(c),
        &dpe.plus(b).plus(c).plus(f),
        &g.plus(&h).plus(&j),
        &e.negated().minus(&b.times_int(2)).minus(c),
        &ddpe.negated(),
        dd,
        &ddpe.plus(df),
        &dj,
        &de.negated(),
    );
    sj.negated().times(&if_nonzero_else(b, &if_nonzero_else(a, &general, &no_a), &no_b))
}

/// A call of `Tfun`.
#[verifier::allow_in_spec]
pub fn tfun_call(
    a: &Expr,
    b: &Expr,
    c: &Expr,
    g: &Expr,
    h: &Expr,
    d: &Expr,
    e: &Expr,
    f: &Expr,
    j: &Expr,
    dpe: &Expr,
    dpf: &Expr,
    dd: &Expr,
    de: &Expr,
    df: &Expr,
    dj: &Expr,
    ddpe: &Expr,
    ddpf: &Expr,
) -> Expr
    returns
        Expr::call(
            Func::Contour(Contour::Tfun),
            args4(a, b, c, g).append(args3(h, d, e)).append(args10(f, j, dpe, dpf, dd, de, df, dj, ddpe, ddpf)),
        ),
{
    Expr::call(
        Func::Contour(Contour::Tfun),
        args4(a, b, c, g).append(args3(h, d, e)).append(args10(f, j, dpe, dpf, dd, de, df, dj, ddpe, ddpf)),
    )
}

/// The body of `OppositeChart`: the chart of two opposite zero externals.
#[verifier::allow_in_spec]
pub fn no_opposite_chart(
    p1: &Expr,
    p2: &Expr,
    p3: &Expr,
    p4: &Expr,
    p12: &Expr,
    p23: &Expr,
    m1: &Expr,
    m2: &Expr,
    m3: &Expr,
    m4: &Expr,
) -> Expr
    returns
        ({
            let dm1 = mass_direction(m1);
            let dm2 = mass_direction(m2);
            let dm3 = mass_direction(m3);
            let dm4 = mass_direction(m4);
            let a = p12.minus(p1);
            let c = p4.minus(p12).minus(p3);
            let h = p23.minus(p2).minus(p3);
            let d = m3.minus(m4).minus(p3);
            let e = m1.minus(m3).plus(p3).minus(p4);
            let k = m2.minus(m3).minus(p23).plus(p3);
            let dpe = m1.minus(m4).minus(p4);
            let dpk = m2.minus(m4).minus(p23);
            let dpf = m3.minus(p3);
            Expr::call(
                Func::Contour(Contour::T13),
                args4(&a, &c, p2, &h).append(args4(&d, &e, m4, &k)).append(
                    args10(&dpe, &dpk, &dpf, &dm3.minus(&dm4), &dm1.minus(&dm3), &dm4, &dm2.minus(&dm3), &dm1.minus(&dm4), &dm2.minus(&dm4), &dm3),
                ),
            )
        }),
{
    let dm1 = mass_direction(m1);
    let dm2 = mass_direction(m2);
    let dm3 = mass_direction(m3);
    let dm4 = mass_direction(m4);
    let a = p12.minus(p1);
    let c = p4.minus(p12).minus(p3);
    let h = p23.minus(p2).minus(p3);
    let d = m3.minus(m4).minus(p3);
    let e = m1.minus(m3).plus(p3).minus(p4);
    let k = m2.minus(m3).minus(p23).plus(p3);
    let dpe = m1.minus(m4).minus(p4);
    let dpk = m2.minus(m4).minus(p23);
    let dpf = m3.minus(p3);
    Expr::call(
        Func::Contour(Contour::T13),
        args4(&a, &c, p2, &h).append(args4(&d, &e, m4, &k)).append(
            args10(&dpe, &dpk, &dpf, &dm3.minus(&dm4), &dm1.minus(&dm3), &dm4, &dm2.minus(&dm3), &dm1.minus(&dm4), &dm2.minus(&dm4), &dm3),
        ),
    )
}

/// The body of `OppositeRegular`: one where the opposite chart has no pole
/// on an integration endpoint.
#[verifier::allow_in_spec]
pub fn no_opposite_chart_regular(
    p1: &Expr,
    p2: &Expr,
    p3: &Expr,
    p4: &Expr,
    p12: &Expr,
    p23: &Expr,
    m1: &Expr,
    m2: &Expr,
    m3: &Expr,
    m4: &Expr,
) -> Expr
    returns
        ({
            let a = p12.minus(p1);
            let c = p4.minus(p12).minus(p3);
            let h = p23.minus(p2).minus(p3);
            let d = m3.minus(m4).minus(p3);
            let e = m1.minus(m3).plus(p3).minus(p4);
            let j = m2.minus(m3).minus(p23).plus(p3);
            let k = h.times(&a).minus(&c.times(p2));
            let l = a.times(&d).plus(&h.times(&e)).minus(&d.times(p2)).minus(&c.times(&j));
            let n = d.times(&e.minus(&j)).plus(&h.minus(&c).times(m4));
            let endpoints = n.times(&k.plus(&l).plus(&n));
            if_nonzero_else(
                &or_nonzero(p3, &or_nonzero(p1, &Expr::num(0))),
                &Expr::num(0),
                &if_nonzero(&endpoints, &Expr::num(1)),
            )
        }),
{
    let a = p12.minus(p1);
    let c = p4.minus(p12).minus(p3);
    let h = p23.minus(p2).minus(p3);
    let d = m3.minus(m4).minus(p3);
    let e = m1.minus(m3).plus(p3).minus(p4);
    let j = m2.minus(m3).minus(p23).plus(p3);
    let k = h.times(&a).minus(&c.times(p2));
    let l = a.times(&d).plus(&h.times(&e)).minus(&d.times(p2)).minus(&c.times(&j));
    let n = d.times(&e.minus(&j)).plus(&h.minus(&c).times(m4));
    let endpoints = n.times(&k.plus(&l).plus(&n));
    if_nonzero_else(
        &or_nonzero(p3, &or_nonzero(p1, &Expr::num(0))),
        &Expr::num(0),
        &if_nonzero(&endpoints, &Expr::num(1)),
    )
}

/// The ten invariants and masses after the cyclic relabelling `shift`.
#[verifier::allow_in_spec]
pub fn cyclic_args(
    shift: u8,
    p1: &Expr,
    p2: &Expr,
    p3: &Expr,
    p4: &Expr,
    p12: &Expr,
    p23: &Expr,
    m1: &Expr,
    m2: &Expr,
    m3: &Expr,
    m4: &Expr,
) -> Args
    returns
        if shift == 1 {
            args10(p2, p3, p4, p1, p23, p12, m2, m3, m4, m1)
        } else if shift == 2 {
            args10(p3, p4, p1, p2, p12, p23, m3, m4, m1, m2)
        } else if shift == 3 {
            args10(p4, p1, p2, p3, p23, p12, m4, m1, m2, m3)
        } else {
            args10(p1, p2, p3, p4, p12, p23, m1, m2, m3, m4)
        },
{
    if shift == 1 {
        args10(p2, p3, p4, p1, p23, p12, m2, m3, m4, m1)
    } else if shift == 2 {
        args10(p3, p4, p1, p2, p12, p23, m3, m4, m1, m2)
    } else if shift == 3 {
        args10(p4, p1, p2, p3, p23, p12, m4, m1, m2, m3)
    } else {
        args10(p1, p2, p3, p4, p12, p23, m1, m2, m3, m4)
    }
}

/// The body of `Opposite`: the opposite chart in the first cyclic labelling
/// without an endpoint pole.
#[verifier::allow_in_spec]
pub fn no_opposite_externals(
    p1: &Expr,
    p2: &Expr,
    p3: &Expr,
    p4: &Expr,
    p12: &Expr,
    p23: &Expr,
    m1: &Expr,
    m2: &Expr,
    m3: &Expr,
    m4: &Expr,
) -> Expr
    returns
        ({
            let regular_0 = Expr::call(Func::Contour(Contour::OppositeRegular), cyclic_args(0, p1, p2, p3, p4, p12, p23, m1, m2, m3, m4));
            let regular_1 = Expr::call(Func::Contour(Contour::OppositeRegular), cyclic_args(1, p1, p2, p3, p4, p12, p23, m1, m2, m3, m4));
            let regular_2 = Expr::call(Func::Contour(Contour::OppositeRegular), cyclic_args(2, p1, p2, p3, p4, p12, p23, m1, m2, m3, m4));
            let regular_3 = Expr::call(Func::Contour(Contour::OppositeRegular), cyclic_args(3, p1, p2, p3, p4, p12, p23, m1, m2, m3, m4));
            let selected = if_nonzero_else(
                &regular_0,
                &Expr::num(1),
                &if_nonzero_else(
                    &regular_1,
                    &Expr::num(2),
                    &if_nonzero_else(&regular_2, &Expr::num(3), &if_nonzero_else(&regular_3, &Expr::num(4), &Expr::num(1))),
                ),
            );
            let q1 = pick(&selected, &[p1.copied(), p2.copied(), p3.copied(), p4.copied()]);
            let q2 = pick(&selected, &[p2.copied(), p3.copied(), p4.copied(), p1.copied()]);
            let q3 = pick(&selected, &[p3.copied(), p4.copied(), p1.copied(), p2.copied()]);
            let q4 = pick(&selected, &[p4.copied(), p1.copied(), p2.copied(), p3.copied()]);
            let q12 = pick(&selected, &[p12.copied(), p23.copied(), p12.copied(), p23.copied()]);
            let q23 = pick(&selected, &[p23.copied(), p12.copied(), p23.copied(), p12.copied()]);
            let n1 = pick(&selected, &[m1.copied(), m2.copied(), m3.copied(), m4.copied()]);
            let n2 = pick(&selected, &[m2.copied(), m3.copied(), m4.copied(), m1.copied()]);
            let n3 = pick(&selected, &[m3.copied(), m4.copied(), m1.copied(), m2.copied()]);
            let n4 = pick(&selected, &[m4.copied(), m1.copied(), m2.copied(), m3.copied()]);
            Expr::call(Func::Contour(Contour::OppositeChart), args10(&q1, &q2, &q3, &q4, &q12, &q23, &n1, &n2, &n3, &n4))
        }),
{
    let regular_0 = Expr::call(Func::Contour(Contour::OppositeRegular), cyclic_args(0, p1, p2, p3, p4, p12, p23, m1, m2, m3, m4));
    let regular_1 = Expr::call(Func::Contour(Contour::OppositeRegular), cyclic_args(1, p1, p2, p3, p4, p12, p23, m1, m2, m3, m4));
    let regular_2 = Expr::call(Func::Contour(Contour::OppositeRegular), cyclic_args(2, p1, p2, p3, p4, p12, p23, m1, m2, m3, m4));
    let regular_3 = Expr::call(Func::Contour(Contour::OppositeRegular), cyclic_args(3, p1, p2, p3, p4, p12, p23, m1, m2, m3, m4));
    let selected = if_nonzero_else(
        &regular_0,
        &Expr::num(1),
        &if_nonzero_else(
            &regular_1,
            &Expr::num(2),
            &if_nonzero_else(&regular_2, &Expr::num(3), &if_nonzero_else(&regular_3, &Expr::num(4), &Expr::num(1))),
        ),
    );
    let q1 = pick(&selected, &[p1.copied(), p2.copied(), p3.copied(), p4.copied()]);
    let q2 = pick(&selected, &[p2.copied(), p3.copied(), p4.copied(), p1.copied()]);
    let q3 = pick(&selected, &[p3.copied(), p4.copied(), p1.copied(), p2.copied()]);
    let q4 = pick(&selected, &[p4.copied(), p1.copied(), p2.copied(), p3.copied()]);
    let q12 = pick(&selected, &[p12.copied(), p23.copied(), p12.copied(), p23.copied()]);
    let q23 = pick(&selected, &[p23.copied(), p12.copied(), p23.copied(), p12.copied()]);
    let n1 = pick(&selected, &[m1.copied(), m2.copied(), m3.copied(), m4.copied()]);
    let n2 = pick(&selected, &[m2.copied(), m3.copied(), m4.copied(), m1.copied()]);
    let n3 = pick(&selected, &[m3.copied(), m4.copied(), m1.copied(), m2.copied()]);
    let n4 = pick(&selected, &[m4.copied(), m1.copied(), m2.copied(), m3.copied()]);
    Expr::call(Func::Contour(Contour::OppositeChart), args10(&q1, &q2, &q3, &q4, &q12, &q23, &n1, &n2, &n3, &n4))
}

/// The body of `ZeroExternal`: the charts with one zero external invariant.
#[verifier::allow_in_spec]
pub fn zero_external(
    p1: &Expr,
    p2: &Expr,
    p3: &Expr,
    p4: &Expr,
    p12: &Expr,
    p23: &Expr,
    m1: &Expr,
    m2: &Expr,
    m3: &Expr,
    m4: &Expr,
) -> Expr
    returns
        ({
            let dm1 = mass_direction(m1);
            let dm2 = mass_direction(m2);
            let dm3 = mass_direction(m3);
            let dm4 = mass_direction(m4);
            let c = p23.minus(p2).minus(p3);
            let h = p4.minus(p12).minus(p23).plus(p2);
            let j = p12.minus(p1).minus(p2);
            let d = m3.minus(m4).minus(p3);
            let e = m2.minus(m3).minus(p23).plus(p3);
            let k = m1.minus(m2).plus(p23).minus(p4);
            let cph = p4.minus(p12).minus(p3);
            let dpe = m2.minus(m4).minus(p23);
            let epk = m1.minus(m3).plus(p3).minus(p4);
            let dek = m1.minus(m4).minus(p4);
            let dpf = m3.minus(p3);
            tfun_call(p3, p2, &c, &h, &j, &d, &e, m4, &k, &dpe, &dpf, &dm3.minus(&dm4), &dm2.minus(&dm3), &dm4, &dm1.minus(&dm2), &dm2.minus(&dm4), &dm3).minus(
                &tfun_call(p3, &p2.plus(&j), &cph, &h, &j, &d, &epk, m4, &k, &dek, &dpf, &dm3.minus(&dm4), &dm1.minus(&dm3), &dm4, &dm1.minus(&dm2), &dm1.minus(&dm4), &dm3),
            )
        }),
{
    let dm1 = mass_direction(m1);
    let dm2 = mass_direction(m2);
    let dm3 = mass_direction(m3);
    let dm4 = mass_direction(m4);
    let c = p23.minus(p2).minus(p3);
    let h = p4.minus(p12).minus(p23).plus(p2);
    let j = p12.minus(p1).minus(p2);
    let d = m3.minus(m4).minus(p3);
    let e = m2.minus(m3).minus(p23).plus(p3);
    let k = m1.minus(m2).plus(p23).minus(p4);
    let cph = p4.minus(p12).minus(p3);
    let dpe = m2.minus(m4).minus(p23);
    let epk = m1.minus(m3).plus(p3).minus(p4);
    let dek = m1.minus(m4).minus(p4);
    let dpf = m3.minus(p3);
    tfun_call(p3, p2, &c, &h, &j, &d, &e, m4, &k, &dpe, &dpf, &dm3.minus(&dm4), &dm2.minus(&dm3), &dm4, &dm1.minus(&dm2), &dm2.minus(&dm4), &dm3).minus(
        &tfun_call(p3, &p2.plus(&j), &cph, &h, &j, &d, &epk, m4, &k, &dek, &dpf, &dm3.minus(&dm4), &dm1.minus(&dm3), &dm4, &dm1.minus(&dm2), &dm1.minus(&dm4), &dm3),
    )
}

/// The body of `Ordered`: the general box in its sorted labelling.
#[verifier::allow_in_spec]
pub fn ordered(
    p1: &Expr,
    p2: &Expr,
    p3: &Expr,
    p4: &Expr,
    p12: &Expr,
    p23: &Expr,
    m1: &Expr,
    m2: &Expr,
    m3: &Expr,
    m4: &Expr,
) -> Expr
    returns
        ({
            let dm1 = mass_direction(m1);
            let dm2 = mass_direction(m2);
            let dm3 = mass_direction(m3);
            let dm4 = mass_direction(m4);
            let c = p23.minus(p2).minus(p3);
            let h = p4.minus(p12).minus(p23).plus(p2);
            let j = p12.minus(p1).minus(p2);
            let d = m3.minus(m4).minus(p3);
            let e = m2.minus(m3).minus(p23).plus(p3);
            let k = m1.minus(m2).plus(p23).minus(p4);
            let jph = p4.minus(p1).minus(p23);
            let cph = p4.minus(p12).minus(p3);
            let dpe = m2.minus(m4).minus(p23);
            let epk = m1.minus(m3).plus(p3).minus(p4);
            let dek = m1.minus(m4).minus(p4);
            let dpf = m3.minus(p3);
            let def = m2.minus(p23);
            let xs = roots(p1, &j, p2);
            let alpha = if_nonzero_else(&less(&norm(&re(&xs.0)), &norm(&re(&xs.1))), &xs.1, &xs.0);
            let o1 = alpha.int_minus(1);
            let j1 = j.plus(&p1.times_int(2).times(&alpha));
            let e1 = e.plus(&k.times(&alpha));
            let de1 = dm2.minus(&dm3).plus(&dm1.minus(&dm2).times(&alpha));
            let ch = c.plus(&h.times(&alpha));
            tfun_call(p23, p1, &jph, &c.plus(&p2.times_int(2)).plus(&h.plus(&j).times(&alpha)), &j1, &dpe, &k, m4, &e1, &dek, &def, &dm2.minus(&dm4), &dm1.minus(&dm2), &dm4, &de1, &dm1.minus(&dm4), &dm2).negated().plus(
                &o1.times(&tfun_call(p3, p12, &cph, &ch, &o1.times(&j1), &d, &epk, m4, &e1, &dek, &dpf, &dm3.minus(&dm4), &dm1.minus(&dm3), &dm4, &de1, &dm1.minus(&dm4), &dm3)),
            ).plus(
                &alpha.times(&tfun_call(p3, p2, &c, &ch, &j1.negated().times(&alpha), &d, &e, m4, &e1, &dpe, &dpf, &dm3.minus(&dm4), &dm2.minus(&dm3), &dm4, &de1, &dm2.minus(&dm4), &dm3)),
            )
        }),
{
    let dm1 = mass_direction(m1);
    let dm2 = mass_direction(m2);
    let dm3 = mass_direction(m3);
    let dm4 = mass_direction(m4);
    let c = p23.minus(p2).minus(p3);
    let h = p4.minus(p12).minus(p23).plus(p2);
    let j = p12.minus(p1).minus(p2);
    let d = m3.minus(m4).minus(p3);
    let e = m2.minus(m3).minus(p23).plus(p3);
    let k = m1.minus(m2).plus(p23).minus(p4);
    let jph = p4.minus(p1).minus(p23);
    let cph = p4.minus(p12).minus(p3);
    let dpe = m2.minus(m4).minus(p23);
    let epk = m1.minus(m3).plus(p3).minus(p4);
    let dek = m1.minus(m4).minus(p4);
    let dpf = m3.minus(p3);
    let def = m2.minus(p23);
    let xs = roots(p1, &j, p2);
    let alpha = if_nonzero_else(&less(&norm(&re(&xs.0)), &norm(&re(&xs.1))), &xs.1, &xs.0);
    let o1 = alpha.int_minus(1);
    let j1 = j.plus(&p1.times_int(2).times(&alpha));
    let e1 = e.plus(&k.times(&alpha));
    let de1 = dm2.minus(&dm3).plus(&dm1.minus(&dm2).times(&alpha));
    let ch = c.plus(&h.times(&alpha));
    tfun_call(p23, p1, &jph, &c.plus(&p2.times_int(2)).plus(&h.plus(&j).times(&alpha)), &j1, &dpe, &k, m4, &e1, &dek, &def, &dm2.minus(&dm4), &dm1.minus(&dm2), &dm4, &de1, &dm1.minus(&dm4), &dm2).negated().plus(
        &o1.times(&tfun_call(p3, p12, &cph, &ch, &o1.times(&j1), &d, &epk, m4, &e1, &dek, &dpf, &dm3.minus(&dm4), &dm1.minus(&dm3), &dm4, &de1, &dm1.minus(&dm4), &dm3)),
    ).plus(
        &alpha.times(&tfun_call(p3, p2, &c, &ch, &j1.negated().times(&alpha), &d, &e, m4, &e1, &dpe, &dpf, &dm3.minus(&dm4), &dm2.minus(&dm3), &dm4, &de1, &dm2.minus(&dm4), &dm3)),
    )
}

/// The body of `Sort`: the index of the ordering of four real values.
#[verifier::allow_in_spec]
pub fn sort_four(a: &Expr, b: &Expr, c: &Expr, d: &Expr) -> Expr
    returns
        ({
            let branch1 = if_nonzero_else(&le(c, d), &Expr::num(10), &if_nonzero_else(&le(b, d), &Expr::num(9), &if_nonzero_else(&le(a, d), &Expr::num(8), &Expr::num(4))));
            let branch2 = if_nonzero_else(&le(b, d), &Expr::num(11), &if_nonzero_else(&le(c, d), &Expr::num(12), &if_nonzero_else(&le(a, d), &Expr::num(7), &Expr::num(3))));
            let branch3 = if_nonzero_else(&le(b, d), &Expr::num(24), &if_nonzero_else(&le(a, d), &Expr::num(23), &if_nonzero_else(&le(c, d), &Expr::num(22), &Expr::num(2))));
            let branch4 = if_nonzero_else(&le(c, d), &Expr::num(14), &if_nonzero_else(&le(a, d), &Expr::num(13), &if_nonzero_else(&le(b, d), &Expr::num(18), &Expr::num(5))));
            let branch5 = if_nonzero_else(&le(a, d), &Expr::num(15), &if_nonzero_else(&le(c, d), &Expr::num(16), &if_nonzero_else(&le(b, d), &Expr::num(17), &Expr::num(6))));
            let branch6 = if_nonzero_else(&le(a, d), &Expr::num(19), &if_nonzero_else(&le(b, d), &Expr::num(20), &if_nonzero_else(&le(c, d), &Expr::num(21), &Expr::num(1))));
            if_nonzero_else(
                &le(a, b),
                &if_nonzero_else(&le(b, c), &branch1, &if_nonzero_else(&le(a, c), &branch2, &branch3)),
                &if_nonzero_else(&le(a, c), &branch4, &if_nonzero_else(&le(b, c), &branch5, &branch6)),
            )
        }),
{
    let branch1 = if_nonzero_else(&le(c, d), &Expr::num(10), &if_nonzero_else(&le(b, d), &Expr::num(9), &if_nonzero_else(&le(a, d), &Expr::num(8), &Expr::num(4))));
    let branch2 = if_nonzero_else(&le(b, d), &Expr::num(11), &if_nonzero_else(&le(c, d), &Expr::num(12), &if_nonzero_else(&le(a, d), &Expr::num(7), &Expr::num(3))));
    let branch3 = if_nonzero_else(&le(b, d), &Expr::num(24), &if_nonzero_else(&le(a, d), &Expr::num(23), &if_nonzero_else(&le(c, d), &Expr::num(22), &Expr::num(2))));
    let branch4 = if_nonzero_else(&le(c, d), &Expr::num(14), &if_nonzero_else(&le(a, d), &Expr::num(13), &if_nonzero_else(&le(b, d), &Expr::num(18), &Expr::num(5))));
    let branch5 = if_nonzero_else(&le(a, d), &Expr::num(15), &if_nonzero_else(&le(c, d), &Expr::num(16), &if_nonzero_else(&le(b, d), &Expr::num(17), &Expr::num(6))));
    let branch6 = if_nonzero_else(&le(a, d), &Expr::num(19), &if_nonzero_else(&le(b, d), &Expr::num(20), &if_nonzero_else(&le(c, d), &Expr::num(21), &Expr::num(1))));
    if_nonzero_else(
        &le(a, b),
        &if_nonzero_else(&le(b, c), &branch1, &if_nonzero_else(&le(a, c), &branch2, &branch3)),
        &if_nonzero_else(&le(a, c), &branch4, &if_nonzero_else(&le(b, c), &branch5, &branch6)),
    )
}

/// `e` with each conditional at its top replaced by the arm that `holds`
/// selects for its condition, down to the first node that is no
/// conditional.
pub open spec fn resolved(e: Expr, holds: spec_fn(Expr) -> bool) -> Expr
    decreases e,
{
    match e {
        Expr::If(c, x, y) => if holds(*c) {
            resolved(*x, holds)
        } else {
            resolved(*y, holds)
        },
        _ => e,
    }
}

/// The rank that [`sort_four`] gives the order of four values, from the six
/// comparisons `a <= b`, `b <= c`, `a <= c`, `a <= d`, `b <= d`, `c <= d`.
pub open spec fn order_rank(ab: bool, bc: bool, ac: bool, ad: bool, bd: bool, cd: bool) -> int {
    if ab {
        if bc {
            if cd { 10 } else if bd { 9 } else if ad { 8 } else { 4 }
        } else if ac {
            if bd { 11 } else if cd { 12 } else if ad { 7 } else { 3 }
        } else {
            if bd { 24 } else if ad { 23 } else if cd { 22 } else { 2 }
        }
    } else {
        if ac {
            if cd { 14 } else if ad { 13 } else if bd { 18 } else { 5 }
        } else if bc {
            if ad { 15 } else if cd { 16 } else if bd { 17 } else { 6 }
        } else {
            if ad { 19 } else if bd { 20 } else if cd { 21 } else { 1 }
        }
    }
}

/// The rank of the relative order of the four integers `a`, `b`, `c`, `d`.
pub open spec fn rank_of(a: int, b: int, c: int, d: int) -> int {
    order_rank(a <= b, b <= c, a <= c, a <= d, b <= d, c <= d)
}

/// Whether four integers are pairwise distinct.
pub open spec fn distinct_four(a: int, b: int, c: int, d: int) -> bool {
    a != b && a != c && a != d && b != c && b != d && c != d
}

/// Whether `(a, b, c, d)` and `(e, f, g, h)` are in the same relative order.
pub open spec fn same_order(a: int, b: int, c: int, d: int, e: int, f: int, g: int, h: int) -> bool {
    &&& (a <= b) == (e <= f)
    &&& (b <= c) == (f <= g)
    &&& (a <= c) == (e <= g)
    &&& (a <= d) == (e <= h)
    &&& (b <= d) == (f <= h)
    &&& (c <= d) == (g <= h)
}

/// An order of `0, 1, 2, 3` whose rank is `k`.
pub open spec fn order_of_rank(k: int) -> (int, int, int, int) {
    if k == 1 {
        (3, 2, 1, 0)
    } else if k == 2 {
        (2, 3, 1, 0)
    } else if k == 3 {
        (1, 3, 2, 0)
    } else if k == 4 {
        (1, 2, 3, 0)
    } else if k == 5 {
        (2, 1, 3, 0)
    } else if k == 6 {
        (3, 1, 2, 0)
    } else if k == 7 {
        (0, 3, 2, 1)
    } else if k == 8 {
        (0, 2, 3, 1)
    } else if k == 9 {
        (0, 1, 3, 2)
    } else if k == 10 {
        (0, 1, 2, 3)
    } else if k == 11 {
        (0, 2, 1, 3)
    } else if k == 12 {
        (0, 3, 1, 2)
    } else if k == 13 {
        (1, 0, 3, 2)
    } else if k == 14 {
        (1, 0, 2, 3)
    } else if k == 15 {
        (2, 0, 1, 3)
    } else if k == 16 {
        (3, 0, 1, 2)
    } else if k == 17 {
        (3, 0, 2, 1)
    } else if k == 18 {
        (2, 0, 3, 1)
    } else if k == 19 {
        (2, 1, 0, 3)
    } else if k == 20 {
        (3, 1, 0, 2)
    } else if k == 21 {
        (3, 2, 0, 1)
    } else if k == 22 {
        (2, 3, 0, 1)
    } else if k == 23 {
        (1, 3, 0, 2)
    } else {
        (1, 2, 0, 3)
    }
}

/// Where each comparison `le(x, y)` in `sort_four(a, b, c, d)` holds exactly
/// when the value of `x` is at most that of `y`, the conditionals select
/// the integer rank of the relative order of the four values.
pub proof fn lemma_sort_four_ranks(
    a: Expr,
    b: Expr,
    c: Expr,
    d: Expr,
    holds: spec_fn(Expr) -> bool,
    va: int,
    vb: int,
    vc: int,
    vd: int,
)
    requires
        holds(le(&a, &b)) == (va <= vb),
        holds(le(&b, &c)) == (vb <= vc),
        holds(le(&a, &c)) == (va <= vc),
        holds(le(&a, &d)) == (va <= vd),
        holds(le(&b, &d)) == (vb <= vd),
        holds(le(&c, &d)) == (vc <= vd),
    ensures
        resolved(sort_four(&a, &b, &c, &d), holds) matches Expr::Int(k) && k == rank_of(va, vb, vc, vd),
{
    let n = |k: i64| Expr::Int(k);
    let last = |x: &Expr, y: &Expr, k: i64, l: i64| if_nonzero_else(&le(x, y), &n(k), &n(l));
    let branch1 = if_nonzero_else(&le(&c, &d), &n(10), &if_nonzero_else(&le(&b, &d), &n(9), &last(&a, &d, 8, 4)));
    let branch2 = if_nonzero_else(&le(&b, &d), &n(11), &if_nonzero_else(&le(&c, &d), &n(12), &last(&a, &d, 7, 3)));
    let branch3 = if_nonzero_else(&le(&b, &d), &n(24), &if_nonzero_else(&le(&a, &d), &n(23), &last(&c, &d, 22, 2)));
    let branch4 = if_nonzero_else(&le(&c, &d), &n(14), &if_nonzero_else(&le(&a, &d), &n(13), &last(&b, &d, 18, 5)));
    let branch5 = if_nonzero_else(&le(&a, &d), &n(15), &if_nonzero_else(&le(&c, &d), &n(16), &last(&b, &d, 17, 6)));
    let branch6 = if_nonzero_else(&le(&a, &d), &n(19), &if_nonzero_else(&le(&b, &d), &n(20), &last(&c, &d, 21, 1)));
    let low = if_nonzero_else(&le(&b, &c), &branch1, &if_nonzero_else(&le(&a, &c), &branch2, &branch3));
    let high = if_nonzero_else(&le(&a, &c), &branch4, &if_nonzero_else(&le(&b, &c), &branch5, &branch6));
    assert(sort_four(&a, &b, &c, &d) == if_nonzero_else(&le(&a, &b), &low, &high));
    reveal_with_fuel(resolved, 5);
    let (ab, bc, ac, ad, bd, cd) = (va <= vb, vb <= vc, va <= vc, va <= vd, vb <= vd, vc <= vd);
    let r1 = if cd { 10int } else if bd { 9 } else if ad { 8 } else { 4 };
    let r2 = if bd { 11int } else if cd { 12 } else if ad { 7 } else { 3 };
    let r3 = if bd { 24int } else if ad { 23 } else if cd { 22 } else { 2 };
    let r4 = if cd { 14int } else if ad { 13 } else if bd { 18 } else { 5 };
    let r5 = if ad { 15int } else if cd { 16 } else if bd { 17 } else { 6 };
    let r6 = if ad { 19int } else if bd { 20 } else if cd { 21 } else { 1 };
    assert(resolved(branch1, holds) matches Expr::Int(k) && k == r1);
    assert(resolved(branch2, holds) matches Expr::Int(k) && k == r2);
    assert(resolved(branch3, holds) matches Expr::Int(k) && k == r3);
    assert(resolved(branch4, holds) matches Expr::Int(k) && k == r4);
    assert(resolved(branch5, holds) matches Expr::Int(k) && k == r5);
    assert(resolved(branch6, holds) matches Expr::Int(k) && k == r6);
    assert(resolved(low, holds) == if bc { resolved(branch1, holds) } else if ac { resolved(branch2, holds) } else {
        resolved(branch3, holds)
    });
    assert(resolved(high, holds) == if ac { resolved(branch4, holds) } else if bc { resolved(branch5, holds) } else {
        resolved(branch6, holds)
    });
}

/// Four distinct values have a rank from one to twenty-four, and two orders
/// of distinct values have the same rank exactly when they are the same
/// relative order.
pub proof fn lemma_rank_separates_orders(a: int, b: int, c: int, d: int, e: int, f: int, g: int, h: int)
    requires
        distinct_four(a, b, c, d),
        distinct_four(e, f, g, h),
    ensures
        1 <= rank_of(a, b, c, d) <= 24,
        rank_of(a, b, c, d) == rank_of(e, f, g, h) <==> same_order(a, b, c, d, e, f, g, h),
{
}

/// Every rank from one to twenty-four is the rank of an order of four
/// distinct values.
pub proof fn lemma_every_rank_is_taken(k: int)
    requires
        1 <= k <= 24,
    ensures
        distinct_four(order_of_rank(k).0, order_of_rank(k).1, order_of_rank(k).2, order_of_rank(k).3),
        rank_of(order_of_rank(k).0, order_of_rank(k).1, order_of_rank(k).2, order_of_rank(k).3) == k,
{
}

/// The real part of the Kallen function of two legs and their channel.
#[verifier::allow_in_spec]
pub fn lambda(first: &Expr, second: &Expr, channel: &Expr) -> Expr
    returns
        re(
            &channel.minus(first).minus(second).times(&channel.minus(first).minus(second)).minus(
                &first.times_int(4).times(second),
            ),
        ),
{
    let t = channel.minus(first).minus(second);
    re(&t.times(&t).minus(&first.times_int(4).times(second)))
}

/// The body of `General`: the box with no zero external invariant, relabelled
/// by the order of its Kallen functions.
#[verifier::allow_in_spec]
pub fn general(
    p1: &Expr,
    p2: &Expr,
    p3: &Expr,
    p4: &Expr,
    p12: &Expr,
    p23: &Expr,
    m1: &Expr,
    m2: &Expr,
    m3: &Expr,
    m4: &Expr,
) -> Expr
    returns
        ({
            let l1 = lambda(p1, p2, p12);
            let l2 = lambda(p2, p3, p23);
            let l3 = lambda(p3, p4, p12);
            let l4 = lambda(p4, p1, p23);
            let sorted = Expr::call(Func::Contour(Contour::Sort), args4(&l1, &l2, &l3, &l4));
            let all_positive = negative(&l1).int_minus(1).times(&negative(&l2).int_minus(1)).times(
                &negative(&l3).int_minus(1),
            ).times(&negative(&l4).int_minus(1));
            let permutation_b = [
                Expr::num(5),
                Expr::num(4),
                Expr::num(1),
                Expr::num(6),
                Expr::num(3),
                Expr::num(2),
                Expr::num(11),
                Expr::num(10),
                Expr::num(7),
                Expr::num(12),
                Expr::num(9),
                Expr::num(8),
                Expr::num(17),
                Expr::num(16),
                Expr::num(13),
                Expr::num(18),
                Expr::num(15),
                Expr::num(14),
                Expr::num(23),
                Expr::num(22),
                Expr::num(19),
                Expr::num(24),
                Expr::num(21),
                Expr::num(20),
            ];
            let permutation_a = [
                Expr::num(17),
                Expr::num(7),
                Expr::num(22),
                Expr::num(18),
                Expr::num(8),
                Expr::num(21),
                Expr::num(23),
                Expr::num(13),
                Expr::num(4),
                Expr::num(24),
                Expr::num(14),
                Expr::num(3),
                Expr::num(5),
                Expr::num(19),
                Expr::num(10),
                Expr::num(6),
                Expr::num(20),
                Expr::num(9),
                Expr::num(11),
                Expr::num(1),
                Expr::num(16),
                Expr::num(12),
                Expr::num(2),
                Expr::num(15),
            ];
            let masses_1 = [
                m1.copied(),
                m4.copied(),
                m2.copied(),
                m1.copied(),
                m4.copied(),
                m2.copied(),
                m2.copied(),
                m1.copied(),
                m3.copied(),
                m2.copied(),
                m1.copied(),
                m3.copied(),
                m3.copied(),
                m2.copied(),
                m4.copied(),
                m3.copied(),
                m2.copied(),
                m4.copied(),
                m4.copied(),
                m3.copied(),
                m1.copied(),
                m4.copied(),
                m3.copied(),
                m1.copied(),
            ];
            let masses_2 = [
                m2.copied(),
                m2.copied(),
                m4.copied(),
                m4.copied(),
                m1.copied(),
                m1.copied(),
                m3.copied(),
                m3.copied(),
                m1.copied(),
                m1.copied(),
                m2.copied(),
                m2.copied(),
                m4.copied(),
                m4.copied(),
                m2.copied(),
                m2.copied(),
                m3.copied(),
                m3.copied(),
                m1.copied(),
                m1.copied(),
                m3.copied(),
                m3.copied(),
                m4.copied(),
                m4.copied(),
            ];
            let masses_3 = [
                m3.copied(),
                m3.copied(),
                m3.copied(),
                m3.copied(),
                m3.copied(),
                m3.copied(),
                m4.copied(),
                m4.copied(),
                m4.copied(),
                m4.copied(),
                m4.copied(),
                m4.copied(),
                m1.copied(),
                m1.copied(),
                m1.copied(),
                m1.copied(),
                m1.copied(),
                m1.copied(),
                m2.copied(),
                m2.copied(),
                m2.copied(),
                m2.copied(),
                m2.copied(),
                m2.copied(),
            ];
            let masses_4 = [
                m4.copied(),
                m1.copied(),
                m1.copied(),
                m2.copied(),
                m2.copied(),
                m4.copied(),
                m1.copied(),
                m2.copied(),
                m2.copied(),
                m3.copied(),
                m3.copied(),
                m1.copied(),
                m2.copied(),
                m3.copied(),
                m3.copied(),
                m4.copied(),
                m4.copied(),
                m2.copied(),
                m3.copied(),
                m4.copied(),
                m4.copied(),
                m1.copied(),
                m1.copied(),
                m3.copied(),
            ];
            let momenta_1 = [
                p1.copied(),
                p23.copied(),
                p23.copied(),
                p4.copied(),
                p4.copied(),
                p1.copied(),
                p2.copied(),
                p12.copied(),
                p12.copied(),
                p1.copied(),
                p1.copied(),
                p2.copied(),
                p3.copied(),
                p23.copied(),
                p23.copied(),
                p2.copied(),
                p2.copied(),
                p3.copied(),
                p4.copied(),
                p12.copied(),
                p12.copied(),
                p3.copied(),
                p3.copied(),
                p4.copied(),
            ];
            let momenta_2 = [
                p2.copied(),
                p2.copied(),
                p3.copied(),
                p3.copied(),
                p12.copied(),
                p12.copied(),
                p3.copied(),
                p3.copied(),
                p4.copied(),
                p4.copied(),
                p23.copied(),
                p23.copied(),
                p4.copied(),
                p4.copied(),
                p1.copied(),
                p1.copied(),
                p12.copied(),
                p12.copied(),
                p1.copied(),
                p1.copied(),
                p2.copied(),
                p2.copied(),
                p23.copied(),
                p23.copied(),
            ];
            let momenta_3 = [
                p3.copied(),
                p12.copied(),
                p12.copied(),
                p2.copied(),
                p2.copied(),
                p3.copied(),
                p4.copied(),
                p23.copied(),
                p23.copied(),
                p3.copied(),
                p3.copied(),
                p4.copied(),
                p1.copied(),
                p12.copied(),
                p12.copied(),
                p4.copied(),
                p4.copied(),
                p1.copied(),
                p2.copied(),
                p23.copied(),
                p23.copied(),
                p1.copied(),
                p1.copied(),
                p2.copied(),
            ];
            let momenta_4 = [
                p4.copied(),
                p4.copied(),
                p1.copied(),
                p1.copied(),
                p23.copied(),
                p23.copied(),
                p1.copied(),
                p1.copied(),
                p2.copied(),
                p2.copied(),
                p12.copied(),
                p12.copied(),
                p2.copied(),
                p2.copied(),
                p3.copied(),
                p3.copied(),
                p23.copied(),
                p23.copied(),
                p3.copied(),
                p3.copied(),
                p4.copied(),
                p4.copied(),
                p12.copied(),
                p12.copied(),
            ];
            let momenta_5 = [
                p12.copied(),
                p3.copied(),
                p2.copied(),
                p12.copied(),
                p3.copied(),
                p2.copied(),
                p23.copied(),
                p4.copied(),
                p3.copied(),
                p23.copied(),
                p4.copied(),
                p3.copied(),
                p12.copied(),
                p1.copied(),
                p4.copied(),
                p12.copied(),
                p1.copied(),
                p4.copied(),
                p23.copied(),
                p2.copied(),
                p1.copied(),
                p23.copied(),
                p2.copied(),
                p1.copied(),
            ];
            let momenta_6 = [
                p23.copied(),
                p1.copied(),
                p4.copied(),
                p23.copied(),
                p1.copied(),
                p4.copied(),
                p12.copied(),
                p2.copied(),
                p1.copied(),
                p12.copied(),
                p2.copied(),
                p1.copied(),
                p23.copied(),
                p3.copied(),
                p2.copied(),
                p23.copied(),
                p3.copied(),
                p2.copied(),
                p12.copied(),
                p4.copied(),
                p3.copied(),
                p12.copied(),
                p4.copied(),
                p3.copied(),
            ];

            let permutation = if_nonzero_else(&all_positive, &pick(&sorted, &permutation_b), &pick(&sorted, &permutation_a));
            Expr::call(
                Func::Contour(Contour::Ordered),
                args10(
                    &pick(&permutation, &momenta_1),
                    &pick(&permutation, &momenta_2),
                    &pick(&permutation, &momenta_3),
                    &pick(&permutation, &momenta_4),
                    &pick(&permutation, &momenta_5),
                    &pick(&permutation, &momenta_6),
                    &pick(&permutation, &masses_1),
                    &pick(&permutation, &masses_2),
                    &pick(&permutation, &masses_3),
                    &pick(&permutation, &masses_4),
                ),
            )
        }),
{
    let l1 = lambda(p1, p2, p12);
    let l2 = lambda(p2, p3, p23);
    let l3 = lambda(p3, p4, p12);
    let l4 = lambda(p4, p1, p23);
    let sorted = Expr::call(Func::Contour(Contour::Sort), args4(&l1, &l2, &l3, &l4));
    let all_positive = negative(&l1).int_minus(1).times(&negative(&l2).int_minus(1)).times(
        &negative(&l3).int_minus(1),
    ).times(&negative(&l4).int_minus(1));
    let permutation_b = [
        Expr::num(5),
        Expr::num(4),
        Expr::num(1),
        Expr::num(6),
        Expr::num(3),
        Expr::num(2),
        Expr::num(11),
        Expr::num(10),
        Expr::num(7),
        Expr::num(12),
        Expr::num(9),
        Expr::num(8),
        Expr::num(17),
        Expr::num(16),
        Expr::num(13),
        Expr::num(18),
        Expr::num(15),
        Expr::num(14),
        Expr::num(23),
        Expr::num(22),
        Expr::num(19),
        Expr::num(24),
        Expr::num(21),
        Expr::num(20),
    ];
    let permutation_a = [
        Expr::num(17),
        Expr::num(7),
        Expr::num(22),
        Expr::num(18),
        Expr::num(8),
        Expr::num(21),
        Expr::num(23),
        Expr::num(13),
        Expr::num(4),
        Expr::num(24),
        Expr::num(14),
        Expr::num(3),
        Expr::num(5),
        Expr::num(19),
        Expr::num(10),
        Expr::num(6),
        Expr::num(20),
        Expr::num(9),
        Expr::num(11),
        Expr::num(1),
        Expr::num(16),
        Expr::num(12),
        Expr::num(2),
        Expr::num(15),
    ];
    let masses_1 = [
        m1.copied(),
        m4.copied(),
        m2.copied(),
        m1.copied(),
        m4.copied(),
        m2.copied(),
        m2.copied(),
        m1.copied(),
        m3.copied(),
        m2.copied(),
        m1.copied(),
        m3.copied(),
        m3.copied(),
        m2.copied(),
        m4.copied(),
        m3.copied(),
        m2.copied(),
        m4.copied(),
        m4.copied(),
        m3.copied(),
        m1.copied(),
        m4.copied(),
        m3.copied(),
        m1.copied(),
    ];
    let masses_2 = [
        m2.copied(),
        m2.copied(),
        m4.copied(),
        m4.copied(),
        m1.copied(),
        m1.copied(),
        m3.copied(),
        m3.copied(),
        m1.copied(),
        m1.copied(),
        m2.copied(),
        m2.copied(),
        m4.copied(),
        m4.copied(),
        m2.copied(),
        m2.copied(),
        m3.copied(),
        m3.copied(),
        m1.copied(),
        m1.copied(),
        m3.copied(),
        m3.copied(),
        m4.copied(),
        m4.copied(),
    ];
    let masses_3 = [
        m3.copied(),
        m3.copied(),
        m3.copied(),
        m3.copied(),
        m3.copied(),
        m3.copied(),
        m4.copied(),
        m4.copied(),
        m4.copied(),
        m4.copied(),
        m4.copied(),
        m4.copied(),
        m1.copied(),
        m1.copied(),
        m1.copied(),
        m1.copied(),
        m1.copied(),
        m1.copied(),
        m2.copied(),
        m2.copied(),
        m2.copied(),
        m2.copied(),
        m2.copied(),
        m2.copied(),
    ];
    let masses_4 = [
        m4.copied(),
        m1.copied(),
        m1.copied(),
        m2.copied(),
        m2.copied(),
        m4.copied(),
        m1.copied(),
        m2.copied(),
        m2.copied(),
        m3.copied(),
        m3.copied(),
        m1.copied(),
        m2.copied(),
        m3.copied(),
        m3.copied(),
        m4.copied(),
        m4.copied(),
        m2.copied(),
        m3.copied(),
        m4.copied(),
        m4.copied(),
        m1.copied(),
        m1.copied(),
        m3.copied(),
    ];
    let momenta_1 = [
        p1.copied(),
        p23.copied(),
        p23.copied(),
        p4.copied(),
        p4.copied(),
        p1.copied(),
        p2.copied(),
        p12.copied(),
        p12.copied(),
        p1.copied(),
        p1.copied(),
        p2.copied(),
        p3.copied(),
        p23.copied(),
        p23.copied(),
        p2.copied(),
        p2.copied(),
        p3.copied(),
        p4.copied(),
        p12.copied(),
        p12.copied(),
        p3.copied(),
        p3.copied(),
        p4.copied(),
    ];
    let momenta_2 = [
        p2.copied(),
        p2.copied(),
        p3.copied(),
        p3.copied(),
        p12.copied(),
        p12.copied(),
        p3.copied(),
        p3.copied(),
        p4.copied(),
        p4.copied(),
        p23.copied(),
        p23.copied(),
        p4.copied(),
        p4.copied(),
        p1.copied(),
        p1.copied(),
        p12.copied(),
        p12.copied(),
        p1.copied(),
        p1.copied(),
        p2.copied(),
        p2.copied(),
        p23.copied(),
        p23.copied(),
    ];
    let momenta_3 = [
        p3.copied(),
        p12.copied(),
        p12.copied(),
        p2.copied(),
        p2.copied(),
        p3.copied(),
        p4.copied(),
        p23.copied(),
        p23.copied(),
        p3.copied(),
        p3.copied(),
        p4.copied(),
        p1.copied(),
        p12.copied(),
        p12.copied(),
        p4.copied(),
        p4.copied(),
        p1.copied(),
        p2.copied(),
        p23.copied(),
        p23.copied(),
        p1.copied(),
        p1.copied(),
        p2.copied(),
    ];
    let momenta_4 = [
        p4.copied(),
        p4.copied(),
        p1.copied(),
        p1.copied(),
        p23.copied(),
        p23.copied(),
        p1.copied(),
        p1.copied(),
        p2.copied(),
        p2.copied(),
        p12.copied(),
        p12.copied(),
        p2.copied(),
        p2.copied(),
        p3.copied(),
        p3.copied(),
        p23.copied(),
        p23.copied(),
        p3.copied(),
        p3.copied(),
        p4.copied(),
        p4.copied(),
        p12.copied(),
        p12.copied(),
    ];
    let momenta_5 = [
        p12.copied(),
        p3.copied(),
        p2.copied(),
        p12.copied(),
        p3.copied(),
        p2.copied(),
        p23.copied(),
        p4.copied(),
        p3.copied(),
        p23.copied(),
        p4.copied(),
        p3.copied(),
        p12.copied(),
        p1.copied(),
        p4.copied(),
        p12.copied(),
        p1.copied(),
        p4.copied(),
        p23.copied(),
        p2.copied(),
        p1.copied(),
        p23.copied(),
        p2.copied(),
        p1.copied(),
    ];
    let momenta_6 = [
        p23.copied(),
        p1.copied(),
        p4.copied(),
        p23.copied(),
        p1.copied(),
        p4.copied(),
        p12.copied(),
        p2.copied(),
        p1.copied(),
        p12.copied(),
        p2.copied(),
        p1.copied(),
        p23.copied(),
        p3.copied(),
        p2.copied(),
        p23.copied(),
        p3.copied(),
        p2.copied(),
        p12.copied(),
        p4.copied(),
        p3.copied(),
        p12.copied(),
        p4.copied(),
        p3.copied(),
    ];

    let permutation = if_nonzero_else(&all_positive, &pick(&sorted, &permutation_b), &pick(&sorted, &permutation_a));
    Expr::call(
        Func::Contour(Contour::Ordered),
        args10(
            &pick(&permutation, &momenta_1),
            &pick(&permutation, &momenta_2),
            &pick(&permutation, &momenta_3),
            &pick(&permutation, &momenta_4),
            &pick(&permutation, &momenta_5),
            &pick(&permutation, &momenta_6),
            &pick(&permutation, &masses_1),
            &pick(&permutation, &masses_2),
            &pick(&permutation, &masses_3),
            &pick(&permutation, &masses_4),
        ),
    )
}

/// The body of `Box`: the chart of the zero external invariants.
#[verifier::allow_in_spec]
pub fn body(
    p1: &Expr,
    p2: &Expr,
    p3: &Expr,
    p4: &Expr,
    p12: &Expr,
    p23: &Expr,
    m1: &Expr,
    m2: &Expr,
    m3: &Expr,
    m4: &Expr,
) -> Expr
    returns
        ({
            let mask = if_nonzero(p1, &Expr::num(8)).plus(&if_nonzero(p2, &Expr::num(4))).plus(
                &if_nonzero(p3, &Expr::num(2)),
            ).plus(&if_nonzero(p4, &Expr::num(1)));
            let opposite = Func::Contour(Contour::Opposite);
            let zero = Func::Contour(Contour::ZeroExternal);
            let values = [
                Expr::call(opposite, cyclic_args(0, p1, p2, p3, p4, p12, p23, m1, m2, m3, m4)),
                Expr::call(opposite, cyclic_args(0, p1, p2, p3, p4, p12, p23, m1, m2, m3, m4)),
                Expr::call(opposite, cyclic_args(3, p1, p2, p3, p4, p12, p23, m1, m2, m3, m4)),
                Expr::call(zero, cyclic_args(0, p1, p2, p3, p4, p12, p23, m1, m2, m3, m4)),
                Expr::call(opposite, cyclic_args(2, p1, p2, p3, p4, p12, p23, m1, m2, m3, m4)),
                Expr::call(opposite, cyclic_args(0, p1, p2, p3, p4, p12, p23, m1, m2, m3, m4)),
                Expr::call(zero, cyclic_args(3, p1, p2, p3, p4, p12, p23, m1, m2, m3, m4)),
                Expr::call(zero, cyclic_args(0, p1, p2, p3, p4, p12, p23, m1, m2, m3, m4)),
                Expr::call(opposite, cyclic_args(1, p1, p2, p3, p4, p12, p23, m1, m2, m3, m4)),
                Expr::call(zero, cyclic_args(1, p1, p2, p3, p4, p12, p23, m1, m2, m3, m4)),
                Expr::call(opposite, cyclic_args(3, p1, p2, p3, p4, p12, p23, m1, m2, m3, m4)),
                Expr::call(zero, cyclic_args(1, p1, p2, p3, p4, p12, p23, m1, m2, m3, m4)),
                Expr::call(zero, cyclic_args(2, p1, p2, p3, p4, p12, p23, m1, m2, m3, m4)),
                Expr::call(zero, cyclic_args(2, p1, p2, p3, p4, p12, p23, m1, m2, m3, m4)),
                Expr::call(zero, cyclic_args(3, p1, p2, p3, p4, p12, p23, m1, m2, m3, m4)),
                Expr::call(Func::Contour(Contour::General), cyclic_args(0, p1, p2, p3, p4, p12, p23, m1, m2, m3, m4)),
            ];
            pick(&mask.plus(&Expr::num(1)), &values)
        }),
{
    let mask = if_nonzero(p1, &Expr::num(8)).plus(&if_nonzero(p2, &Expr::num(4))).plus(
        &if_nonzero(p3, &Expr::num(2)),
    ).plus(&if_nonzero(p4, &Expr::num(1)));
    let opposite = Func::Contour(Contour::Opposite);
    let zero = Func::Contour(Contour::ZeroExternal);
    let values = [
        Expr::call(opposite, cyclic_args(0, p1, p2, p3, p4, p12, p23, m1, m2, m3, m4)),
        Expr::call(opposite, cyclic_args(0, p1, p2, p3, p4, p12, p23, m1, m2, m3, m4)),
        Expr::call(opposite, cyclic_args(3, p1, p2, p3, p4, p12, p23, m1, m2, m3, m4)),
        Expr::call(zero, cyclic_args(0, p1, p2, p3, p4, p12, p23, m1, m2, m3, m4)),
        Expr::call(opposite, cyclic_args(2, p1, p2, p3, p4, p12, p23, m1, m2, m3, m4)),
        Expr::call(opposite, cyclic_args(0, p1, p2, p3, p4, p12, p23, m1, m2, m3, m4)),
        Expr::call(zero, cyclic_args(3, p1, p2, p3, p4, p12, p23, m1, m2, m3, m4)),
        Expr::call(zero, cyclic_args(0, p1, p2, p3, p4, p12, p23, m1, m2, m3, m4)),
        Expr::call(opposite, cyclic_args(1, p1, p2, p3, p4, p12, p23, m1, m2, m3, m4)),
        Expr::call(zero, cyclic_args(1, p1, p2, p3, p4, p12, p23, m1, m2, m3, m4)),
        Expr::call(opposite, cyclic_args(3, p1, p2, p3, p4, p12, p23, m1, m2, m3, m4)),
        Expr::call(zero, cyclic_args(1, p1, p2, p3, p4, p12, p23, m1, m2, m3, m4)),
        Expr::call(zero, cyclic_args(2, p1, p2, p3, p4, p12, p23, m1, m2, m3, m4)),
        Expr::call(zero, cyclic_args(2, p1, p2, p3, p4, p12, p23, m1, m2, m3, m4)),
        Expr::call(zero, cyclic_args(3, p1, p2, p3, p4, p12, p23, m1, m2, m3, m4)),
        Expr::call(Func::Contour(Contour::General), cyclic_args(0, p1, p2, p3, p4, p12, p23, m1, m2, m3, m4)),
    ];
    pick(&mask.plus(&Expr::num(1)), &values)
}

/// The contour representation of the finite box, as a call of its helper.
#[verifier::allow_in_spec]
pub fn expression(
    p1: &Expr,
    p2: &Expr,
    p3: &Expr,
    p4: &Expr,
    p12: &Expr,
    p23: &Expr,
    m1: &Expr,
    m2: &Expr,
    m3: &Expr,
    m4: &Expr,
) -> Expr
    returns
        Expr::call(Func::Contour(Contour::Box), args10(p1, p2, p3, p4, p12, p23, m1, m2, m3, m4)),
{
    Expr::call(Func::Contour(Contour::Box), args10(p1, p2, p3, p4, p12, p23, m1, m2, m3, m4))
}

/// One where the contour representation covers the kinematics: both
/// channels are nonzero and, unless an external invariant vanishes, some
/// Kallen function is positive.
#[verifier::allow_in_spec]
pub fn supported_kinematics(p1: &Expr, p2: &Expr, p3: &Expr, p4: &Expr, p12: &Expr, p23: &Expr) -> Expr
    returns
        ({
            let one = Expr::num(1);
            let all_nonzero = if_nonzero(p1, &one).times(&if_nonzero(p2, &one)).times(&if_nonzero(p3, &one)).times(
                &if_nonzero(p4, &one),
            );
            let positive_lambda = or_nonzero(
                &negative(&lambda(p4, p1, p23).negated()),
                &or_nonzero(
                    &negative(&lambda(p3, p4, p12).negated()),
                    &or_nonzero(
                        &negative(&lambda(p2, p3, p23).negated()),
                        &or_nonzero(&negative(&lambda(p1, p2, p12).negated()), &Expr::num(0)),
                    ),
                ),
            );
            if_nonzero(p12, &one).times(&if_nonzero(p23, &one)).times(&if_nonzero_else(&all_nonzero, &positive_lambda, &one))
        }),
{
    let one = Expr::num(1);
    let all_nonzero = if_nonzero(p1, &one).times(&if_nonzero(p2, &one)).times(&if_nonzero(p3, &one)).times(
        &if_nonzero(p4, &one),
    );
    let positive_lambda = or_nonzero(
        &negative(&lambda(p4, p1, p23).negated()),
        &or_nonzero(
            &negative(&lambda(p3, p4, p12).negated()),
            &or_nonzero(
                &negative(&lambda(p2, p3, p23).negated()),
                &or_nonzero(&negative(&lambda(p1, p2, p12).negated()), &Expr::num(0)),
            ),
        ),
    );
    if_nonzero(p12, &one).times(&if_nonzero(p23, &one)).times(&if_nonzero_else(&all_nonzero, &positive_lambda, &one))
}

/// The body of the contour helper `c`, over its arguments `Expr::Arg(0)`, ...
#[verifier::allow_in_spec]
pub fn contour_definition(c: Contour) -> Expr
    returns
        ({
            let x0 = Expr::arg(0);
            let x1 = Expr::arg(1);
            let x2 = Expr::arg(2);
            let x3 = Expr::arg(3);
            let x4 = Expr::arg(4);
            let x5 = Expr::arg(5);
            let x6 = Expr::arg(6);
            let x7 = Expr::arg(7);
            let x8 = Expr::arg(8);
            let x9 = Expr::arg(9);
            let x10 = Expr::arg(10);
            let x11 = Expr::arg(11);
            let x12 = Expr::arg(12);
            let x13 = Expr::arg(13);
            let x14 = Expr::arg(14);
            let x15 = Expr::arg(15);
            let x16 = Expr::arg(16);
            let x17 = Expr::arg(17);
            let y1 = Continued::new(&x0, &x1, &x2);
            let y2 = Continued::new(&x3, &x4, &x5);
            let y3 = Continued::new(&x6, &x7, &x8);
            match c {
                Contour::Root1 => root_bodies(&x0, &x1, &x2).0,
                Contour::Root2 => root_bodies(&x0, &x1, &x2).1,
                Contour::R0 => r0(&y1, &y2),
                Contour::R1 => r1(&y1, &y2, &y3, &x9),
                Contour::S3 => s3(&y1, &y2, &x6, &x7, &x8, &x9, &x10, &x11, &x12),
                Contour::S3DoubleReal => s3_double_real(&x0, &x1, &x2, &x3),
                Contour::Planar => planar(&y1, &y2, &x6, &x7, &x8, &x9, &x10, &x11),
                Contour::Inside => inside(&x0, &x1, &x2, &x3),
                Contour::Distance => distance(&x0, &x1, &x2, &x3),
                Contour::T1 => t1(&x0, &x1, &x2, &x3, &x4, &x5, &x6, &x7, &x8, &x9, &x10, &x11, &x12, &x13),
                Contour::T13 => t13(&x0, &x1, &x2, &x3, &x4, &x5, &x6, &x7, &x8, &x9, &x10, &x11, &x12, &x13, &x14, &x15, &x16, &x17),
                Contour::TfunSelected => tfun_selected(&x0, &x1, &x2, &x3, &x4, &x5, &x6, &x7, &x8, &x9, &x10, &x11, &x12, &x13, &x14, &x15, &x16, &x17),
                Contour::Tfun => tfun(&x0, &x1, &x2, &x3, &x4, &x5, &x6, &x7, &x8, &x9, &x10, &x11, &x12, &x13, &x14, &x15, &x16),
                Contour::Sort => sort_four(&x0, &x1, &x2, &x3),
                Contour::OppositeRegular => no_opposite_chart_regular(&x0, &x1, &x2, &x3, &x4, &x5, &x6, &x7, &x8, &x9),
                Contour::OppositeChart => no_opposite_chart(&x0, &x1, &x2, &x3, &x4, &x5, &x6, &x7, &x8, &x9),
                Contour::Opposite => no_opposite_externals(&x0, &x1, &x2, &x3, &x4, &x5, &x6, &x7, &x8, &x9),
                Contour::ZeroExternal => zero_external(&x0, &x1, &x2, &x3, &x4, &x5, &x6, &x7, &x8, &x9),
                Contour::Ordered => ordered(&x0, &x1, &x2, &x3, &x4, &x5, &x6, &x7, &x8, &x9),
                Contour::General => general(&x0, &x1, &x2, &x3, &x4, &x5, &x6, &x7, &x8, &x9),
                Contour::Box => body(&x0, &x1, &x2, &x3, &x4, &x5, &x6, &x7, &x8, &x9),
            }
        }),
{
    let x0 = Expr::arg(0);
    let x1 = Expr::arg(1);
    let x2 = Expr::arg(2);
    let x3 = Expr::arg(3);
    let x4 = Expr::arg(4);
    let x5 = Expr::arg(5);
    let x6 = Expr::arg(6);
    let x7 = Expr::arg(7);
    let x8 = Expr::arg(8);
    let x9 = Expr::arg(9);
    let x10 = Expr::arg(10);
    let x11 = Expr::arg(11);
    let x12 = Expr::arg(12);
    let x13 = Expr::arg(13);
    let x14 = Expr::arg(14);
    let x15 = Expr::arg(15);
    let x16 = Expr::arg(16);
    let x17 = Expr::arg(17);
    let y1 = Continued::new(&x0, &x1, &x2);
    let y2 = Continued::new(&x3, &x4, &x5);
    let y3 = Continued::new(&x6, &x7, &x8);
    match c {
        Contour::Root1 => root_bodies(&x0, &x1, &x2).0,
        Contour::Root2 => root_bodies(&x0, &x1, &x2).1,
        Contour::R0 => r0(&y1, &y2),
        Contour::R1 => r1(&y1, &y2, &y3, &x9),
        Contour::S3 => s3(&y1, &y2, &x6, &x7, &x8, &x9, &x10, &x11, &x12),
        Contour::S3DoubleReal => s3_double_real(&x0, &x1, &x2, &x3),
        Contour::Planar => planar(&y1, &y2, &x6, &x7, &x8, &x9, &x10, &x11),
        Contour::Inside => inside(&x0, &x1, &x2, &x3),
        Contour::Distance => distance(&x0, &x1, &x2, &x3),
        Contour::T1 => t1(&x0, &x1, &x2, &x3, &x4, &x5, &x6, &x7, &x8, &x9, &x10, &x11, &x12, &x13),
        Contour::T13 => t13(&x0, &x1, &x2, &x3, &x4, &x5, &x6, &x7, &x8, &x9, &x10, &x11, &x12, &x13, &x14, &x15, &x16, &x17),
        Contour::TfunSelected => tfun_selected(&x0, &x1, &x2, &x3, &x4, &x5, &x6, &x7, &x8, &x9, &x10, &x11, &x12, &x13, &x14, &x15, &x16, &x17),
        Contour::Tfun => tfun(&x0, &x1, &x2, &x3, &x4, &x5, &x6, &x7, &x8, &x9, &x10, &x11, &x12, &x13, &x14, &x15, &x16),
        Contour::Sort => sort_four(&x0, &x1, &x2, &x3),
        Contour::OppositeRegular => no_opposite_chart_regular(&x0, &x1, &x2, &x3, &x4, &x5, &x6, &x7, &x8, &x9),
        Contour::OppositeChart => no_opposite_chart(&x0, &x1, &x2, &x3, &x4, &x5, &x6, &x7, &x8, &x9),
        Contour::Opposite => no_opposite_externals(&x0, &x1, &x2, &x3, &x4, &x5, &x6, &x7, &x8, &x9),
        Contour::ZeroExternal => zero_external(&x0, &x1, &x2, &x3, &x4, &x5, &x6, &x7, &x8, &x9),
        Contour::Ordered => ordered(&x0, &x1, &x2, &x3, &x4, &x5, &x6, &x7, &x8, &x9),
        Contour::General => general(&x0, &x1, &x2, &x3, &x4, &x5, &x6, &x7, &x8, &x9),
        Contour::Box => body(&x0, &x1, &x2, &x3, &x4, &x5, &x6, &x7, &x8, &x9),
    }
}

/// Where `index` folds to an integer `k` between `slot + 1` and the number
/// of values, the selection from `slot` on folds to value `k`, counted from
/// one.
pub proof fn lemma_folded_pick_from(index: Expr, values: Seq<Expr>, slot: int, k: i64)
    requires
        folded(index) == Expr::Int(k),
        0 <= slot < k <= values.len() <= 64,
    ensures
        folded(pick_from(index, values, slot)) == folded(values[k - 1]),
    decreases values.len() - slot,
{
    if slot + 1 < values.len() {
        let offset = index.minus(&Expr::Int((slot + 1) as i64));
        assert(folded(Expr::Int((slot + 1) as i64)) == Expr::Int((slot + 1) as i64));
        assert(folded(offset) == Expr::Int((k - slot - 1) as i64));
        lemma_folded_if(offset, pick_from(index, values, slot + 1), values[slot], (k - slot - 1) as i64);
        if slot + 1 < k {
            lemma_folded_pick_from(index, values, slot + 1, k);
        }
    }
}

/// The helper that evaluates a contour route.
pub open spec fn route_helper(route: ContourRoute) -> Contour {
    match route {
        ContourRoute::Opposite => Contour::Opposite,
        ContourRoute::ZeroExternal => Contour::ZeroExternal,
        ContourRoute::General => Contour::General,
    }
}

/// Where the four external squares fold to integers, the body of `Box`
/// folds to the call of the chart its zero pattern routes to, on the
/// invariants and masses relabeled by the pattern's vertex shift.
pub proof fn lemma_contour_box_routes_zero_patterns(
    p1: Expr,
    p2: Expr,
    p3: Expr,
    p4: Expr,
    p12: Expr,
    p23: Expr,
    m1: Expr,
    m2: Expr,
    m3: Expr,
    m4: Expr,
    k1: i64,
    k2: i64,
    k3: i64,
    k4: i64,
)
    requires
        folded(p1) == Expr::Int(k1),
        folded(p2) == Expr::Int(k2),
        folded(p3) == Expr::Int(k3),
        folded(p4) == Expr::Int(k4),
    ensures
        ({
            let pattern = spec_four_index(k1 != 0, k2 != 0, k3 != 0, k4 != 0);
            folded(body(&p1, &p2, &p3, &p4, &p12, &p23, &m1, &m2, &m3, &m4)) == Expr::Call(
                Func::Contour(route_helper(spec_contour_route(pattern))),
                Rc::new(cyclic_args(spec_massless_shift(pattern) as u8, &p1, &p2, &p3, &p4, &p12, &p23, &m1, &m2, &m3, &m4)),
            )
        }),
{
    let pattern = spec_four_index(k1 != 0, k2 != 0, k3 != 0, k4 != 0);
    let a = if_nonzero(&p1, &Expr::num(8));
    let b = if_nonzero(&p2, &Expr::num(4));
    let c = if_nonzero(&p3, &Expr::num(2));
    let d = if_nonzero(&p4, &Expr::num(1));
    lemma_folded_if(p1, Expr::Int(8), Expr::Int(0), k1);
    lemma_folded_if(p2, Expr::Int(4), Expr::Int(0), k2);
    lemma_folded_if(p3, Expr::Int(2), Expr::Int(0), k3);
    lemma_folded_if(p4, Expr::Int(1), Expr::Int(0), k4);
    let mask = a.plus(&b).plus(&c).plus(&d);
    assert(folded(a.plus(&b)) == Expr::Int((folded(a)->Int_0 + folded(b)->Int_0) as i64));
    assert(folded(a.plus(&b).plus(&c)) == Expr::Int((folded(a)->Int_0 + folded(b)->Int_0 + folded(c)->Int_0) as i64));
    assert(folded(mask) == Expr::Int(pattern as i64));
    let index = mask.plus(&Expr::num(1));
    assert(folded(Expr::Int(1)) == Expr::Int(1));
    assert(folded(index) == Expr::Int((pattern + 1) as i64));
    let opposite = Func::Contour(Contour::Opposite);
    let zero = Func::Contour(Contour::ZeroExternal);
    let values = [
        Expr::call(opposite, cyclic_args(0, &p1, &p2, &p3, &p4, &p12, &p23, &m1, &m2, &m3, &m4)),
        Expr::call(opposite, cyclic_args(0, &p1, &p2, &p3, &p4, &p12, &p23, &m1, &m2, &m3, &m4)),
        Expr::call(opposite, cyclic_args(3, &p1, &p2, &p3, &p4, &p12, &p23, &m1, &m2, &m3, &m4)),
        Expr::call(zero, cyclic_args(0, &p1, &p2, &p3, &p4, &p12, &p23, &m1, &m2, &m3, &m4)),
        Expr::call(opposite, cyclic_args(2, &p1, &p2, &p3, &p4, &p12, &p23, &m1, &m2, &m3, &m4)),
        Expr::call(opposite, cyclic_args(0, &p1, &p2, &p3, &p4, &p12, &p23, &m1, &m2, &m3, &m4)),
        Expr::call(zero, cyclic_args(3, &p1, &p2, &p3, &p4, &p12, &p23, &m1, &m2, &m3, &m4)),
        Expr::call(zero, cyclic_args(0, &p1, &p2, &p3, &p4, &p12, &p23, &m1, &m2, &m3, &m4)),
        Expr::call(opposite, cyclic_args(1, &p1, &p2, &p3, &p4, &p12, &p23, &m1, &m2, &m3, &m4)),
        Expr::call(zero, cyclic_args(1, &p1, &p2, &p3, &p4, &p12, &p23, &m1, &m2, &m3, &m4)),
        Expr::call(opposite, cyclic_args(3, &p1, &p2, &p3, &p4, &p12, &p23, &m1, &m2, &m3, &m4)),
        Expr::call(zero, cyclic_args(1, &p1, &p2, &p3, &p4, &p12, &p23, &m1, &m2, &m3, &m4)),
        Expr::call(zero, cyclic_args(2, &p1, &p2, &p3, &p4, &p12, &p23, &m1, &m2, &m3, &m4)),
        Expr::call(zero, cyclic_args(2, &p1, &p2, &p3, &p4, &p12, &p23, &m1, &m2, &m3, &m4)),
        Expr::call(zero, cyclic_args(3, &p1, &p2, &p3, &p4, &p12, &p23, &m1, &m2, &m3, &m4)),
        Expr::call(Func::Contour(Contour::General), cyclic_args(0, &p1, &p2, &p3, &p4, &p12, &p23, &m1, &m2, &m3, &m4)),
    ];
    assert(body(&p1, &p2, &p3, &p4, &p12, &p23, &m1, &m2, &m3, &m4) == pick_from(index, values@, 0));
    lemma_folded_pick_from(index, values@, 0, (pattern + 1) as i64);
    assert(values@[pattern as int] == Expr::Call(
        Func::Contour(route_helper(spec_contour_route(pattern))),
        Rc::new(cyclic_args(spec_massless_shift(pattern) as u8, &p1, &p2, &p3, &p4, &p12, &p23, &m1, &m2, &m3, &m4)),
    ));
}

} // verus!
