//! The scalar master integrals as named definitions.
//!
//! A master call `Func::Master(family, order)` takes the family's numeric
//! arguments, squared scale last; its definition is the `order` coefficient
//! of the family's Laurent series over those arguments.
use vstd::prelude::*;
use crate::expr::{Args, Expr, args_of};
use crate::family::{ArityMismatch, ScalarIntegral};
use crate::functions::Func;
use crate::series::{LaurentSeries, Order};
use crate::two_point::{a0, b0, db0};
use crate::triangle::c0;
use crate::boxes::d0;
use std::rc::Rc;

verus! {

impl ScalarIntegral {
    /// The Laurent series of the family at the numeric arguments `a`,
    /// squared scale last; arguments beyond the family's arity are unused.
    pub open spec fn spec_series(self, a: Seq<Expr>) -> LaurentSeries {
        match self {
            ScalarIntegral::A0 => a0(&a[0], &a[1]),
            ScalarIntegral::B0 => b0(&a[0], &a[1], &a[2], &a[3]),
            ScalarIntegral::DB0 => db0(&a[0], &a[1], &a[2], &a[3]),
            ScalarIntegral::C0 => c0(&a[0], &a[1], &a[2], &a[3], &a[4], &a[5], &a[6]),
            ScalarIntegral::D0 => d0(
                &a[0],
                &a[1],
                &a[2],
                &a[3],
                &a[4],
                &a[5],
                &a[6],
                &a[7],
                &a[8],
                &a[9],
                &a[10],
            ),
        }
    }

    /// The Laurent series of the family at the numeric arguments `a`,
    /// squared scale last.
    pub fn series(self, a: &[Expr]) -> (r: LaurentSeries)
        requires
            a@.len() >= self.spec_arity(),
        ensures
            r == self.spec_series(a@),
    {
        match self {
            ScalarIntegral::A0 => a0(&a[0], &a[1]),
            ScalarIntegral::B0 => b0(&a[0], &a[1], &a[2], &a[3]),
            ScalarIntegral::DB0 => db0(&a[0], &a[1], &a[2], &a[3]),
            ScalarIntegral::C0 => c0(&a[0], &a[1], &a[2], &a[3], &a[4], &a[5], &a[6]),
            ScalarIntegral::D0 => d0(
                &a[0],
                &a[1],
                &a[2],
                &a[3],
                &a[4],
                &a[5],
                &a[6],
                &a[7],
                &a[8],
                &a[9],
                &a[10],
            ),
        }
    }
}

/// The body of the master `family` at coefficient `order`, over the
/// arguments `Expr::Arg(0)`, `Expr::Arg(1)`, ...
#[verifier::allow_in_spec]
pub fn master_definition(family: ScalarIntegral, order: Order) -> Expr
    returns
        ({
            let x0 = Expr::arg(0);
            let x1 = Expr::arg(1);
            let x2 = Expr::arg(2);
            let x3 = Expr::arg(3);
            let x4 = Expr::arg(4);
            let x5 = Expr::arg(5);
            let x6 = Expr::arg(6);
            let x7 = Expr::arg(7);
            let x8 = Expr::arg(8);
            let x9 = Expr::arg(9);
            let x10 = Expr::arg(10);
            match family {
                ScalarIntegral::A0 => a0(&x0, &x1).coefficient(order),
                ScalarIntegral::B0 => b0(&x0, &x1, &x2, &x3).coefficient(order),
                ScalarIntegral::DB0 => db0(&x0, &x1, &x2, &x3).coefficient(order),
                ScalarIntegral::C0 => c0(&x0, &x1, &x2, &x3, &x4, &x5, &x6).coefficient(order),
                ScalarIntegral::D0 => d0(&x0, &x1, &x2, &x3, &x4, &x5, &x6, &x7, &x8, &x9, &x10).coefficient(order),
            }
        }),
{
    let x0 = Expr::arg(0);
    let x1 = Expr::arg(1);
    let x2 = Expr::arg(2);
    let x3 = Expr::arg(3);
    let x4 = Expr::arg(4);
    let x5 = Expr::arg(5);
    let x6 = Expr::arg(6);
    let x7 = Expr::arg(7);
    let x8 = Expr::arg(8);
    let x9 = Expr::arg(9);
    let x10 = Expr::arg(10);
    match family {
        ScalarIntegral::A0 => a0(&x0, &x1).coefficient(order),
        ScalarIntegral::B0 => b0(&x0, &x1, &x2, &x3).coefficient(order),
        ScalarIntegral::DB0 => db0(&x0, &x1, &x2, &x3).coefficient(order),
        ScalarIntegral::C0 => c0(&x0, &x1, &x2, &x3, &x4, &x5, &x6).coefficient(order),
        ScalarIntegral::D0 => d0(&x0, &x1, &x2, &x3, &x4, &x5, &x6, &x7, &x8, &x9, &x10).coefficient(order),
    }
}

/// The argument list of the expressions of `a`, in order.
pub fn args_from_slice(a: &[Expr]) -> (r: Args)
    ensures
        r == args_of(a@),
{
    let mut acc = Args::Empty;
    let mut i: usize = a.len();
    assert(a@.subrange(i as int, a@.len() as int).len() == 0);
    while i > 0
        invariant
            i <= a@.len(),
            acc == args_of(a@.subrange(i as int, a@.len() as int)),
        decreases i,
    {
        let j: usize = i - 1;
        let ghost tail = a@.subrange(j as int, a@.len() as int);
        assert(tail[0] == a@[j as int]);
        assert(tail.drop_first() =~= a@.subrange(i as int, a@.len() as int));
        acc = Args::Cons(Rc::new(a[j].clone()), Rc::new(acc));
        i = j;
    }
    assert(a@.subrange(0, a@.len() as int) =~= a@);
    acc
}

/// The call of the master `family` at coefficient `order` with the numeric
/// arguments `a`, squared scale last, or the mismatch where the number of
/// arguments differs from the family's arity.
pub fn master_call(family: ScalarIntegral, order: Order, a: &[Expr]) -> (r: Result<Expr, ArityMismatch>)
    ensures
        r is Ok <==> a@.len() == family.spec_arity(),
        r matches Ok(e) ==> e == Expr::Call(Func::Master(family, order), Rc::new(args_of(a@))),
        r matches Err(m) ==> m == (ArityMismatch { family, received: a@.len() as usize }),
{
    match family.check_arity(a.len()) {
        Ok(()) => Ok(Expr::call(Func::Master(family, order), args_from_slice(a))),
        Err(m) => Err(m),
    }
}

/// The formal arguments `Expr::Arg(0)`, ..., `Expr::Arg(10)` of a master
/// definition.
pub open spec fn formal_arguments() -> Seq<Expr> {
    Seq::new(11, |i: int| Expr::Arg(i as u32))
}

/// A master call evaluates its family's series: the definition of the
/// master at an order is that coefficient of [`ScalarIntegral::series`] at
/// the definition's formal arguments.
pub proof fn lemma_master_definition_is_series(family: ScalarIntegral, order: Order)
    ensures
        master_definition(family, order) == family.spec_series(formal_arguments()).coefficient(order),
{
    let x = formal_arguments();
    assert(x[0] == Expr::Arg(0) && x[1] == Expr::Arg(1) && x[2] == Expr::Arg(2) && x[3] == Expr::Arg(3));
    assert(x[4] == Expr::Arg(4) && x[5] == Expr::Arg(5) && x[6] == Expr::Arg(6) && x[7] == Expr::Arg(7));
    assert(x[8] == Expr::Arg(8) && x[9] == Expr::Arg(9) && x[10] == Expr::Arg(10));
}

} // verus!
