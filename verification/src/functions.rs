//! Named helper definitions that expressions call.
//!
//! A call of a helper binds its arguments to `Expr::Arg(0)`, `Expr::Arg(1)`,
//! ... of the helper's body, evaluates each argument once and evaluates the
//! body with them.
use vstd::prelude::*;
use crate::expr::{Expr, if_nonzero_else};
use crate::series::Order;
use crate::sheet::{product_part, log_body, dilog_body};
use crate::elementary::physical_sqrt;
use crate::triangle;
use crate::triangle_hv;
use crate::box_contour;
use crate::boxes;
use crate::family::ScalarIntegral;
use crate::masters::master_definition;

verus! {

/// One component of a continued value on a logarithmic sheet.
#[derive(Clone, Copy, Debug, PartialEq, Eq, Hash, Structural)]
pub enum Part {
    /// The value, moved into the right half plane.
    Value,
    /// The integer multiple of `i pi` carried with it.
    Phase,
    /// One where the value was reflected, else zero.
    Odd,
}

/// The helper definitions of the contour representation of the box.
#[derive(Clone, Copy, Debug, PartialEq, Eq, Hash, Structural)]
pub enum Contour {
    Root1,
    Root2,
    R0,
    R1,
    S3,
    S3DoubleReal,
    Planar,
    Inside,
    Distance,
    T1,
    T13,
    TfunSelected,
    Tfun,
    Sort,
    OppositeRegular,
    OppositeChart,
    Opposite,
    ZeroExternal,
    Ordered,
    General,
    Box,
}

impl Contour {
    /// The number of arguments the helper takes.
    pub open spec fn spec_arity(self) -> nat {
        match self {
            Contour::Root1 | Contour::Root2 => 3,
            Contour::R0 => 6,
            Contour::R1 => 10,
            Contour::S3 => 13,
            Contour::S3DoubleReal | Contour::Inside | Contour::Distance | Contour::Sort => 4,
            Contour::Planar => 12,
            Contour::T1 => 14,
            Contour::T13 | Contour::TfunSelected => 18,
            Contour::Tfun => 17,
            _ => 10,
        }
    }
}

/// The helper definitions.
#[derive(Clone, Copy, Debug, PartialEq, Eq, Hash, Structural)]
pub enum Func {
    /// The square root on the lower lip of the negative real axis.
    SqrtLower,
    /// The real part.
    RealPart,
    /// The imaginary part.
    ImaginaryPart,
    /// Minus one for a negative real argument, else one.
    SignNonnegative,
    /// A component of the product of two continued values.
    SheetProduct(Part),
    /// A component of the quotient of two continued values.
    SheetQuotient(Part),
    /// The logarithm of a continued value.
    SheetLog,
    /// The dilogarithm of a continued value.
    SheetDilog,
    /// One three-term block of the 't Hooft--Veltman triangle.
    HvS3,
    /// The 't Hooft--Veltman triangle.
    TriangleHv,
    /// Laurent coefficient `c` of the box whose masses are nonzero where
    /// the four bits of the sector are set, the first mass the highest bit.
    BoxSector(u8, Order),
    /// A helper of the contour representation of the box.
    Contour(Contour),
    /// Laurent coefficient `c` of the triangle whose masses are nonzero
    /// where the three bits of the sector are set.
    TriangleSector(u8, Order),
    /// Laurent coefficient `c` of a scalar master integral.
    Master(ScalarIntegral, Order),
}

impl Func {
    /// The number of arguments the helper takes.
    pub open spec fn spec_arity(self) -> nat {
        match self {
            Func::SqrtLower | Func::RealPart | Func::ImaginaryPart | Func::SignNonnegative => 1,
            Func::SheetProduct(_) | Func::SheetQuotient(_) => 6,
            Func::SheetLog | Func::SheetDilog => 3,
            Func::HvS3 => 4,
            Func::TriangleHv => 6,
            Func::TriangleSector(_, _) => 7,
            Func::BoxSector(_, _) => 11,
            Func::Contour(c) => c.spec_arity(),
            Func::Master(family, _) => family.spec_arity(),
        }
    }

    /// The number of arguments the helper takes.
    pub fn arity(&self) -> (r: usize)
        ensures
            r == self.spec_arity(),
    {
        match self {
            Func::SqrtLower | Func::RealPart | Func::ImaginaryPart | Func::SignNonnegative => 1,
            Func::SheetProduct(_) | Func::SheetQuotient(_) => 6,
            Func::SheetLog | Func::SheetDilog => 3,
            Func::HvS3 => 4,
            Func::TriangleHv => 6,
            Func::TriangleSector(_, _) => 7,
            Func::BoxSector(_, _) => 11,
            Func::Contour(c) => match c {
                Contour::Root1 | Contour::Root2 => 3,
                Contour::R0 => 6,
                Contour::R1 => 10,
                Contour::S3 => 13,
                Contour::S3DoubleReal | Contour::Inside | Contour::Distance | Contour::Sort => 4,
                Contour::Planar => 12,
                Contour::T1 => 14,
                Contour::T13 | Contour::TfunSelected => 18,
                Contour::Tfun => 17,
                _ => 10,
            },
            Func::Master(family, _) => family.arity(),
        }
    }
}

/// The body of the helper `f`, over its arguments `Expr::Arg(0)`, ...
#[verifier::allow_in_spec]
pub fn definition(f: Func) -> Expr
    returns
        ({
            let x0 = Expr::arg(0);
            let x1 = Expr::arg(1);
            let x2 = Expr::arg(2);
            let x3 = Expr::arg(3);
            let x4 = Expr::arg(4);
            let x5 = Expr::arg(5);
            match f {
                Func::SqrtLower => physical_sqrt(&x0),
                Func::RealPart => x0.plus(&x0.conjugate()).over_int(2),
                Func::ImaginaryPart => x0.minus(&x0.conjugate()).over(&Expr::num(2).times(&Expr::i())),
                Func::SignNonnegative => if_nonzero_else(
                    &x0.minus(&x0.modulus()),
                    &Expr::num(-1i64),
                    &Expr::num(1),
                ),
                Func::SheetProduct(part) => product_part(false, part),
                Func::SheetQuotient(part) => product_part(true, part),
                Func::SheetLog => log_body(&x0, &x1, &x2),
                Func::SheetDilog => dilog_body(&x0, &x1, &x2),
                Func::HvS3 => triangle_hv::s3(&x0, &x1, &x2, &x3),
                Func::TriangleHv => triangle_hv::body(&x0, &x1, &x2, &x3, &x4, &x5),
                Func::TriangleSector(sector, order) => triangle::sector_definition(sector, order),
                Func::BoxSector(sector, order) => boxes::box_sector_definition(sector, order),
                Func::Contour(c) => box_contour::contour_definition(c),
                Func::Master(family, order) => master_definition(family, order),
            }
        }),
{
    let x0 = Expr::arg(0);
    let x1 = Expr::arg(1);
    let x2 = Expr::arg(2);
    let x3 = Expr::arg(3);
    let x4 = Expr::arg(4);
    let x5 = Expr::arg(5);
    match f {
        Func::SqrtLower => physical_sqrt(&x0),
        Func::RealPart => x0.plus(&x0.conjugate()).over_int(2),
        Func::ImaginaryPart => x0.minus(&x0.conjugate()).over(&Expr::num(2).times(&Expr::i())),
        Func::SignNonnegative => if_nonzero_else(
            &x0.minus(&x0.modulus()),
            &Expr::num(-1i64),
            &Expr::num(1),
        ),
        Func::SheetProduct(part) => product_part(false, part),
        Func::SheetQuotient(part) => product_part(true, part),
        Func::SheetLog => log_body(&x0, &x1, &x2),
        Func::SheetDilog => dilog_body(&x0, &x1, &x2),
        Func::HvS3 => triangle_hv::s3(&x0, &x1, &x2, &x3),
        Func::TriangleHv => triangle_hv::body(&x0, &x1, &x2, &x3, &x4, &x5),
        Func::TriangleSector(sector, order) => triangle::sector_definition(sector, order),
        Func::BoxSector(sector, order) => boxes::box_sector_definition(sector, order),
        Func::Contour(c) => box_contour::contour_definition(c),
        Func::Master(family, order) => master_definition(family, order),
    }
}

} // verus!
