//! Exact expressions built by the integral formulas.
//!
//! An expression is a tree of exact operations on complex values: integers,
//! pi and the imaginary unit, the numeric arguments of the enclosing
//! definition, field operations, the principal logarithm, square root and
//! dilogarithm, conjugation, the complex modulus, a lazy conditional on an
//! exact zero, and calls of named helper definitions.
//!
//! Every constructor below may also be used in specifications, where it
//! denotes the tree it builds.
use vstd::prelude::*;
use crate::functions::Func;
use std::rc::Rc;

verus! {

#[derive(Debug, PartialEq, Eq)]
pub enum Expr {
    /// An integer.
    Int(i64),
    /// The constant pi.
    Pi,
    /// The imaginary unit.
    I,
    /// An undefined value, for a scaleless limit that has none.
    Indeterminate,
    /// Numeric argument `k` of the enclosing definition or expression.
    Arg(u32),
    Add(Rc<Expr>, Rc<Expr>),
    Sub(Rc<Expr>, Rc<Expr>),
    Mul(Rc<Expr>, Rc<Expr>),
    Div(Rc<Expr>, Rc<Expr>),
    Neg(Rc<Expr>),
    /// Principal logarithm.
    Log(Rc<Expr>),
    /// Principal square root.
    Sqrt(Rc<Expr>),
    /// Complex conjugate.
    Conj(Rc<Expr>),
    /// Complex modulus.
    Abs(Rc<Expr>),
    /// Principal dilogarithm; on the real axis beyond one it takes the
    /// lower lip of its cut.
    Dilog(Rc<Expr>),
    /// `If(c, a, b)` is `a` where `c` is nonzero and `b` where `c` is exactly
    /// zero; only the selected arm is evaluated.
    If(Rc<Expr>, Rc<Expr>, Rc<Expr>),
    /// A call of a helper definition with its arguments.
    Call(Func, Rc<Args>),
}

/// The argument list of a call, first argument outermost.
#[derive(Debug, PartialEq, Eq)]
pub enum Args {
    Empty,
    Cons(Rc<Expr>, Rc<Args>),
}

impl Args {
    /// These arguments followed by `tail`.
    pub open spec fn appended(self, tail: Args) -> Args
        decreases self,
    {
        match self {
            Args::Empty => tail,
            Args::Cons(head, rest) => Args::Cons(head, Rc::new(rest.appended(tail))),
        }
    }

    /// These arguments followed by `tail`.
    #[verifier::allow_in_spec]
    pub fn append(&self, tail: Args) -> Args
        returns
            self.appended(tail),
        decreases self,
    {
        match self {
            Args::Empty => tail,
            Args::Cons(head, rest) => Args::Cons(share(head), Rc::new(rest.append(tail))),
        }
    }

    /// The arguments as a sequence.
    pub open spec fn items(self) -> Seq<Expr>
        decreases self,
    {
        match self {
            Args::Empty => Seq::empty(),
            Args::Cons(head, tail) => seq![*head].add(tail.items()),
        }
    }
}

/// Another pointer to the value behind `node`.
///
/// Trusted: `Rc::clone` returns a new pointer to the same allocation, so the
/// value it points to is the value behind `node`.
#[verifier::external_body]
pub(crate) fn share<T>(node: &Rc<T>) -> (r: Rc<T>)
    ensures
        r == *node,
{
    Rc::clone(node)
}

impl Clone for Expr {
    /// A copy of the top node; the operands are shared.
    fn clone(&self) -> (r: Self)
        ensures
            r == *self,
    {
        match self {
            Expr::Int(v) => Expr::Int(*v),
            Expr::Pi => Expr::Pi,
            Expr::I => Expr::I,
            Expr::Indeterminate => Expr::Indeterminate,
            Expr::Arg(k) => Expr::Arg(*k),
            Expr::Add(a, b) => Expr::Add(share(a), share(b)),
            Expr::Sub(a, b) => Expr::Sub(share(a), share(b)),
            Expr::Mul(a, b) => Expr::Mul(share(a), share(b)),
            Expr::Div(a, b) => Expr::Div(share(a), share(b)),
            Expr::Neg(a) => Expr::Neg(share(a)),
            Expr::Log(a) => Expr::Log(share(a)),
            Expr::Sqrt(a) => Expr::Sqrt(share(a)),
            Expr::Conj(a) => Expr::Conj(share(a)),
            Expr::Abs(a) => Expr::Abs(share(a)),
            Expr::Dilog(a) => Expr::Dilog(share(a)),
            Expr::If(c, a, b) => Expr::If(share(c), share(a), share(b)),
            Expr::Call(f, args) => Expr::Call(*f, share(args)),
        }
    }
}

impl Clone for Args {
    /// A copy of the first cell; the rest is shared.
    fn clone(&self) -> (r: Self)
        ensures
            r == *self,
    {
        match self {
            Args::Empty => Args::Empty,
            Args::Cons(head, tail) => Args::Cons(share(head), share(tail)),
        }
    }
}

impl Expr {
    /// The integer `v`.
    #[verifier::allow_in_spec]
    pub fn num(v: i64) -> Expr
        returns
            Expr::Int(v),
    {
        Expr::Int(v)
    }

    /// The constant pi.
    #[verifier::allow_in_spec]
    pub fn pi() -> Expr
        returns
            Expr::Pi,
    {
        Expr::Pi
    }

    /// The imaginary unit.
    #[verifier::allow_in_spec]
    pub fn i() -> Expr
        returns
            Expr::I,
    {
        Expr::I
    }

    /// Argument `k` of the enclosing definition.
    #[verifier::allow_in_spec]
    pub fn arg(k: u32) -> Expr
        returns
            Expr::Arg(k),
    {
        Expr::Arg(k)
    }

    /// `self + other`.
    #[verifier::allow_in_spec]
    pub fn plus(&self, other: &Expr) -> Expr
        returns
            Expr::Add(Rc::new(*self), Rc::new(*other)),
    {
        Expr::Add(Rc::new(self.clone()), Rc::new(other.clone()))
    }

    /// `self - other`.
    #[verifier::allow_in_spec]
    pub fn minus(&self, other: &Expr) -> Expr
        returns
            Expr::Sub(Rc::new(*self), Rc::new(*other)),
    {
        Expr::Sub(Rc::new(self.clone()), Rc::new(other.clone()))
    }

    /// `self * other`.
    #[verifier::allow_in_spec]
    pub fn times(&self, other: &Expr) -> Expr
        returns
            Expr::Mul(Rc::new(*self), Rc::new(*other)),
    {
        Expr::Mul(Rc::new(self.clone()), Rc::new(other.clone()))
    }

    /// `self / other`.
    #[verifier::allow_in_spec]
    pub fn over(&self, other: &Expr) -> Expr
        returns
            Expr::Div(Rc::new(*self), Rc::new(*other)),
    {
        Expr::Div(Rc::new(self.clone()), Rc::new(other.clone()))
    }

    /// `-self`.
    #[verifier::allow_in_spec]
    pub fn negated(&self) -> Expr
        returns
            Expr::Neg(Rc::new(*self)),
    {
        Expr::Neg(Rc::new(self.clone()))
    }

    /// The principal logarithm of `self`.
    #[verifier::allow_in_spec]
    pub fn ln(&self) -> Expr
        returns
            Expr::Log(Rc::new(*self)),
    {
        Expr::Log(Rc::new(self.clone()))
    }

    /// The principal square root of `self`.
    #[verifier::allow_in_spec]
    pub fn root(&self) -> Expr
        returns
            Expr::Sqrt(Rc::new(*self)),
    {
        Expr::Sqrt(Rc::new(self.clone()))
    }

    /// The complex conjugate of `self`.
    #[verifier::allow_in_spec]
    pub fn conjugate(&self) -> Expr
        returns
            Expr::Conj(Rc::new(*self)),
    {
        Expr::Conj(Rc::new(self.clone()))
    }

    /// The modulus of `self`.
    #[verifier::allow_in_spec]
    pub fn modulus(&self) -> Expr
        returns
            Expr::Abs(Rc::new(*self)),
    {
        Expr::Abs(Rc::new(self.clone()))
    }

    /// The principal dilogarithm of `self`.
    #[verifier::allow_in_spec]
    pub fn li2(&self) -> Expr
        returns
            Expr::Dilog(Rc::new(*self)),
    {
        Expr::Dilog(Rc::new(self.clone()))
    }

    /// `self` times the integer `k`.
    #[verifier::allow_in_spec]
    pub fn times_int(&self, k: i64) -> Expr
        returns
            Expr::Mul(Rc::new(Expr::Int(k)), Rc::new(*self)),
    {
        Expr::Mul(Rc::new(Expr::Int(k)), Rc::new(self.clone()))
    }

    /// `self` divided by the integer `k`.
    #[verifier::allow_in_spec]
    pub fn over_int(&self, k: i64) -> Expr
        returns
            Expr::Div(Rc::new(*self), Rc::new(Expr::Int(k))),
    {
        Expr::Div(Rc::new(self.clone()), Rc::new(Expr::Int(k)))
    }

    /// The integer `k` minus `self`.
    #[verifier::allow_in_spec]
    pub fn int_minus(&self, k: i64) -> Expr
        returns
            Expr::Sub(Rc::new(Expr::Int(k)), Rc::new(*self)),
    {
        Expr::Sub(Rc::new(Expr::Int(k)), Rc::new(self.clone()))
    }

    /// A call of `f` with the arguments `args`.
    #[verifier::allow_in_spec]
    pub fn call(f: Func, args: Args) -> Expr
        returns
            Expr::Call(f, Rc::new(args)),
    {
        Expr::Call(f, Rc::new(args))
    }

    /// A copy of `self`.
    #[verifier::allow_in_spec]
    pub fn copied(&self) -> Expr
        returns
            *self,
    {
        self.clone()
    }

    /// The undefined value.
    #[verifier::allow_in_spec]
    pub fn indeterminate() -> Expr
        returns
            Expr::Indeterminate,
    {
        Expr::Indeterminate
    }

    /// Whether `self` is literally the integer `k`.
    #[verifier::allow_in_spec]
    pub fn is_literal(&self, k: i64) -> bool
        returns
            self == Expr::Int(k),
    {
        match self {
            Expr::Int(v) => *v == k,
            _ => false,
        }
    }

    /// Whether `self` is literally the integer zero.
    #[verifier::allow_in_spec]
    pub fn is_literal_zero(&self) -> bool
        returns
            self == Expr::Int(0),
    {
        match self {
            Expr::Int(v) => *v == 0,
            _ => false,
        }
    }
}

/// `nonzero` where `condition` is nonzero, else `zero`.
#[verifier::allow_in_spec]
pub fn if_nonzero_else(condition: &Expr, nonzero: &Expr, zero: &Expr) -> Expr
    returns
        Expr::If(Rc::new(*condition), Rc::new(*nonzero), Rc::new(*zero)),
{
    Expr::If(Rc::new(condition.clone()), Rc::new(nonzero.clone()), Rc::new(zero.clone()))
}

/// `value` where `condition` is nonzero, else zero.
#[verifier::allow_in_spec]
pub fn if_nonzero(condition: &Expr, value: &Expr) -> Expr
    returns
        Expr::If(Rc::new(*condition), Rc::new(*value), Rc::new(Expr::Int(0))),
{
    Expr::If(Rc::new(condition.clone()), Rc::new(value.clone()), Rc::new(Expr::Int(0)))
}

/// The argument list of one argument.
#[verifier::allow_in_spec]
pub fn args1(a: &Expr) -> Args
    returns
        Args::Cons(Rc::new(*a), Rc::new(Args::Empty)),
{
    Args::Cons(Rc::new(a.clone()), Rc::new(Args::Empty))
}

/// `head` followed by `tail`.
#[verifier::allow_in_spec]
pub fn args_cons(head: &Expr, tail: Args) -> Args
    returns
        Args::Cons(Rc::new(*head), Rc::new(tail)),
{
    Args::Cons(Rc::new(head.clone()), Rc::new(tail))
}

/// The argument list of three arguments.
#[verifier::allow_in_spec]
pub fn args3(a: &Expr, b: &Expr, c: &Expr) -> Args
    returns
        args_cons(a, args_cons(b, args1(c))),
{
    args_cons(a, args_cons(b, args1(c)))
}

/// The argument list of four arguments.
#[verifier::allow_in_spec]
pub fn args4(a: &Expr, b: &Expr, c: &Expr, d: &Expr) -> Args
    returns
        args_cons(a, args3(b, c, d)),
{
    args_cons(a, args3(b, c, d))
}

/// The argument list of six arguments.
#[verifier::allow_in_spec]
pub fn args6(a: &Expr, b: &Expr, c: &Expr, d: &Expr, e: &Expr, f: &Expr) -> Args
    returns
        args_cons(a, args_cons(b, args4(c, d, e, f))),
{
    args_cons(a, args_cons(b, args4(c, d, e, f)))
}

/// The argument list of ten arguments.
#[verifier::allow_in_spec]
pub fn args10(
    a: &Expr,
    b: &Expr,
    c: &Expr,
    d: &Expr,
    e: &Expr,
    f: &Expr,
    g: &Expr,
    h: &Expr,
    i: &Expr,
    j: &Expr,
) -> Args
    returns
        args_cons(a, args_cons(b, args_cons(c, args7(d, e, f, g, h, i, j)))),
{
    args_cons(a, args_cons(b, args_cons(c, args7(d, e, f, g, h, i, j))))
}

/// The argument list of seven arguments.
#[verifier::allow_in_spec]
pub fn args7(a: &Expr, b: &Expr, c: &Expr, d: &Expr, e: &Expr, f: &Expr, g: &Expr) -> Args
    returns
        args_cons(a, args6(b, c, d, e, f, g)),
{
    args_cons(a, args6(b, c, d, e, f, g))
}

/// `x + y`, carried out where both are integer literals whose sum is an
/// `i64`.
pub open spec fn folded_sum(x: Expr, y: Expr) -> Expr {
    if x is Int && y is Int && i64::MIN <= x->Int_0 + y->Int_0 <= i64::MAX {
        Expr::Int((x->Int_0 + y->Int_0) as i64)
    } else {
        Expr::Add(Rc::new(x), Rc::new(y))
    }
}

/// `x - y`, carried out where both are integer literals whose difference is
/// an `i64`.
pub open spec fn folded_difference(x: Expr, y: Expr) -> Expr {
    if x is Int && y is Int && i64::MIN <= x->Int_0 - y->Int_0 <= i64::MAX {
        Expr::Int((x->Int_0 - y->Int_0) as i64)
    } else {
        Expr::Sub(Rc::new(x), Rc::new(y))
    }
}

/// `e` with its sums and differences of integer literals carried out and
/// every conditional whose condition thereby becomes an integer literal
/// replaced by the arm that literal selects. Calls keep their arguments as
/// written. `folded(e)` has the value of `e` wherever `e` has one.
pub open spec fn folded(e: Expr) -> Expr
    decreases e,
{
    match e {
        Expr::Add(a, b) => folded_sum(folded(*a), folded(*b)),
        Expr::Sub(a, b) => folded_difference(folded(*a), folded(*b)),
        Expr::Mul(a, b) => Expr::Mul(Rc::new(folded(*a)), Rc::new(folded(*b))),
        Expr::Div(a, b) => Expr::Div(Rc::new(folded(*a)), Rc::new(folded(*b))),
        Expr::Neg(a) => Expr::Neg(Rc::new(folded(*a))),
        Expr::Log(a) => Expr::Log(Rc::new(folded(*a))),
        Expr::Sqrt(a) => Expr::Sqrt(Rc::new(folded(*a))),
        Expr::Conj(a) => Expr::Conj(Rc::new(folded(*a))),
        Expr::Abs(a) => Expr::Abs(Rc::new(folded(*a))),
        Expr::Dilog(a) => Expr::Dilog(Rc::new(folded(*a))),
        Expr::If(c, a, b) => {
            let condition = folded(*c);
            if condition is Int {
                if condition->Int_0 != 0 {
                    folded(*a)
                } else {
                    folded(*b)
                }
            } else {
                Expr::If(Rc::new(condition), Rc::new(folded(*a)), Rc::new(folded(*b)))
            }
        },
        _ => e,
    }
}

/// A conditional whose condition folds to the integer `k` folds to its
/// nonzero arm where `k` is nonzero and to its zero arm where it is zero.
pub proof fn lemma_folded_if(condition: Expr, nonzero: Expr, zero: Expr, k: i64)
    requires
        folded(condition) == Expr::Int(k),
    ensures
        folded(if_nonzero_else(&condition, &nonzero, &zero)) == (if k != 0 {
            folded(nonzero)
        } else {
            folded(zero)
        }),
{
}

/// The argument list holding the expressions of `s`, in order.
pub open spec fn args_of(s: Seq<Expr>) -> Args
    decreases s.len(),
{
    if s.len() == 0 {
        Args::Empty
    } else {
        Args::Cons(Rc::new(s[0]), Rc::new(args_of(s.drop_first())))
    }
}

/// Splitting a sequence splits its argument list: the list of `s + t` is
/// that of `s` followed by that of `t`.
pub proof fn lemma_args_of_append(s: Seq<Expr>, t: Seq<Expr>)
    ensures
        args_of(s + t) == args_of(s).appended(args_of(t)),
    decreases s.len(),
{
    if s.len() == 0 {
        assert(s + t =~= t);
    } else {
        lemma_args_of_append(s.drop_first(), t);
        assert((s + t).drop_first() =~= s.drop_first() + t);
        assert((s + t)[0] == s[0]);
    }
}

/// The arguments `Expr::Arg(r[0])`, `Expr::Arg(r[1])`, ...: the formal
/// arguments of a definition reordered by `r`.
pub open spec fn arguments_at(r: Seq<usize>) -> Seq<Expr> {
    r.map_values(|i: usize| Expr::Arg(i as u32))
}

/// The list of four arguments is the list of their sequence.
pub proof fn lemma_args4_of(a: Expr, b: Expr, c: Expr, d: Expr)
    ensures
        args4(&a, &b, &c, &d) == args_of(seq![a, b, c, d]),
{
    reveal_with_fuel(args_of, 5);
    assert(seq![a, b, c, d].drop_first() =~= seq![b, c, d]);
    assert(seq![b, c, d].drop_first() =~= seq![c, d]);
    assert(seq![c, d].drop_first() =~= seq![d]);
    assert(seq![d].drop_first() =~= Seq::<Expr>::empty());
}

/// The list of seven arguments is the list of their sequence.
pub proof fn lemma_args7_of(a: Expr, b: Expr, c: Expr, d: Expr, e: Expr, f: Expr, g: Expr)
    ensures
        args7(&a, &b, &c, &d, &e, &f, &g) == args_of(seq![a, b, c, d, e, f, g]),
{
    lemma_args4_of(d, e, f, g);
    reveal_with_fuel(args_of, 4);
    assert(seq![a, b, c, d, e, f, g].drop_first() =~= seq![b, c, d, e, f, g]);
    assert(seq![b, c, d, e, f, g].drop_first() =~= seq![c, d, e, f, g]);
    assert(seq![c, d, e, f, g].drop_first() =~= seq![d, e, f, g]);
}

} // verus!
