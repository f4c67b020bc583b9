//! Selection of analytic regions without substituting the parametric
//! formulas.
//!
//! A conditional `If(c, a, b)` keeps `a` where `c` is nonzero and `b` where
//! it is zero. Selecting a branch asks a decision procedure whether a
//! condition is nonzero at a sample point; where it answers, the
//! conditional is replaced by the arm it keeps, and where it cannot decide,
//! the conditional stays with its branches selected inside. Nested
//! conditionals are treated at every depth, inside conditions and call
//! arguments too; the arms a decision drops are not visited. The retained
//! formulas are never evaluated at the sample.
use vstd::prelude::*;
use crate::expr::{Args, Expr};
use std::rc::Rc;

verus! {

/// The decision procedure answers every condition, and gives one answer
/// for one condition.
pub open spec fn decides<E, F: Fn(&Expr) -> Result<Option<bool>, E>>(decide: F) -> bool {
    &&& forall|c: Expr| #[trigger] decide.requires((&c,))
    &&& forall|c: Expr, r1: Result<Option<bool>, E>, r2: Result<Option<bool>, E>|
        #[trigger] decide.ensures((&c,), r1) && #[trigger] decide.ensures((&c,), r2) ==> r1 == r2
}

/// The answer of `decide` for the condition `c`.
pub open spec fn answer<E, F: Fn(&Expr) -> Result<Option<bool>, E>>(decide: F, c: Expr) -> Result<
    Option<bool>,
    E,
> {
    choose|r: Result<Option<bool>, E>| decide.ensures((&c,), r)
}

/// `e` with its branches selected by `decide`, or the first error `decide`
/// gave, conditions before arms and operands from the left. With `probe`,
/// each condition is first decided as written, and only where that is
/// undecided after the conditionals inside it were selected.
pub open spec fn selection<E, F: Fn(&Expr) -> Result<Option<bool>, E>>(e: Expr, decide: F, probe: bool) -> Result<
    Expr,
    E,
>
    decreases e,
{
    match e {
        Expr::Add(a, b) => match selection(*a, decide, probe) {
            Err(x) => Err(x),
            Ok(x) => match selection(*b, decide, probe) {
                Err(y) => Err(y),
                Ok(y) => Ok(Expr::Add(Rc::new(x), Rc::new(y))),
            },
        },
        Expr::Sub(a, b) => match selection(*a, decide, probe) {
            Err(x) => Err(x),
            Ok(x) => match selection(*b, decide, probe) {
                Err(y) => Err(y),
                Ok(y) => Ok(Expr::Sub(Rc::new(x), Rc::new(y))),
            },
        },
        Expr::Mul(a, b) => match selection(*a, decide, probe) {
            Err(x) => Err(x),
            Ok(x) => match selection(*b, decide, probe) {
                Err(y) => Err(y),
                Ok(y) => Ok(Expr::Mul(Rc::new(x), Rc::new(y))),
            },
        },
        Expr::Div(a, b) => match selection(*a, decide, probe) {
            Err(x) => Err(x),
            Ok(x) => match selection(*b, decide, probe) {
                Err(y) => Err(y),
                Ok(y) => Ok(Expr::Div(Rc::new(x), Rc::new(y))),
            },
        },
        Expr::Neg(a) => match selection(*a, decide, probe) {
            Err(x) => Err(x),
            Ok(x) => Ok(Expr::Neg(Rc::new(x))),
        },
        Expr::Log(a) => match selection(*a, decide, probe) {
            Err(x) => Err(x),
            Ok(x) => Ok(Expr::Log(Rc::new(x))),
        },
        Expr::Sqrt(a) => match selection(*a, decide, probe) {
            Err(x) => Err(x),
            Ok(x) => Ok(Expr::Sqrt(Rc::new(x))),
        },
        Expr::Conj(a) => match selection(*a, decide, probe) {
            Err(x) => Err(x),
            Ok(x) => Ok(Expr::Conj(Rc::new(x))),
        },
        Expr::Abs(a) => match selection(*a, decide, probe) {
            Err(x) => Err(x),
            Ok(x) => Ok(Expr::Abs(Rc::new(x))),
        },
        Expr::Dilog(a) => match selection(*a, decide, probe) {
            Err(x) => Err(x),
            Ok(x) => Ok(Expr::Dilog(Rc::new(x))),
        },
        Expr::If(c, a, b) => {
            let probed = if probe {
                answer(decide, *c)
            } else {
                Ok(None)
            };
            match probed {
                Err(x) => Err(x),
                Ok(Some(true)) => selection(*a, decide, probe),
                Ok(Some(false)) => selection(*b, decide, probe),
                Ok(None) => match selection(*c, decide, probe) {
                    Err(x) => Err(x),
                    Ok(condition) => match answer(decide, condition) {
                        Err(x) => Err(x),
                        Ok(Some(true)) => selection(*a, decide, probe),
                        Ok(Some(false)) => selection(*b, decide, probe),
                        Ok(None) => match selection(*a, decide, probe) {
                            Err(x) => Err(x),
                            Ok(x) => match selection(*b, decide, probe) {
                                Err(y) => Err(y),
                                Ok(y) => Ok(Expr::If(Rc::new(condition), Rc::new(x), Rc::new(y))),
                            },
                        },
                    },
                },
            }
        },
        Expr::Call(f, args) => match args_selection(*args, decide, probe) {
            Err(x) => Err(x),
            Ok(selected) => Ok(Expr::Call(f, Rc::new(selected))),
        },
        _ => Ok(e),
    }
}

/// The arguments with their branches selected by `decide`, or the first
/// error it gave.
pub open spec fn args_selection<E, F: Fn(&Expr) -> Result<Option<bool>, E>>(args: Args, decide: F, probe: bool) -> Result<
    Args,
    E,
>
    decreases args,
{
    match args {
        Args::Empty => Ok(Args::Empty),
        Args::Cons(head, tail) => match selection(*head, decide, probe) {
            Err(x) => Err(x),
            Ok(x) => match args_selection(*tail, decide, probe) {
                Err(y) => Err(y),
                Ok(y) => Ok(Args::Cons(Rc::new(x), Rc::new(y))),
            },
        },
    }
}

/// A call of `decide` gives its answer.
proof fn lemma_answer<E, F: Fn(&Expr) -> Result<Option<bool>, E>>(decide: F, c: &Expr, r: Result<Option<bool>, E>)
    requires
        decides(decide),
        decide.ensures((c,), r),
    ensures
        answer(decide, *c) == r,
{
    let chosen = answer(decide, *c);
    assert(decide.ensures((c,), chosen));
}

/// The arguments of a call with their branches selected by `decide`.
fn select_args<E, F: Fn(&Expr) -> Result<Option<bool>, E>>(args: &Args, decide: &F, probe: bool) -> (r: Result<Args, E>)
    requires
        decides(*decide),
    ensures
        r == args_selection(*args, *decide, probe),
    decreases args,
{
    match args {
        Args::Empty => Ok(Args::Empty),
        Args::Cons(head, tail) => match select(head, decide, probe) {
            Err(x) => Err(x),
            Ok(x) => match select_args(tail, decide, probe) {
                Err(y) => Err(y),
                Ok(y) => Ok(Args::Cons(Rc::new(x), Rc::new(y))),
            },
        },
    }
}

/// `e` with its branches selected by `decide`, probing each condition as
/// written first where `probe` is set.
fn select<E, F: Fn(&Expr) -> Result<Option<bool>, E>>(e: &Expr, decide: &F, probe: bool) -> (r: Result<
    Expr,
    E,
>)
    requires
        decides(*decide),
    ensures
        r == selection(*e, *decide, probe),
    decreases e,
{
    match e {
        Expr::Add(a, b) => match select(a, decide, probe) {
            Err(x) => Err(x),
            Ok(x) => match select(b, decide, probe) {
                Err(y) => Err(y),
                Ok(y) => Ok(Expr::Add(Rc::new(x), Rc::new(y))),
            },
        },
        Expr::Sub(a, b) => match select(a, decide, probe) {
            Err(x) => Err(x),
            Ok(x) => match select(b, decide, probe) {
                Err(y) => Err(y),
                Ok(y) => Ok(Expr::Sub(Rc::new(x), Rc::new(y))),
            },
        },
        Expr::Mul(a, b) => match select(a, decide, probe) {
            Err(x) => Err(x),
            Ok(x) => match select(b, decide, probe) {
                Err(y) => Err(y),
                Ok(y) => Ok(Expr::Mul(Rc::new(x), Rc::new(y))),
            },
        },
        Expr::Div(a, b) => match select(a, decide, probe) {
            Err(x) => Err(x),
            Ok(x) => match select(b, decide, probe) {
                Err(y) => Err(y),
                Ok(y) => Ok(Expr::Div(Rc::new(x), Rc::new(y))),
            },
        },
        Expr::Neg(a) => match select(a, decide, probe) {
            Err(x) => Err(x),
            Ok(x) => Ok(Expr::Neg(Rc::new(x))),
        },
        Expr::Log(a) => match select(a, decide, probe) {
            Err(x) => Err(x),
            Ok(x) => Ok(Expr::Log(Rc::new(x))),
        },
        Expr::Sqrt(a) => match select(a, decide, probe) {
            Err(x) => Err(x),
            Ok(x) => Ok(Expr::Sqrt(Rc::new(x))),
        },
        Expr::Conj(a) => match select(a, decide, probe) {
            Err(x) => Err(x),
            Ok(x) => Ok(Expr::Conj(Rc::new(x))),
        },
        Expr::Abs(a) => match select(a, decide, probe) {
            Err(x) => Err(x),
            Ok(x) => Ok(Expr::Abs(Rc::new(x))),
        },
        Expr::Dilog(a) => match select(a, decide, probe) {
            Err(x) => Err(x),
            Ok(x) => Ok(Expr::Dilog(Rc::new(x))),
        },
        Expr::If(c, a, b) => {
            let probed = if probe {
                let truth = decide(c);
                proof {
                    lemma_answer(*decide, &**c, truth);
                }
                truth
            } else {
                Ok(None)
            };
            match probed {
                Err(x) => Err(x),
                Ok(Some(true)) => select(a, decide, probe),
                Ok(Some(false)) => select(b, decide, probe),
                Ok(None) => match select(c, decide, probe) {
                    Err(x) => Err(x),
                    Ok(condition) => {
                        let truth = decide(&condition);
                        proof {
                            lemma_answer(*decide, &condition, truth);
                        }
                        match truth {
                            Err(x) => Err(x),
                            Ok(Some(true)) => select(a, decide, probe),
                            Ok(Some(false)) => select(b, decide, probe),
                            Ok(None) => match select(a, decide, probe) {
                                Err(x) => Err(x),
                                Ok(x) => match select(b, decide, probe) {
                                    Err(y) => Err(y),
                                    Ok(y) => Ok(Expr::If(Rc::new(condition), Rc::new(x), Rc::new(y))),
                                },
                            },
                        }
                    },
                },
            }
        },
        Expr::Call(f, args) => match select_args(args, decide, probe) {
            Err(x) => Err(x),
            Ok(selected) => Ok(Expr::Call(*f, Rc::new(selected))),
        },
        _ => Ok(e.clone()),
    }
}

/// `e` with its conditional branches selected by `decide`, which tells
/// whether a condition is nonzero at a sample point (`None` where it cannot
/// decide) or fails. Each condition is decided as written first; where that
/// is undecided, it is decided again after the conditionals inside it were
/// selected. The first failure is returned.
pub fn select_branch<E, F: Fn(&Expr) -> Result<Option<bool>, E>>(e: &Expr, decide: &F) -> (r: Result<Expr, E>)
    requires
        decides(*decide),
    ensures
        r == selection(*e, *decide, true),
{
    select(e, decide, true)
}

/// `e` with its conditional branches selected by `decide`, as
/// [`select_branch`] does, except that each condition is decided only after
/// the conditionals inside it were selected.
pub fn select_branch_with<E, F: Fn(&Expr) -> Result<Option<bool>, E>>(e: &Expr, decide: &F) -> (r: Result<
    Expr,
    E,
>)
    requires
        decides(*decide),
    ensures
        r == selection(*e, *decide, false),
{
    select(e, decide, false)
}

/// Every conditional in `e`, at every depth, in conditions and call
/// arguments too, has a condition that `decide` leaves undecided.
pub open spec fn settled<E, F: Fn(&Expr) -> Result<Option<bool>, E>>(e: Expr, decide: F) -> bool
    decreases e,
{
    match e {
        Expr::Add(a, b) | Expr::Sub(a, b) | Expr::Mul(a, b) | Expr::Div(a, b) => settled(*a, decide) && settled(
            *b,
            decide,
        ),
        Expr::Neg(a) | Expr::Log(a) | Expr::Sqrt(a) | Expr::Conj(a) | Expr::Abs(a) | Expr::Dilog(a) => settled(
            *a,
            decide,
        ),
        Expr::If(c, a, b) => answer(decide, *c) == Ok::<Option<bool>, E>(None) && settled(*c, decide) && settled(
            *a,
            decide,
        ) && settled(*b, decide),
        Expr::Call(_, args) => args_settled(*args, decide),
        _ => true,
    }
}

/// Every argument in `args` is [`settled`].
pub open spec fn args_settled<E, F: Fn(&Expr) -> Result<Option<bool>, E>>(args: Args, decide: F) -> bool
    decreases args,
{
    match args {
        Args::Empty => true,
        Args::Cons(head, tail) => settled(*head, decide) && args_settled(*tail, decide),
    }
}

/// A selected formula keeps no conditional that `decide` decides, at any
/// depth: a kept conditional's condition is itself selected and answered
/// undecided, and its arms are selected.
pub proof fn lemma_selection_is_settled<E, F: Fn(&Expr) -> Result<Option<bool>, E>>(
    e: &Expr,
    decide: F,
    probe: bool,
)
    ensures
        selection(*e, decide, probe) matches Ok(x) ==> settled(x, decide),
    decreases e,
{
    match e {
        Expr::Add(a, b) | Expr::Sub(a, b) | Expr::Mul(a, b) | Expr::Div(a, b) => {
            lemma_selection_is_settled(&**a, decide, probe);
            lemma_selection_is_settled(&**b, decide, probe);
        },
        Expr::Neg(a) | Expr::Log(a) | Expr::Sqrt(a) | Expr::Conj(a) | Expr::Abs(a) | Expr::Dilog(a) => {
            lemma_selection_is_settled(&**a, decide, probe);
        },
        Expr::If(c, a, b) => {
            lemma_selection_is_settled(&**c, decide, probe);
            lemma_selection_is_settled(&**a, decide, probe);
            lemma_selection_is_settled(&**b, decide, probe);
        },
        Expr::Call(f, args) => {
            lemma_arguments_selection_is_settled(&**args, decide, probe);
        },
        _ => {},
    }
}

/// Selected arguments keep no conditional that `decide` decides.
proof fn lemma_arguments_selection_is_settled<E, F: Fn(&Expr) -> Result<Option<bool>, E>>(
    args: &Args,
    decide: F,
    probe: bool,
)
    ensures
        args_selection(*args, decide, probe) matches Ok(x) ==> args_settled(x, decide),
    decreases args,
{
    if let Args::Cons(head, tail) = args {
        lemma_selection_is_settled(&**head, decide, probe);
        lemma_arguments_selection_is_settled(&**tail, decide, probe);
    }
}

/// A conditional whose condition `decide` decides is replaced by the
/// selection of the arm it keeps: the nonzero arm where the condition is
/// nonzero, the other where it is zero. [`select_branch`] asks about the
/// condition as written; both forms ask again about its selection where
/// that is undecided.
pub proof fn lemma_decided_conditional_keeps_one_arm<E, F: Fn(&Expr) -> Result<Option<bool>, E>>(
    c: Expr,
    a: Expr,
    b: Expr,
    decide: F,
    probe: bool,
    nonzero: bool,
)
    ensures
        probe && answer(decide, c) == Ok::<Option<bool>, E>(Some(nonzero)) ==> selection(
            Expr::If(Rc::new(c), Rc::new(a), Rc::new(b)),
            decide,
            probe,
        ) == selection(if nonzero { a } else { b }, decide, probe),
        (!probe || answer(decide, c) == Ok::<Option<bool>, E>(None)) && selection(c, decide, probe) is Ok && answer(
            decide,
            selection(c, decide, probe)->Ok_0,
        ) == Ok::<Option<bool>, E>(Some(nonzero)) ==> selection(
            Expr::If(Rc::new(c), Rc::new(a), Rc::new(b)),
            decide,
            probe,
        ) == selection(if nonzero { a } else { b }, decide, probe),
{
}

/// Where `decide` answers no condition, selecting branches changes
/// nothing.
pub proof fn lemma_undecided_selection_keeps_formula<E, F: Fn(&Expr) -> Result<Option<bool>, E>>(
    e: &Expr,
    decide: F,
    probe: bool,
)
    requires
        forall|c: Expr| #[trigger] answer(decide, c) == Ok::<Option<bool>, E>(None),
    ensures
        selection(*e, decide, probe) == Ok::<Expr, E>(*e),
    decreases e,
{
    match e {
        Expr::Add(a, b) | Expr::Sub(a, b) | Expr::Mul(a, b) | Expr::Div(a, b) => {
            lemma_undecided_selection_keeps_formula(&**a, decide, probe);
            lemma_undecided_selection_keeps_formula(&**b, decide, probe);
        },
        Expr::Neg(a) | Expr::Log(a) | Expr::Sqrt(a) | Expr::Conj(a) | Expr::Abs(a) | Expr::Dilog(a) => {
            lemma_undecided_selection_keeps_formula(&**a, decide, probe);
        },
        Expr::If(c, a, b) => {
            lemma_undecided_selection_keeps_formula(&**c, decide, probe);
            lemma_undecided_selection_keeps_formula(&**a, decide, probe);
            lemma_undecided_selection_keeps_formula(&**b, decide, probe);
            assert(answer(decide, **c) == Ok::<Option<bool>, E>(None));
        },
        Expr::Call(f, args) => {
            lemma_undecided_arguments_kept(&**args, decide, probe);
        },
        _ => {},
    }
}

/// Where `decide` answers no condition, selecting branches in arguments
/// changes nothing.
proof fn lemma_undecided_arguments_kept<E, F: Fn(&Expr) -> Result<Option<bool>, E>>(args: &Args, decide: F, probe: bool)
    requires
        forall|c: Expr| #[trigger] answer(decide, c) == Ok::<Option<bool>, E>(None),
    ensures
        args_selection(*args, decide, probe) == Ok::<Args, E>(*args),
    decreases args,
{
    if let Args::Cons(head, tail) = args {
        lemma_undecided_selection_keeps_formula(&**head, decide, probe);
        lemma_undecided_arguments_kept(&**tail, decide, probe);
    }
}

/// Selecting the branches of a formula whose branches were selected
/// changes nothing: selection is a projection.
pub proof fn lemma_selection_is_idempotent<E, F: Fn(&Expr) -> Result<Option<bool>, E>>(
    e: &Expr,
    decide: F,
    probe: bool,
)
    ensures
        selection(*e, decide, probe) is Ok ==> selection(selection(*e, decide, probe)->Ok_0, decide, probe)
            == selection(*e, decide, probe),
    decreases e,
{
    match e {
        Expr::Add(a, b) | Expr::Sub(a, b) | Expr::Mul(a, b) | Expr::Div(a, b) => {
            lemma_selection_is_idempotent(&**a, decide, probe);
            lemma_selection_is_idempotent(&**b, decide, probe);
        },
        Expr::Neg(a) | Expr::Log(a) | Expr::Sqrt(a) | Expr::Conj(a) | Expr::Abs(a) | Expr::Dilog(a) => {
            lemma_selection_is_idempotent(&**a, decide, probe);
        },
        Expr::If(c, a, b) => {
            lemma_selection_is_idempotent(&**c, decide, probe);
            lemma_selection_is_idempotent(&**a, decide, probe);
            lemma_selection_is_idempotent(&**b, decide, probe);
        },
        Expr::Call(f, args) => {
            lemma_argument_selection_is_idempotent(&**args, decide, probe);
        },
        _ => {},
    }
}

/// Selecting the branches of arguments whose branches were selected
/// changes nothing.
proof fn lemma_argument_selection_is_idempotent<E, F: Fn(&Expr) -> Result<Option<bool>, E>>(
    args: &Args,
    decide: F,
    probe: bool,
)
    ensures
        args_selection(*args, decide, probe) is Ok ==> args_selection(
            args_selection(*args, decide, probe)->Ok_0,
            decide,
            probe,
        ) == args_selection(*args, decide, probe),
    decreases args,
{
    if let Args::Cons(head, tail) = args {
        lemma_selection_is_idempotent(&**head, decide, probe);
        lemma_argument_selection_is_idempotent(&**tail, decide, probe);
    }
}

} // verus!
