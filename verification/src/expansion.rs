//! Expansion of helper calls into one complete formula.
//!
//! A helper call is replaced by the helper's definition, whose formal
//! arguments `Expr::Arg(k)` stand for the call's actual arguments. The
//! actual arguments are expanded once, in the scope of the caller, before
//! the definition is; each reference to a formal argument then shares that
//! expansion; a call of a helper on arguments met among the recently
//! expanded calls shares the formula expanded for them, and a subtree shared
//! within a definition is expanded once. A conditional whose expanded condition is
//! decided keeps only its selected arm; an undecided one keeps both arms,
//! expanded. Every visited node costs one unit of the node budget and one
//! level of depth per nesting; a helper whose definition is already being
//! expanded in the same scope is a cycle. Exceeding a limit or meeting a
//! cycle fails explicitly: no truncated formula is ever returned.
use vstd::prelude::*;
use crate::expr::{Args, Expr, share};
use crate::functions::{Func, definition};
use crate::inspection::ExpressionOptions;
use std::rc::Rc;

verus! {

/// The scope a definition body is expanded in: the expanded actual
/// arguments of the call (none at the top, where `Expr::Arg(k)` is a free
/// parameter of the formula), the scope of the caller, and the helpers
/// whose definitions are being expanded.
pub struct Frame {
    pub args: Vec<Expr>,
    pub parent: Option<Rc<Frame>>,
    pub active: Vec<Func>,
}

impl Frame {
    /// The actual arguments the formal ones stand for; none at the top.
    pub open spec fn bound(&self) -> Option<Seq<Expr>> {
        match self.parent {
            None => None,
            Some(_) => Some(self.args@),
        }
    }
}

/// Why an expansion failed.
#[derive(Clone, Copy, Debug, PartialEq, Eq, Structural)]
pub enum ExpansionError {
    /// The nesting exceeded `max_depth`.
    Depth,
    /// The visits exceeded `max_nodes`; the number of visits made.
    Budget(u128),
    /// The helper's definition is already being expanded in this scope.
    Cycle(Func),
    /// A call with a number of arguments other than the helper's arity.
    Arity(Func, usize),
    /// A formal argument beyond the arguments of its definition's call.
    Unresolved(u32),
}

/// The decision procedure answers every condition, and gives one answer
/// for one condition.
pub open spec fn decides<F: Fn(&Expr) -> Option<bool>>(decide: F) -> bool {
    &&& forall|c: Expr| #[trigger] decide.requires((&c,))
    &&& forall|c: Expr, r1: Option<bool>, r2: Option<bool>|
        #[trigger] decide.ensures((&c,), r1) && #[trigger] decide.ensures((&c,), r2) ==> r1 == r2
}

/// The answer of `decide` for the condition `c`.
pub open spec fn answer<F: Fn(&Expr) -> Option<bool>>(decide: F, c: Expr) -> Option<bool> {
    choose|r: Option<bool>| decide.ensures((&c,), r)
}

/// Whether an expanded condition is nonzero: by `decide` where it is given,
/// except inside a condition, where only an integer literal is decided.
pub open spec fn truth(
    condition: Expr,
    decide: Option<spec_fn(Expr) -> Option<bool>>,
    in_condition: bool,
) -> Option<bool> {
    match decide {
        Some(d) if !in_condition => d(condition),
        _ => if condition is Int {
            Some(condition->Int_0 != 0)
        } else {
            None
        },
    }
}

/// The node with the operands of `e` replaced by `x` and `y`.
pub open spec fn with_operands(e: Expr, x: Expr, y: Expr) -> Expr {
    match e {
        Expr::Add(_, _) => Expr::Add(Rc::new(x), Rc::new(y)),
        Expr::Sub(_, _) => Expr::Sub(Rc::new(x), Rc::new(y)),
        Expr::Mul(_, _) => Expr::Mul(Rc::new(x), Rc::new(y)),
        Expr::Div(_, _) => Expr::Div(Rc::new(x), Rc::new(y)),
        Expr::Neg(_) => Expr::Neg(Rc::new(x)),
        Expr::Log(_) => Expr::Log(Rc::new(x)),
        Expr::Sqrt(_) => Expr::Sqrt(Rc::new(x)),
        Expr::Conj(_) => Expr::Conj(Rc::new(x)),
        Expr::Abs(_) => Expr::Abs(Rc::new(x)),
        Expr::Dilog(_) => Expr::Dilog(Rc::new(x)),
        _ => e,
    }
}

/// The complete formula of `e`, its formal arguments standing for `args`
/// (free parameters where there are none), found within `fuel` levels of
/// nesting: every helper call replaced by the helper's definition, its
/// formal arguments standing for the complete formulas of the actual ones;
/// a conditional whose condition is decided replaced by the selected arm.
/// `None` where `fuel` does not suffice or a formal argument has no actual
/// one.
pub open spec fn inlined(
    e: Expr,
    args: Option<Seq<Expr>>,
    decide: Option<spec_fn(Expr) -> Option<bool>>,
    in_condition: bool,
    fuel: nat,
) -> Option<Expr>
    decreases fuel, e,
{
    if fuel == 0 {
        None
    } else {
        let f = (fuel - 1) as nat;
        match e {
            Expr::Arg(k) => match args {
                None => Some(e),
                Some(a) => if k < a.len() {
                    Some(a[k as int])
                } else {
                    None
                },
            },
            Expr::Add(a, b) | Expr::Sub(a, b) | Expr::Mul(a, b) | Expr::Div(a, b) => {
                match (inlined(*a, args, decide, in_condition, f), inlined(*b, args, decide, in_condition, f)) {
                    (Some(x), Some(y)) => Some(with_operands(e, x, y)),
                    _ => None,
                }
            },
            Expr::Neg(a) | Expr::Log(a) | Expr::Sqrt(a) | Expr::Conj(a) | Expr::Abs(a) | Expr::Dilog(a) => {
                match inlined(*a, args, decide, in_condition, f) {
                    Some(x) => Some(with_operands(e, x, x)),
                    None => None,
                }
            },
            Expr::If(c, a, b) => match inlined(*c, args, decide, in_condition || decide is Some, f) {
                None => None,
                Some(condition) => match truth(condition, decide, in_condition) {
                    Some(true) => inlined(*a, args, decide, in_condition, f),
                    Some(false) => inlined(*b, args, decide, in_condition, f),
                    None => match (
                        inlined(*a, args, decide, in_condition, f),
                        inlined(*b, args, decide, in_condition, f),
                    ) {
                        (Some(x), Some(y)) => Some(Expr::If(Rc::new(condition), Rc::new(x), Rc::new(y))),
                        _ => None,
                    },
                },
            },
            Expr::Call(h, list) => match inlined_args(*list, args, decide, in_condition, f) {
                None => None,
                Some(actual) => if actual.len() == h.spec_arity() {
                    inlined(definition(h), Some(actual), decide, in_condition, f)
                } else {
                    None
                },
            },
            _ => Some(e),
        }
    }
}

/// The complete formulas of the arguments `list`, in order.
pub open spec fn inlined_args(
    list: Args,
    args: Option<Seq<Expr>>,
    decide: Option<spec_fn(Expr) -> Option<bool>>,
    in_condition: bool,
    fuel: nat,
) -> Option<Seq<Expr>>
    decreases fuel, list,
{
    match list {
        Args::Empty => Some(Seq::empty()),
        Args::Cons(head, tail) => match (
            inlined(*head, args, decide, in_condition, fuel),
            inlined_args(*tail, args, decide, in_condition, fuel),
        ) {
            (Some(x), Some(rest)) => Some(seq![x] + rest),
            _ => None,
        },
    }
}

/// `x` is the complete formula of `e` with its formal arguments standing for
/// `args`.
pub open spec fn complete_formula(
    e: Expr,
    args: Option<Seq<Expr>>,
    decide: Option<spec_fn(Expr) -> Option<bool>>,
    in_condition: bool,
    x: Expr,
) -> bool {
    exists|fuel: nat| inlined(e, args, decide, in_condition, fuel) == Some(x)
}

/// More fuel finds the same formula.
pub proof fn lemma_inlined_monotone(
    e: &Expr,
    args: Option<Seq<Expr>>,
    decide: Option<spec_fn(Expr) -> Option<bool>>,
    in_condition: bool,
    fuel: nat,
    more: nat,
)
    requires
        fuel <= more,
        inlined(*e, args, decide, in_condition, fuel) is Some,
    ensures
        inlined(*e, args, decide, in_condition, more) == inlined(*e, args, decide, in_condition, fuel),
    decreases fuel, e,
{
    let f = (fuel - 1) as nat;
    let m = (more - 1) as nat;
    match e {
        Expr::Add(a, b) | Expr::Sub(a, b) | Expr::Mul(a, b) | Expr::Div(a, b) => {
            lemma_inlined_monotone(&**a, args, decide, in_condition, f, m);
            lemma_inlined_monotone(&**b, args, decide, in_condition, f, m);
        },
        Expr::Neg(a) | Expr::Log(a) | Expr::Sqrt(a) | Expr::Conj(a) | Expr::Abs(a) | Expr::Dilog(a) => {
            lemma_inlined_monotone(&**a, args, decide, in_condition, f, m);
        },
        Expr::If(c, a, b) => {
            let inner = in_condition || decide is Some;
            lemma_inlined_monotone(&**c, args, decide, inner, f, m);
            let condition = choose|x: Expr| inlined(**c, args, decide, inner, f) == Some(x);
            match truth(condition, decide, in_condition) {
                Some(true) => lemma_inlined_monotone(&**a, args, decide, in_condition, f, m),
                Some(false) => lemma_inlined_monotone(&**b, args, decide, in_condition, f, m),
                None => {
                    lemma_inlined_monotone(&**a, args, decide, in_condition, f, m);
                    lemma_inlined_monotone(&**b, args, decide, in_condition, f, m);
                },
            }
        },
        Expr::Call(h, list) => {
            lemma_inlined_args_monotone(&**list, args, decide, in_condition, f, m);
            let actual = choose|s: Seq<Expr>| inlined_args(**list, args, decide, in_condition, f) == Some(s);
            lemma_inlined_monotone(&definition(*h), Some(actual), decide, in_condition, f, m);
        },
        _ => {},
    }
}

/// More fuel finds the same argument formulas.
pub proof fn lemma_inlined_args_monotone(
    list: &Args,
    args: Option<Seq<Expr>>,
    decide: Option<spec_fn(Expr) -> Option<bool>>,
    in_condition: bool,
    fuel: nat,
    more: nat,
)
    requires
        fuel <= more,
        inlined_args(*list, args, decide, in_condition, fuel) is Some,
    ensures
        inlined_args(*list, args, decide, in_condition, more) == inlined_args(*list, args, decide, in_condition, fuel),
    decreases fuel, list,
{
    if let Args::Cons(head, tail) = list {
        lemma_inlined_monotone(&**head, args, decide, in_condition, fuel, more);
        lemma_inlined_args_monotone(&**tail, args, decide, in_condition, fuel, more);
    }
}

/// A formula has at most one complete formula.
pub proof fn lemma_complete_formula_unique(
    e: Expr,
    args: Option<Seq<Expr>>,
    decide: Option<spec_fn(Expr) -> Option<bool>>,
    in_condition: bool,
    x: Expr,
    y: Expr,
)
    requires
        complete_formula(e, args, decide, in_condition, x),
        complete_formula(e, args, decide, in_condition, y),
    ensures
        x == y,
{
    let fx = choose|fuel: nat| inlined(e, args, decide, in_condition, fuel) == Some(x);
    let fy = choose|fuel: nat| inlined(e, args, decide, in_condition, fuel) == Some(y);
    if fx <= fy {
        lemma_inlined_monotone(&e, args, decide, in_condition, fx, fy);
    } else {
        lemma_inlined_monotone(&e, args, decide, in_condition, fy, fx);
    }
}

/// The nesting levels left at `depth` under `options`: a node is expanded
/// only where at least one is left.
pub open spec fn levels(depth: u128, options: ExpressionOptions) -> nat {
    if depth > options.max_depth {
        0
    } else {
        (options.max_depth + 1 - depth) as nat
    }
}

/// What expanding `e` without reusing any remembered formula costs: the
/// number of nodes visited, or the first failure met, with the formal
/// arguments standing for `args`, the helpers `active` being expanded
/// around it, and `levels` levels of nesting left. A conditional whose
/// condition is decided costs only its selected arm; a helper call costs
/// its arguments and its definition.
pub open spec fn visits(
    e: Expr,
    args: Option<Seq<Expr>>,
    active: Seq<Func>,
    decide: Option<spec_fn(Expr) -> Option<bool>>,
    in_condition: bool,
    levels: nat,
) -> Result<nat, ExpansionError>
    decreases levels, e, 0nat,
{
    if levels == 0 {
        Err(ExpansionError::Depth)
    } else {
        let f = (levels - 1) as nat;
        match e {
            Expr::Arg(k) => match args {
                Some(a) => if k < a.len() {
                    Ok(1)
                } else {
                    Err(ExpansionError::Unresolved(k))
                },
                None => Ok(1),
            },
            Expr::Add(a, b) | Expr::Sub(a, b) | Expr::Mul(a, b) | Expr::Div(a, b) => match visits(
                *a,
                args,
                active,
                decide,
                in_condition,
                f,
            ) {
                Err(err) => Err(err),
                Ok(na) => match visits(*b, args, active, decide, in_condition, f) {
                    Err(err) => Err(err),
                    Ok(nb) => Ok(1 + na + nb),
                },
            },
            Expr::Neg(a) | Expr::Log(a) | Expr::Sqrt(a) | Expr::Conj(a) | Expr::Abs(a) | Expr::Dilog(a) => match visits(
                *a,
                args,
                active,
                decide,
                in_condition,
                f,
            ) {
                Err(err) => Err(err),
                Ok(n) => Ok(1 + n),
            },
            Expr::If(c, a, b) => {
                let inner = in_condition || decide is Some;
                match visits(*c, args, active, decide, inner, f) {
                    Err(err) => Err(err),
                    Ok(nc) => match inlined(*c, args, decide, inner, f) {
                        None => Err(ExpansionError::Depth),
                        Some(condition) => match truth(condition, decide, in_condition) {
                            Some(true) => match visits(*a, args, active, decide, in_condition, f) {
                                Err(err) => Err(err),
                                Ok(na) => Ok(1 + nc + na),
                            },
                            Some(false) => match visits(*b, args, active, decide, in_condition, f) {
                                Err(err) => Err(err),
                                Ok(nb) => Ok(1 + nc + nb),
                            },
                            None => match visits(*a, args, active, decide, in_condition, f) {
                                Err(err) => Err(err),
                                Ok(na) => match visits(*b, args, active, decide, in_condition, f) {
                                    Err(err) => Err(err),
                                    Ok(nb) => Ok(1 + nc + na + nb),
                                },
                            },
                        },
                    },
                }
            },
            Expr::Call(h, list) => if active.contains(h) {
                Err(ExpansionError::Cycle(h))
            } else {
                match visits_args(*list, args, active, decide, in_condition, f) {
                    Err(err) => Err(err),
                    Ok(nl) => match inlined_args(*list, args, decide, in_condition, f) {
                        None => Err(ExpansionError::Depth),
                        Some(actual) => if actual.len() != h.spec_arity() {
                            Err(ExpansionError::Arity(h, actual.len() as usize))
                        } else {
                            match visits(definition(h), Some(actual), active.push(h), decide, in_condition, f) {
                                Err(err) => Err(err),
                                Ok(nb) => Ok(1 + nl + nb),
                            }
                        },
                    },
                }
            },
            _ => Ok(1),
        }
    }
}

/// What expanding the arguments `list` in order costs, as [`visits`].
pub open spec fn visits_args(
    list: Args,
    args: Option<Seq<Expr>>,
    active: Seq<Func>,
    decide: Option<spec_fn(Expr) -> Option<bool>>,
    in_condition: bool,
    levels: nat,
) -> Result<nat, ExpansionError>
    decreases levels, list, 0nat,
{
    match list {
        Args::Empty => Ok(0),
        Args::Cons(head, tail) => match visits(*head, args, active, decide, in_condition, levels) {
            Err(err) => Err(err),
            Ok(nh) => match visits_args(*tail, args, active, decide, in_condition, levels) {
                Err(err) => Err(err),
                Ok(nt) => Ok(nh + nt),
            },
        },
    }
}

/// A successful expansion visits at least one node.
pub proof fn lemma_visits_positive(
    e: Expr,
    args: Option<Seq<Expr>>,
    active: Seq<Func>,
    decide: Option<spec_fn(Expr) -> Option<bool>>,
    in_condition: bool,
    levels: nat,
)
    ensures
        visits(e, args, active, decide, in_condition, levels) matches Ok(n) ==> n >= 1,
{
}

/// Where expanding `e` succeeds, its complete formula is found within the
/// same levels.
pub proof fn lemma_visits_inlined(
    e: &Expr,
    args: Option<Seq<Expr>>,
    active: Seq<Func>,
    decide: Option<spec_fn(Expr) -> Option<bool>>,
    in_condition: bool,
    levels: nat,
)
    requires
        visits(*e, args, active, decide, in_condition, levels) is Ok,
    ensures
        inlined(*e, args, decide, in_condition, levels) is Some,
    decreases levels, e, 0nat,
{
    let f = (levels - 1) as nat;
    match e {
        Expr::Add(a, b) | Expr::Sub(a, b) | Expr::Mul(a, b) | Expr::Div(a, b) => {
            lemma_visits_inlined(&**a, args, active, decide, in_condition, f);
            lemma_visits_inlined(&**b, args, active, decide, in_condition, f);
        },
        Expr::Neg(a) | Expr::Log(a) | Expr::Sqrt(a) | Expr::Conj(a) | Expr::Abs(a) | Expr::Dilog(a) => {
            lemma_visits_inlined(&**a, args, active, decide, in_condition, f);
        },
        Expr::If(c, a, b) => {
            let inner = in_condition || decide is Some;
            let condition = choose|x: Expr| inlined(**c, args, decide, inner, f) == Some(x);
            match truth(condition, decide, in_condition) {
                Some(true) => lemma_visits_inlined(&**a, args, active, decide, in_condition, f),
                Some(false) => lemma_visits_inlined(&**b, args, active, decide, in_condition, f),
                None => {
                    lemma_visits_inlined(&**a, args, active, decide, in_condition, f);
                    lemma_visits_inlined(&**b, args, active, decide, in_condition, f);
                },
            }
        },
        Expr::Call(h, list) => {
            let actual = choose|v: Seq<Expr>| inlined_args(**list, args, decide, in_condition, f) == Some(v);
            lemma_visits_inlined(&definition(*h), Some(actual), active.push(*h), decide, in_condition, f);
        },
        _ => {},
    }
}

/// Where expanding the arguments `list` succeeds, their complete formulas
/// are found within the same levels.
pub proof fn lemma_visits_args_inlined(
    list: &Args,
    args: Option<Seq<Expr>>,
    active: Seq<Func>,
    decide: Option<spec_fn(Expr) -> Option<bool>>,
    in_condition: bool,
    levels: nat,
)
    requires
        visits_args(*list, args, active, decide, in_condition, levels) is Ok,
    ensures
        inlined_args(*list, args, decide, in_condition, levels) is Some,
    decreases levels, list, 0nat,
{
    if let Args::Cons(head, tail) = list {
        lemma_visits_inlined(&**head, args, active, decide, in_condition, levels);
        lemma_visits_args_inlined(&**tail, args, active, decide, in_condition, levels);
    }
}

/// Whether `cost` is a success that fits in the node budget of `options`
/// left after `work` visits.
pub open spec fn affordable(cost: Result<nat, ExpansionError>, work: u128, options: ExpressionOptions) -> bool {
    cost matches Ok(n) && work + n <= options.max_nodes
}

/// Whether the visits grew from `before` to `after` by at most `cost`, where
/// `cost` is a success.
pub open spec fn paid(cost: Result<nat, ExpansionError>, before: u128, after: u128) -> bool {
    cost matches Ok(n) ==> after <= before + n
}

/// Where expanding `e` succeeds, a complete formula of `e` is the one found
/// within the same levels.
proof fn lemma_formula_of_visits(
    e: &Expr,
    args: Option<Seq<Expr>>,
    active: Seq<Func>,
    decide: Option<spec_fn(Expr) -> Option<bool>>,
    in_condition: bool,
    levels: nat,
    x: Expr,
)
    requires
        complete_formula(*e, args, decide, in_condition, x),
    ensures
        visits(*e, args, active, decide, in_condition, levels) is Ok ==> inlined(
            *e,
            args,
            decide,
            in_condition,
            levels,
        ) == Some(x),
{
    if visits(*e, args, active, decide, in_condition, levels) is Ok {
        lemma_visits_inlined(e, args, active, decide, in_condition, levels);
        lemma_formula_found(e, args, decide, in_condition, levels, x);
    }
}

/// Where a complete formula of `e` is found within `fuel` levels, it is `x`
/// whenever `x` is a complete formula of `e`.
proof fn lemma_formula_found(
    e: &Expr,
    args: Option<Seq<Expr>>,
    decide: Option<spec_fn(Expr) -> Option<bool>>,
    in_condition: bool,
    fuel: nat,
    x: Expr,
)
    requires
        complete_formula(*e, args, decide, in_condition, x),
        inlined(*e, args, decide, in_condition, fuel) is Some,
    ensures
        inlined(*e, args, decide, in_condition, fuel) == Some(x),
{
    let fx = choose|f: nat| inlined(*e, args, decide, in_condition, f) == Some(x);
    if fx <= fuel {
        lemma_inlined_monotone(e, args, decide, in_condition, fx, fuel);
    } else {
        lemma_inlined_monotone(e, args, decide, in_condition, fuel, fx);
    }
}

/// Where expanding the arguments `list` succeeds, formulas found for them
/// with any fuel are the ones found within the same levels.
proof fn lemma_args_of_visits(
    list: &Args,
    args: Option<Seq<Expr>>,
    active: Seq<Func>,
    decide: Option<spec_fn(Expr) -> Option<bool>>,
    in_condition: bool,
    levels: nat,
    v: Seq<Expr>,
)
    requires
        exists|fuel: nat| inlined_args(*list, args, decide, in_condition, fuel) == Some(v),
    ensures
        visits_args(*list, args, active, decide, in_condition, levels) is Ok ==> inlined_args(
            *list,
            args,
            decide,
            in_condition,
            levels,
        ) == Some(v),
{
    if !(visits_args(*list, args, active, decide, in_condition, levels) is Ok) {
        return;
    }
    lemma_visits_args_inlined(list, args, active, decide, in_condition, levels);
    let fv = choose|fuel: nat| inlined_args(*list, args, decide, in_condition, fuel) == Some(v);
    if fv <= levels {
        lemma_inlined_args_monotone(list, args, decide, in_condition, fv, levels);
    } else {
        lemma_inlined_args_monotone(list, args, decide, in_condition, levels, fv);
    }
}

/// Whether `e` calls no helper.
pub open spec fn call_free(e: Expr) -> bool
    decreases e,
{
    match e {
        Expr::Add(a, b) | Expr::Sub(a, b) | Expr::Mul(a, b) | Expr::Div(a, b) => call_free(*a) && call_free(*b),
        Expr::Neg(a) | Expr::Log(a) | Expr::Sqrt(a) | Expr::Conj(a) | Expr::Abs(a) | Expr::Dilog(a) => call_free(*a),
        Expr::If(c, a, b) => call_free(*c) && call_free(*a) && call_free(*b),
        Expr::Call(_, _) => false,
        _ => true,
    }
}

/// The decision procedure behind an optional reference.
pub open spec fn decision<F: Fn(&Expr) -> Option<bool>>(decide: Option<&F>) -> Option<spec_fn(Expr) -> Option<bool>> {
    match decide {
        Some(d) => Some(|c: Expr| answer(*d, c)),
        None => None,
    }
}

/// A helper call already expanded: the helper, its expanded actual
/// arguments, whether it stood inside a condition, and its formula.
pub struct ExpandedCall {
    pub helper: Func,
    pub args: Vec<Expr>,
    pub in_condition: bool,
    pub result: Expr,
}

/// The remembered formula is the complete formula of the call.
pub open spec fn remembered(entry: ExpandedCall, decide: Option<spec_fn(Expr) -> Option<bool>>) -> bool {
    &&& complete_formula(definition(entry.helper), Some(entry.args@), decide, entry.in_condition, entry.result)
    &&& call_free(entry.result)
}

/// Every remembered formula is the complete formula of its call.
pub open spec fn memo_valid(memo: Seq<ExpandedCall>, decide: Option<spec_fn(Expr) -> Option<bool>>) -> bool {
    forall|i: int| 0 <= i < memo.len() ==> remembered(#[trigger] memo[i], decide)
}

/// A node of an expression already expanded in one frame: the node, whether
/// it stood inside a condition, and its formula.
pub struct ExpandedNode {
    pub source: Rc<Expr>,
    pub in_condition: bool,
    pub result: Expr,
}

/// The remembered formula is the complete formula of the node in the frame
/// with the arguments `args`.
pub open spec fn node_remembered(
    entry: ExpandedNode,
    args: Option<Seq<Expr>>,
    decide: Option<spec_fn(Expr) -> Option<bool>>,
) -> bool {
    &&& complete_formula(*entry.source, args, decide, entry.in_condition, entry.result)
    &&& call_free(entry.result)
}

/// Every remembered node formula is the complete formula of its node in
/// the frame with the arguments `args`.
pub open spec fn nodes_valid(
    nodes: Seq<ExpandedNode>,
    args: Option<Seq<Expr>>,
    decide: Option<spec_fn(Expr) -> Option<bool>>,
) -> bool {
    forall|i: int| 0 <= i < nodes.len() ==> node_remembered(#[trigger] nodes[i], args, decide)
}

/// Another pointer to the same expression.
///
/// Trusted: `Rc::ptr_eq` is true only where both pointers point to one
/// allocation, which then holds one value.
#[verifier::external_body]
fn same_allocation<T>(a: &Rc<T>, b: &Rc<T>) -> (r: bool)
    ensures
        r ==> *a == *b,
{
    Rc::ptr_eq(a, b)
}

/// Whether `a` and `b` are equal: shared subtrees are equal at once,
/// others are compared node by node.
pub(crate) fn same_expr(a: &Expr, b: &Expr) -> (r: bool)
    ensures
        r == (*a == *b),
    decreases *a, 0nat,
{
    match (a, b) {
        (Expr::Int(x), Expr::Int(y)) => *x == *y,
        (Expr::Pi, Expr::Pi) | (Expr::I, Expr::I) | (Expr::Indeterminate, Expr::Indeterminate) => true,
        (Expr::Arg(x), Expr::Arg(y)) => *x == *y,
        (Expr::Add(a1, a2), Expr::Add(b1, b2)) | (Expr::Sub(a1, a2), Expr::Sub(b1, b2)) | (
            Expr::Mul(a1, a2),
            Expr::Mul(b1, b2),
        ) | (Expr::Div(a1, a2), Expr::Div(b1, b2)) => same_child(a1, b1) && same_child(a2, b2),
        (Expr::Neg(x), Expr::Neg(y)) | (Expr::Log(x), Expr::Log(y)) | (Expr::Sqrt(x), Expr::Sqrt(y)) | (
            Expr::Conj(x),
            Expr::Conj(y),
        ) | (Expr::Abs(x), Expr::Abs(y)) | (Expr::Dilog(x), Expr::Dilog(y)) => same_child(x, y),
        (Expr::If(c1, x1, y1), Expr::If(c2, x2, y2)) => same_child(c1, c2) && same_child(x1, x2) && same_child(
            y1,
            y2,
        ),
        (Expr::Call(f, x), Expr::Call(g, y)) => *f == *g && same_arg_cells(x, y),
        _ => false,
    }
}

/// Whether two operands are equal.
fn same_child(a: &Rc<Expr>, b: &Rc<Expr>) -> (r: bool)
    ensures
        r == (**a == **b),
    decreases **a, 1nat,
{
    same_allocation(a, b) || same_expr(a, b)
}

/// Whether two argument lists of calls are equal.
fn same_arg_cells(a: &Rc<Args>, b: &Rc<Args>) -> (r: bool)
    ensures
        r == (**a == **b),
    decreases **a, 1nat,
{
    if same_allocation(a, b) {
        return true;
    }
    match (&**a, &**b) {
        (Args::Empty, Args::Empty) => true,
        (Args::Cons(x, xs), Args::Cons(y, ys)) => same_child(x, y) && same_arg_cells(xs, ys),
        _ => false,
    }
}

/// The comparison budget left after finding `a` and `b` equal within
/// `budget` node comparisons; `None` where they differ or the budget does
/// not suffice. Shared operands are equal at once.
fn equal_within(a: &Expr, b: &Expr, budget: u32) -> (r: Option<u32>)
    ensures
        r is Some ==> *a == *b,
    decreases *a, 0nat,
{
    if budget == 0 {
        return None;
    }
    let left: u32 = budget - 1;
    match (a, b) {
        (Expr::Int(x), Expr::Int(y)) => if *x == *y {
            Some(left)
        } else {
            None
        },
        (Expr::Pi, Expr::Pi) | (Expr::I, Expr::I) | (Expr::Indeterminate, Expr::Indeterminate) => Some(left),
        (Expr::Arg(x), Expr::Arg(y)) => if *x == *y {
            Some(left)
        } else {
            None
        },
        (Expr::Add(a1, a2), Expr::Add(b1, b2)) | (Expr::Sub(a1, a2), Expr::Sub(b1, b2)) | (
            Expr::Mul(a1, a2),
            Expr::Mul(b1, b2),
        ) | (Expr::Div(a1, a2), Expr::Div(b1, b2)) => match child_within(a1, b1, left) {
            Some(k) => child_within(a2, b2, k),
            None => None,
        },
        (Expr::Neg(x), Expr::Neg(y)) | (Expr::Log(x), Expr::Log(y)) | (Expr::Sqrt(x), Expr::Sqrt(y)) | (
            Expr::Conj(x),
            Expr::Conj(y),
        ) | (Expr::Abs(x), Expr::Abs(y)) | (Expr::Dilog(x), Expr::Dilog(y)) => child_within(x, y, left),
        (Expr::If(c1, x1, y1), Expr::If(c2, x2, y2)) => match child_within(c1, c2, left) {
            Some(k) => match child_within(x1, x2, k) {
                Some(j) => child_within(y1, y2, j),
                None => None,
            },
            None => None,
        },
        (Expr::Call(f, x), Expr::Call(g, y)) => if *f == *g {
            arg_cells_within(x, y, left)
        } else {
            None
        },
        _ => None,
    }
}

/// [`equal_within`] for two operands.
fn child_within(a: &Rc<Expr>, b: &Rc<Expr>, budget: u32) -> (r: Option<u32>)
    ensures
        r is Some ==> **a == **b,
    decreases **a, 1nat,
{
    if same_allocation(a, b) {
        Some(budget)
    } else {
        equal_within(a, b, budget)
    }
}

/// [`equal_within`] for two argument lists of calls.
fn arg_cells_within(a: &Rc<Args>, b: &Rc<Args>, budget: u32) -> (r: Option<u32>)
    ensures
        r is Some ==> **a == **b,
    decreases **a, 1nat,
{
    if same_allocation(a, b) {
        return Some(budget);
    }
    match (&**a, &**b) {
        (Args::Empty, Args::Empty) => Some(budget),
        (Args::Cons(x, xs), Args::Cons(y, ys)) => match child_within(x, y, budget) {
            Some(k) => arg_cells_within(xs, ys, k),
            None => None,
        },
        _ => None,
    }
}

/// The node comparisons one lookup of a remembered call may spend.
pub const LOOKUP_BUDGET: u32 = 256;

/// The most recent remembered calls one lookup searches.
pub const RECALL_WINDOW: usize = 512;

/// Whether two argument lists are found equal within the lookup budget.
fn same_args(a: &Vec<Expr>, b: &Vec<Expr>) -> (r: bool)
    ensures
        r ==> a@ == b@,
{
    if a.len() != b.len() {
        return false;
    }
    let mut budget: u32 = LOOKUP_BUDGET;
    let mut i: usize = 0;
    while i < a.len()
        invariant
            i <= a@.len(),
            a@.len() == b@.len(),
            forall|j: int| 0 <= j < i ==> a@[j] == b@[j],
        decreases a.len() - i,
    {
        match equal_within(&a[i], &b[i], budget) {
            Some(k) => budget = k,
            None => return false,
        }
        i = i + 1;
    }
    assert(a@ =~= b@);
    true
}

/// The remembered formula of a call, if any.
fn recall<F: Fn(&Expr) -> Option<bool>>(
    memo: &Vec<ExpandedCall>,
    helper: Func,
    args: &Vec<Expr>,
    in_condition: bool,
    decide: Option<&F>,
) -> (r: Option<Expr>)
    requires
        memo_valid(memo@, decision(decide)),
    ensures
        r matches Some(x) ==> complete_formula(definition(helper), Some(args@), decision(decide), in_condition, x)
            && call_free(x),
{
    let mut i: usize = if memo.len() > RECALL_WINDOW { memo.len() - RECALL_WINDOW } else { 0 };
    while i < memo.len()
        invariant
            i <= memo@.len(),
            memo_valid(memo@, decision(decide)),
        decreases memo.len() - i,
    {
        let entry = &memo[i];
        if entry.helper == helper && entry.in_condition == in_condition && same_args(&entry.args, args) {
            assert(remembered(memo@[i as int], decision(decide)));
            return Some(entry.result.copied());
        }
        i = i + 1;
    }
    None
}

/// A call of `decide` gives its answer.
proof fn lemma_answer<F: Fn(&Expr) -> Option<bool>>(decide: F, c: &Expr, r: Option<bool>)
    requires
        decides(decide),
        decide.ensures((c,), r),
    ensures
        answer(decide, *c) == r,
{
    let chosen = answer(decide, *c);
    assert(decide.ensures((c,), chosen));
}

/// A copy of `v`.
fn copy_exprs(v: &Vec<Expr>) -> (r: Vec<Expr>)
    ensures
        r@ == v@,
{
    let mut out: Vec<Expr> = Vec::new();
    let mut i: usize = 0;
    while i < v.len()
        invariant
            i <= v@.len(),
            out@ == v@.take(i as int),
        decreases v.len() - i,
    {
        out.push(v[i].copied());
        assert(v@.take(i + 1) == v@.take(i as int).push(v@[i as int]));
        i = i + 1;
    }
    assert(v@.take(v@.len() as int) == v@);
    out
}

/// Whether `f` is among `active`.
fn is_active(active: &Vec<Func>, f: Func) -> (r: bool)
    ensures
        r == active@.contains(f),
{
    let mut i: usize = 0;
    while i < active.len()
        invariant
            i <= active@.len(),
            forall|j: int| 0 <= j < i ==> active@[j] != f,
        decreases active.len() - i,
    {
        if active[i] == f {
            return true;
        }
        i = i + 1;
    }
    false
}

/// `active` followed by `f`.
fn pushed(active: &Vec<Func>, f: Func) -> (r: Vec<Func>)
    ensures
        r@ == active@.push(f),
{
    let mut out: Vec<Func> = Vec::new();
    let mut i: usize = 0;
    while i < active.len()
        invariant
            i <= active@.len(),
            out@ == active@.take(i as int),
        decreases active.len() - i,
    {
        out.push(active[i]);
        assert(active@.take(i + 1) == active@.take(i as int).push(active@[i as int]));
        i = i + 1;
    }
    assert(active@.take(active@.len() as int) == active@);
    out.push(f);
    out
}

/// The state of one expansion: the visits made, the calls expanded, and
/// the nodes expanded in the frame being expanded, so that a subtree shared
/// in a definition is expanded once and its formula shared.
pub struct Expansion {
    pub work: u128,
    pub memo: Vec<ExpandedCall>,
    pub nodes: Vec<ExpandedNode>,
}

impl Expansion {
    /// The state before any expansion.
    pub fn new() -> (r: Expansion)
        ensures
            r.work == 0,
            r.memo@.len() == 0,
            r.nodes@.len() == 0,
    {
        Expansion { work: 0, memo: Vec::new(), nodes: Vec::new() }
    }
}

/// Whether `e` is a leaf, which is cheaper to expand again than to look up.
fn is_leaf(e: &Expr) -> (r: bool)
    ensures
        r == (e is Int || e is Pi || e is I || e is Indeterminate || e is Arg),
{
    match e {
        Expr::Int(_) | Expr::Pi | Expr::I | Expr::Indeterminate | Expr::Arg(_) => true,
        _ => false,
    }
}

/// The remembered formula of the node behind `a`, if it was expanded in this
/// frame with the same `in_condition`.
fn recall_node(nodes: &Vec<ExpandedNode>, a: &Rc<Expr>, in_condition: bool) -> (r: Option<Expr>)
    ensures
        r matches Some(x) ==> exists|i: int|
            0 <= i < nodes@.len() && *(#[trigger] nodes@[i]).source == **a && nodes@[i].in_condition == in_condition
                && nodes@[i].result == x,
{
    let mut i: usize = 0;
    while i < nodes.len()
        invariant
            i <= nodes@.len(),
        decreases nodes.len() - i,
    {
        if nodes[i].in_condition == in_condition && same_allocation(&nodes[i].source, a) {
            assert(*nodes@[i as int].source == **a);
            return Some(nodes[i].result.copied());
        }
        i = i + 1;
    }
    None
}

/// Expands the operand behind `a` in `frame`, reusing its formula where the
/// same node was already expanded in this frame.
fn expand_child<F: Fn(&Expr) -> Option<bool>>(
    a: &Rc<Expr>,
    frame: &Rc<Frame>,
    depth: u128,
    state: &mut Expansion,
    options: ExpressionOptions,
    decide: Option<&F>,
    in_condition: bool,
) -> (r: Result<Expr, ExpansionError>)
    requires
        decide matches Some(d) ==> decides(*d),
        old(state).work <= options.max_nodes,
        memo_valid(old(state).memo@, decision(decide)),
        nodes_valid(old(state).nodes@, (**frame).bound(), decision(decide)),
        forall|i: int| 0 <= i < frame.args@.len() ==> call_free(#[trigger] frame.args@[i]),
    ensures
        memo_valid(final(state).memo@, decision(decide)),
        nodes_valid(final(state).nodes@, (**frame).bound(), decision(decide)),
        r is Ok ==> final(state).work <= options.max_nodes,
        r matches Ok(x) ==> complete_formula(**a, (**frame).bound(), decision(decide), in_condition, x),
        r matches Ok(x) ==> call_free(x),
        affordable(visits(**a, (**frame).bound(), (**frame).active@, decision(decide), in_condition, levels(depth, options)), old(state).work, options) ==> r is Ok && paid(
            visits(**a, (**frame).bound(), (**frame).active@, decision(decide), in_condition, levels(depth, options)),
            old(state).work,
            final(state).work,
        ),
        r matches Err(ExpansionError::Budget(n)) ==> n > options.max_nodes,
        r matches Err(err) && !(err is Budget) ==> visits(
            **a,
            (**frame).bound(),
            (**frame).active@,
            decision(decide),
            in_condition,
            levels(depth, options),
        ) is Err,
    decreases options.max_depth + 1 - depth, **a, 1nat,
{
    let leaf = is_leaf(a);
    if !leaf {
        match recall_node(&state.nodes, a, in_condition) {
            Some(x) => {
                let ghost i = choose|i: int|
                    0 <= i < state.nodes@.len() && *(#[trigger] state.nodes@[i]).source == **a
                        && state.nodes@[i].in_condition == in_condition && state.nodes@[i].result == x;
                assert(node_remembered(state.nodes@[i], (**frame).bound(), decision(decide)));
                return Ok(x);
            },
            None => {},
        }
    }
    let x = match expand(a, frame, depth, state, options, decide, in_condition) {
        Err(err) => return Err(err),
        Ok(x) => x,
    };
    if !leaf {
        let entry = ExpandedNode { source: share(a), in_condition, result: x.copied() };
        let ghost before = state.nodes@;
        let ghost bound = (**frame).bound();
        assert(node_remembered(entry, bound, decision(decide)));
        state.nodes.push(entry);
        assert(nodes_valid(state.nodes@, bound, decision(decide))) by {
            assert forall|i: int| 0 <= i < state.nodes@.len() implies node_remembered(
                #[trigger] state.nodes@[i],
                bound,
                decision(decide),
            ) by {
                if i < before.len() {
                    assert(node_remembered(before[i], bound, decision(decide)));
                }
            }
        }
    }
    Ok(x)
}

/// Expands the arguments `args` of a call, in order, in `frame` at nesting
/// `depth`.
fn expand_arguments<F: Fn(&Expr) -> Option<bool>>(
    args: &Args,
    frame: &Rc<Frame>,
    depth: u128,
    state: &mut Expansion,
    options: ExpressionOptions,
    decide: Option<&F>,
    in_condition: bool,
) -> (r: Result<Vec<Expr>, ExpansionError>)
    requires
        decide matches Some(d) ==> decides(*d),
        old(state).work <= options.max_nodes,
        memo_valid(old(state).memo@, decision(decide)),
        nodes_valid(old(state).nodes@, (**frame).bound(), decision(decide)),
        forall|i: int| 0 <= i < frame.args@.len() ==> call_free(#[trigger] frame.args@[i]),
    ensures
        memo_valid(final(state).memo@, decision(decide)),
        nodes_valid(final(state).nodes@, (**frame).bound(), decision(decide)),
        r is Ok ==> final(state).work <= options.max_nodes,
        r matches Ok(v) ==> exists|fuel: nat|
            inlined_args(*args, (**frame).bound(), decision(decide), in_condition, fuel) == Some(v@),
        r matches Ok(v) ==> forall|i: int| 0 <= i < v@.len() ==> call_free(#[trigger] v@[i]),
        affordable(visits_args(*args, (**frame).bound(), (**frame).active@, decision(decide), in_condition, levels(depth, options)), old(state).work, options) ==> r is Ok && paid(
            visits_args(*args, (**frame).bound(), (**frame).active@, decision(decide), in_condition, levels(depth, options)),
            old(state).work,
            final(state).work,
        ),
        r matches Err(ExpansionError::Budget(n)) ==> n > options.max_nodes,
        r matches Err(err) && !(err is Budget) ==> visits_args(
            *args,
            (**frame).bound(),
            (**frame).active@,
            decision(decide),
            in_condition,
            levels(depth, options),
        ) is Err,
    decreases options.max_depth + 1 - depth, args, 0nat,
{
    match args {
        Args::Empty => {
            let out: Vec<Expr> = Vec::new();
            assert(inlined_args(*args, (**frame).bound(), decision(decide), in_condition, 0) == Some(out@));
            Ok(out)
        },
        Args::Cons(head, tail) => {
            let x = match expand_child(head, frame, depth, state, options, decide, in_condition) {
                Err(err) => return Err(err),
                Ok(x) => x,
            };
            let rest = match expand_arguments(tail, frame, depth, state, options, decide, in_condition) {
                Err(err) => return Err(err),
                Ok(rest) => rest,
            };
            let ghost bound = frame.bound();
            let ghost fx = choose|fuel: nat| inlined(**head, bound, decision(decide), in_condition, fuel) == Some(x);
            let ghost fr = choose|fuel: nat|
                inlined_args(**tail, bound, decision(decide), in_condition, fuel) == Some(rest@);
            let ghost f = if fx <= fr { fr } else { fx };
            proof {
                lemma_inlined_monotone(&**head, bound, decision(decide), in_condition, fx, f);
                lemma_inlined_args_monotone(&**tail, bound, decision(decide), in_condition, fr, f);
            }
            let mut out: Vec<Expr> = Vec::new();
            out.push(x);
            let mut i: usize = 0;
            while i < rest.len()
                invariant
                    i <= rest@.len(),
                    out@ == seq![x] + rest@.take(i as int),
                decreases rest.len() - i,
            {
                out.push(rest[i].copied());
                assert(rest@.take(i + 1) == rest@.take(i as int).push(rest@[i as int]));
                i = i + 1;
            }
            assert(rest@.take(rest@.len() as int) == rest@);
            assert(inlined_args(*args, bound, decision(decide), in_condition, f) == Some(out@));
            Ok(out)
        },
    }
}

/// Expands `e` in `frame` at nesting `depth`: its complete formula, or the
/// depth, budget, cycle or argument failure met first. A subtree shared in
/// a definition is expanded once per frame, and a call equal to one of the
/// recently expanded calls takes its formula; the formulas are shared, not
/// copied. It succeeds wherever expanding without reuse ([`visits`])
/// succeeds within the nodes left in the budget; a budget failure reports
/// more visits than the budget allows, and any other failure is one that
/// expanding without reuse meets too.
#[verifier::rlimit(100)]
pub fn expand<F: Fn(&Expr) -> Option<bool>>(
    e: &Expr,
    frame: &Rc<Frame>,
    depth: u128,
    state: &mut Expansion,
    options: ExpressionOptions,
    decide: Option<&F>,
    in_condition: bool,
) -> (r: Result<Expr, ExpansionError>)
    requires
        decide matches Some(d) ==> decides(*d),
        old(state).work <= options.max_nodes,
        memo_valid(old(state).memo@, decision(decide)),
        nodes_valid(old(state).nodes@, (**frame).bound(), decision(decide)),
        forall|i: int| 0 <= i < frame.args@.len() ==> call_free(#[trigger] frame.args@[i]),
    ensures
        memo_valid(final(state).memo@, decision(decide)),
        nodes_valid(final(state).nodes@, (**frame).bound(), decision(decide)),
        r is Ok ==> final(state).work <= options.max_nodes,
        r matches Ok(x) ==> complete_formula(*e, (**frame).bound(), decision(decide), in_condition, x),
        r matches Ok(x) ==> call_free(x),
        affordable(visits(*e, (**frame).bound(), (**frame).active@, decision(decide), in_condition, levels(depth, options)), old(state).work, options) ==> r is Ok && paid(
            visits(*e, (**frame).bound(), (**frame).active@, decision(decide), in_condition, levels(depth, options)),
            old(state).work,
            final(state).work,
        ),
        r matches Err(ExpansionError::Budget(n)) ==> n > options.max_nodes,
        r matches Err(err) && !(err is Budget) ==> visits(
            *e,
            (**frame).bound(),
            (**frame).active@,
            decision(decide),
            in_condition,
            levels(depth, options),
        ) is Err,
    decreases options.max_depth + 1 - depth, e, 0nat,
{
    let ghost bound = frame.bound();
    let ghost d = decision(decide);
    let ghost act = (**frame).active@;
    let ghost lv = levels(depth, options);
    if depth > options.max_depth as u128 {
        return Err(ExpansionError::Depth);
    }
    if state.work >= options.max_nodes as u128 {
        proof {
            lemma_visits_positive(*e, bound, act, d, in_condition, lv);
        }
        state.work = state.work + 1;
        return Err(ExpansionError::Budget(state.work));
    }
    state.work = state.work + 1;
    let next = depth + 1;
    let ghost f = (lv - 1) as nat;
    assert(levels(next, options) == f);
    match e {
        Expr::Arg(k) => match &frame.parent {
            None => {
                assert(inlined(*e, bound, d, in_condition, 1) == Some(*e));
                Ok(e.copied())
            },
            Some(_) => if (*k as usize) < frame.args.len() {
                assert(inlined(*e, bound, d, in_condition, 1) == Some(frame.args@[*k as int]));
                Ok(frame.args[*k as usize].copied())
            } else {
                Err(ExpansionError::Unresolved(*k))
            },
        },
        Expr::Add(a, b) | Expr::Sub(a, b) | Expr::Mul(a, b) | Expr::Div(a, b) => {
            let x = match expand_child(a, frame, next, state, options, decide, in_condition) {
                Err(err) => return Err(err),
                Ok(x) => x,
            };
            let y = match expand_child(b, frame, next, state, options, decide, in_condition) {
                Err(err) => return Err(err),
                Ok(y) => y,
            };
            let ghost fx = choose|fuel: nat| inlined(**a, bound, d, in_condition, fuel) == Some(x);
            let ghost fy = choose|fuel: nat| inlined(**b, bound, d, in_condition, fuel) == Some(y);
            let ghost f = if fx <= fy { fy } else { fx };
            proof {
                lemma_inlined_monotone(&**a, bound, d, in_condition, fx, f);
                lemma_inlined_monotone(&**b, bound, d, in_condition, fy, f);
            }
            let result = match e {
                Expr::Add(_, _) => x.plus(&y),
                Expr::Sub(_, _) => x.minus(&y),
                Expr::Mul(_, _) => x.times(&y),
                _ => x.over(&y),
            };
            assert(inlined(*e, bound, d, in_condition, f + 1) == Some(result));
            Ok(result)
        },
        Expr::Neg(a) | Expr::Log(a) | Expr::Sqrt(a) | Expr::Conj(a) | Expr::Abs(a) | Expr::Dilog(a) => {
            let x = match expand_child(a, frame, next, state, options, decide, in_condition) {
                Err(err) => return Err(err),
                Ok(x) => x,
            };
            let ghost fx = choose|fuel: nat| inlined(**a, bound, d, in_condition, fuel) == Some(x);
            let result = match e {
                Expr::Neg(_) => x.negated(),
                Expr::Log(_) => x.ln(),
                Expr::Sqrt(_) => x.root(),
                Expr::Conj(_) => x.conjugate(),
                Expr::Abs(_) => x.modulus(),
                _ => x.li2(),
            };
            assert(inlined(*e, bound, d, in_condition, fx + 1) == Some(result));
            Ok(result)
        },
        Expr::If(c, a, b) => {
            let inner = in_condition || decide.is_some();
            let condition = match expand_child(c, frame, next, state, options, decide, inner) {
                Err(err) => return Err(err),
                Ok(condition) => condition,
            };
            let ghost fc = choose|fuel: nat| inlined(**c, bound, d, inner, fuel) == Some(condition);
            proof {
                lemma_formula_of_visits(&**c, bound, act, d, inner, f, condition);
            }
            let decided: Option<bool> = match decide {
                Some(dd) if !in_condition => {
                    let t = dd(&condition);
                    proof {
                        lemma_answer(*dd, &condition, t);
                    }
                    t
                },
                _ => match &condition {
                    Expr::Int(k) => Some(*k != 0),
                    _ => None,
                },
            };
            assert(decided == truth(condition, d, in_condition));
            match decided {
                Some(true) => {
                    let x = match expand_child(a, frame, next, state, options, decide, in_condition) {
                        Err(err) => return Err(err),
                        Ok(x) => x,
                    };
                    let ghost fx = choose|fuel: nat| inlined(**a, bound, d, in_condition, fuel) == Some(x);
                    let ghost f = if fx <= fc { fc } else { fx };
                    proof {
                        lemma_inlined_monotone(&**c, bound, d, inner, fc, f);
                        lemma_inlined_monotone(&**a, bound, d, in_condition, fx, f);
                    }
                    assert(inlined(*e, bound, d, in_condition, f + 1) == Some(x));
                    Ok(x)
                },
                Some(false) => {
                    let y = match expand_child(b, frame, next, state, options, decide, in_condition) {
                        Err(err) => return Err(err),
                        Ok(y) => y,
                    };
                    let ghost fy = choose|fuel: nat| inlined(**b, bound, d, in_condition, fuel) == Some(y);
                    let ghost f = if fy <= fc { fc } else { fy };
                    proof {
                        lemma_inlined_monotone(&**c, bound, d, inner, fc, f);
                        lemma_inlined_monotone(&**b, bound, d, in_condition, fy, f);
                    }
                    assert(inlined(*e, bound, d, in_condition, f + 1) == Some(y));
                    Ok(y)
                },
                None => {
                    let x = match expand_child(a, frame, next, state, options, decide, in_condition) {
                        Err(err) => return Err(err),
                        Ok(x) => x,
                    };
                    let y = match expand_child(b, frame, next, state, options, decide, in_condition) {
                        Err(err) => return Err(err),
                        Ok(y) => y,
                    };
                    let ghost fx = choose|fuel: nat| inlined(**a, bound, d, in_condition, fuel) == Some(x);
                    let ghost fy = choose|fuel: nat| inlined(**b, bound, d, in_condition, fuel) == Some(y);
                    let ghost f0 = if fx <= fy { fy } else { fx };
                    let ghost f = if f0 <= fc { fc } else { f0 };
                    proof {
                        lemma_inlined_monotone(&**c, bound, d, inner, fc, f);
                        lemma_inlined_monotone(&**a, bound, d, in_condition, fx, f);
                        lemma_inlined_monotone(&**b, bound, d, in_condition, fy, f);
                    }
                    let result = Expr::If(Rc::new(condition), Rc::new(x), Rc::new(y));
                    assert(inlined(*e, bound, d, in_condition, f + 1) == Some(result));
                    Ok(result)
                },
            }
        },
        Expr::Call(h, list) => {
            if is_active(&frame.active, *h) {
                return Err(ExpansionError::Cycle(*h));
            }
            let actual = match expand_arguments(list, frame, next, state, options, decide, in_condition) {
                Err(err) => return Err(err),
                Ok(actual) => actual,
            };
            proof {
                lemma_args_of_visits(&**list, bound, act, d, in_condition, f, actual@);
            }
            if actual.len() != h.arity() {
                return Err(ExpansionError::Arity(*h, actual.len()));
            }
            let ghost fa = choose|fuel: nat| inlined_args(**list, bound, d, in_condition, fuel) == Some(actual@);

            let body_result = match recall(&state.memo, *h, &actual, in_condition, decide) {
                Some(x) => x,
                None => {
                    let active = pushed(&frame.active, *h);
                    let child = Rc::new(Frame { args: copy_exprs(&actual), parent: Some(share(frame)), active });
                    assert((*child).bound() == Some(actual@));
                    assert((*child).active@ == act.push(*h));
                    let body = definition(*h);
                    let mut outer: Vec<ExpandedNode> = Vec::new();
                    std::mem::swap(&mut state.nodes, &mut outer);
                    let expanded = expand(&body, &child, next, state, options, decide, in_condition);
                    std::mem::swap(&mut state.nodes, &mut outer);
                    let x = match expanded {
                        Err(err) => return Err(err),
                        Ok(x) => x,
                    };
                    let entry = ExpandedCall {
                        helper: *h,
                        args: copy_exprs(&actual),
                        in_condition,
                        result: x.copied(),
                    };
                    assert(remembered(entry, d));
                    let ghost before = state.memo@;
                    state.memo.push(entry);
                    assert(state.memo@ == before.push(entry));
                    assert(memo_valid(state.memo@, d)) by {
                        assert forall|i: int| 0 <= i < state.memo@.len() implies remembered(
                            #[trigger] state.memo@[i],
                            d,
                        ) by {
                            if i < before.len() {
                                assert(remembered(before[i], d));
                            }
                        }
                    }
                    x
                },
            };
            let ghost fb = choose|fuel: nat|
                inlined(definition(*h), Some(actual@), d, in_condition, fuel) == Some(body_result);
            let ghost f = if fa <= fb { fb } else { fa };
            proof {
                lemma_inlined_args_monotone(&**list, bound, d, in_condition, fa, f);
                lemma_inlined_monotone(&definition(*h), Some(actual@), d, in_condition, fb, f);
            }
            assert(inlined(*e, bound, d, in_condition, f + 1) == Some(body_result));
            Ok(body_result)
        },
        _ => {
            assert(inlined(*e, bound, d, in_condition, 1) == Some(*e));
            Ok(e.copied())
        },
    }
}

} // verus!
