//! Limits and argument checks of the inspection expansion, which inlines
//! every helper definition of a master into one explicit formula.
use vstd::prelude::*;
use crate::family::ScalarIntegral;
use crate::text::{decimal, decimal_text, chars_of, spells};
use vstd::string::StringExecFns;
use crate::expr::{Args, Expr, args_of};
use crate::functions::Func;
use crate::series::{LaurentSeries, Order};
use crate::masters::args_from_slice;
use crate::initialization::prefixed;
use crate::expansion::{
    ExpansionError, Expansion, Frame, affordable, call_free, complete_formula, decides, decision, expand, levels, visits,
};
use crate::inspection_formulas::{opposite_invariants_triangle, one_mass_one_scale_triangle, special_triangle};
use std::rc::Rc;

verus! {

/// Resource limits for expanding the helper definitions of a master.
///
/// Generic boxes can be much larger than their compact form with helper
/// calls. Limits fail explicitly; they never return a truncated formula.
#[derive(Clone, Copy, Debug)]
pub struct ExpressionOptions {
    /// Maximum expansion work: one unit per node visited; reusing the
    /// formula of a shared subtree or of a remembered call costs none.
    pub max_nodes: usize,
    /// Maximum recursive expression or definition depth.
    pub max_depth: usize,
}

/// The default limits: ten million nodes and a depth of 512.
pub open spec fn default_options() -> ExpressionOptions {
    ExpressionOptions { max_nodes: 10_000_000, max_depth: 512 }
}

impl Default for ExpressionOptions {
    /// Ten million nodes and a depth of 512.
    fn default() -> (r: Self)
        ensures
            r == default_options(),
    {
        ExpressionOptions { max_nodes: 10_000_000, max_depth: 512 }
    }
}

/// Text of an argument count that differs from the family's arity.
pub open spec fn spec_expansion_arity_text(name: Seq<char>, arity: usize, received: usize) -> Seq<char> {
    name + " expects "@ + decimal(arity as nat) + " arguments including mu_squared last; received "@
        + decimal(received as nat)
}

/// Text of an argument count that differs from the family's arity.
fn expansion_arity_text(name: &str, arity: usize, received: usize) -> (r: String)
    ensures
        r@ == spec_expansion_arity_text(name@, arity, received),
{
    let mut text = name.to_owned();
    text.append(" expects ");
    text.append(decimal_text(arity as u128).as_str());
    text.append(" arguments including mu_squared last; received ");
    text.append(decimal_text(received as u128).as_str());
    text
}

/// Refusal of limits that allow no expansion at all.
pub open spec fn spec_zero_limit_refusal() -> Seq<char> {
    "expression max_nodes and max_depth must be positive"@
}

/// Checks an expansion request: `argument_count` arguments of `family`,
/// squared scale last, under `options`. The argument count is checked
/// first, then that both limits are positive.
pub fn check_expansion(family: ScalarIntegral, argument_count: usize, options: ExpressionOptions) -> (r: Result<
    (),
    String,
>)
    ensures
        argument_count != family.spec_arity() ==> (r matches Err(m) && m@ == spec_expansion_arity_text(
            family.spec_name(),
            family.spec_arity() as usize,
            argument_count,
        )),
        argument_count == family.spec_arity() ==> (r is Ok <==> (options.max_nodes > 0
            && options.max_depth > 0)),
        argument_count == family.spec_arity() ==> (r matches Err(m) ==> m@ == spec_zero_limit_refusal()),
{
    if argument_count != family.arity() {
        return Err(expansion_arity_text(family.name(), family.arity(), argument_count));
    }
    if options.max_nodes == 0 || options.max_depth == 0 {
        return Err("expression max_nodes and max_depth must be positive".to_owned());
    }
    Ok(())
}


/// The name of a helper's kind, as failure messages name it.
pub open spec fn spec_helper_kind(f: Func) -> Seq<char> {
    match f {
        Func::SqrtLower => "sqrt_lower"@,
        Func::RealPart => "real_part"@,
        Func::ImaginaryPart => "imaginary_part"@,
        Func::SignNonnegative => "sign_nonnegative"@,
        Func::SheetProduct(_) => "sheet_product"@,
        Func::SheetQuotient(_) => "sheet_quotient"@,
        Func::SheetLog => "sheet_log"@,
        Func::SheetDilog => "sheet_dilog"@,
        Func::HvS3 => "hv_s3"@,
        Func::TriangleHv => "triangle_hv"@,
        Func::TriangleSector(_, _) => "triangle_sector"@,
        Func::BoxSector(_, _) => "box_sector"@,
        Func::Contour(_) => "contour"@,
        Func::Master(_, _) => "master"@,
    }
}

/// The name of a helper's kind.
pub fn helper_kind(f: Func) -> (r: &'static str)
    ensures
        r@ == spec_helper_kind(f),
{
    match f {
        Func::SqrtLower => "sqrt_lower",
        Func::RealPart => "real_part",
        Func::ImaginaryPart => "imaginary_part",
        Func::SignNonnegative => "sign_nonnegative",
        Func::SheetProduct(_) => "sheet_product",
        Func::SheetQuotient(_) => "sheet_quotient",
        Func::SheetLog => "sheet_log",
        Func::SheetDilog => "sheet_dilog",
        Func::HvS3 => "hv_s3",
        Func::TriangleHv => "triangle_hv",
        Func::TriangleSector(_, _) => "triangle_sector",
        Func::BoxSector(_, _) => "box_sector",
        Func::Contour(_) => "contour",
        Func::Master(_, _) => "master",
    }
}

/// The text of an expansion failure under `options`.
pub open spec fn spec_expansion_message(err: ExpansionError, options: ExpressionOptions) -> Seq<char> {
    match err {
        ExpansionError::Depth => "complete expression expansion exceeded max_depth="@ + decimal(
            options.max_depth as nat,
        ),
        ExpansionError::Budget(visits) => "complete expression expansion exceeded max_nodes="@ + decimal(
            options.max_nodes as nat,
        ) + " ("@ + decimal(visits as nat)
            + " expansion visits); raise the explicit budget or select a branch during construction"@,
        ExpansionError::Cycle(f) => "cyclic native definition encountered at "@ + spec_helper_kind(f),
        ExpansionError::Arity(f, received) => "native definition "@ + spec_helper_kind(f) + " expects "@
            + decimal(f.spec_arity()) + " untagged arguments; received "@ + decimal(received as nat),
        ExpansionError::Unresolved(k) => "incomplete native definition left unresolved argument "@ + decimal(
            k as nat,
        ),
    }
}

/// Text of the depth failure.
fn depth_text(max_depth: usize) -> (r: String)
    ensures
        r@ == "complete expression expansion exceeded max_depth="@ + decimal(max_depth as nat),
{
    let mut text = "complete expression expansion exceeded max_depth=".to_owned();
    text.append(decimal_text(max_depth as u128).as_str());
    text
}

/// Text of the budget failure.
fn budget_text(max_nodes: usize, visits: u128) -> (r: String)
    ensures
        r@ == "complete expression expansion exceeded max_nodes="@ + decimal(max_nodes as nat) + " ("@
            + decimal(visits as nat)
            + " expansion visits); raise the explicit budget or select a branch during construction"@,
{
    let mut text = "complete expression expansion exceeded max_nodes=".to_owned();
    text.append(decimal_text(max_nodes as u128).as_str());
    text.append(" (");
    text.append(decimal_text(visits).as_str());
    text.append(" expansion visits); raise the explicit budget or select a branch during construction");
    text
}

/// Text of the failure of a call with the wrong number of arguments.
fn definition_arity_text(name: &str, arity: usize, received: usize) -> (r: String)
    ensures
        r@ == "native definition "@ + name@ + " expects "@ + decimal(arity as nat)
            + " untagged arguments; received "@ + decimal(received as nat),
{
    let mut text = "native definition ".to_owned();
    text.append(name);
    text.append(" expects ");
    text.append(decimal_text(arity as u128).as_str());
    text.append(" untagged arguments; received ");
    text.append(decimal_text(received as u128).as_str());
    text
}

/// Text of the failure of a formal argument without an actual one.
fn unresolved_text(k: u32) -> (r: String)
    ensures
        r@ == "incomplete native definition left unresolved argument "@ + decimal(k as nat),
{
    let mut text = "incomplete native definition left unresolved argument ".to_owned();
    text.append(decimal_text(k as u128).as_str());
    text
}

/// The text of an expansion failure under `options`.
pub fn expansion_message(err: ExpansionError, options: ExpressionOptions) -> (r: String)
    ensures
        r@ == spec_expansion_message(err, options),
{
    match err {
        ExpansionError::Depth => depth_text(options.max_depth),
        ExpansionError::Budget(visits) => budget_text(options.max_nodes, visits),
        ExpansionError::Cycle(f) => prefixed("cyclic native definition encountered at ", helper_kind(f)),
        ExpansionError::Arity(f, received) => definition_arity_text(helper_kind(f), f.arity(), received),
        ExpansionError::Unresolved(k) => unresolved_text(k),
    }
}

/// The call of the master `family` at `order` with `arguments`.
pub open spec fn master_coefficient(family: ScalarIntegral, order: Order, arguments: Seq<Expr>) -> Expr {
    Expr::Call(Func::Master(family, order), Rc::new(args_of(arguments)))
}

/// The expression whose complete formula inspection gives for the
/// coefficient of `order`: for a triangle in one of the two special sectors,
/// that coefficient of its integrated series; else the call of the master.
pub open spec fn inspection_coefficient(family: ScalarIntegral, order: Order, arguments: Seq<Expr>) -> Expr {
    if family == ScalarIntegral::C0 && arguments.len() == 7 {
        match special_triangle(arguments) {
            Some(s) => s.coefficient(order),
            None => master_coefficient(family, order, arguments),
        }
    } else {
        master_coefficient(family, order, arguments)
    }
}

/// The expression whose complete formula is the coefficient of `order`.
fn coefficient_body(family: ScalarIntegral, order: Order, special: &Option<LaurentSeries>, call_args: &Args) -> (r: Expr)
    ensures
        r == (match *special {
            Some(s) => s.coefficient(order),
            None => Expr::Call(Func::Master(family, order), Rc::new(*call_args)),
        }),
{
    match special {
        Some(s) => s.coefficient(order),
        None => Expr::call(Func::Master(family, order), call_args.clone()),
    }
}

/// What expanding the coefficient of `order` costs, from the top with no
/// helper being expanded: the nodes visited or the first failure, as
/// [`visits`] counts them.
pub open spec fn coefficient_cost(
    family: ScalarIntegral,
    order: Order,
    arguments: Seq<Expr>,
    options: ExpressionOptions,
    decide: Option<spec_fn(Expr) -> Option<bool>>,
) -> Result<nat, ExpansionError> {
    visits(inspection_coefficient(family, order, arguments), None, Seq::empty(), decide, false, levels(0, options))
}

/// What expanding the three coefficients costs together: the sum of the
/// nodes visited, or the failure of the first coefficient that fails.
pub open spec fn family_cost(
    family: ScalarIntegral,
    arguments: Seq<Expr>,
    options: ExpressionOptions,
    decide: Option<spec_fn(Expr) -> Option<bool>>,
) -> Result<nat, ExpansionError> {
    match coefficient_cost(family, Order::Finite, arguments, options, decide) {
        Err(e) => Err(e),
        Ok(a) => match coefficient_cost(family, Order::SimplePole, arguments, options, decide) {
            Err(e) => Err(e),
            Ok(b) => match coefficient_cost(family, Order::DoublePole, arguments, options, decide) {
                Err(e) => Err(e),
                Ok(c) => Ok(a + b + c),
            },
        },
    }
}

/// The expansion failure `e` has its cause: a budget failure counts more
/// visits than the budget allows, and any other failure is met by the
/// expansion of some coefficient without reuse.
pub open spec fn justified(
    e: ExpansionError,
    family: ScalarIntegral,
    arguments: Seq<Expr>,
    options: ExpressionOptions,
    decide: Option<spec_fn(Expr) -> Option<bool>>,
) -> bool {
    match e {
        ExpansionError::Budget(n) => n > options.max_nodes,
        _ => family_cost(family, arguments, options, decide) is Err,
    }
}

/// What an expansion of the master `family` at `arguments` with the limits
/// `options` and the decision `decide` gives back: the argument and limit
/// failures of [`check_expansion`] unchanged; after them, either a failure
/// with the text of an expansion error, or the complete formula of each
/// coefficient, with no helper call left.
pub open spec fn expansion_outcome(
    family: ScalarIntegral,
    arguments: Seq<Expr>,
    options: ExpressionOptions,
    decide: Option<spec_fn(Expr) -> Option<bool>>,
    r: Result<LaurentSeries, String>,
) -> bool {
    &&& arguments.len() != family.spec_arity() ==> (r matches Err(m) && m@ == spec_expansion_arity_text(
        family.spec_name(),
        family.spec_arity() as usize,
        arguments.len() as usize,
    ))
    &&& arguments.len() == family.spec_arity() && (options.max_nodes == 0 || options.max_depth == 0) ==> (r matches Err(
        m,
    ) && m@ == spec_zero_limit_refusal())
    &&& arguments.len() == family.spec_arity() && options.max_nodes > 0 && options.max_depth > 0 ==> (r matches Err(
        m,
    ) ==> exists|e: ExpansionError|
        m@ == #[trigger] spec_expansion_message(e, options) && justified(e, family, arguments, options, decide))
    &&& arguments.len() == family.spec_arity() && options.max_nodes > 0 && options.max_depth > 0 && affordable(
        family_cost(family, arguments, options, decide),
        0,
        options,
    ) ==> r is Ok
    &&& r matches Ok(s) ==> {
        &&& complete_formula(inspection_coefficient(family, Order::Finite, arguments), None, decide, false, s.finite)
        &&& complete_formula(
            inspection_coefficient(family, Order::SimplePole, arguments),
            None,
            decide,
            false,
            s.simple_pole,
        )
        &&& complete_formula(
            inspection_coefficient(family, Order::DoublePole, arguments),
            None,
            decide,
            false,
            s.double_pole,
        )
        &&& call_free(s.finite) && call_free(s.simple_pole) && call_free(s.double_pole)
    }
}

/// The complete formulas of the coefficients of the master `family` at the
/// expressions `arguments`, squared scale last: every helper call replaced
/// by its definition, recursively. A triangle of the form
/// `C0(0, -a, a, a, a, b)`, or with one mass and one real scale, starts from
/// its integrated series instead of the generic definition. Where `decide` is given, it decides the
/// conditions at a sample point and only the selected branches are
/// expanded; conditions it cannot decide stay as conditionals. Without it,
/// only conditions that expand to an integer literal are decided.
///
/// The argument count and the limits are checked first. The three
/// coefficients share one node budget, and the expansion succeeds wherever
/// expanding them without reuse succeeds within it ([`family_cost`]). A
/// budget, depth, cycle or argument failure is returned with its text, a
/// budget failure only past the budget and any other only where expanding
/// without reuse fails too; no truncated formula is ever returned.
pub fn expand_family<F: Fn(&Expr) -> Option<bool>>(
    family: ScalarIntegral,
    arguments: &[Expr],
    options: ExpressionOptions,
    decide: Option<&F>,
) -> (r: Result<LaurentSeries, String>)
    requires
        decide matches Some(d) ==> decides(*d),
    ensures
        expansion_outcome(family, arguments@, options, decision(decide), r),
{
    match check_expansion(family, arguments.len(), options) {
        Err(m) => return Err(m),
        Ok(()) => {},
    }
    let root = Rc::new(Frame { args: Vec::new(), parent: None, active: Vec::new() });
    assert((*root).bound() is None);
    assert((*root).active@ =~= Seq::<Func>::empty());
    let call_args = args_from_slice(arguments);
    let special = if family == ScalarIntegral::C0 {
        match opposite_invariants_triangle(arguments) {
            Some(s) => Some(s),
            None => one_mass_one_scale_triangle(arguments),
        }
    } else {
        None
    };
    let mut state = Expansion::new();
    let finite = match expand(
        &coefficient_body(family, Order::Finite, &special, &call_args),
        &root,
        0,
        &mut state,
        options,
        decide,
        false,
    ) {
        Err(e) => {
            assert(justified(e, family, arguments@, options, decision(decide)));
            return Err(expansion_message(e, options));
        },
        Ok(x) => x,
    };
    let simple = match expand(
        &coefficient_body(family, Order::SimplePole, &special, &call_args),
        &root,
        0,
        &mut state,
        options,
        decide,
        false,
    ) {
        Err(e) => {
            assert(justified(e, family, arguments@, options, decision(decide)));
            return Err(expansion_message(e, options));
        },
        Ok(x) => x,
    };
    let double = match expand(
        &coefficient_body(family, Order::DoublePole, &special, &call_args),
        &root,
        0,
        &mut state,
        options,
        decide,
        false,
    ) {
        Err(e) => {
            assert(justified(e, family, arguments@, options, decision(decide)));
            return Err(expansion_message(e, options));
        },
        Ok(x) => x,
    };
    Ok(LaurentSeries::new(finite, simple, double))
}

/// The family a master symbol names: `oneloopmaster::X` or the shorthand
/// `oneloop::X`, with `X` one of `A0`, `B0`, `dB0`, `C0`, `D0`.
pub open spec fn spec_master_symbol(name: Seq<char>) -> Option<ScalarIntegral> {
    if name == "oneloopmaster::A0"@ || name == "oneloop::A0"@ {
        Some(ScalarIntegral::A0)
    } else if name == "oneloopmaster::B0"@ || name == "oneloop::B0"@ {
        Some(ScalarIntegral::B0)
    } else if name == "oneloopmaster::dB0"@ || name == "oneloop::dB0"@ {
        Some(ScalarIntegral::DB0)
    } else if name == "oneloopmaster::C0"@ || name == "oneloop::C0"@ {
        Some(ScalarIntegral::C0)
    } else if name == "oneloopmaster::D0"@ || name == "oneloop::D0"@ {
        Some(ScalarIntegral::D0)
    } else {
        None
    }
}

/// Text of an inspection call whose argument count differs from the arity.
pub open spec fn spec_inspection_arity_text(name: Seq<char>, arity: nat, received: nat) -> Seq<char> {
    name + " inspection expects "@ + decimal(arity)
        + " arguments including mu_squared last and no Laurent tag; received "@ + decimal(received)
}

/// Text of an inspection call with the wrong argument count.
fn inspection_arity_text(name: &str, arity: usize, received: usize) -> (r: String)
    ensures
        r@ == spec_inspection_arity_text(name@, arity as nat, received as nat),
{
    let mut text = name.to_owned();
    text.append(" inspection expects ");
    text.append(decimal_text(arity as u128).as_str());
    text.append(" arguments including mu_squared last and no Laurent tag; received ");
    text.append(decimal_text(received as u128).as_str());
    text
}

/// The family of an inspection call of the master symbol `name` with
/// `count` arguments, squared scale last and no Laurent tag.
pub fn master_arguments(name: &str, count: usize) -> (r: Result<ScalarIntegral, String>)
    ensures
        spec_master_symbol(name@) is None ==> (r matches Err(m) && m@ == name@
            + " is not a supported scalar master symbol"@),
        spec_master_symbol(name@) matches Some(f) ==> (if count == f.spec_arity() {
            r == Ok::<ScalarIntegral, String>(f)
        } else {
            r matches Err(m) && m@ == spec_inspection_arity_text(f.spec_name(), f.spec_arity(), count as nat)
        }),
{
    let key = chars_of(name);
    let family = if spells(&key, "oneloopmaster::A0") || spells(&key, "oneloop::A0") {
        ScalarIntegral::A0
    } else if spells(&key, "oneloopmaster::B0") || spells(&key, "oneloop::B0") {
        ScalarIntegral::B0
    } else if spells(&key, "oneloopmaster::dB0") || spells(&key, "oneloop::dB0") {
        ScalarIntegral::DB0
    } else if spells(&key, "oneloopmaster::C0") || spells(&key, "oneloop::C0") {
        ScalarIntegral::C0
    } else if spells(&key, "oneloopmaster::D0") || spells(&key, "oneloop::D0") {
        ScalarIntegral::D0
    } else {
        return Err(prefixed(name, " is not a supported scalar master symbol"));
    };
    if count != family.arity() {
        return Err(inspection_arity_text(family.name(), family.arity(), count));
    }
    Ok(family)
}

/// No reference, of the type of a reference to `witness`: an absent
/// decision procedure has the type of some procedure.
fn absent<'a, F>(witness: &'a F) -> (r: Option<&'a F>)
    ensures
        r is None,
{
    None
}

/// The complete formulas of the coefficients of the master `family` at
/// `arguments`, squared scale last, with the default limits and no branch
/// decided but by an integer literal.
pub fn get_expression_for_family(family: ScalarIntegral, arguments: &[Expr]) -> (r: Result<LaurentSeries, String>)
    ensures
        expansion_outcome(family, arguments@, default_options(), None, r),
{
    get_expression_for_family_with_options(family, arguments, ExpressionOptions::default())
}

/// [`get_expression_for_family`] with the limits `options`.
pub fn get_expression_for_family_with_options(
    family: ScalarIntegral,
    arguments: &[Expr],
    options: ExpressionOptions,
) -> (r: Result<LaurentSeries, String>)
    ensures
        expansion_outcome(family, arguments@, options, None, r),
{
    let undecided = |c: &Expr| -> Option<bool> { None };
    expand_family(family, arguments, options, absent(&undecided))
}

impl ScalarIntegral {
    /// The complete formulas of the coefficients of this master at
    /// `arguments`, squared scale last, with the default limits.
    pub fn get_expression(self, arguments: &[Expr]) -> (r: Result<LaurentSeries, String>)
        ensures
            expansion_outcome(self, arguments@, default_options(), None, r),
    {
        get_expression_for_family(self, arguments)
    }
}

/// What an inspection call of the master symbol `name` with `arguments`
/// gives back: the symbol and argument-count failures of
/// [`master_arguments`], else the expansion of the family it names.
pub open spec fn call_outcome(
    name: Seq<char>,
    arguments: Seq<Expr>,
    options: ExpressionOptions,
    decide: Option<spec_fn(Expr) -> Option<bool>>,
    r: Result<LaurentSeries, String>,
) -> bool {
    match spec_master_symbol(name) {
        None => r matches Err(m) && m@ == name + " is not a supported scalar master symbol"@,
        Some(f) => if arguments.len() == f.spec_arity() {
            expansion_outcome(f, arguments, options, decide, r)
        } else {
            r matches Err(m) && m@ == spec_inspection_arity_text(f.spec_name(), f.spec_arity(), arguments.len())
        },
    }
}

/// The complete formulas of the coefficients of the master call
/// `name(arguments)`, such as `oneloopmaster::B0(s, m0, m1, mu_squared)`,
/// with the squared scale last and no Laurent tag, with the default limits.
pub fn get_expression(name: &str, arguments: &[Expr]) -> (r: Result<LaurentSeries, String>)
    ensures
        call_outcome(name@, arguments@, default_options(), None, r),
{
    get_expression_with_options(name, arguments, ExpressionOptions::default())
}

/// [`get_expression`] with the limits `options`.
pub fn get_expression_with_options(name: &str, arguments: &[Expr], options: ExpressionOptions) -> (r: Result<
    LaurentSeries,
    String,
>)
    ensures
        call_outcome(name@, arguments@, options, None, r),
{
    let family = match master_arguments(name, arguments.len()) {
        Ok(f) => f,
        Err(m) => return Err(m),
    };
    let undecided = |c: &Expr| -> Option<bool> { None };
    expand_family(family, arguments, options, absent(&undecided))
}

/// The complete formulas of the coefficients of the master call
/// `name(arguments)` on the branch that `decide` selects: conditions it
/// decides keep only their selected arm, which alone is expanded; the
/// others stay as conditionals. Default limits.
pub fn get_expression_on_branch<F: Fn(&Expr) -> Option<bool>>(name: &str, arguments: &[Expr], decide: &F) -> (r: Result<
    LaurentSeries,
    String,
>)
    requires
        decides(*decide),
    ensures
        call_outcome(name@, arguments@, default_options(), decision(Some(decide)), r),
{
    get_expression_on_branch_with_options(name, arguments, decide, ExpressionOptions::default())
}

/// [`get_expression_on_branch`] with the limits `options`.
pub fn get_expression_on_branch_with_options<F: Fn(&Expr) -> Option<bool>>(
    name: &str,
    arguments: &[Expr],
    decide: &F,
    options: ExpressionOptions,
) -> (r: Result<LaurentSeries, String>)
    requires
        decides(*decide),
    ensures
        call_outcome(name@, arguments@, options, decision(Some(decide)), r),
{
    let family = match master_arguments(name, arguments.len()) {
        Ok(f) => f,
        Err(m) => return Err(m),
    };
    expand_family(family, arguments, options, Some(decide))
}

} // verus!
