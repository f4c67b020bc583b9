//! Startup of the numerical backends: the check that the environment keeps
//! the evaluators portable, and the once-only preparation whose outcome
//! every later request reports.
//!
//! The caller holds the [`Initialization`] state for the whole process and
//! performs the environment reads and the preparation; the decisions are
//! made here.
use vstd::prelude::*;
use vstd::string::StringExecFns;

verus! {

/// Refusal where the `SYMJIT_TOML` override variable is set.
pub open spec fn spec_variable_refusal() -> Seq<char> {
    "unset SYMJIT_TOML when building or loading portable OneLOop evaluators"@
}

/// Refusal where a `symjit.toml` override file is in the working directory.
pub open spec fn spec_file_refusal() -> Seq<char> {
    "remove the working-directory symjit.toml override when building or loading portable OneLOop evaluators"@
}

/// Prefix of the refusal where the override file could not be checked.
pub open spec fn spec_file_check_prefix() -> Seq<char> {
    "cannot check the default symjit.toml override: "@
}

/// `prefix` followed by `detail`.
pub(crate) fn prefixed(prefix: &str, detail: &str) -> (r: String)
    ensures
        r@ == prefix@ + detail@,
{
    prefix.to_owned().concat(detail)
}

/// Whether the environment keeps the evaluators portable: `variable_set`
/// tells whether the `SYMJIT_TOML` variable is set, `file_check` whether a
/// `symjit.toml` file is in the working directory, or why that could not be
/// checked. Either override could pin the compiler to one machine.
pub fn portable_environment(variable_set: bool, file_check: Result<bool, String>) -> (r: Result<(), String>)
    ensures
        variable_set ==> (r matches Err(m) && m@ == spec_variable_refusal()),
        !variable_set ==> match file_check {
            Err(e) => r matches Err(m) && m@ == spec_file_check_prefix() + e@,
            Ok(true) => r matches Err(m) && m@ == spec_file_refusal(),
            Ok(false) => r is Ok,
        },
{
    if variable_set {
        return Err("unset SYMJIT_TOML when building or loading portable OneLOop evaluators".to_owned());
    }
    match file_check {
        Err(e) => Err(prefixed("cannot check the default symjit.toml override: ", e.as_str())),
        Ok(true) => Err(
            "remove the working-directory symjit.toml override when building or loading portable OneLOop evaluators".to_owned(),
        ),
        Ok(false) => Ok(()),
    }
}

/// An outcome, its message taken as text.
pub open spec fn outcome_view(outcome: Result<(), String>) -> Result<(), Seq<char>> {
    match outcome {
        Ok(()) => Ok(()),
        Err(message) => Err(message@),
    }
}

/// The outcome of the once-only preparation of the symbols and the five
/// backends, once it ran.
pub struct Initialization {
    pub status: Option<Result<(), String>>,
}

impl Initialization {
    /// Nothing prepared yet.
    pub fn new() -> (r: Initialization)
        ensures
            r.status is None,
    {
        Initialization { status: None }
    }
}

/// Whether the preparation ran and succeeded. This query prepares nothing.
pub fn is_initialized(state: &Initialization) -> (r: bool)
    ensures
        r == (state.status matches Some(Ok(()))),
{
    match &state.status {
        Some(Ok(())) => true,
        _ => false,
    }
}

/// Initializes every symbol and all five numerical backends.
///
/// Where the preparation already ran, its outcome is returned again, a
/// failure too, with no new check or preparation. Otherwise the environment
/// is checked first; a refusal is returned and not recorded, so a later
/// call checks again. Otherwise `prepare` runs once, and its outcome is
/// recorded and returned.
pub fn initialize<G: FnOnce() -> Result<(), String>, F: FnOnce() -> Result<(), String>>(
    state: &mut Initialization,
    check_environment: G,
    prepare: F,
) -> (r: Result<(), String>)
    requires
        check_environment.requires(()),
        prepare.requires(()),
    ensures
        old(state).status matches Some(s) ==> outcome_view(r) == outcome_view(s),
        old(state).status is Some ==> final(state).status == old(state).status,
        r is Ok <==> final(state).status matches Some(Ok(())),
        old(state).status is None ==> {
            ||| (r is Err && check_environment.ensures((), r) && final(state).status is None)
            ||| (exists|e: Result<(), String>| e is Ok && #[trigger] check_environment.ensures((), e)
                && prepare.ensures((), r) && (final(state).status matches Some(s) && outcome_view(s)
                == outcome_view(r)))
        },
{
    match &state.status {
        Some(Ok(())) => return Ok(()),
        Some(Err(message)) => return Err(message.clone()),
        None => {},
    }
    let environment = check_environment();
    match environment {
        Err(message) => Err(message),
        Ok(()) => {
            let outcome = prepare();
            let recorded = match &outcome {
                Ok(()) => Ok(()),
                Err(message) => Err(message.clone()),
            };
            state.status = Some(recorded);
            outcome
        },
    }
}

} // verus!
