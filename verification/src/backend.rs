//! Selection between the numerical implementations.
use vstd::prelude::*;
use crate::text::{
    case_key, spec_case_key, spells, lemma_lower_word_is_its_key, lemma_padded_word_key, is_white_space,
    spec_ascii_upper,
};

verus! {

/// Numerical implementation selected for manual evaluations.
#[derive(Clone, Copy, Debug, PartialEq, Eq, Structural)]
pub enum EvaluationBackend {
    /// Ahead-of-time generic Rust with no runtime expression evaluator.
    Native,
    /// The prepared binary64 SymJIT O2 evaluator (no arbitrary precision).
    SymJit,
    /// Symbolica's native expression interpreter, also supporting Float.
    Expression,
}

impl EvaluationBackend {
    pub open spec fn spec_name(self) -> Seq<char> {
        match self {
            EvaluationBackend::Native => "native"@,
            EvaluationBackend::SymJit => "symjit"@,
            EvaluationBackend::Expression => "expression"@,
        }
    }

    /// Stable name used by the Python adapter and diagnostics.
    pub fn name(self) -> (r: &'static str)
        ensures
            r@ == self.spec_name(),
    {
        match self {
            EvaluationBackend::Native => "native",
            EvaluationBackend::SymJit => "symjit",
            EvaluationBackend::Expression => "expression",
        }
    }

    /// Whether the implementation can evaluate at an arbitrary working precision.
    pub open spec fn spec_supports_arbitrary_precision(self) -> bool {
        self != EvaluationBackend::SymJit
    }
}

/// Direct Rust is the default manual backend.
pub const DEFAULT_BACKEND: EvaluationBackend = EvaluationBackend::Native;

/// Backend used for arbitrary precision when none is requested: the default
/// when it supports arbitrary precision, the expression interpreter otherwise.
pub fn default_precision_backend() -> (r: EvaluationBackend)
    ensures
        r == (if DEFAULT_BACKEND == EvaluationBackend::Native {
            EvaluationBackend::Native
        } else {
            EvaluationBackend::Expression
        }),
        r.spec_supports_arbitrary_precision(),
{
    if DEFAULT_BACKEND == EvaluationBackend::Native {
        EvaluationBackend::Native
    } else {
        EvaluationBackend::Expression
    }
}

/// A requested backend, before the automatic choice is resolved.
#[derive(Clone, Copy, Debug, PartialEq, Eq, Structural)]
pub enum BackendChoice {
    Auto,
    Native,
    SymJit,
    Expression,
}

pub const BACKEND_CHOICE_ERROR: &'static str = "backend must be auto, native, symjit or expression";

pub const SYMJIT_BINARY64_ERROR: &'static str = "backend='symjit' supports binary64 only; Decimal/large-integer inputs or prec != 16 require native, expression or auto";

/// The choice that a case-insensitive, white-space-padded name selects.
pub open spec fn spec_parse_choice(name: Seq<char>) -> Option<BackendChoice> {
    let key = spec_case_key(name, false);
    if key == "auto"@ {
        Some(BackendChoice::Auto)
    } else if key == "native"@ {
        Some(BackendChoice::Native)
    } else if key == "symjit"@ {
        Some(BackendChoice::SymJit)
    } else if key == "expression"@ || key == "symbolica"@ {
        Some(BackendChoice::Expression)
    } else {
        None
    }
}

impl BackendChoice {
    pub open spec fn spec_name(self) -> Seq<char> {
        match self {
            BackendChoice::Auto => "auto"@,
            BackendChoice::Native => "native"@,
            BackendChoice::SymJit => "symjit"@,
            BackendChoice::Expression => "expression"@,
        }
    }

    /// Reads `auto`, `native`, `symjit`, `expression` or `symbolica`.
    pub fn parse(name: &str) -> (r: Result<BackendChoice, &'static str>)
        ensures
            r is Ok <==> spec_parse_choice(name@) is Some,
            r matches Ok(c) ==> spec_parse_choice(name@) == Some(c),
            r matches Err(m) ==> m == BACKEND_CHOICE_ERROR,
    {
        let key = case_key(name, false);
        if spells(&key, "auto") {
            Ok(BackendChoice::Auto)
        } else if spells(&key, "native") {
            Ok(BackendChoice::Native)
        } else if spells(&key, "symjit") {
            Ok(BackendChoice::SymJit)
        } else if spells(&key, "expression") || spells(&key, "symbolica") {
            Ok(BackendChoice::Expression)
        } else {
            Err(BACKEND_CHOICE_ERROR)
        }
    }

    pub fn name(self) -> (r: &'static str)
        ensures
            r@ == self.spec_name(),
    {
        match self {
            BackendChoice::Auto => "auto",
            BackendChoice::Native => "native",
            BackendChoice::SymJit => "symjit",
            BackendChoice::Expression => "expression",
        }
    }

    /// The backend this choice selects for a binary64 (`arbitrary == false`)
    /// or an arbitrary-precision evaluation.
    pub open spec fn spec_resolve(self, arbitrary: bool) -> EvaluationBackend {
        match self {
            BackendChoice::Auto => if arbitrary {
                if DEFAULT_BACKEND == EvaluationBackend::Native {
                    EvaluationBackend::Native
                } else {
                    EvaluationBackend::Expression
                }
            } else {
                DEFAULT_BACKEND
            },
            BackendChoice::Native => EvaluationBackend::Native,
            BackendChoice::SymJit => EvaluationBackend::SymJit,
            BackendChoice::Expression => EvaluationBackend::Expression,
        }
    }

    /// Resolves the choice; SymJIT is refused for arbitrary precision.
    pub fn resolve(self, arbitrary: bool) -> (r: Result<EvaluationBackend, &'static str>)
        ensures
            r is Err <==> (arbitrary && self.spec_resolve(arbitrary) == EvaluationBackend::SymJit),
            r matches Ok(b) ==> b == self.spec_resolve(arbitrary),
            r matches Err(m) ==> m == SYMJIT_BINARY64_ERROR,
    {
        let backend = match self {
            BackendChoice::Auto => if arbitrary {
                default_precision_backend()
            } else {
                DEFAULT_BACKEND
            },
            BackendChoice::Native => EvaluationBackend::Native,
            BackendChoice::SymJit => EvaluationBackend::SymJit,
            BackendChoice::Expression => EvaluationBackend::Expression,
        };
        if arbitrary && backend == EvaluationBackend::SymJit {
            return Err(SYMJIT_BINARY64_ERROR);
        }
        Ok(backend)
    }
}

/// Parsing the name of a choice gives that choice back, and `symbolica`
/// names the expression interpreter.
pub proof fn lemma_choice_names_parse(c: BackendChoice)
    ensures
        spec_parse_choice(c.spec_name()) == Some(c),
        spec_parse_choice("symbolica"@) == Some(BackendChoice::Expression),
{
    reveal_strlit("auto");
    reveal_strlit("native");
    reveal_strlit("symjit");
    reveal_strlit("expression");
    reveal_strlit("symbolica");
    lemma_lower_word_is_its_key("auto"@);
    lemma_lower_word_is_its_key("native"@);
    lemma_lower_word_is_its_key("symjit"@);
    lemma_lower_word_is_its_key("expression"@);
    lemma_lower_word_is_its_key("symbolica"@);
    assert("expression"@ != "auto"@);
    assert("expression"@ != "native"@);
    assert("expression"@ != "symjit"@);
    assert("symbolica"@ != "auto"@);
    assert("symbolica"@ != "native"@);
    assert("symbolica"@ != "symjit"@);
    assert("native"@ != "auto"@);
    assert("symjit"@ != "auto"@);
    assert("symjit"@ != "native"@);
}

/// Parsing ignores surrounding white space and ASCII case: the name of a
/// choice, with any of its letters in upper case and padded with white
/// space, parses to that choice.
pub proof fn lemma_choice_names_parse_loosely(
    c: BackendChoice,
    lead: Seq<char>,
    written: Seq<char>,
    trail: Seq<char>,
)
    requires
        written.len() == c.spec_name().len(),
        forall|i: int|
            0 <= i < written.len() ==> #[trigger] written[i] == c.spec_name()[i] || written[i] == spec_ascii_upper(
                c.spec_name()[i],
            ),
        forall|i: int| 0 <= i < lead.len() ==> is_white_space(#[trigger] lead[i]),
        forall|i: int| 0 <= i < trail.len() ==> is_white_space(#[trigger] trail[i]),
    ensures
        spec_parse_choice(lead + written + trail) == Some(c),
{
    reveal_strlit("auto");
    reveal_strlit("native");
    reveal_strlit("symjit");
    reveal_strlit("expression");
    lemma_choice_names_parse(c);
    lemma_padded_word_key(lead, written, trail, c.spec_name());
    lemma_lower_word_is_its_key(c.spec_name());
}

/// Every resolved arbitrary-precision backend supports arbitrary precision.
pub proof fn lemma_resolved_precision_backend(choice: BackendChoice)
    requires
        choice.spec_resolve(true) != EvaluationBackend::SymJit,
    ensures
        choice.spec_resolve(true).spec_supports_arbitrary_precision(),
{
}

} // verus!
