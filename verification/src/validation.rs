//! Shape and domain checks shared by every manual evaluation route.
use vstd::prelude::*;
use crate::family::ScalarIntegral;
use crate::text::{decimal, decimal_text};
use vstd::string::StringExecFns;

verus! {

/// A rejected row-major batch shape.
#[derive(Clone, Copy, Debug, PartialEq, Eq, Structural)]
pub enum ShapeError {
    InputOverflow,
    OutputOverflow,
    Mismatch {
        expected_inputs: usize,
        expected_outputs: usize,
        rows: usize,
        inputs: usize,
        outputs: usize,
    },
}

/// The shape check of `rows` points with `per_input` arguments and
/// `per_output` coefficients each, against buffers of the given lengths.
pub open spec fn spec_check_shape(
    inputs: nat,
    outputs: nat,
    rows: nat,
    per_input: nat,
    per_output: nat,
) -> Result<(), ShapeError> {
    if rows * per_input > usize::MAX {
        Err(ShapeError::InputOverflow)
    } else if rows * per_output > usize::MAX {
        Err(ShapeError::OutputOverflow)
    } else if inputs != rows * per_input || outputs != rows * per_output {
        Err(
            ShapeError::Mismatch {
                expected_inputs: (rows * per_input) as usize,
                expected_outputs: (rows * per_output) as usize,
                rows: rows as usize,
                inputs: inputs as usize,
                outputs: outputs as usize,
            },
        )
    } else {
        Ok(())
    }
}

/// Checks flat row-major buffers: `inputs` must hold `rows * per_input`
/// arguments and `outputs` must hold `rows * per_output` coefficients.
pub fn check_shape(
    inputs: usize,
    outputs: usize,
    rows: usize,
    per_input: usize,
    per_output: usize,
) -> (r: Result<(), ShapeError>)
    ensures
        r == spec_check_shape(inputs as nat, outputs as nat, rows as nat, per_input as nat, per_output as nat),
{
    let expected_inputs = match rows.checked_mul(per_input) {
        Some(v) => v,
        None => return Err(ShapeError::InputOverflow),
    };
    let expected_outputs = match rows.checked_mul(per_output) {
        Some(v) => v,
        None => return Err(ShapeError::OutputOverflow),
    };
    if inputs != expected_inputs || outputs != expected_outputs {
        return Err(
            ShapeError::Mismatch { expected_inputs, expected_outputs, rows, inputs, outputs },
        );
    }
    Ok(())
}

/// Shape check of a batch for a scalar family: one full argument list and
/// three Laurent coefficients per row.
pub fn check_family_shape(family: ScalarIntegral, inputs: usize, outputs: usize, rows: usize) -> (r:
    Result<(), ShapeError>)
    ensures
        r == spec_check_shape(inputs as nat, outputs as nat, rows as nat, family.spec_arity(), 3),
{
    check_shape(inputs, outputs, rows, family.arity(), 3)
}

/// Text of a dimension mismatch, naming the row count.
pub open spec fn spec_mismatch_text(
    expected_inputs: usize,
    expected_outputs: usize,
    rows: usize,
    inputs: usize,
    outputs: usize,
) -> Seq<char> {
    "expected "@ + decimal(expected_inputs as nat) + " inputs and "@ + decimal(expected_outputs as nat)
        + " outputs for "@ + decimal(rows as nat) + " rows; received "@ + decimal(inputs as nat) + " and "@
        + decimal(outputs as nat)
}

/// Text of a dimension mismatch, without the row count.
pub open spec fn spec_short_mismatch_text(expected_inputs: usize, expected_outputs: usize) -> Seq<char> {
    "expected "@ + decimal(expected_inputs as nat) + " inputs and "@ + decimal(expected_outputs as nat)
        + " outputs"@
}

/// Text of a dimension mismatch.
fn mismatch_text(
    expected_inputs: usize,
    expected_outputs: usize,
    rows: usize,
    inputs: usize,
    outputs: usize,
) -> (r: String)
    ensures
        r@ == spec_mismatch_text(expected_inputs, expected_outputs, rows, inputs, outputs),
{
    let mut text = "expected ".to_owned();
    text.append(decimal_text(expected_inputs as u128).as_str());
    text.append(" inputs and ");
    text.append(decimal_text(expected_outputs as u128).as_str());
    text.append(" outputs for ");
    text.append(decimal_text(rows as u128).as_str());
    text.append(" rows; received ");
    text.append(decimal_text(inputs as u128).as_str());
    text.append(" and ");
    text.append(decimal_text(outputs as u128).as_str());
    text
}

/// Text of a dimension mismatch without its row count.
fn short_mismatch_text(expected_inputs: usize, expected_outputs: usize) -> (r: String)
    ensures
        r@ == spec_short_mismatch_text(expected_inputs, expected_outputs),
{
    let mut text = "expected ".to_owned();
    text.append(decimal_text(expected_inputs as u128).as_str());
    text.append(" inputs and ");
    text.append(decimal_text(expected_outputs as u128).as_str());
    text.append(" outputs");
    text
}

impl ShapeError {
    pub open spec fn spec_message(self) -> Seq<char> {
        match self {
            ShapeError::InputOverflow => "input size overflow"@,
            ShapeError::OutputOverflow => "output size overflow"@,
            ShapeError::Mismatch { expected_inputs, expected_outputs, rows, inputs, outputs } =>
                spec_mismatch_text(expected_inputs, expected_outputs, rows, inputs, outputs),
        }
    }

    pub open spec fn spec_short_message(self) -> Seq<char> {
        match self {
            ShapeError::Mismatch { expected_inputs, expected_outputs, .. } =>
                spec_short_mismatch_text(expected_inputs, expected_outputs),
            _ => self.spec_message(),
        }
    }

    /// Diagnostic of the evaluator workspaces, naming the row count.
    pub fn message(&self) -> (r: String)
        ensures
            r@ == self.spec_message(),
    {
        match *self {
            ShapeError::InputOverflow => "input size overflow".to_string(),
            ShapeError::OutputOverflow => "output size overflow".to_string(),
            ShapeError::Mismatch { expected_inputs, expected_outputs, rows, inputs, outputs } =>
                mismatch_text(expected_inputs, expected_outputs, rows, inputs, outputs),
        }
    }

    /// Diagnostic of the shared manual evaluation entry point.
    pub fn short_message(&self) -> (r: String)
        ensures
            r@ == self.spec_short_message(),
    {
        match *self {
            ShapeError::Mismatch { expected_inputs, expected_outputs, .. } =>
                short_mismatch_text(expected_inputs, expected_outputs),
            _ => self.message(),
        }
    }
}

/// What the domain checks read of one real component of an input.
#[derive(Clone, Copy, Debug, PartialEq, Eq, Structural)]
pub enum RealClass {
    Negative,
    Zero,
    Positive,
    NonFinite,
}

/// The classes of the real and imaginary parts of one complex input.
#[derive(Clone, Copy, Debug, PartialEq, Eq, Structural)]
pub struct ComplexClass {
    pub re: RealClass,
    pub im: RealClass,
}

/// A rejected input point.
#[derive(Clone, Copy, Debug, PartialEq, Eq, Structural)]
pub enum PointError {
    NonFinite,
    ComplexInvariant,
    MassImaginaryPart,
    Scale,
}

impl PointError {
    pub open spec fn spec_message(self) -> Seq<char> {
        match self {
            PointError::NonFinite => "all input components must be finite"@,
            PointError::ComplexInvariant => "external squared invariants must be real"@,
            PointError::MassImaginaryPart => "squared masses require nonpositive imaginary parts"@,
            PointError::Scale => "mu_squared must be positive and real"@,
        }
    }

    pub fn message(self) -> (r: &'static str)
        ensures
            r@ == self.spec_message(),
    {
        match self {
            PointError::NonFinite => "all input components must be finite",
            PointError::ComplexInvariant => "external squared invariants must be real",
            PointError::MassImaginaryPart => "squared masses require nonpositive imaginary parts",
            PointError::Scale => "mu_squared must be positive and real",
        }
    }
}

pub open spec fn spec_finite(z: ComplexClass) -> bool {
    z.re != RealClass::NonFinite && z.im != RealClass::NonFinite
}

/// The domain check of one complete point: all components finite, external
/// invariants real, squared masses in the closed lower half-plane, and the
/// squared scale positive and real. The first failing rule is reported.
pub open spec fn spec_check_point(family: ScalarIntegral, point: Seq<ComplexClass>) -> Result<
    (),
    PointError,
> {
    let n = point.len();
    let k = family.spec_momenta();
    if exists|i: int| 0 <= i < n && !spec_finite(#[trigger] point[i]) {
        Err(PointError::NonFinite)
    } else if exists|i: int| 0 <= i < k && (#[trigger] point[i]).im != RealClass::Zero {
        Err(PointError::ComplexInvariant)
    } else if exists|i: int| k <= i < n - 1 && (#[trigger] point[i]).im == RealClass::Positive {
        Err(PointError::MassImaginaryPart)
    } else if point[n - 1].im != RealClass::Zero || point[n - 1].re != RealClass::Positive {
        Err(PointError::Scale)
    } else {
        Ok(())
    }
}

/// Domain check of one point whose length is the family's arity.
pub fn check_point(family: ScalarIntegral, point: &[ComplexClass]) -> (r: Result<(), PointError>)
    requires
        point@.len() == family.spec_arity(),
    ensures
        r == spec_check_point(family, point@),
{
    let n = point.len();
    let mut i: usize = 0;
    while i < n
        invariant
            i <= n == point@.len(),
            forall|j: int| 0 <= j < i ==> spec_finite(#[trigger] point@[j]),
        decreases n - i,
    {
        if point[i].re == RealClass::NonFinite || point[i].im == RealClass::NonFinite {
            assert(!spec_finite(point@[i as int]));
            return Err(PointError::NonFinite);
        }
        i = i + 1;
    }
    let k = family.momenta();
    let mut i: usize = 0;
    while i < k
        invariant
            i <= k == family.spec_momenta(),
            k < n == point@.len(),
            forall|j: int| 0 <= j < n ==> spec_finite(#[trigger] point@[j]),
            forall|j: int| 0 <= j < i ==> (#[trigger] point@[j]).im == RealClass::Zero,
        decreases k - i,
    {
        if point[i].im != RealClass::Zero {
            assert(point@[i as int].im != RealClass::Zero);
            return Err(PointError::ComplexInvariant);
        }
        i = i + 1;
    }
    let mut i: usize = k;
    while i < n - 1
        invariant
            k <= i <= n - 1,
            k == family.spec_momenta(),
            n == point@.len(),
            forall|j: int| 0 <= j < n ==> spec_finite(#[trigger] point@[j]),
            forall|j: int| 0 <= j < k ==> (#[trigger] point@[j]).im == RealClass::Zero,
            forall|j: int| k <= j < i ==> (#[trigger] point@[j]).im != RealClass::Positive,
        decreases n - 1 - i,
    {
        if point[i].im == RealClass::Positive {
            assert(point@[i as int].im == RealClass::Positive);
            return Err(PointError::MassImaginaryPart);
        }
        i = i + 1;
    }
    let mu = point[n - 1];
    if mu.im != RealClass::Zero || mu.re != RealClass::Positive {
        return Err(PointError::Scale);
    }
    Ok(())
}

/// A point in the physical domain is accepted: every component finite, the
/// external invariants (the first `spec_momenta` components) real, every
/// squared mass (the components after them, up to the last) with a zero or
/// negative imaginary part, and the squared scale (the last component)
/// positive and real.
pub proof fn lemma_physical_point_accepted(family: ScalarIntegral, point: Seq<ComplexClass>)
    requires
        point.len() == family.spec_arity(),
        forall|i: int| 0 <= i < point.len() ==> (#[trigger] point[i]).re != RealClass::NonFinite && point[i].im
            != RealClass::NonFinite,
        forall|i: int| 0 <= i < family.spec_momenta() ==> (#[trigger] point[i]).im == RealClass::Zero,
        forall|i: int|
            family.spec_momenta() <= i < point.len() - 1 ==> (#[trigger] point[i]).im == RealClass::Zero
                || point[i].im == RealClass::Negative,
        point[point.len() - 1].re == RealClass::Positive,
        point[point.len() - 1].im == RealClass::Zero,
    ensures
        spec_check_point(family, point) == Ok::<(), PointError>(()),
{
}

/// A squared mass in the upper half-plane is refused as such, where every
/// component is finite and the external invariants are real.
pub proof fn lemma_upper_half_plane_mass_refused(family: ScalarIntegral, point: Seq<ComplexClass>, mass: int)
    requires
        point.len() == family.spec_arity(),
        forall|i: int| 0 <= i < point.len() ==> (#[trigger] point[i]).re != RealClass::NonFinite && point[i].im
            != RealClass::NonFinite,
        forall|i: int| 0 <= i < family.spec_momenta() ==> (#[trigger] point[i]).im == RealClass::Zero,
        family.spec_momenta() <= mass < point.len() - 1,
        point[mass].im == RealClass::Positive,
    ensures
        spec_check_point(family, point) == Err::<(), PointError>(PointError::MassImaginaryPart),
{
    assert(point[mass].im == RealClass::Positive);
}

/// A non-finite component is refused before any other rule, a complex
/// external invariant before the masses and the scale, and a squared scale
/// that is not positive and real only where everything else is in the
/// domain.
pub proof fn lemma_domain_rules_in_order(family: ScalarIntegral, point: Seq<ComplexClass>, at: int)
    requires
        point.len() == family.spec_arity(),
        0 <= at < point.len(),
    ensures
        point[at].re == RealClass::NonFinite || point[at].im == RealClass::NonFinite ==> spec_check_point(
            family,
            point,
        ) == Err::<(), PointError>(PointError::NonFinite),
        (forall|i: int| 0 <= i < point.len() ==> (#[trigger] point[i]).re != RealClass::NonFinite && point[i].im
            != RealClass::NonFinite) && at < family.spec_momenta() && point[at].im != RealClass::Zero
            ==> spec_check_point(family, point) == Err::<(), PointError>(PointError::ComplexInvariant),
        (forall|i: int| 0 <= i < point.len() ==> (#[trigger] point[i]).re != RealClass::NonFinite && point[i].im
            != RealClass::NonFinite) && (forall|i: int|
            0 <= i < family.spec_momenta() ==> (#[trigger] point[i]).im == RealClass::Zero) && (forall|i: int|
            family.spec_momenta() <= i < point.len() - 1 ==> (#[trigger] point[i]).im != RealClass::Positive)
            && at == point.len() - 1 && (point[at].re != RealClass::Positive || point[at].im != RealClass::Zero)
            ==> spec_check_point(family, point) == Err::<(), PointError>(PointError::Scale),
{
    if point[at].re == RealClass::NonFinite || point[at].im == RealClass::NonFinite {
        assert(!spec_finite(point[at]));
    }
}

/// A rejected argument list of a single-point call.
#[derive(Clone, Copy, Debug, PartialEq, Eq, Structural)]
pub enum ArgumentError {
    Count { family: ScalarIntegral, received: usize },
    Domain(PointError),
}

/// The single-point check of the Python adapter: the argument count first,
/// then the domain of the point.
pub open spec fn spec_check_arguments(family: ScalarIntegral, point: Seq<ComplexClass>) -> Result<
    (),
    ArgumentError,
> {
    if point.len() != family.spec_arity() {
        Err(ArgumentError::Count { family, received: point.len() as usize })
    } else {
        match spec_check_point(family, point) {
            Ok(()) => Ok(()),
            Err(e) => Err(ArgumentError::Domain(e)),
        }
    }
}

pub fn check_arguments(family: ScalarIntegral, point: &[ComplexClass]) -> (r: Result<
    (),
    ArgumentError,
>)
    ensures
        r == spec_check_arguments(family, point@),
{
    if point.len() != family.arity() {
        return Err(ArgumentError::Count { family, received: point.len() });
    }
    match check_point(family, point) {
        Ok(()) => Ok(()),
        Err(e) => Err(ArgumentError::Domain(e)),
    }
}

/// Checks every row of a validated batch before any of them is evaluated;
/// the first rejected row's error is returned with its index.
pub fn check_batch(family: ScalarIntegral, input: &[ComplexClass], rows: usize) -> (r: Result<
    (),
    (usize, PointError),
>)
    requires
        input@.len() == rows * family.spec_arity(),
    ensures
        r is Ok <==> forall|row: int|
            0 <= row < rows ==> #[trigger] spec_check_point(
                family,
                input@.subrange(row * family.spec_arity(), (row + 1) * family.spec_arity()),
            ) is Ok,
        r matches Err((row, e)) ==> row < rows && spec_check_point(
            family,
            input@.subrange(row * family.spec_arity(), (row + 1) * family.spec_arity()),
        ) == Err::<(), PointError>(e) && forall|earlier: int|
            0 <= earlier < row ==> #[trigger] spec_check_point(
                family,
                input@.subrange(
                    earlier * family.spec_arity(),
                    (earlier + 1) * family.spec_arity(),
                ),
            ) is Ok,
{
    let a = family.arity();
    let total = input.len();
    assert(total == input@.len());
    let mut row: usize = 0;
    while row < rows
        invariant
            row <= rows,
            a == family.spec_arity(),
            input@.len() == rows * a,
            input@.len() <= usize::MAX,
            forall|earlier: int|
                0 <= earlier < row ==> #[trigger] spec_check_point(
                    family,
                    input@.subrange(earlier * a, (earlier + 1) * a),
                ) is Ok,
        decreases rows - row,
    {
        proof {
            assert((row + 1) * a <= rows * a) by (nonlinear_arith)
                requires
                    row < rows,
            ;
            assert(row * a + a == (row + 1) * a) by (nonlinear_arith);
        }
        let start = row * a;
        let point = vstd::slice::slice_subrange(input, start, start + a);
        match check_point(family, point) {
            Ok(()) => {},
            Err(e) => {
                return Err((row, e));
            },
        }
        row = row + 1;
    }
    Ok(())
}

} // verus!
