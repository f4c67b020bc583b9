//! Working precision of the arbitrary-precision evaluators.
use vstd::prelude::*;
use crate::backend::EvaluationBackend;
use crate::text::{decimal, decimal_text};
use vstd::string::StringExecFns;

verus! {

/// A conservative rational upper bound for log2(10), numerator over
/// [`LOG2_10_DENOMINATOR`].
pub const LOG2_10_NUMERATOR: u64 = 3_321_928_095;

pub const LOG2_10_DENOMINATOR: u64 = 1_000_000_000;

/// Guard bits added to every decimal precision request.
pub const GUARD_BITS: u64 = 32;

/// log10(2) truncated after 28 decimal places, numerator over 10^28. Its
/// error times any `u32` bit count stays far below the distance of every
/// such multiple of log10(2) from an integer, so the floor is exact.
pub const LOG10_2_NUMERATOR: u128 = 3_010_299_956_639_811_952_137_388_947;

pub const LOG10_2_DENOMINATOR: u128 = 10_000_000_000_000_000_000_000_000_000;

/// A rejected precision request.
#[derive(Clone, Copy, Debug, PartialEq, Eq, Structural)]
pub enum PrecisionError {
    /// A decimal-digit request of zero.
    ZeroDigits,
    /// A decimal request whose working bits do not fit `u32`.
    DigitsRange,
    /// A binary-precision request of zero bits.
    ZeroBits,
    /// A bit count other than a fixed-precision type's own.
    FixedPrecision(u32),
    /// SymJIT was requested for arbitrary precision.
    Binary64Backend,
}

/// Text refusing a bit count for a type of fixed precision `fixed`.
pub open spec fn spec_fixed_precision_text(fixed: u32) -> Seq<char> {
    "this numeric type has fixed precision "@ + decimal(fixed as nat) + " bits"@
}

/// Text refusing a bit count for a fixed-precision type.
fn fixed_precision_text(fixed: u32) -> (r: String)
    ensures
        r@ == spec_fixed_precision_text(fixed),
{
    let mut text = "this numeric type has fixed precision ".to_owned();
    text.append(decimal_text(fixed as u128).as_str());
    text.append(" bits");
    text
}

impl PrecisionError {
    pub open spec fn spec_message(self) -> Seq<char> {
        match self {
            PrecisionError::ZeroDigits => "decimal precision must be positive"@,
            PrecisionError::DigitsRange => "decimal precision exceeds the binary precision range"@,
            PrecisionError::ZeroBits => "binary precision must be positive"@,
            PrecisionError::FixedPrecision(f) => spec_fixed_precision_text(f),
            PrecisionError::Binary64Backend => "SymJIT supports binary64 only; use native or expression for arbitrary precision"@,
        }
    }

    pub fn message(&self) -> (r: String)
        ensures
            r@ == self.spec_message(),
    {
        match *self {
            PrecisionError::ZeroDigits => "decimal precision must be positive".to_string(),
            PrecisionError::DigitsRange => "decimal precision exceeds the binary precision range".to_string(),
            PrecisionError::ZeroBits => "binary precision must be positive".to_string(),
            PrecisionError::FixedPrecision(f) => fixed_precision_text(f),
            PrecisionError::Binary64Backend => "SymJIT supports binary64 only; use native or expression for arbitrary precision".to_string(),
        }
    }
}

/// Working bits for a request of `digits` decimal digits:
/// `ceil(digits * log2(10)) + 32`, with the rational bound of log2(10).
pub open spec fn spec_decimal_bits(digits: nat) -> nat {
    ((digits * LOG2_10_NUMERATOR + LOG2_10_DENOMINATOR - 1) / (LOG2_10_DENOMINATOR as int) + GUARD_BITS) as nat
}

/// Working bits for a positive decimal-digit request.
pub fn decimal_bits(digits: u32) -> (r: Result<u32, PrecisionError>)
    ensures
        digits == 0 ==> r == Err::<u32, PrecisionError>(PrecisionError::ZeroDigits),
        digits > 0 ==> (r is Ok <==> spec_decimal_bits(digits as nat) <= u32::MAX),
        digits > 0 && spec_decimal_bits(digits as nat) > u32::MAX ==> r == Err::<u32, PrecisionError>(PrecisionError::DigitsRange),
        r matches Ok(bits) ==> bits == spec_decimal_bits(digits as nat),
{
    if digits == 0 {
        return Err(PrecisionError::ZeroDigits);
    }
    let d = digits as u64;
    assert(d * LOG2_10_NUMERATOR <= 0xffff_ffff * 3_321_928_095) by (nonlinear_arith)
        requires
            d <= 0xffff_ffff,
    ;
    let scaled = d * LOG2_10_NUMERATOR + (LOG2_10_DENOMINATOR - 1);
    let bits = scaled / LOG2_10_DENOMINATOR + GUARD_BITS;
    if bits > u32::MAX as u64 {
        return Err(PrecisionError::DigitsRange);
    }
    Ok(bits as u32)
}

/// Whole decimal digits carried by `bits` binary digits: `floor(bits * log10(2))`.
pub open spec fn spec_binary_digits(bits: nat) -> nat {
    ((bits * LOG10_2_NUMERATOR) / (LOG10_2_DENOMINATOR as int)) as nat
}

pub fn binary_digits(bits: u32) -> (r: u32)
    ensures
        r == spec_binary_digits(bits as nat),
        r * LOG10_2_DENOMINATOR <= bits * LOG10_2_NUMERATOR,
        bits * LOG10_2_NUMERATOR < (r + 1) * LOG10_2_DENOMINATOR,
{
    proof {
        lemma_binary_digits_are_whole_decimal_digits(bits as nat);
    }
    let b = bits as u128;
    assert(b * LOG10_2_NUMERATOR <= 0xffff_ffff * 3_010_299_956_639_811_952_137_388_947) by (nonlinear_arith)
        requires
            b <= 0xffff_ffff,
    ;
    let digits = (b * LOG10_2_NUMERATOR) / LOG10_2_DENOMINATOR;
    assert(digits <= b) by (nonlinear_arith)
        requires
            digits == (b * LOG10_2_NUMERATOR) / (LOG10_2_DENOMINATOR as int),
            LOG10_2_NUMERATOR < LOG10_2_DENOMINATOR,
    ;
    digits as u32
}

/// A request of `digits` decimal digits works with the fewest bits that
/// hold them, `ceil(digits * log2(10))` by the stored bound of log2(10),
/// plus the guard bits; 16 digits take 86 bits.
pub proof fn lemma_decimal_bits_hold_the_digits(digits: nat)
    ensures
        spec_decimal_bits(digits) >= GUARD_BITS,
        (spec_decimal_bits(digits) - GUARD_BITS) * LOG2_10_DENOMINATOR >= digits * LOG2_10_NUMERATOR,
        digits > 0 ==> (spec_decimal_bits(digits) - GUARD_BITS - 1) * LOG2_10_DENOMINATOR < digits
            * LOG2_10_NUMERATOR,
        spec_decimal_bits(16) == 86,
{
    let x = digits * LOG2_10_NUMERATOR + LOG2_10_DENOMINATOR - 1;
    let d = LOG2_10_DENOMINATOR as int;
    vstd::arithmetic::div_mod::lemma_fundamental_div_mod(x, d);
    vstd::arithmetic::div_mod::lemma_mod_bound(x, d);
    assert(spec_decimal_bits(digits) == x / d + GUARD_BITS);
    assert(16 * LOG2_10_NUMERATOR + LOG2_10_DENOMINATOR - 1 == 54_150_849_519int);
}

/// `bits` binary digits carry `spec_binary_digits(bits)` whole decimal
/// digits: the largest `d` with `d <= bits * log10(2)`, by the stored value
/// of log10(2). A positive bit count carries fewer decimal digits than bits;
/// binary64's 53 bits carry 15 and 256 bits carry 77.
pub proof fn lemma_binary_digits_are_whole_decimal_digits(bits: nat)
    ensures
        spec_binary_digits(bits) * LOG10_2_DENOMINATOR <= bits * LOG10_2_NUMERATOR,
        bits * LOG10_2_NUMERATOR < (spec_binary_digits(bits) + 1) * LOG10_2_DENOMINATOR,
        bits > 0 ==> spec_binary_digits(bits) < bits,
        spec_binary_digits(53) == 15,
        spec_binary_digits(256) == 77,
{
    let x = bits * LOG10_2_NUMERATOR;
    let d = LOG10_2_DENOMINATOR as int;
    vstd::arithmetic::div_mod::lemma_fundamental_div_mod(x, d);
    vstd::arithmetic::div_mod::lemma_mod_bound(x, d);
    assert(spec_binary_digits(bits) == x / d);
    assert(bits > 0 ==> x / d < bits) by (nonlinear_arith)
        requires
            x == bits * LOG10_2_NUMERATOR,
            d == LOG10_2_DENOMINATOR,
            x == d * (x / d) + x % d,
            0 <= x % d,
            LOG10_2_NUMERATOR < LOG10_2_DENOMINATOR,
    ;
    assert(53 * LOG10_2_NUMERATOR / (LOG10_2_DENOMINATOR as int) == 15);
    assert(256 * LOG10_2_NUMERATOR / (LOG10_2_DENOMINATOR as int) == 77);
}

/// The stored log10(2) = 0.30102999566398119521... is right in its first
/// thirteen decimal places.
pub proof fn lemma_stored_log10_2()
    ensures
        LOG10_2_DENOMINATOR == 10_000_000_000_000_000_000_000_000_000,
        3_010_299_956_639 * 1_000_000_000_000_000 <= LOG10_2_NUMERATOR,
        LOG10_2_NUMERATOR < 3_010_299_956_640 * 1_000_000_000_000_000,
{
}

/// Checks an explicit binary precision for a numeric type; `fixed` is the
/// type's own bit count when it has a fixed precision.
pub fn check_binary_precision(bits: u32, fixed: Option<u32>) -> (r: Result<(), PrecisionError>)
    ensures
        bits == 0 ==> r == Err::<(), PrecisionError>(PrecisionError::ZeroBits),
        bits != 0 ==> match fixed {
            Some(f) => if bits != f {
                r == Err::<(), PrecisionError>(PrecisionError::FixedPrecision(f))
            } else {
                r is Ok
            },
            None => r is Ok,
        },
{
    if bits == 0 {
        return Err(PrecisionError::ZeroBits);
    }
    match fixed {
        Some(f) => if bits != f {
            Err(PrecisionError::FixedPrecision(f))
        } else {
            Ok(())
        },
        None => Ok(()),
    }
}

/// Checks that a backend can evaluate at an arbitrary working precision.
pub fn check_precision_backend(backend: EvaluationBackend) -> (r: Result<(), PrecisionError>)
    ensures
        r is Ok <==> backend != EvaluationBackend::SymJit,
        r is Err ==> r == Err::<(), PrecisionError>(PrecisionError::Binary64Backend),
{
    if backend == EvaluationBackend::SymJit {
        Err(PrecisionError::Binary64Backend)
    } else {
        Ok(())
    }
}

/// The decimal precision and working bits of a decimal-digit request.
pub fn decimal_request(digits: u32, backend: EvaluationBackend) -> (r: Result<(u32, u32), PrecisionError>)
    ensures
        r is Ok <==> (digits > 0 && spec_decimal_bits(digits as nat) <= u32::MAX && backend != EvaluationBackend::SymJit),
        r matches Ok((d, b)) ==> d == digits && b == spec_decimal_bits(digits as nat),
        digits == 0 ==> r == Err::<(u32, u32), PrecisionError>(PrecisionError::ZeroDigits),
        digits > 0 && spec_decimal_bits(digits as nat) > u32::MAX ==> r == Err::<(u32, u32), PrecisionError>(PrecisionError::DigitsRange),
        digits > 0 && spec_decimal_bits(digits as nat) <= u32::MAX && backend == EvaluationBackend::SymJit ==> r == Err::<(u32, u32), PrecisionError>(PrecisionError::Binary64Backend),
{
    let bits = decimal_bits(digits)?;
    check_precision_backend(backend)?;
    Ok((digits, bits))
}

/// The decimal precision and working bits of an exact binary request.
pub fn binary_request(bits: u32, backend: EvaluationBackend) -> (r: Result<(u32, u32), PrecisionError>)
    ensures
        r is Ok <==> (bits > 0 && backend != EvaluationBackend::SymJit),
        r matches Ok((d, b)) ==> d == spec_binary_digits(bits as nat) && b == bits,
        bits == 0 ==> r == Err::<(u32, u32), PrecisionError>(PrecisionError::ZeroBits),
        bits > 0 && backend == EvaluationBackend::SymJit ==> r == Err::<(u32, u32), PrecisionError>(PrecisionError::Binary64Backend),
{
    if bits == 0 {
        return Err(PrecisionError::ZeroBits);
    }
    let digits = binary_digits(bits);
    check_precision_backend(backend)?;
    Ok((digits, bits))
}

/// What the Python adapter reads of a `prec` argument.
#[derive(Clone, Copy, Debug, PartialEq, Eq, Structural)]
pub enum PrecisionArgument {
    /// A bool, or a value that is not an integer.
    NotAnInteger,
    /// An integer; `None` when it does not fit `u32` (negative or too large).
    Integer(Option<u32>),
}

/// A rejected `prec` argument.
#[derive(Clone, Copy, Debug, PartialEq, Eq, Structural)]
pub enum PrecisionArgumentError {
    Type,
    Range,
    Zero,
}

impl PrecisionArgumentError {
    pub open spec fn spec_message(self) -> Seq<char> {
        match self {
            PrecisionArgumentError::Type => "prec must be a positive integer number of decimal digits"@,
            PrecisionArgumentError::Range => "prec must be a positive decimal-digit count fitting u32"@,
            PrecisionArgumentError::Zero => "prec must be positive"@,
        }
    }

    pub fn message(self) -> (r: &'static str)
        ensures
            r@ == self.spec_message(),
    {
        match self {
            PrecisionArgumentError::Type => "prec must be a positive integer number of decimal digits",
            PrecisionArgumentError::Range => "prec must be a positive decimal-digit count fitting u32",
            PrecisionArgumentError::Zero => "prec must be positive",
        }
    }
}

/// Decimal significant digits requested by a `prec` argument.
pub fn parse_precision(value: PrecisionArgument) -> (r: Result<u32, PrecisionArgumentError>)
    ensures
        match value {
            PrecisionArgument::NotAnInteger => r == Err::<u32, PrecisionArgumentError>(PrecisionArgumentError::Type),
            PrecisionArgument::Integer(None) => r == Err::<u32, PrecisionArgumentError>(PrecisionArgumentError::Range),
            PrecisionArgument::Integer(Some(d)) => if d == 0 {
                r == Err::<u32, PrecisionArgumentError>(PrecisionArgumentError::Zero)
            } else {
                r == Ok::<u32, PrecisionArgumentError>(d)
            },
        },
{
    match value {
        PrecisionArgument::NotAnInteger => Err(PrecisionArgumentError::Type),
        PrecisionArgument::Integer(None) => Err(PrecisionArgumentError::Range),
        PrecisionArgument::Integer(Some(d)) => if d == 0 {
            Err(PrecisionArgumentError::Zero)
        } else {
            Ok(d)
        },
    }
}

/// A decimal request always carries at least its guard bits and at least
/// `digits * 3.3219` bits, and larger requests never receive fewer bits.
pub proof fn lemma_decimal_bits_monotone(a: nat, b: nat)
    requires
        a <= b,
    ensures
        spec_decimal_bits(a) <= spec_decimal_bits(b),
        spec_decimal_bits(a) >= GUARD_BITS,
        (spec_decimal_bits(a) - GUARD_BITS) * LOG2_10_DENOMINATOR >= a * LOG2_10_NUMERATOR,
{
    let d = LOG2_10_DENOMINATOR as int;
    let x = (a * LOG2_10_NUMERATOR + d - 1) as int;
    let y = (b * LOG2_10_NUMERATOR + d - 1) as int;
    assert(a * LOG2_10_NUMERATOR <= b * LOG2_10_NUMERATOR) by (nonlinear_arith)
        requires
            a <= b,
    ;
    vstd::arithmetic::div_mod::lemma_div_is_ordered(x, y, d);
    vstd::arithmetic::div_mod::lemma_fundamental_div_mod(x, d);
}

} // verus!
