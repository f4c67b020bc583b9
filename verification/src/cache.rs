//! Framing of serialized evaluator caches: a version tag, two little-endian
//! 64-bit dimensions, then the portable payload; scalar caches add a leading
//! family byte.
use vstd::prelude::*;
use vstd::arithmetic::div_mod::lemma_mod_breakdown;
use vstd::string::StringSliceAdditionalSpecFns;
use crate::family::ScalarIntegral;

verus! {

/// Version tag that opens every evaluator cache. Portable intermediate code
/// is not a stable cross-version format, so the tag pins every component.
pub const FORMAT_TAG: &'static str = "oneloop-jit-v1:fb845d34bda8ccf1fedef6544d3aa46dc24944e3:native-fixes-v1:symjit-2.24.1-patched-v3:strict-o2-simd1\0";

/// The bytes of [`FORMAT_TAG`].
pub open spec fn spec_format_tag() -> Seq<u8> {
    FORMAT_TAG.spec_bytes()
}

pub open spec fn pow256(n: nat) -> nat
    decreases n,
{
    if n == 0 {
        1
    } else {
        256 * pow256((n - 1) as nat)
    }
}

/// The `n` least significant bytes of `x`, least significant first.
pub open spec fn spec_le_bytes(x: nat, n: nat) -> Seq<u8>
    decreases n,
{
    if n == 0 {
        Seq::empty()
    } else {
        seq![(x % 256) as u8] + spec_le_bytes(x / 256, (n - 1) as nat)
    }
}

/// The number that little-endian bytes `s` represent.
pub open spec fn spec_le_value(s: Seq<u8>) -> nat
    decreases s.len(),
{
    if s.len() == 0 {
        0
    } else {
        s[0] as nat + 256 * spec_le_value(s.drop_first())
    }
}

proof fn lemma_le_bytes_len(x: nat, n: nat)
    ensures
        spec_le_bytes(x, n).len() == n,
    decreases n,
{
    if n > 0 {
        lemma_le_bytes_len(x / 256, (n - 1) as nat);
    }
}

proof fn lemma_pow256_positive(n: nat)
    ensures
        pow256(n) > 0,
    decreases n,
{
    if n > 0 {
        lemma_pow256_positive((n - 1) as nat);
    }
}

/// Reading back `n` written bytes gives the number modulo `256^n`.
pub proof fn lemma_le_roundtrip(x: nat, n: nat)
    ensures
        spec_le_value(spec_le_bytes(x, n)) == x % pow256(n),
    decreases n,
{
    if n > 0 {
        let m = (n - 1) as nat;
        lemma_le_roundtrip(x / 256, m);
        lemma_pow256_positive(m);
        let s = spec_le_bytes(x, n);
        assert(s.drop_first() == spec_le_bytes(x / 256, m));
        lemma_mod_breakdown(x as int, 256, pow256(m) as int);
    }
}

/// Little-endian bytes are at most `256^len - 1`.
proof fn lemma_le_value_bound(s: Seq<u8>)
    ensures
        spec_le_value(s) < pow256(s.len()),
    decreases s.len(),
{
    if s.len() > 0 {
        lemma_le_value_bound(s.drop_first());
        assert(spec_le_value(s) < pow256(s.len())) by (nonlinear_arith)
            requires
                spec_le_value(s) == s[0] as nat + 256 * spec_le_value(s.drop_first()),
                spec_le_value(s.drop_first()) < pow256(s.drop_first().len()),
                pow256(s.len()) == 256 * pow256(s.drop_first().len()),
                s[0] < 256,
        ;
    }
}

proof fn lemma_pow256_8()
    ensures
        pow256(8) == 0x1_0000_0000_0000_0000,
{
    reveal_with_fuel(pow256, 9);
}

/// The eight little-endian bytes of `x`.
pub fn u64_le_bytes(x: u64) -> (r: Vec<u8>)
    ensures
        r@ == spec_le_bytes(x as nat, 8),
{
    let mut out: Vec<u8> = Vec::new();
    let mut v = x;
    let mut i: usize = 0;
    while i < 8
        invariant
            i <= 8,
            out@ + spec_le_bytes(v as nat, (8 - i) as nat) == spec_le_bytes(x as nat, 8),
        decreases 8 - i,
    {
        let byte = (v % 256) as u8;
        assert(spec_le_bytes(v as nat, (8 - i) as nat) == seq![byte] + spec_le_bytes(
            (v / 256) as nat,
            (8 - i - 1) as nat,
        ));
        assert(out@.push(byte) + spec_le_bytes((v / 256) as nat, (8 - i - 1) as nat) == out@ + (
        seq![byte] + spec_le_bytes((v / 256) as nat, (8 - i - 1) as nat)));
        out.push(byte);
        v = v / 256;
        i = i + 1;
    }
    assert(spec_le_bytes(v as nat, 0) == Seq::<u8>::empty());
    assert(out@ + Seq::<u8>::empty() == out@);
    out
}

/// The number eight little-endian bytes represent.
pub fn u64_from_le(bytes: &[u8]) -> (r: u64)
    requires
        bytes@.len() == 8,
    ensures
        r == spec_le_value(bytes@),
{
    let mut acc: u64 = 0;
    let mut k: usize = 8;
    proof {
        lemma_pow256_8();
    }
    while k > 0
        invariant
            k <= 8,
            bytes@.len() == 8,
            acc == spec_le_value(bytes@.subrange(k as int, 8)),
            pow256(8) == 0x1_0000_0000_0000_0000,
        decreases k,
    {
        let ghost tail = bytes@.subrange(k as int, 8);
        let ghost longer = bytes@.subrange(k - 1, 8);
        proof {
            assert(longer.drop_first() == tail);
            lemma_le_value_bound(longer);
            assert(pow256(longer.len()) <= pow256(8)) by {
                lemma_pow256_monotone(longer.len(), 8);
            }
        }
        let b = bytes[k - 1];
        acc = b as u64 + 256 * acc;
        k = k - 1;
    }
    assert(bytes@.subrange(0, 8) == bytes@);
    acc
}

proof fn lemma_pow256_monotone(a: nat, b: nat)
    requires
        a <= b,
    ensures
        pow256(a) <= pow256(b),
    decreases b,
{
    if a < b {
        lemma_pow256_monotone(a, (b - 1) as nat);
        lemma_pow256_positive((b - 1) as nat);
    }
}

/// A rejected cache.
#[derive(Clone, Copy, Debug, PartialEq, Eq, Structural)]
pub enum CacheError {
    /// The data does not start with [`FORMAT_TAG`].
    Incompatible,
    /// Fewer than sixteen dimension bytes follow the tag.
    Truncated,
    /// A stored dimension exceeds this platform's `usize`.
    DimensionRange,
    /// A scalar cache belongs to another family.
    WrongFamily,
    /// A scalar cache's dimensions differ from its family's.
    WrongDimensions,
}

impl CacheError {
    pub open spec fn spec_message(self) -> Seq<char> {
        match self {
            CacheError::Incompatible => "incompatible evaluator cache"@,
            CacheError::Truncated => "truncated evaluator cache"@,
            CacheError::DimensionRange => "evaluator dimension does not fit this platform"@,
            CacheError::WrongFamily => "wrong scalar family in evaluator cache"@,
            CacheError::WrongDimensions => "wrong dimensions in scalar evaluator cache"@,
        }
    }

    pub fn message(self) -> (r: &'static str)
        ensures
            r@ == self.spec_message(),
    {
        match self {
            CacheError::Incompatible => "incompatible evaluator cache",
            CacheError::Truncated => "truncated evaluator cache",
            CacheError::DimensionRange => "evaluator dimension does not fit this platform",
            CacheError::WrongFamily => "wrong scalar family in evaluator cache",
            CacheError::WrongDimensions => "wrong dimensions in scalar evaluator cache",
        }
    }
}

/// What a cache holds after its tag: the input and output dimensions and the
/// remaining payload, or the first rule the data breaks.
pub open spec fn spec_cache_payload(data: Seq<u8>) -> Result<(Seq<u8>, nat, nat), CacheError> {
    let tag = spec_format_tag();
    if data.len() < tag.len() || data.take(tag.len() as int) != tag {
        Err(CacheError::Incompatible)
    } else {
        let rest = data.skip(tag.len() as int);
        if rest.len() < 16 {
            Err(CacheError::Truncated)
        } else {
            let inputs = spec_le_value(rest.take(8));
            let outputs = spec_le_value(rest.subrange(8, 16));
            if inputs > usize::MAX || outputs > usize::MAX {
                Err(CacheError::DimensionRange)
            } else {
                Ok((rest.skip(16), inputs, outputs))
            }
        }
    }
}

/// Whether `data` starts with `prefix`.
fn starts_with(data: &[u8], prefix: &[u8]) -> (r: bool)
    ensures
        r == (data@.len() >= prefix@.len() && data@.take(prefix@.len() as int) == prefix@),
{
    if data.len() < prefix.len() {
        return false;
    }
    let mut i: usize = 0;
    while i < prefix.len()
        invariant
            i <= prefix@.len() <= data@.len(),
            forall|k: int| 0 <= k < i ==> data@[k] == prefix@[k],
        decreases prefix.len() - i,
    {
        if data[i] != prefix[i] {
            assert(data@.take(prefix@.len() as int)[i as int] != prefix@[i as int]);
            return false;
        }
        i = i + 1;
    }
    assert(data@.take(prefix@.len() as int) == prefix@);
    true
}

/// Splits a cache into its payload and its input and output dimensions.
pub fn cache_payload(data: &[u8]) -> (r: Result<(&[u8], usize, usize), CacheError>)
    ensures
        match (r, spec_cache_payload(data@)) {
            (Ok((p, i, o)), Ok((sp, si, so))) => p@ == sp && i == si && o == so,
            (Err(e), Err(se)) => e == se,
            _ => false,
        },
{
    let tag = FORMAT_TAG.as_bytes();
    if !starts_with(data, tag) {
        return Err(CacheError::Incompatible);
    }
    let payload = vstd::slice::slice_subrange(data, tag.len(), data.len());
    assert(payload@ == data@.skip(tag@.len() as int));
    if payload.len() < 16 {
        return Err(CacheError::Truncated);
    }
    let first = vstd::slice::slice_subrange(payload, 0, 8);
    let second = vstd::slice::slice_subrange(payload, 8, 16);
    assert(first@ == payload@.take(8));
    let inputs = usize::try_from(u64_from_le(first));
    let inputs = match inputs {
        Ok(v) => v,
        Err(_) => return Err(CacheError::DimensionRange),
    };
    let outputs = usize::try_from(u64_from_le(second));
    let outputs = match outputs {
        Ok(v) => v,
        Err(_) => return Err(CacheError::DimensionRange),
    };
    let rest = vstd::slice::slice_subrange(payload, 16, payload.len());
    assert(rest@ == payload@.skip(16));
    Ok((rest, inputs, outputs))
}

/// The cache of an evaluator with the given dimensions and portable payload.
pub open spec fn spec_encode_cache(inputs: nat, outputs: nat, payload: Seq<u8>) -> Seq<u8> {
    spec_format_tag() + spec_le_bytes(inputs, 8) + spec_le_bytes(outputs, 8) + payload
}

/// Writes the tag, both dimensions and the payload.
pub fn encode_cache(inputs: usize, outputs: usize, payload: &[u8]) -> (r: Vec<u8>)
    ensures
        r@ == spec_encode_cache(inputs as nat, outputs as nat, payload@),
{
    let tag = FORMAT_TAG.as_bytes();
    let mut data: Vec<u8> = Vec::new();
    append(&mut data, tag);
    let a = u64_le_bytes(inputs as u64);
    append(&mut data, a.as_slice());
    let b = u64_le_bytes(outputs as u64);
    append(&mut data, b.as_slice());
    append(&mut data, payload);
    data
}

/// Appends the bytes of `tail` to `data`.
fn append(data: &mut Vec<u8>, tail: &[u8])
    ensures
        final(data)@ == old(data)@ + tail@,
{
    let mut i: usize = 0;
    let ghost start = data@;
    while i < tail.len()
        invariant
            i <= tail@.len(),
            data@ == start + tail@.take(i as int),
        decreases tail.len() - i,
    {
        data.push(tail[i]);
        assert(tail@.take(i + 1) == tail@.take(i as int).push(tail@[i as int]));
        i = i + 1;
    }
    assert(tail@.take(tail@.len() as int) == tail@);
}

/// Reading a written cache gives back its dimensions and payload.
pub proof fn lemma_cache_roundtrip(inputs: usize, outputs: usize, payload: Seq<u8>)
    ensures
        spec_cache_payload(spec_encode_cache(inputs as nat, outputs as nat, payload)) == Ok::<
            (Seq<u8>, nat, nat),
            CacheError,
        >((payload, inputs as nat, outputs as nat)),
{
    let tag = spec_format_tag();
    let a = spec_le_bytes(inputs as nat, 8);
    let b = spec_le_bytes(outputs as nat, 8);
    let data = spec_encode_cache(inputs as nat, outputs as nat, payload);
    lemma_le_bytes_len(inputs as nat, 8);
    lemma_le_bytes_len(outputs as nat, 8);
    assert(data.take(tag.len() as int) == tag);
    let rest = data.skip(tag.len() as int);
    assert(rest == a + b + payload);
    assert(rest.take(8) == a);
    assert(rest.subrange(8, 16) == b);
    assert(rest.skip(16) == payload);
    lemma_le_roundtrip(inputs as nat, 8);
    lemma_le_roundtrip(outputs as nat, 8);
    lemma_pow256_8();
    assert((inputs as nat) % pow256(8) == inputs as nat);
    assert((outputs as nat) % pow256(8) == outputs as nat);
}

/// The body after the family byte of a scalar cache whose family and
/// dimensions match `family`, or the first rule the data breaks.
pub open spec fn spec_scalar_cache_body(family: ScalarIntegral, data: Seq<u8>) -> Result<
    Seq<u8>,
    CacheError,
> {
    if data.len() == 0 || data[0] != family.spec_index() {
        Err(CacheError::WrongFamily)
    } else {
        match spec_cache_payload(data.skip(1)) {
            Err(e) => Err(e),
            Ok((_, inputs, outputs)) => if inputs != family.spec_arity() || outputs != 3 {
                Err(CacheError::WrongDimensions)
            } else {
                Ok(data.skip(1))
            },
        }
    }
}

/// Checks the family byte and dimensions of a scalar cache and returns the
/// evaluator cache that follows the family byte.
pub fn scalar_cache_body(family: ScalarIntegral, data: &[u8]) -> (r: Result<&[u8], CacheError>)
    ensures
        match (r, spec_scalar_cache_body(family, data@)) {
            (Ok(b), Ok(sb)) => b@ == sb,
            (Err(e), Err(se)) => e == se,
            _ => false,
        },
{
    if data.len() == 0 || data[0] != family.index() {
        return Err(CacheError::WrongFamily);
    }
    let body = vstd::slice::slice_subrange(data, 1, data.len());
    assert(body@ == data@.skip(1));
    match cache_payload(body) {
        Err(e) => Err(e),
        Ok((_, inputs, outputs)) => {
            if inputs != family.arity() || outputs != 3 {
                Err(CacheError::WrongDimensions)
            } else {
                Ok(body)
            }
        },
    }
}

/// The scalar cache of `family`: its family byte, then the evaluator cache.
pub open spec fn spec_encode_scalar_cache(family: ScalarIntegral, payload: Seq<u8>) -> Seq<u8> {
    seq![family.spec_index() as u8] + spec_encode_cache(family.spec_arity(), 3, payload)
}

pub fn encode_scalar_cache(family: ScalarIntegral, payload: &[u8]) -> (r: Vec<u8>)
    ensures
        r@ == spec_encode_scalar_cache(family, payload@),
{
    let mut data: Vec<u8> = Vec::new();
    data.push(family.index());
    let body = encode_cache(family.arity(), 3, payload);
    append(&mut data, body.as_slice());
    data
}

/// A written scalar cache is accepted for its own family, and only for it,
/// and its body reads back as the evaluator cache that was written.
pub proof fn lemma_scalar_cache_roundtrip(
    family: ScalarIntegral,
    other: ScalarIntegral,
    payload: Seq<u8>,
)
    ensures
        spec_scalar_cache_body(family, spec_encode_scalar_cache(family, payload)) == Ok::<
            Seq<u8>,
            CacheError,
        >(spec_encode_cache(family.spec_arity(), 3, payload)),
        other != family ==> spec_scalar_cache_body(other, spec_encode_scalar_cache(family, payload))
            == Err::<Seq<u8>, CacheError>(CacheError::WrongFamily),
{
    let data = spec_encode_scalar_cache(family, payload);
    let body = spec_encode_cache(family.spec_arity(), 3, payload);
    assert(data.skip(1) == body);
    lemma_cache_roundtrip(family.spec_arity() as usize, 3, payload);
}

} // verus!
