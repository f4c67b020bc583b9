//! The five scalar master families, their argument layout and Laurent tags.
use vstd::prelude::*;
use crate::text::{ascii_upper, chars_of, spec_ascii_upper, spec_trim, trim};

verus! {

/// Scalar integral family. Each evaluator returns finite, simple-pole and
/// double-pole coefficients, with `mu_squared` as its final numeric argument.
#[derive(Clone, Copy, Debug, PartialEq, Eq, Hash, Structural)]
pub enum ScalarIntegral {
    A0,
    B0,
    DB0,
    C0,
    D0,
}

/// Every family, in declaration order.
pub open spec fn spec_all_families() -> Seq<ScalarIntegral> {
    seq![
        ScalarIntegral::A0,
        ScalarIntegral::B0,
        ScalarIntegral::DB0,
        ScalarIntegral::C0,
        ScalarIntegral::D0,
    ]
}

impl ScalarIntegral {
    /// Conventional master name.
    pub open spec fn spec_name(self) -> Seq<char> {
        match self {
            ScalarIntegral::A0 => "A0"@,
            ScalarIntegral::B0 => "B0"@,
            ScalarIntegral::DB0 => "dB0"@,
            ScalarIntegral::C0 => "C0"@,
            ScalarIntegral::D0 => "D0"@,
        }
    }

    /// Number of numeric arguments, including the squared scale.
    pub open spec fn spec_arity(self) -> nat {
        match self {
            ScalarIntegral::A0 => 2,
            ScalarIntegral::B0 => 4,
            ScalarIntegral::DB0 => 4,
            ScalarIntegral::C0 => 7,
            ScalarIntegral::D0 => 11,
        }
    }

    /// Number of leading external squared invariants among the arguments.
    pub open spec fn spec_momenta(self) -> nat {
        match self {
            ScalarIntegral::A0 => 0,
            ScalarIntegral::B0 => 1,
            ScalarIntegral::DB0 => 1,
            ScalarIntegral::C0 => 3,
            ScalarIntegral::D0 => 6,
        }
    }

    /// Position of the family in declaration order.
    pub open spec fn spec_index(self) -> nat {
        match self {
            ScalarIntegral::A0 => 0,
            ScalarIntegral::B0 => 1,
            ScalarIntegral::DB0 => 2,
            ScalarIntegral::C0 => 3,
            ScalarIntegral::D0 => 4,
        }
    }

    /// Conventional master name.
    pub fn name(self) -> (r: &'static str)
        ensures
            r@ == self.spec_name(),
    {
        match self {
            ScalarIntegral::A0 => "A0",
            ScalarIntegral::B0 => "B0",
            ScalarIntegral::DB0 => "dB0",
            ScalarIntegral::C0 => "C0",
            ScalarIntegral::D0 => "D0",
        }
    }

    /// Number of numeric arguments, including the squared scale but not the
    /// Laurent tag used by the Symbol interface.
    pub fn arity(self) -> (r: usize)
        ensures
            r == self.spec_arity(),
    {
        match self {
            ScalarIntegral::A0 => 2,
            ScalarIntegral::B0 => 4,
            ScalarIntegral::DB0 => 4,
            ScalarIntegral::C0 => 7,
            ScalarIntegral::D0 => 11,
        }
    }

    /// Number of external squared invariants, which precede the squared masses.
    pub fn momenta(self) -> (r: usize)
        ensures
            r == self.spec_momenta(),
    {
        match self {
            ScalarIntegral::A0 => 0,
            ScalarIntegral::B0 => 1,
            ScalarIntegral::DB0 => 1,
            ScalarIntegral::C0 => 3,
            ScalarIntegral::D0 => 6,
        }
    }

    /// Position in declaration order; also the family byte of serialized caches.
    pub fn index(self) -> (r: u8)
        ensures
            r == self.spec_index(),
    {
        match self {
            ScalarIntegral::A0 => 0,
            ScalarIntegral::B0 => 1,
            ScalarIntegral::DB0 => 2,
            ScalarIntegral::C0 => 3,
            ScalarIntegral::D0 => 4,
        }
    }

    /// The family at a declaration-order position.
    pub fn from_index(index: u8) -> (r: Option<ScalarIntegral>)
        ensures
            index < 5 <==> r is Some,
            r matches Some(f) ==> f.spec_index() == index,
    {
        match index {
            0 => Some(ScalarIntegral::A0),
            1 => Some(ScalarIntegral::B0),
            2 => Some(ScalarIntegral::DB0),
            3 => Some(ScalarIntegral::C0),
            4 => Some(ScalarIntegral::D0),
            _ => None,
        }
    }

    /// Checks a numeric argument count against the family's arity.
    pub fn check_arity(self, count: usize) -> (r: Result<(), ArityMismatch>)
        ensures
            r is Ok <==> count == self.spec_arity(),
            r matches Err(e) ==> e == (ArityMismatch { family: self, received: count }),
    {
        if count == self.arity() {
            Ok(())
        } else {
            Err(ArityMismatch { family: self, received: count })
        }
    }
}

/// A numeric argument list whose length differs from the family's arity.
#[derive(Clone, Copy, Debug, PartialEq, Eq, Structural)]
pub struct ArityMismatch {
    pub family: ScalarIntegral,
    pub received: usize,
}

/// Laurent tag of a coefficient position: `0`, `-1` or `-2`.
pub open spec fn spec_laurent_tag(index: nat) -> int {
    -(index as int)
}

/// Coefficient position selected by a master call's Laurent tag: `0` for
/// the finite part, `-1` for the simple pole, `-2` for the double pole.
/// Other tags are not Laurent tags of a master call.
pub fn coefficient_index(tag: i64) -> (r: usize)
    requires
        tag == 0 || tag == -1 || tag == -2,
    ensures
        r < 3,
        spec_laurent_tag(r as nat) == tag,
{
    if tag == 0 {
        0
    } else if tag == -1 {
        1
    } else {
        2
    }
}

/// Laurent tag of the coefficient at `index`, the inverse of [`coefficient_index`].
pub fn laurent_tag(index: usize) -> (r: i64)
    requires
        index < 3,
    ensures
        r == spec_laurent_tag(index as nat),
{
    if index == 0 {
        0
    } else if index == 1 {
        -1
    } else {
        -2
    }
}

/// An optional requested coefficient: `None` selects all three coefficients.
pub fn selected_coefficient(coefficient: Option<i32>) -> (r: Result<Option<usize>, &'static str>)
    ensures
        coefficient is None ==> r == Ok::<Option<usize>, &'static str>(None),
        coefficient matches Some(t) ==> (r is Ok <==> (t == 0 || t == -1 || t == -2)),
        coefficient matches Some(t) ==> (r matches Ok(Some(i)) ==> i < 3 && spec_laurent_tag(
            i as nat,
        ) == t),
        r matches Ok(v) ==> (v is None <==> coefficient is None),
        r matches Err(m) ==> m@ == "coefficient must be 0, -1 or -2"@,
{
    match coefficient {
        None => Ok(None),
        Some(tag) => if tag == 0 || tag == -1 || tag == -2 {
            Ok(Some(coefficient_index(tag as i64)))
        } else {
            Err("coefficient must be 0, -1 or -2")
        },
    }
}

/// `name` with white space trimmed and ASCII letters upper-cased.
pub open spec fn spec_family_key(name: Seq<char>) -> Seq<char> {
    spec_trim(name).map_values(|c: char| spec_ascii_upper(c))
}

/// The family a case-insensitive name selects, as the Python adapter reads it.
pub open spec fn spec_parse_family(name: Seq<char>) -> Option<ScalarIntegral> {
    let key = spec_family_key(name);
    if key == "A0"@ {
        Some(ScalarIntegral::A0)
    } else if key == "B0"@ {
        Some(ScalarIntegral::B0)
    } else if key == "DB0"@ {
        Some(ScalarIntegral::DB0)
    } else if key == "C0"@ {
        Some(ScalarIntegral::C0)
    } else if key == "D0"@ {
        Some(ScalarIntegral::D0)
    } else {
        None
    }
}

/// Upper-cases the ASCII letters of `s`.
fn upper_all(s: &Vec<char>) -> (r: Vec<char>)
    ensures
        r@ == s@.map_values(|c: char| spec_ascii_upper(c)),
{
    let mut out: Vec<char> = Vec::new();
    let mut i: usize = 0;
    while i < s.len()
        invariant
            i <= s@.len(),
            out@ == s@.take(i as int).map_values(|c: char| spec_ascii_upper(c)),
        decreases s.len() - i,
    {
        out.push(ascii_upper(s[i]));
        assert(s@.take(i + 1) == s@.take(i as int).push(s@[i as int]));
        i = i + 1;
    }
    assert(s@.take(s@.len() as int) == s@);
    out
}

/// Whether the characters `key` spell exactly the two characters `a`, `b`.
fn is_pair(key: &Vec<char>, a: char, b: char) -> (r: bool)
    ensures
        r == (key@ == seq![a, b]),
{
    if key.len() == 2 && key[0] == a && key[1] == b {
        assert(key@ == seq![a, b]);
        true
    } else {
        false
    }
}

/// Whether the characters `key` spell exactly `a`, `b`, `c`.
fn is_triple(key: &Vec<char>, a: char, b: char, c: char) -> (r: bool)
    ensures
        r == (key@ == seq![a, b, c]),
{
    if key.len() == 3 && key[0] == a && key[1] == b && key[2] == c {
        assert(key@ == seq![a, b, c]);
        true
    } else {
        false
    }
}

/// The family a case-insensitive, white-space-padded name selects
/// (`A0`, `B0`, `dB0`, `C0` or `D0`).
pub fn parse_family(name: &str) -> (r: Option<ScalarIntegral>)
    ensures
        r == spec_parse_family(name@),
{
    proof {
        reveal_strlit("A0");
        reveal_strlit("B0");
        reveal_strlit("DB0");
        reveal_strlit("C0");
        reveal_strlit("D0");
    }
    let chars = chars_of(name);
    let trimmed = trim(&chars);
    let key = upper_all(&trimmed);
    assert("A0"@ == seq!['A', '0']);
    assert("B0"@ == seq!['B', '0']);
    assert("C0"@ == seq!['C', '0']);
    assert("D0"@ == seq!['D', '0']);
    assert("DB0"@ == seq!['D', 'B', '0']);
    let is_db0 = is_triple(&key, 'D', 'B', '0');
    if is_pair(&key, 'A', '0') {
        Some(ScalarIntegral::A0)
    } else if is_pair(&key, 'B', '0') {
        Some(ScalarIntegral::B0)
    } else if is_db0 {
        Some(ScalarIntegral::DB0)
    } else if is_pair(&key, 'C', '0') {
        Some(ScalarIntegral::C0)
    } else if is_pair(&key, 'D', '0') {
        Some(ScalarIntegral::D0)
    } else {
        None
    }
}

/// A name that [`parse_family`] reads back as the family it names.
pub proof fn lemma_parse_family_name(f: ScalarIntegral)
    ensures
        spec_parse_family(f.spec_name()) == Some(f),
{
    reveal_strlit("A0");
    reveal_strlit("B0");
    reveal_strlit("dB0");
    reveal_strlit("DB0");
    reveal_strlit("C0");
    reveal_strlit("D0");
    let s = f.spec_name();
    assert(crate::text::space_from(s, 0) == 0);
    assert(crate::text::space_before(s, s.len() as int) == 0);
    assert(spec_trim(s) == s);
    let key = spec_family_key(s);
    match f {
        ScalarIntegral::A0 => assert(key == "A0"@),
        ScalarIntegral::B0 => assert(key == "B0"@),
        ScalarIntegral::DB0 => assert(key == "DB0"@),
        ScalarIntegral::C0 => assert(key == "C0"@),
        ScalarIntegral::D0 => assert(key == "D0"@),
    }
}

/// Each coefficient position has its own Laurent tag, so that
/// [`coefficient_index`] reads back from [`laurent_tag`] the position it was
/// given.
pub proof fn lemma_laurent_tags_distinct(i: nat, j: nat)
    requires
        i < 3,
        j < 3,
        spec_laurent_tag(i) == spec_laurent_tag(j),
    ensures
        i == j,
{
}

/// The arguments of a family are its external invariants, one squared mass
/// per propagator and the squared scale last; a loop with `m` propagators
/// has `m (m - 1) / 2` invariants, one per pair of propagators.
pub proof fn lemma_argument_layout(family: ScalarIntegral)
    ensures
        family.spec_arity() >= family.spec_momenta() + 2,
        1 <= family.spec_arity() - family.spec_momenta() - 1 <= 4,
        family.spec_momenta() * 2 == (family.spec_arity() - family.spec_momenta() - 1) * (family.spec_arity()
            - family.spec_momenta() - 2),
{
    match family {
        ScalarIntegral::A0 => assert(0 * 2 == 1 * 0),
        ScalarIntegral::B0 | ScalarIntegral::DB0 => assert(1 * 2 == 2 * 1),
        ScalarIntegral::C0 => assert(3 * 2 == 3 * 2),
        ScalarIntegral::D0 => assert(6 * 2 == 4 * 3),
    }
}

} // verus!
