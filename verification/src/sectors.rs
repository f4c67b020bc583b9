//! Mass sectors of the triangle and box, their cyclic relabelings, and the
//! zero-pattern routing of the massless box.
//!
//! A sector numbers the propagators whose squared mass is nonzero: for the
//! triangle mass `i` contributes bit `2 - i`, for the box mass `i` bit `3 - i`.
//! A nested `if` on the conditions, first condition outermost, selects the
//! branch with that number.
use vstd::prelude::*;

verus! {

/// Branch selected by three nonzero tests, the first one outermost: the
/// sector whose masses are nonzero where the tests are.
pub open spec fn spec_three_index(first: bool, second: bool, third: bool) -> nat {
    (if first { 4nat } else { 0nat }) + (if second { 2nat } else { 0nat }) + (if third { 1nat } else { 0nat })
}

/// Branch selected by four nonzero tests, the first one outermost.
pub open spec fn spec_four_index(first: bool, second: bool, third: bool, fourth: bool) -> nat {
    (if first { 8nat } else { 0nat }) + (if second { 4nat } else { 0nat }) + (if third { 2nat } else { 0nat }) + (if fourth { 1nat } else { 0nat })
}

/// Nonzero pattern of a triangle sector, mass by mass.
pub open spec fn spec_triangle_pattern(sector: nat) -> Seq<bool> {
    seq![sector / 4 % 2 == 1, sector / 2 % 2 == 1, sector % 2 == 1]
}

/// Nonzero pattern of a box sector, mass by mass.
pub open spec fn spec_box_pattern(sector: nat) -> Seq<bool> {
    seq![sector / 8 % 2 == 1, sector / 4 % 2 == 1, sector / 2 % 2 == 1, sector % 2 == 1]
}

/// How a triangle sector is computed.
#[derive(Clone, Copy, Debug, PartialEq, Eq, Structural)]
pub enum TriangleSector {
    /// A sector with its own formula.
    Canonical,
    /// The formula of sector `canonical`, with masses and momenta rotated by `shift`.
    Rotated { canonical: usize, shift: usize },
}

/// Triangle sectors with their own formulas: massless, one mass (the third),
/// two masses (the last two) and three masses.
pub open spec fn spec_triangle_canonical(sector: nat) -> bool {
    sector == 0 || sector == 1 || sector == 3 || sector == 7
}

pub open spec fn spec_triangle_sector(sector: nat) -> TriangleSector {
    if sector == 2 {
        TriangleSector::Rotated { canonical: 1, shift: 2 }
    } else if sector == 4 {
        TriangleSector::Rotated { canonical: 1, shift: 1 }
    } else if sector == 5 {
        TriangleSector::Rotated { canonical: 3, shift: 1 }
    } else if sector == 6 {
        TriangleSector::Rotated { canonical: 3, shift: 2 }
    } else {
        TriangleSector::Canonical
    }
}

/// Argument positions of a triangle call rotated by `shift`: the rotated
/// call's argument `i` is the original argument `r[i]` (three momenta, three
/// masses, then the squared scale).
pub open spec fn spec_triangle_rotation(shift: nat) -> Seq<usize> {
    Seq::new(7, |i: int| if i < 3 {
        ((i + shift) % 3) as usize
    } else if i < 6 {
        (3 + (i - 3 + shift) % 3) as usize
    } else {
        6usize
    })
}

/// Every triangle sector has its own formula or rotates to one, and the
/// rotation carries the sector's nonzero masses onto the canonical sector's:
/// the rotated call's mass `i` is the original mass `(i + shift) % 3`.
pub proof fn lemma_triangle_rotations_preserve_sectors(sector: nat)
    requires
        sector < 8,
    ensures
        spec_triangle_sector(sector) matches TriangleSector::Rotated { canonical, shift } ==> {
            &&& spec_triangle_canonical(canonical as nat)
            &&& shift < 3
            &&& forall|i: int|
                0 <= i < 3 ==> spec_triangle_pattern(canonical as nat)[i] == spec_triangle_pattern(
                    sector,
                )[(i + shift) % 3]
        },
        spec_triangle_sector(sector) is Canonical ==> spec_triangle_canonical(sector),
{
}

/// How a box sector is computed.
#[derive(Clone, Copy, Debug, PartialEq, Eq, Structural)]
pub enum BoxSector {
    Canonical,
    Rotated { canonical: usize, shift: usize },
}

/// Box sectors with their own formulas: massless, one mass (the fourth), two
/// adjacent masses (third and fourth), two opposite masses (second and
/// fourth), three masses (second to fourth) and four masses.
pub open spec fn spec_box_canonical(sector: nat) -> bool {
    sector == 0 || sector == 1 || sector == 3 || sector == 5 || sector == 7 || sector == 15
}

pub open spec fn spec_box_sector(sector: nat) -> BoxSector {
    if sector == 2 {
        BoxSector::Rotated { canonical: 1, shift: 3 }
    } else if sector == 4 {
        BoxSector::Rotated { canonical: 1, shift: 2 }
    } else if sector == 6 {
        BoxSector::Rotated { canonical: 3, shift: 3 }
    } else if sector == 8 {
        BoxSector::Rotated { canonical: 1, shift: 1 }
    } else if sector == 9 {
        BoxSector::Rotated { canonical: 3, shift: 1 }
    } else if sector == 10 {
        BoxSector::Rotated { canonical: 5, shift: 3 }
    } else if sector == 11 {
        BoxSector::Rotated { canonical: 7, shift: 1 }
    } else if sector == 12 {
        BoxSector::Rotated { canonical: 3, shift: 2 }
    } else if sector == 13 {
        BoxSector::Rotated { canonical: 7, shift: 2 }
    } else if sector == 14 {
        BoxSector::Rotated { canonical: 7, shift: 3 }
    } else {
        BoxSector::Canonical
    }
}

/// Momentum positions of a box relabeled by `shift` vertices: the relabeled
/// call's invariant `i` is the original invariant `r[i]` (four external
/// squares, then the two channels).
pub open spec fn spec_box_momentum_rotation(shift: nat) -> Seq<usize> {
    if shift == 0 {
        seq![0usize, 1, 2, 3, 4, 5]
    } else if shift == 1 {
        seq![1usize, 2, 3, 0, 5, 4]
    } else if shift == 2 {
        seq![2usize, 3, 0, 1, 4, 5]
    } else {
        seq![3usize, 0, 1, 2, 5, 4]
    }
}

/// Argument positions of a box call relabeled by `shift`: six invariants,
/// four masses rotated by `shift`, then the squared scale.
pub open spec fn spec_box_rotation(shift: nat) -> Seq<usize> {
    spec_box_momentum_rotation(shift) + Seq::new(4, |i: int| (6 + (i + shift) % 4) as usize) + seq![10usize]
}

/// Every box sector has its own formula or rotates to one, and the
/// rotation carries the sector's nonzero masses onto the canonical sector's.
pub proof fn lemma_box_rotations_preserve_sectors(sector: nat)
    requires
        sector < 16,
    ensures
        spec_box_sector(sector) matches BoxSector::Rotated { canonical, shift } ==> {
            &&& spec_box_canonical(canonical as nat)
            &&& 1 <= shift < 4
            &&& forall|i: int|
                0 <= i < 4 ==> spec_box_pattern(canonical as nat)[i] == spec_box_pattern(
                    sector,
                )[(i + shift) % 4]
        },
        spec_box_sector(sector) is Canonical ==> spec_box_canonical(sector),
{
}

/// Applying the one-vertex relabeling `k` times gives the `k`-vertex
/// relabeling, and four relabelings restore the original invariants.
pub proof fn lemma_box_rotations_compose(k: nat)
    requires
        k < 4,
    ensures
        forall|i: int|
            0 <= i < 6 ==> spec_box_momentum_rotation((k + 1) % 4)[i] == spec_box_momentum_rotation(
                k,
            )[spec_box_momentum_rotation(1)[i] as int],
{
}

/// How the massless box treats one pattern of nonzero external squares.
#[derive(Clone, Copy, Debug, PartialEq, Eq, Structural)]
pub enum MasslessBoxCase {
    /// All four external squares vanish.
    NoScale,
    /// Exactly one external square is nonzero.
    OneScale,
    /// Two adjacent external squares are nonzero.
    AdjacentScales,
    /// Three external squares are nonzero.
    ThreeScales,
    /// All four external squares are nonzero: the finite formula.
    Finite,
    /// Two opposite external squares are nonzero.
    OppositeScales,
}

/// External-square pattern each case is evaluated on, after relabeling.
pub open spec fn spec_massless_canonical(case: MasslessBoxCase) -> nat {
    match case {
        MasslessBoxCase::NoScale => 0,
        MasslessBoxCase::OneScale => 1,
        MasslessBoxCase::AdjacentScales => 3,
        MasslessBoxCase::OppositeScales => 5,
        MasslessBoxCase::ThreeScales => 7,
        MasslessBoxCase::Finite => 15,
    }
}

pub open spec fn spec_massless_case(pattern: nat) -> MasslessBoxCase {
    if pattern == 0 {
        MasslessBoxCase::NoScale
    } else if pattern == 1 || pattern == 2 || pattern == 4 || pattern == 8 {
        MasslessBoxCase::OneScale
    } else if pattern == 3 || pattern == 6 || pattern == 9 || pattern == 12 {
        MasslessBoxCase::AdjacentScales
    } else if pattern == 5 || pattern == 10 {
        MasslessBoxCase::OppositeScales
    } else if pattern == 15 {
        MasslessBoxCase::Finite
    } else {
        MasslessBoxCase::ThreeScales
    }
}

/// Vertex relabeling applied before the case's formula.
pub open spec fn spec_massless_shift(pattern: nat) -> nat {
    if pattern == 2 || pattern == 6 || pattern == 10 || pattern == 14 {
        3
    } else if pattern == 4 || pattern == 12 || pattern == 13 {
        2
    } else if pattern == 8 || pattern == 9 || pattern == 11 {
        1
    } else {
        0
    }
}

/// Nonzero pattern of the four external squares after a relabeling.
pub open spec fn spec_relabeled_pattern(pattern: nat, shift: nat) -> nat {
    let p = spec_box_pattern(pattern);
    let r = spec_box_momentum_rotation(shift);
    (if p[r[0] as int] { 8nat } else { 0nat }) + (if p[r[1] as int] { 4nat } else { 0nat }) + (if p[
        r[2] as int
    ] { 2nat } else { 0nat }) + (if p[r[3] as int] { 1nat } else { 0nat })
}

/// After its relabeling, every external-square pattern is the canonical
/// pattern of its case, so each case's formula sees the zeros it expects.
pub proof fn lemma_massless_routes_are_canonical(pattern: nat)
    requires
        pattern < 16,
    ensures
        spec_relabeled_pattern(pattern, spec_massless_shift(pattern)) == spec_massless_canonical(
            spec_massless_case(pattern),
        ),
{
}

/// The representation chosen by the complex-mass box for an
/// external-square pattern.
#[derive(Clone, Copy, Debug, PartialEq, Eq, Structural)]
pub enum ContourRoute {
    /// No nonzero external square on opposite corners needs the general chart.
    Opposite,
    /// Two or three vanishing adjacent external squares.
    ZeroExternal,
    /// All external squares nonzero: sorted Källén discriminants.
    General,
}

pub open spec fn spec_contour_route(pattern: nat) -> ContourRoute {
    let case = spec_massless_case(pattern);
    if pattern == 15 {
        ContourRoute::General
    } else if case == MasslessBoxCase::NoScale || case == MasslessBoxCase::OneScale || case
        == MasslessBoxCase::OppositeScales {
        ContourRoute::Opposite
    } else {
        ContourRoute::ZeroExternal
    }
}

} // verus!
