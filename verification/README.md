# oneloop

Exact expressions for the one-loop scalar integrals A0, B0, dB0, C0 and D0
and the bubble and tadpole tensor coefficients, as Laurent series
`[finite, 1/epsilon, 1/epsilon^2]` with the squared renormalization scale
last. Inputs are squared invariants and squared masses with a nonpositive
imaginary part.

`src/` is the library, verified with Verus:

- `expr`, `functions`, `series`: the expression trees, the named helper
  definitions they call, and Laurent series; every constructor may be used
  in specifications, so each integral's contract is the exact tree it builds.
- `sheet`, `elementary`, `roots`: continuation of logarithms, square roots
  and dilogarithms onto their sheets.
- `two_point`, `triangle`, `triangle_hv`, `box_infrared`, `box_finite`,
  `box_contour`, `boxes`, `masters`: the integrals, their mass sectors and the
  master definitions.
- `sectors`: the sector tables; the laws in `triangle`, `boxes` and
  `box_contour` prove that dispatch on exact zeros and the sector rotations
  follow them.
- `branch_selection`: selection of conditional branches at a sample point.
- `expansion`, `inspection`, `inspection_formulas`: complete formulas, with
  every helper call replaced by its definition under node and depth limits,
  and the integrated triangle forms that inspection uses on two sectors.
- `coefficient_cache`, `cache`, `validation`, `precision`, `backend`,
  `family`, `text`, `initialization`: the numerical front end's
  buffers, serialized caches, argument checks, option parsing and startup.

`app/` connects the library to Symbolica: conversion of expressions to atoms,
the shared function map, evaluators, the process-wide startup state and
inspection calls written as Symbolica atoms.
`tests/` evaluates the expressions numerically in binary64.
