use std::collections::HashMap;
use std::f64::consts::PI;

use oneloop::box_infrared::{
    box_one_mass_06, box_one_mass_07, box_one_mass_08, box_one_mass_09, box_one_mass_10,
    box_three_masses_16, box_two_adjacent_11, box_two_adjacent_12, box_two_adjacent_13,
    box_two_opposite_14, box_two_opposite_15,
};
use oneloop::box_contour::{body, cyclic_args, expression as contour_box, pick, roots, sort_four};
use oneloop::box_finite::box_finite_four_masses;
use oneloop::branch_selection::{select_branch, select_branch_with};
use oneloop::expansion::{expand, Expansion, ExpansionError, Frame};
use oneloop::inspection::{
    expand_family, get_expression, get_expression_for_family, get_expression_for_family_with_options,
    get_expression_on_branch, get_expression_on_branch_with_options, get_expression_with_options, master_arguments,
    ExpressionOptions,
};
use oneloop::inspection_formulas::{
    known_real, one_mass_one_scale_series, one_mass_one_scale_triangle, opposite_invariants_series,
    opposite_invariants_triangle,
};
use oneloop::boxes::{box_massless_low_case, box_sector_definition, d0};
use oneloop::family::{ArityMismatch, ScalarIntegral};
use oneloop::masters::master_call;
use oneloop::series::Order;
use oneloop::elementary::physical_log;
use oneloop::expr::{args4, args7, if_nonzero, Args, Expr};
use oneloop::two_point::{a0, an, b0, b00, b0000, b001, b0011, b1, b11, b111, b1111, db0, UnsupportedRank};
use oneloop::functions::{definition, Contour, Func};
use oneloop::series::LaurentSeries;
use oneloop::roots::r_function;
use oneloop::sheet::dilog_body;
use oneloop::triangle::{c0, sector_definition, triangle_finite_one_mass};
use oneloop::triangle_hv::s3_call;

#[derive(Clone, Copy, Debug, PartialEq)]
struct C {
    re: f64,
    im: f64,
}

fn c(re: f64, im: f64) -> C {
    C { re, im }
}

fn r(re: f64) -> C {
    C { re, im: 0.0 }
}

impl C {
    fn add(self, o: C) -> C {
        c(self.re + o.re, self.im + o.im)
    }
    fn sub(self, o: C) -> C {
        c(self.re - o.re, self.im - o.im)
    }
    fn mul(self, o: C) -> C {
        c(self.re * o.re - self.im * o.im, self.re * o.im + self.im * o.re)
    }
    fn div(self, o: C) -> C {
        if o.im == 0.0 {
            return c(self.re / o.re, self.im / o.re);
        }
        let n = o.re * o.re + o.im * o.im;
        c(
            (self.re * o.re + self.im * o.im) / n,
            (self.im * o.re - self.re * o.im) / n,
        )
    }
    fn neg(self) -> C {
        c(-self.re, -self.im)
    }
    fn conj(self) -> C {
        c(self.re, -self.im)
    }
    fn abs(self) -> f64 {
        self.re.hypot(self.im)
    }
    fn ln(self) -> C {
        c(self.abs().ln(), self.im.atan2(self.re))
    }
    fn sqrt(self) -> C {
        if self.im == 0.0 {
            let root = self.re.abs().sqrt();
            return if self.re < 0.0 {
                c(0.0, root.copysign(self.im))
            } else {
                c(root, self.im)
            };
        }
        let s = ((self.re.abs() + self.abs()) / 2.0).sqrt();
        let d = self.im / s / 2.0;
        if self.re < 0.0 {
            c(d.abs(), s.copysign(self.im))
        } else {
            c(s, d)
        }
    }
    fn is_zero(self) -> bool {
        self.re == 0.0 && self.im == 0.0
    }
}

const BERNOULLI: [(f64, f64); 12] = [
    (1.0, 6.0),
    (-1.0, 30.0),
    (1.0, 42.0),
    (-1.0, 30.0),
    (5.0, 66.0),
    (-691.0, 2730.0),
    (7.0, 6.0),
    (-3617.0, 510.0),
    (43867.0, 798.0),
    (-174611.0, 330.0),
    (854513.0, 138.0),
    (-236364091.0, 2730.0),
];

/// sum_n B_n u^(n+1) / (n+1)!, which is Li2(1 - exp(-u)).
fn bernoulli_series(u: C) -> C {
    let u2 = u.mul(u);
    let mut sum = u.sub(u2.mul(r(0.25)));
    let mut power = u;
    let mut factorial = 1.0;
    for (k, (numerator, denominator)) in BERNOULLI.iter().enumerate() {
        let n = 2 * (k + 1) + 1;
        factorial *= ((n - 1) * n) as f64;
        power = power.mul(u2);
        sum = sum.add(power.mul(r(numerator / denominator / factorial)));
    }
    sum
}

fn pi2_6() -> f64 {
    PI * PI / 6.0
}

/// The principal dilogarithm; exactly real arguments beyond one take the
/// lower lip of the cut.
fn li2(z: C) -> C {
    if z.im == 0.0 {
        let x = z.re;
        let imaginary = if x > 1.0 { -PI * x.ln() } else { 0.0 };
        let real = if x == 0.0 {
            0.0
        } else if x < -1.0 {
            let log = (-x).ln();
            -bernoulli_series(r(-(1.0 - 1.0 / x).ln())).re - pi2_6() - 0.5 * log * log
        } else if x <= 0.5 {
            bernoulli_series(r(-(1.0 - x).ln())).re
        } else if x < 1.0 {
            let log = x.ln();
            -bernoulli_series(r(-log)).re + pi2_6() - log * (1.0 - x).ln()
        } else if x == 1.0 {
            pi2_6()
        } else if x <= 2.0 {
            let log = x.ln();
            -bernoulli_series(r(-log)).re + pi2_6() - log * (x - 1.0).ln()
        } else {
            let log = x.ln();
            -bernoulli_series(r(-(1.0 - 1.0 / x).ln())).re + 2.0 * pi2_6() - 0.5 * log * log
        };
        return c(real, imaginary);
    }
    let one_minus = r(1.0).sub(z);
    if z.re > 0.5 && one_minus.abs() <= 1.0 {
        let log_z = z.ln();
        let series = bernoulli_series(log_z.neg());
        return series.neg().add(r(pi2_6())).sub(log_z.mul(one_minus.ln()));
    }
    if z.abs() <= 1.0 {
        return bernoulli_series(one_minus.ln().neg());
    }
    let inverse = r(1.0).div(z);
    let series = bernoulli_series(r(1.0).sub(inverse).ln().neg());
    let log_minus_z = z.neg().ln();
    series
        .neg()
        .sub(r(pi2_6()))
        .sub(log_minus_z.mul(log_minus_z).mul(r(0.5)))
}

type Memo = HashMap<String, C>;

fn key(values: &[C]) -> Vec<(u64, u64)> {
    values.iter().map(|v| (v.re.to_bits(), v.im.to_bits())).collect()
}

/// Evaluates expressions in binary64, each shared node once per frame.
struct Evaluator {
    definitions: HashMap<Func, Expr>,
    calls: HashMap<(Func, Vec<(u64, u64)>), C>,
}

impl Evaluator {
    fn new() -> Self {
        Evaluator { definitions: HashMap::new(), calls: HashMap::new() }
    }

    fn eval(&mut self, e: &Expr, env: &[C], memo: &mut Memo) -> C {
        let address = format!("{e:p}");
        if let Some(value) = memo.get(&address) {
            return *value;
        }
        let value = match e {
            Expr::Int(v) => r(*v as f64),
            Expr::Pi => r(PI),
            Expr::I => c(0.0, 1.0),
            Expr::Indeterminate => c(f64::NAN, f64::NAN),
            Expr::Arg(k) => env[*k as usize],
            Expr::Add(a, b) => {
                let x = self.eval(a, env, memo);
                x.add(self.eval(b, env, memo))
            }
            Expr::Sub(a, b) => {
                let x = self.eval(a, env, memo);
                x.sub(self.eval(b, env, memo))
            }
            Expr::Mul(a, b) => {
                let x = self.eval(a, env, memo);
                x.mul(self.eval(b, env, memo))
            }
            Expr::Div(a, b) => {
                let x = self.eval(a, env, memo);
                x.div(self.eval(b, env, memo))
            }
            Expr::Neg(a) => self.eval(a, env, memo).neg(),
            Expr::Log(a) => self.eval(a, env, memo).ln(),
            Expr::Sqrt(a) => self.eval(a, env, memo).sqrt(),
            Expr::Conj(a) => self.eval(a, env, memo).conj(),
            Expr::Abs(a) => r(self.eval(a, env, memo).abs()),
            Expr::Dilog(a) => li2(self.eval(a, env, memo)),
            Expr::If(condition, nonzero, zero) => {
                if self.eval(condition, env, memo).is_zero() {
                    self.eval(zero, env, memo)
                } else {
                    self.eval(nonzero, env, memo)
                }
            }
            Expr::Call(f, args) => {
                let mut values = Vec::new();
                let mut rest: &Args = args;
                while let Args::Cons(head, tail) = rest {
                    values.push(self.eval(head, env, memo));
                    rest = tail;
                }
                assert_eq!(values.len(), f.arity(), "{f:?}");
                let call = (*f, key(&values));
                if let Some(value) = self.calls.get(&call) {
                    *value
                } else {
                    let body = self
                        .definitions
                        .entry(*f)
                        .or_insert_with(|| definition(*f))
                        .clone();
                    let value = self.eval(&body, &values, &mut Memo::new());
                    self.calls.insert(call, value);
                    value
                }
            }
        };
        memo.insert(address, value);
        value
    }

    fn value(&mut self, expression: &Expr, env: &[C]) -> C {
        self.eval(expression, env, &mut Memo::new())
    }

    fn series(&mut self, series: &LaurentSeries, env: &[C]) -> [C; 3] {
        let mut memo = Memo::new();
        [
            self.eval(&series.finite, env, &mut memo),
            self.eval(&series.simple_pole, env, &mut memo),
            self.eval(&series.double_pole, env, &mut memo),
        ]
    }
}

fn n(v: i64) -> Expr {
    Expr::num(v)
}

fn close(actual: C, expected: C, tolerance: f64) -> bool {
    actual.sub(expected).abs() < tolerance
}

#[test]
fn massive_d0_infrared_formulas_match_reference() {
    let mu = n(1);
    let m2 = n(2);
    let m3 = n(3);
    let m4 = n(4);
    let cases = [
        (
            box_one_mass_06(&n(-5), &n(-6), &m2, &mu),
            [0.016_077_113_897_630_62, -0.126_879_345_380_845_67, 0.05],
        ),
        (
            box_one_mass_07(&n(-3), &n(-5), &n(-6), &m2, &mu),
            [-0.024_114_641_085_640_903, -0.095_307_737_326_992_48, 0.0375],
        ),
        (
            box_one_mass_08(&n(-3), &n(-4), &n(-5), &n(-6), &m2, &mu),
            [0.007_892_358_021_349_452, -0.059_178_090_353_290_43, 0.025],
        ),
        (
            box_one_mass_09(&n(-1), &n(-4), &n(-5), &n(-6), &m2, &mu),
            [0.018_400_361_421_865_807, -0.083_557_646_595_849_09, 0.0125],
        ),
        (
            box_one_mass_10(&n(-1), &n(-4), &n(-3), &n(-5), &n(-6), &m2, &mu),
            [0.039_897_243_462_062_45, -0.059_412_615_476_566_73, 0.0],
        ),
        (
            box_two_adjacent_11(&n(-3), &n(-5), &n(-6), &m2, &m3, &mu),
            [-0.012_934_410_692_339_639, -0.051_543_730_028_214_37, 0.015_873_015_873_015_872],
        ),
        (
            box_two_adjacent_12(&n(-3), &n(-4), &n(-5), &n(-6), &m2, &m3, &mu),
            [0.016_303_862_354_627_337, -0.029_375_412_492_956_3, 0.007_936_507_936_507_936],
        ),
        (
            box_two_adjacent_13(&n(-2), &n(-3), &n(-4), &n(-5), &n(-6), &m2, &m3, &mu),
            [0.015_350_152_013_953_197, -0.023_169_434_749_037_963, 0.0],
        ),
        (
            box_two_opposite_14(&n(-5), &n(-6), &m2, &m3, &mu),
            [0.094_666_988_330_808_07, -0.058_819_906_999_478_17, 0.0],
        ),
        (
            box_two_opposite_15(&n(-1), &m3, &n(-5), &n(-6), &m2, &m3, &mu),
            [0.121_951_458_233_307_58, -0.029_409_953_499_739_086, 0.0],
        ),
        (
            box_three_masses_16(&n(-2), &n(-3), &n(-5), &n(-6), &m2, &m3, &m4, &mu),
            [0.012_416_923_322_605_182, -0.016_350_857_574_315_11, 0.0],
        ),
    ];
    let mut evaluator = Evaluator::new();
    for (index, (series, expected)) in cases.iter().enumerate() {
        let output = evaluator.series(series, &[]);
        for (actual, expected) in output.into_iter().zip(expected) {
            assert!(
                close(actual, r(*expected), 3.0e-11),
                "case={index}, actual={actual:?}, expected={expected:?}"
            );
        }
    }
}

#[test]
fn c0_matches_reference_sectors() {
    let x: Vec<Expr> = (0..7).map(Expr::arg).collect();
    let mapped = c0(&x[0], &x[1], &x[2], &x[3], &x[4], &x[5], &x[6]);
    let z = r(0.0);
    let cases = [
        (
            [0.0, 0.0, -3.0],
            [z, z, z],
            [r(-0.201_158_160_135_430_36), r(0.366_204_096_222_703_3), r(-1.0 / 3.0)],
        ),
        (
            [0.0, -2.0, -3.0],
            [z, z, z],
            [r(-0.363_247_973_447_190_3), r(0.405_465_108_108_164_4), z],
        ),
        ([-1.0, -2.0, -3.0], [z, z, z], [r(-1.254_138_667_411_437_2), z, z]),
        (
            [-1.0, -2.0, -3.0],
            [z, z, c(1.4, -0.08)],
            [c(-0.768_387_288_344_432_2, -0.013_967_008_239_948_784), z, z],
        ),
        (
            [-1.0, -2.0, -3.0],
            [z, c(0.7, -0.03), c(1.4, -0.08)],
            [c(-0.501_878_434_080_612_1, -0.013_567_392_613_106_676), z, z],
        ),
        (
            [-1.0, -2.0, -3.0],
            [c(0.5, -0.02), c(0.7, -0.03), c(1.4, -0.08)],
            [c(-0.387_383_148_490_874_8, -0.012_089_012_569_460_895), z, z],
        ),
    ];
    let mut evaluator = Evaluator::new();
    for (momenta, masses, expected) in cases {
        let input = [
            r(momenta[0]),
            r(momenta[1]),
            r(momenta[2]),
            masses[0],
            masses[1],
            masses[2],
            r(1.0),
        ];
        let output = evaluator.series(&mapped, &input);
        for (actual, expected) in output.into_iter().zip(expected) {
            assert!(
                close(actual, expected, 2.0e-9),
                "momenta={momenta:?}, actual={actual:?}, expected={expected:?}"
            );
        }
    }
}

fn args(count: u32) -> Vec<Expr> {
    (0..count).map(Expr::arg).collect()
}

#[test]
fn triangle_single_width_regression() {
    let x = args(4);
    let expression = triangle_finite_one_mass(&x[0], &x[1], &x[2], &x[3]);
    let out = Evaluator::new().value(
        &expression,
        &[
            r(-2733.0531146121098),
            r(-985.3438480599564),
            r(-3751.7953341772745),
            c(1770.7324644808666, -37.0257759674679),
        ],
    );
    assert!(
        (out.re + 0.0005352086907030319).hypot(out.im + 0.000004086322878714895) < 1e-10,
        "{out:?}"
    );
}

#[test]
fn hv_continuation_regression() {
    let x = args(6);
    let t = x[2].minus(&x[0]).minus(&x[1]);
    let l = t.times(&t).minus(&Expr::num(4).times(&x[0]).times(&x[1])).root();
    let shared = x[3].minus(&x[4]).negated().plus(&x[2]).minus(&x[1]);
    let parts = [
        s3_call(&x[0], &x[3], &x[4], &x[4].minus(&x[5]).plus(&x[1]), &t, &l),
        s3_call(&x[2], &x[3], &x[5], &shared, &x[1].minus(&x[0]).minus(&x[2]), &l),
        s3_call(&x[1], &x[4], &x[5], &shared, &x[0].plus(&x[1]).minus(&x[2]), &l),
    ];
    let input = [
        r(-350.9712022329882),
        r(-391.7841411757353),
        r(-738.0022648960137),
        c(342.9713488350603, -7.18128977419155),
        c(159.2238695848167, -5.483906079793897),
        c(417.3501586564256, -1.8009017204869213),
    ];
    let expected = [
        (0.2132537392379703, 0.6879516129916667),
        (-0.07964316856308251, 0.3777241269650248),
        (-0.30445018539656665, 0.5897527762006338),
    ];
    let mut evaluator = Evaluator::new();
    for (part, (re, im)) in parts.iter().zip(expected) {
        let actual = evaluator.value(part, &input);
        assert!((actual.re - re).hypot(actual.im - im) < 2e-12, "{actual:?}");
    }
}

#[test]
fn continued_dilog_reference_values() {
    let x = args(3);
    let body = dilog_body(&x[0], &x[1], &x[2]);
    let mut evaluator = Evaluator::new();
    for (re, im, p, er, ei) in [
        (1.4637302044942475, 0.8724394147326465, 0, -0.523198871257367, -0.689201652707516),
        (0.2, 0.3, -3_i32, 0.0018756431260822382, 2.316496618720058),
        (0.2, 0.3, -1, 1.5411219798572924, 0.9804786253650036),
        (0.2, 0.3, 1, 3.080368316588503, -0.3555393679900509),
        (2., 3., -1, -0.07881407482088121, 3.5866974706558468),
        (2., 0., -1, 2.3201804233130985, 3.4513922952232026),
        (0.2, 0., 2, 1.0747946000082484, 1.4020522830093165),
    ] {
        let out = evaluator.value(
            &body,
            &[c(re, im), r(p as f64), r(p.rem_euclid(2) as f64)],
        );
        assert!(
            (out.re - er).hypot(out.im - ei) < 1e-12,
            "r={re} im={im} phase={p} actual={out:?} expected={er}+{ei}i"
        );
    }
}

#[test]
fn reciprocal_root_real_axis_preserves_its_sheet() {
    let q = args(1);
    let root = r_function(&q[0]).0;
    let mut evaluator = Evaluator::new();
    for (input, expected) in [
        (-7. / 6_f64.sqrt(), r(-6_f64.sqrt())),
        (3., r((3. + 5_f64.sqrt()) / 2.)),
        (1., c(0.5, -3_f64.sqrt() / 2.)),
        (-1., c(-0.5, -3_f64.sqrt() / 2.)),
    ] {
        let output = evaluator.value(&root, &[r(input)]);
        assert!(close(output, expected, 2e-14), "{output:?}");
        if input.abs() >= 2. {
            assert_eq!(output.im, 0.);
        } else {
            assert!(output.im < 0.);
        }
    }
}

#[test]
fn mapped_d0_routes_reference_sectors() {
    let x = args(11);
    let mapped = d0(&x[0], &x[1], &x[2], &x[3], &x[4], &x[5], &x[6], &x[7], &x[8], &x[9], &x[10]);
    let cases: [([f64; 11], [f64; 3]); 16] = [
        ([0., 0., 2., 2., -5., -6., 0., 0., 0., 2., 1.], [0.016_077_113_897_630_62, -0.126_879_345_380_845_67, 0.05]),
        ([0., 0., -3., 2., -5., -6., 0., 0., 0., 2., 1.], [-0.024_114_641_085_640_903, -0.095_307_737_326_992_48, 0.0375]),
        ([0., 0., -3., -4., -5., -6., 0., 0., 0., 2., 1.], [0.007_892_358_021_349_452, -0.059_178_090_353_290_43, 0.025]),
        ([-1., 0., 2., -4., -5., -6., 0., 0., 0., 2., 1.], [0.018_400_361_421_865_807, -0.083_557_646_595_849_09, 0.0125]),
        ([-1., 0., -3., -4., -5., -6., 0., 0., 0., 2., 1.], [0.039_897_243_462_062_45, -0.059_412_615_476_566_73, 0.]),
        ([0., 2., -3., 3., -5., -6., 0., 0., 2., 3., 1.], [-0.012_934_410_692_339_639, -0.051_543_730_028_214_37, 0.015_873_015_873_015_872]),
        ([0., 2., -3., -4., -5., -6., 0., 0., 2., 3., 1.], [0.016_303_862_354_627_337, -0.029_375_412_492_956_3, 0.007_936_507_936_507_936]),
        ([0., -2., -3., -4., -5., -6., 0., 0., 2., 3., 1.], [0.015_350_152_013_953_197, -0.023_169_434_749_037_963, 0.]),
        ([2., 2., 3., 3., -5., -6., 0., 2., 0., 3., 1.], [0.094_666_988_330_808_07, -0.058_819_906_999_478_17, 0.]),
        ([-1., 2., 3., 3., -5., -6., 0., 2., 0., 3., 1.], [0.121_951_458_233_307_58, -0.029_409_953_499_739_086, 0.]),
        ([2., -2., -3., 4., -5., -6., 0., 2., 3., 4., 1.], [0.012_416_923_322_605_182, -0.016_350_857_574_315_11, 0.]),
        ([-1., -2., -3., -4., -5., -6., 0., 0., 0., 0., 1.], [0.230_720_567_898_758, 0., 0.]),
        ([-1., -2., -3., -4., -5., -6., 0., 0., 0., 1.4, 1.], [0.159_028_182_108_436_3, 0., 0.]),
        ([-1., -2., -3., -4., -5., -6., 0., 0., 0.7, 1.4, 1.], [0.116_778_930_088_213_91, 0., 0.]),
        ([-1., -2., -3., -4., -5., -6., 0., 0.5, 0., 1.4, 1.], [0.107_217_099_967_768_14, 0., 0.]),
        ([-1., -2., -3., -4., -5., -6., 0.3, 0.5, 0.7, 1.4, 1.], [0.064_264_380_690_262_37, 0., 0.]),
    ];
    let mut evaluator = Evaluator::new();
    for (input, expected) in cases {
        let input = input.map(r);
        let output = evaluator.series(&mapped, &input);
        for (actual, expected) in output.into_iter().zip(expected) {
            assert!(
                close(actual, r(expected), 5.0e-9),
                "input={input:?}, actual={actual:?}, expected={expected:?}"
            );
        }
    }
}

#[test]
fn massless_d0_infrared_sectors_match_reference() {
    let x = args(7);
    let cases = [
        ([0.0, 0.0, 0.0, 0.0, -5.0, -6.0], 0, [-0.136_738_438_720_416_47, -0.226_746_492_110_810_33, 0.133_333_333_333_333_33]),
        ([0.0, 0.0, 0.0, -4.0, -5.0, -6.0], 1, [-0.019_955_432_024_197_674, -0.134_326_868_036_151, 0.066_666_666_666_666_67]),
        ([0.0, 0.0, -3.0, -4.0, -5.0, -6.0], 2, [0.037_500_182_171_644_69, -0.090_268_340_036_740_32, 0.033_333_333_333_333_33]),
        ([0.0, -2.0, 0.0, -4.0, -5.0, -6.0], 5, [0.044_778_998_436_892_37, -0.120_159_621_816_574_5, 0.0]),
        ([0.0, -2.0, -3.0, -4.0, -5.0, -6.0], 3, [0.102_271_049_257_966_12, -0.060_079_810_908_287_25, 0.0]),
    ];
    let mut evaluator = Evaluator::new();
    for (input, case, expected) in cases {
        let series = box_massless_low_case(&x[0], &x[1], &x[2], &x[3], &x[4], &x[5], case, &x[6]);
        let env: Vec<C> = input.iter().map(|v| r(*v)).chain([r(1.0)]).collect();
        let output = evaluator.series(&series, &env);
        for (actual, expected) in output.into_iter().zip(expected) {
            assert!((actual.re - expected).abs() < 2.0e-9, "case={case}, actual={actual:?}");
            assert!(actual.im.abs() < 2.0e-9);
        }
    }
}

#[test]
fn equal_mass_box_vacuum_limit() {
    let zero = n(0);
    let mass = Expr::arg(0);
    let mu = Expr::arg(1);
    let expression = d0(&zero, &zero, &zero, &zero, &zero, &zero, &mass, &mass, &mass, &mass, &mu);
    let mut evaluator = Evaluator::new();
    for (mass, scale) in [(c(1., 0.), 1.), (c(2., 0.), 7.), (c(0.5, -0.1), 3.)] {
        let output = evaluator.series(&expression, &[mass, r(scale)]);
        let expected = r(1. / 6.).div(mass.mul(mass));
        assert!(close(output[0], expected, 2e-13), "{output:?}");
        assert_eq!(output[1], r(0.));
        assert_eq!(output[2], r(0.));
    }
}

#[test]
fn contour_quadratic_roots_preserve_exact_axes() {
    let x = args(3);
    let values = roots(&x[0], &x[1], &x[2]);
    let mut evaluator = Evaluator::new();
    for (input, expected) in [
        ([1., 0., 1.], [(0., 1.), (0., -1.)]),
        ([-1., 0., -1.], [(0., -1.), (0., 1.)]),
        ([1., 0., -1.], [(1., 0.), (-1., 0.)]),
        ([-1., 0., 1.], [(-1., 0.), (1., 0.)]),
        ([1., 2., 1.], [(-1., 0.), (-1., 0.)]),
    ] {
        let input = input.map(r);
        let actual = [evaluator.value(&values.0, &input), evaluator.value(&values.1, &input)];
        assert_eq!(actual, expected.map(|(re, im)| c(re, im)), "{input:?}");
    }
}

#[test]
fn contour_box_agrees_with_the_real_mass_representation() {
    let x = args(10);
    let generic = box_finite_four_masses(&x[0], &x[1], &x[2], &x[3], &x[4], &x[5], &x[6], &x[7], &x[8], &x[9]);
    let contour = contour_box(&x[0], &x[1], &x[2], &x[3], &x[4], &x[5], &x[6], &x[7], &x[8], &x[9]);
    let mut evaluator = Evaluator::new();
    for input in [
        [-1., -1., -1., -1., -10., -6., 1., 2., 3., 4.],
        [-1., -2., -1.5, -1., -12., -7., 0.5, 1.5, 2.5, 3.5],
    ] {
        let input = input.map(r);
        let expected = evaluator.value(&generic, &input);
        let actual = evaluator.value(&contour, &input);
        assert!(close(actual, expected, 1e-10 * expected.abs()), "actual={actual:?}, expected={expected:?}");
    }
}

/// Whether some node of `e` satisfies `test`, calls included.
fn contains(e: &Expr, test: &dyn Fn(&Expr) -> bool) -> bool {
    if test(e) {
        return true;
    }
    match e {
        Expr::Add(a, b) | Expr::Sub(a, b) | Expr::Mul(a, b) | Expr::Div(a, b) => {
            contains(a, test) || contains(b, test)
        }
        Expr::Neg(a)
        | Expr::Log(a)
        | Expr::Sqrt(a)
        | Expr::Conj(a)
        | Expr::Abs(a)
        | Expr::Dilog(a) => contains(a, test),
        Expr::If(x, a, b) => contains(x, test) || contains(a, test) || contains(b, test),
        Expr::Call(_, arguments) => {
            let mut rest: &Args = arguments;
            while let Args::Cons(head, tail) = rest {
                if contains(head, test) {
                    return true;
                }
                rest = tail;
            }
            false
        }
        _ => false,
    }
}

fn is_if(e: &Expr) -> bool {
    matches!(e, Expr::If(..))
}

fn is_log(e: &Expr) -> bool {
    matches!(e, Expr::Log(..))
}

fn is_conj(e: &Expr) -> bool {
    matches!(e, Expr::Conj(..))
}

fn is_call(e: &Expr) -> bool {
    matches!(e, Expr::Call(..))
}

#[test]
fn a0_is_a_transparent_native_expression() {
    let m = Expr::arg(0);
    let mu2 = Expr::arg(1);
    let coefficients = a0(&m, &mu2).into_coefficients();
    // if(m, m*(1-conj(log(conj(m/mu2)))), 0)
    let logarithm = m.over(&mu2).conjugate().ln().conjugate();
    assert_eq!(coefficients[0], if_nonzero(&m, &m.times(&Expr::num(1).minus(&logarithm))));
    assert_eq!(coefficients[1], m);
    assert_eq!(coefficients[2], Expr::num(0));
}

#[test]
fn a0_zero_mass_is_scaleless() {
    let coefficients = a0(&Expr::num(0), &Expr::arg(0)).into_coefficients();
    assert_eq!(coefficients, [Expr::num(0), Expr::num(0), Expr::num(0)]);
}

#[test]
fn tensor_tadpoles_use_exact_rationals() {
    let m = Expr::arg(0);
    let mu2 = Expr::arg(1);
    let coefficients = an(4, &m, &mu2).unwrap();
    assert_eq!(coefficients.len(), 3);
    // if(m, m^2*(3/2-conj(log(conj(m/mu2))))/4, 0) and
    // if(m, m^3*(11/6-conj(log(conj(m/mu2))))/24, 0)
    let logarithm = m.over(&mu2).conjugate().ln().conjugate();
    let squared = m.times(&m);
    let cubed = m.times(&m).times(&m);
    assert_eq!(
        coefficients[1].finite,
        if_nonzero(&m, &squared.times(&Expr::num(3).over_int(2).minus(&logarithm)).over_int(4))
    );
    assert_eq!(
        coefficients[2].finite,
        if_nonzero(&m, &cubed.times(&Expr::num(11).over_int(6).minus(&logarithm)).over_int(24))
    );
    assert_eq!(coefficients[1].simple_pole, squared.over_int(4));
    assert_eq!(coefficients[2].simple_pole, cubed.over_int(24));
}

#[test]
fn tensor_rank_contract_matches_oneloop() {
    let m = Expr::arg(0);
    let mu2 = Expr::arg(1);
    assert_eq!(an(1, &m, &mu2).unwrap().len(), 1);
    assert_eq!(an(3, &m, &mu2).unwrap().len(), 2);
    assert_eq!(an(5, &m, &mu2).unwrap_err(), UnsupportedRank(5));
}

#[test]
fn a0_matches_the_existing_rust_reference() {
    let x = args(2);
    let series = a0(&x[0], &x[1]);
    let mut evaluator = Evaluator::new();
    let output = evaluator.series(&series, &[c(100.0, -1.4), r(1.0)]);
    assert!(close(output[0], c(-360.507_218_918_917_4, 6.447_283_991_027_792), 2.0e-11), "{output:?}");
    assert!(close(output[1], c(100.0, -1.4), 2.0e-13));
    assert_eq!(output[2], r(0.0));
    let output = evaluator.series(&series, &[r(1.0), r(91.1876_f64.powi(2))]);
    assert!((output[0].re - 10.025_837_845_847_876).abs() < 2.0e-13);
    assert_eq!(output[0].im, 0.0);
}

fn bubble_inputs() -> [Expr; 4] {
    [Expr::arg(0), Expr::arg(1), Expr::arg(2), Expr::arg(3)]
}

#[test]
fn b0_is_a_transparent_native_expression() {
    let x = bubble_inputs();
    let coefficients = b0(&x[0], &x[1], &x[2], &x[3]).into_coefficients();
    assert!(contains(&coefficients[0], &is_if));
    assert!(contains(&coefficients[0], &is_log));
    assert!(contains(&coefficients[0], &is_conj));
    assert!(!contains(&coefficients[0], &is_call));
    assert_eq!(coefficients[2], Expr::num(0));
}

#[test]
fn b0_matches_existing_reference_and_elementary_limits() {
    let x = bubble_inputs();
    let series = b0(&x[0], &x[1], &x[2], &x[3]);
    let mut evaluator = Evaluator::new();
    let output = evaluator.series(&series, &[r(3.0), c(0.7, -0.03), c(1.4, -0.08), r(1.0)]);
    assert!(close(output[0], c(0.720_288_906_550_704_1, 0.118_845_872_934_281_17), 2.0e-11), "{output:?}");
    assert_eq!(output[1], r(1.0));
    let output = evaluator.series(&series, &[r(-1.0), r(0.0), r(0.0), r(1.0)]);
    assert!((output[0].re - 2.0).abs() < 2.0e-13);
    assert!(output[0].im.abs() < 2.0e-13);
    let output = evaluator.series(&series, &[r(0.0), r(2.0), r(2.0), r(1.0)]);
    assert!((output[0].re + 2.0_f64.ln()).abs() < 2.0e-13);
    assert!(output[0].im.abs() < 2.0e-13);
    for (input, expected) in [
        ([3.0, 0.0, 0.0, 1.0], c(0.901_387_711_331_890_2, PI)),
        ([0.0, 2.0, 5.0, 1.0], r(-1.220_298_400_350_203_8)),
        ([-1.0, 2.0, 0.0, 1.0], r(0.090_457_495_115_561_67)),
        ([2.0, 0.0, 2.0, 1.0], r(1.306_852_819_440_054_6)),
    ] {
        let output = evaluator.series(&series, &input.map(r));
        assert!(close(output[0], expected, 2.0e-11), "{input:?}: {output:?}");
    }
}

#[test]
fn db0_is_a_transparent_native_expression() {
    let x = bubble_inputs();
    let coefficients = db0(&x[0], &x[1], &x[2], &x[3]).into_coefficients();
    assert!(contains(&coefficients[0], &is_if));
    assert!(contains(&coefficients[0], &is_log));
    assert!(!contains(&coefficients[0], &is_call));
    assert_eq!(coefficients[2], Expr::num(0));
}

#[test]
fn db0_matches_existing_reference_branches() {
    let x = bubble_inputs();
    let series = db0(&x[0], &x[1], &x[2], &x[3]);
    let mut evaluator = Evaluator::new();
    let cases = [
        ([r(3.0), c(0.7, -0.03), c(1.4, -0.08), r(1.0)], c(0.430_820_441_739_602_66, 0.065_385_279_130_906_14), r(0.0)),
        ([r(0.0), r(2.0), r(5.0), r(1.0)], r(0.049_521_951_157_720_36), r(0.0)),
        ([r(-1.0), r(2.0), r(0.0), r(1.0)], r(0.189_069_783_783_671_26), r(0.0)),
        ([r(3.0), r(0.0), r(0.0), r(1.0)], r(-1.0 / 3.0), r(0.0)),
        ([r(2.0), r(0.0), r(2.0), r(1.0)], r(-0.326_713_204_860_013_65), r(-0.25)),
    ];
    for (input, expected_finite, expected_pole) in cases {
        let output = evaluator.series(&series, &input);
        assert!(close(output[0], expected_finite, 2.0e-10), "{input:?}: {output:?}");
        assert!(close(output[1], expected_pole, 2.0e-13), "{input:?}: {output:?}");
        assert_eq!(output[2], r(0.0));
    }
}

#[test]
fn scaleless_db0_is_not_silently_zero() {
    let x = bubble_inputs();
    let generic = db0(&x[0], &x[1], &x[2], &x[3]);
    let output = Evaluator::new().series(&generic, &[r(0.), r(0.), r(0.), r(1.)]);
    assert!(!output[0].re.is_finite() || !output[0].im.is_finite());
    let zero = Expr::num(0);
    let direct = db0(&zero, &zero, &zero, &Expr::num(1));
    assert_eq!(direct.finite, Expr::indeterminate());
}

#[test]
fn b1_is_a_transparent_native_expression() {
    let x = bubble_inputs();
    let coefficients = b1(&x[0], &x[1], &x[2], &x[3]).into_coefficients();
    assert!(contains(&coefficients[0], &is_if));
    assert!(contains(&coefficients[0], &is_log));
    assert!(!contains(&coefficients[0], &is_call));
    assert_eq!(coefficients[2], Expr::num(0));
}

#[test]
fn b1_matches_existing_reference_branches() {
    let x = bubble_inputs();
    let series = b1(&x[0], &x[1], &x[2], &x[3]);
    let mut evaluator = Evaluator::new();
    let cases = [
        ([r(3.0), c(0.7, -0.03), c(1.4, -0.08), r(1.0)], c(-0.271_938_401_813_376, -0.057_835_382_756_500_02)),
        ([r(3.0), r(0.0), r(0.0), r(1.0)], c(-0.450_693_855_665_945_1, -std::f64::consts::FRAC_PI_2)),
        ([r(0.0), r(2.0), r(5.0), r(1.0)], r(0.684_432_126_911_682_5)),
        ([r(0.0), r(2.0), r(0.0), r(1.0)], r(-0.403_426_409_720_027_36)),
        ([r(0.0), r(0.0), r(2.0), r(1.0)], r(0.096_573_590_279_972_64)),
        ([r(2.0), r(0.0), r(2.0), r(1.0)], r(-0.153_426_409_720_027_36)),
    ];
    for (input, expected_finite) in cases {
        let output = evaluator.series(&series, &input);
        assert!(close(output[0], expected_finite, 2.0e-10), "{input:?}: {output:?}");
        assert_eq!(output[1], r(-0.5));
        assert_eq!(output[2], r(0.0));
    }
    let output = evaluator.series(&series, &[r(0.0), r(0.0), r(0.0), r(1.0)]);
    assert_eq!(output, [r(0.0); 3]);
}

#[test]
fn b00_matches_existing_reference_branches() {
    let x = bubble_inputs();
    let series = b00(&x[0], &x[1], &x[2], &x[3]);
    let mut evaluator = Evaluator::new();
    let cases = [
        ([r(3.0), c(0.7, -0.03), c(1.4, -0.08), r(1.0)], c(0.404_032_001_204_310_1, -0.017_748_356_492_285_27), c(0.275, -0.0275)),
        ([r(3.0), r(0.0), r(0.0), r(1.0)], c(-0.392_013_594_499_639_24, -std::f64::consts::FRAC_PI_4), r(-0.25)),
        ([r(0.0), r(2.0), r(5.0), r(1.0)], r(-0.496_946_590_717_727_23), r(1.75)),
        ([r(2.0), r(0.0), r(2.0), r(1.0)], r(0.324_506_495_368_907_13), r(1.0 / 3.0)),
    ];
    for (input, expected_finite, expected_pole) in cases {
        let output = evaluator.series(&series, &input);
        assert!(close(output[0], expected_finite, 2.0e-10), "{input:?}: {output:?}");
        assert!(close(output[1], expected_pole, 2.0e-13), "{input:?}: {output:?}");
        assert_eq!(output[2], r(0.0));
    }
}

#[test]
fn b11_matches_existing_reference_branches() {
    let x = bubble_inputs();
    let series = b11(&x[0], &x[1], &x[2], &x[3]);
    let mut evaluator = Evaluator::new();
    let cases = [
        ([r(3.0), c(0.7, -0.03), c(1.4, -0.08), r(1.0)], c(0.124_287_648_889_346_21, 0.034_846_047_862_857_39)),
        ([r(3.0), r(0.0), r(0.0), r(1.0)], c(0.356_018_125_999_518_93, PI / 3.0)),
        ([r(0.0), r(2.0), r(5.0), r(1.0)], r(-0.478_829_006_058_197_2)),
        ([r(0.0), r(2.0), r(0.0), r(1.0)], r(0.380_062_050_924_462_66)),
        ([r(0.0), r(0.0), r(2.0), r(1.0)], r(-0.119_937_949_075_537_34)),
        ([r(2.0), r(0.0), r(2.0), r(1.0)], r(-0.008_826_837_964_426_194)),
    ];
    for (input, expected_finite) in cases {
        let output = evaluator.series(&series, &input);
        assert!(close(output[0], expected_finite, 2.0e-10), "{input:?}: {output:?}");
        assert!((output[1].re - 1.0 / 3.0).abs() < 2.0e-13);
        assert!(output[1].im.abs() < 2.0e-13);
        assert_eq!(output[2], r(0.0));
    }
}

#[test]
fn b001_matches_existing_reference_branches() {
    let x = bubble_inputs();
    let series = b001(&x[0], &x[1], &x[2], &x[3]);
    let mut evaluator = Evaluator::new();
    let cases = [
        ([r(3.0), c(0.7, -0.03), c(1.4, -0.08), r(1.0)], c(-0.212_244_325_353_773_4, 0.007_259_890_043_764_92), c(-1.0 / 6.0, 0.015_833_333_333_333_33)),
        ([r(3.0), r(0.0), r(0.0), r(1.0)], c(0.196_006_797_249_819_6, PI / 8.0), r(0.125)),
        ([r(0.0), r(2.0), r(5.0), r(1.0)], r(0.402_675_635_998_978_04), r(-1.0)),
        ([r(2.0), r(0.0), r(2.0), r(1.0)], r(-0.201_713_204_860_013_68), r(-0.25)),
    ];
    for (input, expected_finite, expected_pole) in cases {
        let output = evaluator.series(&series, &input);
        assert!(close(output[0], expected_finite, 2.0e-10), "{input:?}: {output:?}");
        assert!(close(output[1], expected_pole, 2.0e-13), "{input:?}: {output:?}");
        assert_eq!(output[2], r(0.0));
    }
}

#[test]
fn b111_matches_existing_reference_branches() {
    let x = bubble_inputs();
    let series = b111(&x[0], &x[1], &x[2], &x[3]);
    let mut evaluator = Evaluator::new();
    let cases = [
        ([r(3.0), c(0.7, -0.03), c(1.4, -0.08), r(1.0)], c(-0.061_060_888_224_836_24, -0.023_726_854_411_009_246)),
        ([r(3.0), r(0.0), r(0.0), r(1.0)], c(-0.308_680_261_166_305_8, -std::f64::consts::FRAC_PI_4)),
        ([r(0.0), r(2.0), r(5.0), r(1.0)], r(0.368_684_627_151_776_97)),
        ([r(2.0), r(0.0), r(2.0), r(1.0)], r(0.048_286_795_139_986_32)),
    ];
    for (input, expected_finite) in cases {
        let output = evaluator.series(&series, &input);
        assert!(close(output[0], expected_finite, 2.0e-10), "{input:?}: {output:?}");
        assert!(close(output[1], r(-0.25), 2.0e-13), "{input:?}: {output:?}");
        assert_eq!(output[2], r(0.0));
    }
}

#[test]
fn rank_four_bubbles_match_existing_reference() {
    let x = bubble_inputs();
    let complex_input = [r(3.0), c(0.7, -0.03), c(1.4, -0.08), r(1.0)];
    let zero_input = [r(0.0), r(2.0), r(5.0), r(1.0)];
    let series = [
        b0000(&x[0], &x[1], &x[2], &x[3]),
        b0011(&x[0], &x[1], &x[2], &x[3]),
        b1111(&x[0], &x[1], &x[2], &x[3]),
    ];
    let expected_complex = [
        [c(0.084_177_235_220_498_43, -0.011_335_877_599_270_464), c(0.048_762_5, -0.008_291_666_666_666_666), r(0.0)],
        [c(0.148_472_977_849_870_76, -0.003_433_632_771_996_77), c(0.129_166_666_666_666_65, -0.011_25), r(0.0)],
        [c(0.029_939_862_301_517_683, 0.017_531_313_325_083_266), r(0.2), r(0.0)],
    ];
    let expected_zero = [
        [r(0.262_019_977_641_903), r(1.625), r(0.0)],
        [r(-0.323_522_613_452_528_86), r(0.708_333_333_333_333_3), r(0.0)],
        [r(0.299_847_502_997_086_6), r(0.2), r(0.0)],
    ];
    let mut evaluator = Evaluator::new();
    for ((series, expected_complex), expected_zero) in series.iter().zip(expected_complex).zip(expected_zero) {
        for (input, expected) in [(&complex_input, expected_complex), (&zero_input, expected_zero)] {
            let output = evaluator.series(series, input);
            for (actual, expected) in output.into_iter().zip(expected) {
                assert!(close(actual, expected, 2.0e-10), "actual={actual:?}, expected={expected:?}");
            }
        }
    }
}

#[test]
fn master_calls_evaluate_like_their_series() {
    let x = args(7);
    let input = [
        r(-1.0),
        r(-2.0),
        r(-3.0),
        r(0.0),
        c(0.7, -0.03),
        c(1.4, -0.08),
        r(1.0),
    ];
    let mut evaluator = Evaluator::new();
    let series = ScalarIntegral::C0.series(&x);
    let expected = evaluator.series(&series, &input);
    assert!(close(
        expected[0],
        c(-0.501_878_434_080_612_1, -0.013_567_392_613_106_676),
        2.0e-9
    ));
    for (index, order) in [Order::Finite, Order::SimplePole, Order::DoublePole]
        .into_iter()
        .enumerate()
    {
        let call = master_call(ScalarIntegral::C0, order, &x).unwrap();
        let actual = evaluator.value(&call, &input);
        assert!(close(actual, expected[index], 1.0e-12), "{order:?}: {actual:?}");
    }
    let a = args(2);
    let mass = [c(1.5, -0.1), r(2.0)];
    let tadpole = evaluator.series(&a0(&a[0], &a[1]), &mass);
    let call = master_call(ScalarIntegral::A0, Order::Finite, &a).unwrap();
    assert!(close(evaluator.value(&call, &mass), tadpole[0], 1.0e-12));
    assert_eq!(
        master_call(ScalarIntegral::B0, Order::Finite, &a),
        Err(ArityMismatch { family: ScalarIntegral::B0, received: 2 })
    );
}

#[test]
fn alias_sectors_call_their_canonical_rotation() {
    let x = args(11);
    assert_eq!(
        sector_definition(2, Order::Finite),
        Expr::Call(
            Func::TriangleSector(1, Order::Finite),
            std::rc::Rc::new(args7(&x[2], &x[0], &x[1], &x[5], &x[3], &x[4], &x[6]))
        )
    );
    let expected = args4(&x[3], &x[0], &x[1], &x[2])
        .append(args7(&x[5], &x[4], &x[9], &x[6], &x[7], &x[8], &x[10]));
    assert_eq!(
        box_sector_definition(2, Order::SimplePole),
        Expr::Call(Func::BoxSector(1, Order::SimplePole), std::rc::Rc::new(expected))
    );
}

#[test]
fn literal_masses_select_their_box_sector() {
    let x = args(11);
    let masses = [n(0), n(0), n(3), n(5)];
    let series = d0(&x[0], &x[1], &x[2], &x[3], &n(-7), &n(-2), &masses[0], &masses[1], &masses[2], &masses[3], &x[10]);
    let input: Vec<C> = [-1.0, -2.0, -3.0, -4.0, 0.0, 0.0, 0.0, 0.0, 0.0, 0.0, 1.0]
        .into_iter()
        .map(r)
        .collect();
    let mut evaluator = Evaluator::new();
    let routed = evaluator.series(&series, &input);
    let values = [r(-1.0), r(-2.0), r(-3.0), r(-4.0), r(-7.0), r(-2.0), r(0.0), r(0.0), r(3.0), r(5.0), r(1.0)];
    let sector = definition(Func::BoxSector(3, Order::Finite));
    let direct = evaluator.value(&sector, &values);
    assert!(close(routed[0], direct, 1.0e-12), "{:?} {:?}", routed[0], direct);
}

fn sample_truth(point: Vec<C>) -> impl Fn(&Expr) -> Result<Option<bool>, String> {
    let evaluator = std::cell::RefCell::new(Evaluator::new());
    move |condition: &Expr| {
        let value = evaluator.borrow_mut().value(condition, &point);
        if value.re.is_finite() && value.im.is_finite() {
            Ok(Some(!value.is_zero()))
        } else {
            Ok(None)
        }
    }
}

#[test]
fn select_branch_keeps_the_sampled_arm_parametric() {
    let x = Expr::arg(0);
    let expression = oneloop::expr::if_nonzero_else(&x, &x.plus(&n(1)), &x.minus(&n(1)));
    let decide = sample_truth(vec![r(2.0)]);
    assert_eq!(select_branch(&expression, &decide), Ok(x.plus(&n(1))));
    let at_zero = sample_truth(vec![r(0.0)]);
    assert_eq!(select_branch_with(&expression, &at_zero), Ok(x.minus(&n(1))));
}

#[test]
fn select_branch_selects_inside_conditions_and_keeps_undecided_ones() {
    let x = Expr::arg(0);
    let y = Expr::arg(1);
    let inner = oneloop::expr::if_nonzero_else(&x, &y, &n(17));
    let expression = oneloop::expr::if_nonzero_else(&x.plus(&y), &inner, &x);
    let undecided = |_: &Expr| -> Result<Option<bool>, String> { Ok(None) };
    assert_eq!(select_branch(&expression, &undecided), Ok(expression.clone()));
    let only_x = |condition: &Expr| -> Result<Option<bool>, String> {
        Ok(if *condition == Expr::arg(0) { Some(false) } else { None })
    };
    assert_eq!(
        select_branch(&expression, &only_x),
        Ok(oneloop::expr::if_nonzero_else(&x.plus(&y), &n(17), &x))
    );
    let failing = |_: &Expr| -> Result<Option<bool>, String> { Err("no sample".to_string()) };
    assert_eq!(select_branch_with(&expression, &failing), Err("no sample".to_string()));
}

#[test]
fn select_branch_of_a_triangle_keeps_its_value() {
    let x = args(7);
    let series = c0(&x[0], &x[1], &x[2], &x[3], &x[4], &x[5], &x[6]);
    let point = vec![r(-1.0), r(-2.0), r(-3.0), r(0.0), c(0.7, -0.03), c(1.4, -0.08), r(1.0)];
    let decide = sample_truth(point.clone());
    let selected = select_branch(&series.finite, &decide).unwrap();
    assert!(!contains(&selected, &is_if));
    let mut evaluator = Evaluator::new();
    let direct = evaluator.value(&series.finite, &point);
    let routed = evaluator.value(&selected, &point);
    assert!(close(direct, routed, 1.0e-12), "{direct:?} {routed:?}");
}

#[test]
fn zero_patterns_route_the_contour_box() {
    let x = args(10);
    let cases = [
        ([n(0), n(0), n(-3), n(-4)], Contour::ZeroExternal, 0),
        ([n(-3), n(0), n(-4), n(0)], Contour::Opposite, 3),
        ([n(-1), n(-2), n(-3), n(-4)], Contour::General, 0),
    ];
    let mut evaluator = Evaluator::new();
    let input = [0.0, 0.0, 0.0, 0.0, -12.0, -7.0, 0.5, 1.5, 2.5, 3.5].map(r);
    for (p, chart, shift) in cases {
        let routed = body(&p[0], &p[1], &p[2], &p[3], &x[4], &x[5], &x[6], &x[7], &x[8], &x[9]);
        let expected = Expr::call(
            Func::Contour(chart),
            cyclic_args(shift, &p[0], &p[1], &p[2], &p[3], &x[4], &x[5], &x[6], &x[7], &x[8], &x[9]),
        );
        let a = evaluator.value(&routed, &input);
        let b = evaluator.value(&expected, &input);
        assert!(a.re.to_bits() == b.re.to_bits() && a.im.to_bits() == b.im.to_bits(), "{chart:?}: {a:?} {b:?}");
    }
}

fn option_truth(point: Vec<C>) -> impl Fn(&Expr) -> Option<bool> {
    let evaluator = std::cell::RefCell::new(Evaluator::new());
    move |condition: &Expr| {
        let value = evaluator.borrow_mut().value(condition, &point);
        if value.re.is_finite() && value.im.is_finite() {
            Some(!value.is_zero())
        } else {
            None
        }
    }
}

const NO_DECISION: Option<&fn(&Expr) -> Option<bool>> = None;

#[test]
fn expansion_substitutes_scoped_arguments() {
    let x = Expr::arg(0);
    let y = Expr::arg(1);
    let root = std::rc::Rc::new(Frame { args: vec![], parent: None, active: vec![] });
    let options = ExpressionOptions::default();
    let mut state = Expansion::new();
    let real = Expr::call(Func::RealPart, oneloop::expr::args1(&y));
    let expanded = expand(&real, &root, 0, &mut state, options, NO_DECISION, false).unwrap();
    assert_eq!(expanded, y.plus(&y.conjugate()).over_int(2));
    let nested = Expr::call(Func::RealPart, oneloop::expr::args1(&Expr::call(Func::ImaginaryPart, oneloop::expr::args1(&x))));
    let inner = x.minus(&x.conjugate()).over(&Expr::num(2).times(&Expr::i()));
    let mut state = Expansion::new();
    assert_eq!(
        expand(&nested, &root, 0, &mut state, options, NO_DECISION, false).unwrap(),
        inner.plus(&inner.conjugate()).over_int(2)
    );
    assert!(state.work > 0);
    assert_eq!(state.memo.len(), 2);
}

#[test]
fn expansion_reports_cycles_and_limits() {
    let x = Expr::arg(0);
    let busy = std::rc::Rc::new(Frame { args: vec![], parent: None, active: vec![Func::RealPart] });
    let mut state = Expansion::new();
    let call = Expr::call(Func::RealPart, oneloop::expr::args1(&x));
    assert_eq!(
        expand(&call, &busy, 0, &mut state, ExpressionOptions::default(), NO_DECISION, false),
        Err(ExpansionError::Cycle(Func::RealPart))
    );
    let arguments = args(2);
    assert_eq!(
        expand_family(ScalarIntegral::A0, &arguments, ExpressionOptions { max_nodes: 5, max_depth: 512 }, NO_DECISION),
        Err("complete expression expansion exceeded max_nodes=5 (6 expansion visits); raise the explicit budget or select a branch during construction".to_string())
    );
    assert_eq!(
        expand_family(ScalarIntegral::A0, &arguments, ExpressionOptions { max_nodes: 1000, max_depth: 2 }, NO_DECISION),
        Err("complete expression expansion exceeded max_depth=2".to_string())
    );
    assert_eq!(
        expand_family(ScalarIntegral::A0, &args(3), ExpressionOptions::default(), NO_DECISION),
        Err("A0 expects 2 arguments including mu_squared last; received 3".to_string())
    );
}

#[test]
fn complete_tadpole_and_bubble_formulas_keep_their_values() {
    let mut evaluator = Evaluator::new();
    let tadpole = expand_family(ScalarIntegral::A0, &args(2), ExpressionOptions::default(), NO_DECISION).unwrap();
    for coefficient in [&tadpole.finite, &tadpole.simple_pole, &tadpole.double_pole] {
        assert!(!contains(coefficient, &is_call));
    }
    let point = [c(1.5, -0.1), r(2.0)];
    let compact = a0(&Expr::arg(0), &Expr::arg(1));
    let expected = evaluator.series(&compact, &point);
    let actual = evaluator.series(&tadpole, &point);
    for i in 0..3 {
        assert!(close(actual[i], expected[i], 1e-12), "{i}: {:?} {:?}", actual[i], expected[i]);
    }
    let bubble_point = vec![r(3.0), c(0.7, -0.03), c(1.4, -0.08), r(4.0)];
    let decide = option_truth(bubble_point.clone());
    let bubble = expand_family(ScalarIntegral::B0, &args(4), ExpressionOptions::default(), Some(&decide)).unwrap();
    let compact = b0(&Expr::arg(0), &Expr::arg(1), &Expr::arg(2), &Expr::arg(3));
    let expected = evaluator.series(&compact, &bubble_point);
    let actual = evaluator.series(&bubble, &bubble_point);
    for i in 0..3 {
        assert!(!contains(&[&bubble.finite, &bubble.simple_pole, &bubble.double_pole][i], &is_call));
        assert!(close(actual[i], expected[i], 1e-10), "{i}: {:?} {:?}", actual[i], expected[i]);
    }
}

#[test]
fn master_symbols_are_read_with_their_arity() {
    assert_eq!(master_arguments("oneloopmaster::B0", 4), Ok(ScalarIntegral::B0));
    assert_eq!(master_arguments("oneloop::dB0", 4), Ok(ScalarIntegral::DB0));
    assert_eq!(master_arguments("oneloopmaster::D0", 11), Ok(ScalarIntegral::D0));
    assert_eq!(
        master_arguments("oneloopmaster::E0", 4),
        Err("oneloopmaster::E0 is not a supported scalar master symbol".to_string())
    );
    assert_eq!(
        master_arguments("oneloop::C0", 8),
        Err("C0 inspection expects 7 arguments including mu_squared last and no Laurent tag; received 8".to_string())
    );
}


#[test]
fn inspection_calls_name_their_master() {
    let tadpole = get_expression("oneloopmaster::A0", &args(2)).unwrap();
    assert_eq!(Ok(tadpole.clone()), get_expression_for_family(ScalarIntegral::A0, &args(2)));
    assert_eq!(Ok(tadpole.clone()), ScalarIntegral::A0.get_expression(&args(2)));
    assert_eq!(
        Ok(tadpole),
        get_expression_with_options("oneloop::A0", &args(2), ExpressionOptions::default())
    );
    assert_eq!(
        get_expression("oneloopmaster::E0", &args(2)),
        Err("oneloopmaster::E0 is not a supported scalar master symbol".to_string())
    );
    assert_eq!(
        get_expression("oneloop::B0", &args(3)),
        Err("B0 inspection expects 4 arguments including mu_squared last and no Laurent tag; received 3".to_string())
    );
    assert_eq!(
        get_expression_for_family_with_options(ScalarIntegral::B0, &args(4), ExpressionOptions { max_nodes: 0, max_depth: 4 }),
        Err("expression max_nodes and max_depth must be positive".to_string())
    );
    let point = vec![r(3.0), c(0.7, -0.03), c(1.4, -0.08), r(4.0)];
    let decide = option_truth(point.clone());
    let on_branch = get_expression_on_branch("oneloopmaster::B0", &args(4), &decide).unwrap();
    assert_eq!(
        Ok(on_branch.clone()),
        expand_family(ScalarIntegral::B0, &args(4), ExpressionOptions::default(), Some(&decide))
    );
    assert_eq!(
        get_expression_on_branch_with_options("oneloop::B0", &args(4), &decide, ExpressionOptions { max_nodes: 1000, max_depth: 2 }),
        Err("complete expression expansion exceeded max_depth=2".to_string())
    );
    let full = get_expression("oneloop::B0", &args(4)).unwrap();
    let mut evaluator = Evaluator::new();
    let selected = evaluator.series(&on_branch, &point);
    let everywhere = evaluator.series(&full, &point);
    for i in 0..3 {
        assert!(close(selected[i], everywhere[i], 1e-10), "{i}: {:?} {:?}", selected[i], everywhere[i]);
    }
}

#[test]
fn special_triangle_sectors_are_recognised() {
    let a = Expr::arg(0);
    let b = Expr::arg(1);
    let mu = Expr::arg(2);
    let opposite = vec![n(0), a.negated(), a.clone(), a.clone(), a.clone(), b.clone(), mu.clone()];
    assert_eq!(opposite_invariants_triangle(&opposite), Some(opposite_invariants_series(&a, &b, &mu)));
    let integers = vec![n(0), n(-3), n(3), n(3), n(3), b.clone(), mu.clone()];
    assert_eq!(opposite_invariants_triangle(&integers), Some(opposite_invariants_series(&n(3), &b, &mu)));
    let unsigned = vec![n(0), a.clone(), a.clone(), a.clone(), a.clone(), b.clone(), mu.clone()];
    assert_eq!(opposite_invariants_triangle(&unsigned), None);
    let moving = vec![n(1), a.negated(), a.clone(), a.clone(), a.clone(), b.clone(), mu.clone()];
    assert_eq!(opposite_invariants_triangle(&moving), None);

    let s = n(5).minus(&n(2));
    assert!(known_real(&s));
    assert!(!known_real(&a));
    assert!(!known_real(&Expr::pi().times(&n(2))));
    let one_mass = vec![n(0), s.clone(), n(0), a.clone(), n(0), n(0), mu.clone()];
    assert_eq!(one_mass_one_scale_triangle(&one_mass), Some(one_mass_one_scale_series(&s, &a, &mu)));
    let third = vec![s.clone(), n(0), n(0), n(0), n(0), a.clone(), mu.clone()];
    assert_eq!(one_mass_one_scale_triangle(&third), Some(one_mass_one_scale_series(&s, &a, &mu)));
    let symbolic = vec![n(0), b.clone(), n(0), a.clone(), n(0), n(0), mu.clone()];
    assert_eq!(one_mass_one_scale_triangle(&symbolic), None);
    let two_masses = vec![n(0), s.clone(), n(0), a.clone(), a.clone(), n(0), mu.clone()];
    assert_eq!(one_mass_one_scale_triangle(&two_masses), None);
    let misplaced = vec![s.clone(), n(0), n(0), a.clone(), n(0), n(0), mu.clone()];
    assert_eq!(one_mass_one_scale_triangle(&misplaced), None);
    let massless = vec![n(0), s.clone(), n(0), n(0), n(0), n(0), mu.clone()];
    assert_eq!(one_mass_one_scale_triangle(&massless), None);
}

#[test]
fn special_triangle_formulas_keep_their_values() {
    let mut evaluator = Evaluator::new();
    let x0 = Expr::arg(0);
    let x1 = Expr::arg(1);
    let x2 = Expr::arg(2);
    let opposite = vec![n(0), x0.negated(), x0.clone(), x0.clone(), x0.clone(), x1.clone(), x2.clone()];
    let expanded = get_expression("oneloopmaster::C0", &opposite).unwrap();
    for coefficient in [&expanded.finite, &expanded.simple_pole, &expanded.double_pole] {
        assert!(!contains(coefficient, &is_call));
    }
    let compact = c0(&opposite[0], &opposite[1], &opposite[2], &opposite[3], &opposite[4], &opposite[5], &opposite[6]);
    for point in [[r(2.0), c(3.0, -0.2), r(1.5)], [r(0.7), c(0.2, -0.05), r(1.5)], [r(1.0), r(5.0), r(2.0)], [c(0.0, 0.0), c(3.0, -0.2), r(1.5)]] {
        let actual = evaluator.series(&expanded, &point);
        let expected = evaluator.series(&compact, &point);
        for i in 0..3 {
            assert!(close(actual[i], expected[i], 1e-8), "{point:?} {i}: {:?} {:?}", actual[i], expected[i]);
        }
    }
    let one_mass = vec![n(0), n(5), n(0), x0.clone(), n(0), n(0), x1.clone()];
    let expanded = get_expression("oneloopmaster::C0", &one_mass).unwrap();
    let compact = c0(&one_mass[0], &one_mass[1], &one_mass[2], &one_mass[3], &one_mass[4], &one_mass[5], &one_mass[6]);
    for point in [[c(1.5, -0.1), r(2.0)], [c(-1.5, -0.1), r(2.0)], [c(0.0, 0.0), r(2.0)]] {
        let actual = evaluator.series(&expanded, &point);
        let expected = evaluator.series(&compact, &point);
        for i in 0..3 {
            assert!(close(actual[i], expected[i], 1e-8), "{point:?} {i}: {:?} {:?}", actual[i], expected[i]);
        }
    }
}

#[test]
fn sort_four_ranks_each_order_once() {
    let mut evaluator = Evaluator::new();
    let ranked = sort_four(&Expr::arg(0), &Expr::arg(1), &Expr::arg(2), &Expr::arg(3));
    let mut seen = Vec::new();
    let values = [1.0, 2.5, 4.0, 7.0];
    for i in 0..4 {
        for j in 0..4 {
            for k in 0..4 {
                for l in 0..4 {
                    if i == j || i == k || i == l || j == k || j == l || k == l {
                        continue;
                    }
                    let point = [r(values[i]), r(values[j]), r(values[k]), r(values[l])];
                    let rank = evaluator.value(&ranked, &point);
                    assert_eq!(rank.im, 0.0);
                    assert!(rank.re >= 1.0 && rank.re <= 24.0 && rank.re.fract() == 0.0, "{rank:?}");
                    assert!(!seen.contains(&(rank.re as i64)), "{rank:?}");
                    seen.push(rank.re as i64);
                }
            }
        }
    }
    assert_eq!(seen.len(), 24);
    let ascending = [r(1.0), r(2.0), r(3.0), r(4.0)];
    assert_eq!(evaluator.value(&ranked, &ascending), r(10.0));
    let descending = [r(4.0), r(3.0), r(2.0), r(1.0)];
    assert_eq!(evaluator.value(&ranked, &descending), r(1.0));
}

#[test]
fn pick_selects_the_value_at_its_index() {
    let mut evaluator = Evaluator::new();
    let values = [n(5), Expr::arg(1), n(7), Expr::pi()];
    let picked = pick(&Expr::arg(0), &values);
    assert_eq!(evaluator.value(&picked, &[r(1.0), r(-2.0)]), r(5.0));
    assert_eq!(evaluator.value(&picked, &[r(2.0), r(-2.0)]), r(-2.0));
    assert_eq!(evaluator.value(&picked, &[r(3.0), r(-2.0)]), r(7.0));
    assert_eq!(evaluator.value(&picked, &[r(4.0), r(-2.0)]), r(PI));
    assert_eq!(evaluator.value(&picked, &[r(9.0), r(-2.0)]), r(PI));
}

#[test]
fn generic_triangle_complete_formula_keeps_its_value() {
    let expanded = get_expression_for_family(ScalarIntegral::C0, &args(7)).unwrap();
    let x = args(7);
    let compact = c0(&x[0], &x[1], &x[2], &x[3], &x[4], &x[5], &x[6]);
    let mut evaluator = Evaluator::new();
    let points = [
        [r(1.0), r(2.0), r(3.5), c(0.5, -0.01), c(0.7, -0.02), c(1.1, -0.03), r(1.0)],
        [r(-1.0), r(0.5), r(2.0), r(0.3), r(0.0), c(0.9, -0.1), r(2.0)],
    ];
    for point in points {
        let actual = evaluator.series(&expanded, &point);
        let expected = evaluator.series(&compact, &point);
        for i in 0..3 {
            assert!(close(actual[i], expected[i], 1e-8), "{point:?} {i}: {:?} {:?}", actual[i], expected[i]);
        }
    }
}
