use oneloop::coefficient_cache::CoefficientGroups;

type C = (f64, f64);

fn words(arguments: &[C]) -> Vec<u64> {
    arguments
        .iter()
        .flat_map(|(re, im)| [re.to_bits(), im.to_bits()])
        .collect()
}

fn counted_evaluate(
    group: &mut CoefficientGroups<C>,
    arguments: &[C],
    tag: usize,
    calls: &mut usize,
) -> C {
    let key = words(arguments);
    group.evaluate(&key, tag, || {
        *calls += 1;
        let run = *calls as f64;
        [(run, 0.), (run, 1.), (run, 2.)]
    })
}

const ORDERS: [[usize; 3]; 6] = [
    [0, 1, 2],
    [0, 2, 1],
    [1, 0, 2],
    [1, 2, 0],
    [2, 0, 1],
    [2, 1, 0],
];

#[test]
fn coefficient_groups_execute_once_per_point_in_every_tag_order() {
    let args = [(2., 0.), (1., 0.)];
    for first in ORDERS {
        for second in ORDERS {
            let mut group = CoefficientGroups::new((0., 0.));
            let mut calls = 0;
            for (point, order) in [first, second].into_iter().enumerate() {
                for tag in order {
                    assert_eq!(
                        counted_evaluate(&mut group, &args, tag, &mut calls),
                        ((point + 1) as f64, tag as f64),
                        "orders={first:?}/{second:?}, point={point}, tag={tag}"
                    );
                    assert_eq!(calls, point + 1);
                }
            }
        }
    }
}

#[test]
fn coefficient_groups_repeated_tags_always_start_another_execution() {
    let args = [(2., 0.), (1., 0.)];
    for tag in 0..3 {
        let mut group = CoefficientGroups::new((0., 0.));
        let mut calls = 0;
        for expected_calls in 1..=4 {
            assert_eq!(
                counted_evaluate(&mut group, &args, tag, &mut calls),
                (expected_calls as f64, tag as f64)
            );
            assert_eq!(calls, expected_calls);
        }
        for other_tag in (0..3).filter(|other| *other != tag) {
            assert_eq!(
                counted_evaluate(&mut group, &args, other_tag, &mut calls),
                (1., other_tag as f64)
            );
            assert_eq!(calls, 4);
        }
    }
}

#[test]
fn coefficient_groups_execute_again_for_signed_zeros_and_changed_points() {
    let args = [(0., 0.); 11];
    for index in 0..args.len() {
        for imaginary in [false, true] {
            let mut group = CoefficientGroups::new((0., 0.));
            let mut calls = 0;
            counted_evaluate(&mut group, &args, 0, &mut calls);
            let mut signed_axis = args;
            if imaginary {
                signed_axis[index].1 = -0.;
            } else {
                signed_axis[index].0 = -0.;
            }
            assert_eq!(counted_evaluate(&mut group, &signed_axis, 1, &mut calls), (2., 1.));
            assert_eq!(calls, 2);
            assert_eq!(counted_evaluate(&mut group, &args, 2, &mut calls), (1., 2.));
            assert_eq!(calls, 2);
            let mut other_point = args;
            other_point[index].0 = 4.;
            assert_eq!(counted_evaluate(&mut group, &other_point, 0, &mut calls), (3., 0.));
            assert_eq!(calls, 3);
        }
    }
}

#[test]
fn coefficient_groups_tag_major_lanes_reuse_oldest_matching_point() {
    for lanes in [1, 2, 4] {
        for identical in [false, true] {
            for first in ORDERS {
                for second in ORDERS {
                    let mut group = CoefficientGroups::new((0., 0.));
                    let mut calls = 0;
                    for (batch, order) in [first, second].into_iter().enumerate() {
                        for tag in order {
                            for lane in 0..lanes {
                                let args = [
                                    (if identical { 2. } else { 2. + lane as f64 }, 0.),
                                    (1., 0.),
                                ];
                                assert_eq!(
                                    counted_evaluate(&mut group, &args, tag, &mut calls),
                                    ((batch * lanes + lane + 1) as f64, tag as f64),
                                    "lanes={lanes}, identical={identical}, batch={batch}, lane={lane}, tag={tag}"
                                );
                            }
                            assert_eq!(calls, (batch + 1) * lanes);
                        }
                    }
                }
            }
        }
    }
}

#[test]
fn coefficient_groups_evict_fifo_without_reusing_consumed_tags() {
    let mut group = CoefficientGroups::new((0., 0.));
    let mut calls = 0;
    for point in 0..5 {
        counted_evaluate(&mut group, &[(point as f64, 0.)], 0, &mut calls);
    }
    assert_eq!(calls, 5);
    assert_eq!(counted_evaluate(&mut group, &[(0., 0.)], 1, &mut calls), (6., 1.));
    assert_eq!(calls, 6);
    assert_eq!(counted_evaluate(&mut group, &[(2., 0.)], 1, &mut calls), (3., 1.));
    assert_eq!(calls, 6);
    assert_eq!(counted_evaluate(&mut group, &[(2., 0.)], 1, &mut calls), (7., 1.));
    assert_eq!(calls, 7);
}

#[test]
fn coefficient_groups_manual_invalidation_clears_all_lanes() {
    for identical in [false, true] {
        let mut group = CoefficientGroups::new((0., 0.));
        let mut calls = 0;
        let args: Vec<[C; 1]> = (0..4)
            .map(|lane| [(if identical { 2. } else { lane as f64 }, 0.)])
            .collect();
        for lane in &args {
            counted_evaluate(&mut group, lane, 0, &mut calls);
        }
        group.invalidate();
        assert!((0..4).all(|index| group.used_tags(index) == 0));
        for (lane, arguments) in args.iter().enumerate() {
            assert_eq!(
                counted_evaluate(&mut group, arguments, 1, &mut calls),
                ((5 + lane) as f64, 1.)
            );
        }
        assert_eq!(calls, 8);
    }
}

#[test]
fn served_requests_never_run_the_backend() {
    let args = [(2., 0.), (1., 0.)];
    let mut group = CoefficientGroups::new((0., 0.));
    let mut calls = 0;
    assert_eq!(counted_evaluate(&mut group, &args, 0, &mut calls), (1., 0.));
    let key = words(&args);
    let served = group.evaluate(&key, 2, || -> [C; 3] { panic!("a served request ran the backend") });
    assert_eq!(served, (1., 2.));
}
