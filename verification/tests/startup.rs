use oneloop::coefficient_cache::{rebuild_cached_evaluator, CoefficientGroups, PreparedBackend};
use oneloop::family::ScalarIntegral;
use oneloop::initialization::{initialize, is_initialized, portable_environment, Initialization};
use oneloop::inspection::{check_expansion, ExpressionOptions};

#[test]
fn portable_environment_refuses_machine_overrides() {
    assert_eq!(
        portable_environment(true, Ok(false)),
        Err("unset SYMJIT_TOML when building or loading portable OneLOop evaluators".to_string())
    );
    assert_eq!(
        portable_environment(false, Ok(true)),
        Err("remove the working-directory symjit.toml override when building or loading portable OneLOop evaluators".to_string())
    );
    assert_eq!(
        portable_environment(false, Err("permission denied".to_string())),
        Err("cannot check the default symjit.toml override: permission denied".to_string())
    );
    assert_eq!(portable_environment(false, Ok(false)), Ok(()));
}

#[test]
fn initialization_runs_its_preparation_once() {
    let mut state = Initialization::new();
    assert!(!is_initialized(&state));
    let mut preparations = 0;
    let refused = initialize(&mut state, || Err("unset".to_string()), || {
        preparations += 1;
        Ok(())
    });
    assert_eq!(refused, Err("unset".to_string()));
    assert_eq!(preparations, 0);
    assert!(!is_initialized(&state));
    assert_eq!(initialize(&mut state, || Ok(()), || {
        preparations += 1;
        Ok(())
    }), Ok(()));
    assert_eq!(preparations, 1);
    assert!(is_initialized(&state));
    assert_eq!(initialize(&mut state, || Err("late".to_string()), || {
        preparations += 1;
        Err("again".to_string())
    }), Ok(()));
    assert_eq!(preparations, 1);
}

#[test]
fn failed_initialization_is_reported_again() {
    let mut state = Initialization::new();
    let first = initialize(&mut state, || Ok(()), || Err("could not initialize B0 evaluator".to_string()));
    assert_eq!(first, Err("could not initialize B0 evaluator".to_string()));
    assert!(!is_initialized(&state));
    let mut preparations = 0;
    let second = initialize(&mut state, || Ok(()), || {
        preparations += 1;
        Ok(())
    });
    assert_eq!(second, first);
    assert_eq!(preparations, 0);
}

#[test]
fn rebuilding_an_evaluator_forgets_buffered_points() {
    let mut backend = PreparedBackend { evaluator: 1u32, group: CoefficientGroups::new(0u32) };
    let key = [7u64, 8];
    let mut runs = 0;
    assert_eq!(backend.group.evaluate(&key, 0, || { runs += 1; [10, 11, 12] }), 10);
    assert_eq!(backend.group.evaluate(&key, 1, || { runs += 1; [20, 21, 22] }), 11);
    assert_eq!(runs, 1);
    assert_eq!(rebuild_cached_evaluator(&mut backend, Err("no JIT".to_string())), Err("no JIT".to_string()));
    assert_eq!(backend.evaluator, 1);
    assert_eq!(backend.group.evaluate(&key, 2, || { runs += 1; [30, 31, 32] }), 12);
    assert_eq!(runs, 1);
    assert_eq!(rebuild_cached_evaluator(&mut backend, Ok(2)), Ok(()));
    assert_eq!(backend.evaluator, 2);
    assert_eq!(backend.group.evaluate(&key, 1, || { runs += 1; [40, 41, 42] }), 41);
    assert_eq!(runs, 2);
}

#[test]
fn expansion_requests_are_checked() {
    let defaults = ExpressionOptions::default();
    assert_eq!((defaults.max_nodes, defaults.max_depth), (10_000_000, 512));
    assert_eq!(check_expansion(ScalarIntegral::B0, 4, defaults), Ok(()));
    assert_eq!(
        check_expansion(ScalarIntegral::B0, 3, defaults),
        Err("B0 expects 4 arguments including mu_squared last; received 3".to_string())
    );
    assert_eq!(
        check_expansion(ScalarIntegral::D0, 11, ExpressionOptions { max_nodes: 0, max_depth: 512 }),
        Err("expression max_nodes and max_depth must be positive".to_string())
    );
    assert_eq!(
        check_expansion(ScalarIntegral::A0, 2, ExpressionOptions { max_nodes: 5, max_depth: 0 }),
        Err("expression max_nodes and max_depth must be positive".to_string())
    );
}
