use tam::{AdxCore, AdxOutput, AdxPhase, AdxStep, TaError};

/// Feeds one bar, recording `dx` where the step derives one, and returns the
/// step and the output.
fn bar(core: &mut AdxCore<f64>, dx: f64) -> (AdxStep, AdxOutput, bool) {
    let step = core.step();
    let mut seeded = false;
    if step == AdxStep::FirstSmooth || step == AdxStep::Smooth {
        seeded = core.record(dx);
    }
    (step, core.output(step), seeded)
}

#[test]
fn average_directional_index_test_new() {
    assert!(AdxCore::<f64>::new(0).is_err());
    assert!(AdxCore::<f64>::new(1).is_err());
    assert!(AdxCore::<f64>::new(2).is_ok());
}

#[test]
fn adx_new_error_is_invalid_parameter() {
    assert_eq!(AdxCore::<f64>::new(1).unwrap_err(), TaError::InvalidParameter);
    assert_eq!(AdxCore::<f64>::new(14).unwrap().period(), 14);
}

#[test]
fn average_directional_index_test_reset() {
    let mut adx = AdxCore::<f64>::new(5).unwrap();
    bar(&mut adx, 1.0);
    bar(&mut adx, 2.0);
    adx.reset();
    assert_eq!(adx.phase(), AdxPhase::Uninitialized);
    assert_eq!(bar(&mut adx, 3.0).1, AdxOutput::Zero);
}

#[test]
fn adx_reset_matches_fresh() {
    let mut used = AdxCore::<f64>::new(3).unwrap();
    for i in 0..9 {
        bar(&mut used, i as f64);
    }
    used.reset();
    let fresh = AdxCore::<f64>::new(3).unwrap();
    assert_eq!(used, fresh);
}

#[test]
fn adx_schedule_period_three() {
    let mut adx = AdxCore::<f64>::new(3).unwrap();
    let expected = [
        (AdxStep::Record, AdxOutput::Zero, false),
        (AdxStep::Accumulate, AdxOutput::Zero, false),
        (AdxStep::Accumulate, AdxOutput::Zero, false),
        (AdxStep::FirstSmooth, AdxOutput::Missing, false),
        (AdxStep::Smooth, AdxOutput::Missing, false),
        (AdxStep::Smooth, AdxOutput::Value, true),
        (AdxStep::Steady, AdxOutput::Value, false),
        (AdxStep::Steady, AdxOutput::Value, false),
    ];
    for (i, want) in expected.iter().enumerate() {
        assert_eq!(bar(&mut adx, 10.0 * i as f64), *want, "bar {}", i + 1);
    }
    assert_eq!(adx.history(), &vec![30.0, 40.0, 50.0]);
}

#[test]
fn adx_schedule_period_fourteen() {
    let p = 14;
    let mut adx = AdxCore::<f64>::new(p).unwrap();
    for n in 1..=(3 * p + 20) {
        let (_, out, _) = bar(&mut adx, 1.0);
        let want = if n <= p {
            AdxOutput::Zero
        } else if n < 2 * p {
            AdxOutput::Missing
        } else {
            AdxOutput::Value
        };
        assert_eq!(out, want, "bar {}", n);
    }
}

#[test]
fn adx_unstable_count_is_capped() {
    let mut adx = AdxCore::<f64>::new(2).unwrap();
    for _ in 0..4 {
        bar(&mut adx, 0.0);
    }
    assert_eq!(adx.phase(), AdxPhase::Steady(0));
    for _ in 0..40 {
        bar(&mut adx, 0.0);
    }
    assert_eq!(adx.phase(), AdxPhase::Steady(15));
}

#[test]
fn adx_record_outside_smoothing_does_nothing() {
    let mut adx = AdxCore::<f64>::new(2).unwrap();
    assert!(!adx.record(7.0));
    assert!(adx.history().is_empty());
    assert_eq!(adx.phase(), AdxPhase::Uninitialized);
}

#[test]
fn adx_restore_round_trip() {
    let mut adx = AdxCore::<f64>::new(4).unwrap();
    for i in 0..6 {
        bar(&mut adx, i as f64);
    }
    let copy = AdxCore::restore(adx.period(), adx.phase(), adx.history().clone()).unwrap();
    assert_eq!(copy, adx);
    let mut a = adx.clone();
    let mut b = copy;
    for i in 0..10 {
        assert_eq!(bar(&mut a, i as f64), bar(&mut b, i as f64));
    }
    assert_eq!(a, b);
}

#[test]
fn adx_restore_refuses_impossible_states() {
    assert!(AdxCore::<f64>::restore(1, AdxPhase::Uninitialized, vec![]).is_err());
    assert!(AdxCore::<f64>::restore(3, AdxPhase::Uninitialized, vec![1.0]).is_err());
    assert!(AdxCore::<f64>::restore(3, AdxPhase::Accumulating(2), vec![]).is_err());
    assert!(AdxCore::<f64>::restore(3, AdxPhase::Accumulating(1), vec![]).is_ok());
    assert!(AdxCore::<f64>::restore(3, AdxPhase::Smoothing, vec![1.0, 2.0, 3.0]).is_err());
    assert!(AdxCore::<f64>::restore(3, AdxPhase::Steady(2), vec![1.0, 2.0]).is_err());
    assert!(AdxCore::<f64>::restore(3, AdxPhase::Steady(16), vec![1.0, 2.0, 3.0]).is_err());
    assert!(AdxCore::<f64>::restore(3, AdxPhase::Steady(15), vec![1.0, 2.0, 3.0]).is_ok());
}
