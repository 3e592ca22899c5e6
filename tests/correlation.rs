use tam::{CorrelationCore, PairUpdate, SlidingWindow, TaError};

#[test]
fn correlation_test_new() {
    assert!(CorrelationCore::<(f64, f64)>::new(0).is_err());
    assert!(CorrelationCore::<(f64, f64)>::new(1).is_ok());
    assert_eq!(CorrelationCore::<(f64, f64)>::new(0).unwrap_err(), TaError::InvalidParameter);
}

#[test]
fn correlation_test_reset() {
    let mut corr = CorrelationCore::<(f64, f64)>::new(3).unwrap();
    corr.advance((2.0, 3.0));
    corr.advance((3.0, 2.0));
    corr.reset();
    let u = corr.advance((8.0, 9.0));
    assert_eq!(u, PairUpdate { evicted: None, defined: false });
}

#[test]
fn correlation_window_scenario() {
    let mut corr = CorrelationCore::<(f64, f64)>::new(3).unwrap();
    assert_eq!(corr.advance((2.0, 3.0)), PairUpdate { evicted: None, defined: false });
    assert_eq!(corr.advance((3.0, 2.0)), PairUpdate { evicted: None, defined: true });
    assert_eq!(corr.advance((6.0, 1.0)), PairUpdate { evicted: None, defined: true });
    assert_eq!(
        corr.advance((5.0, 2.0)),
        PairUpdate { evicted: Some((2.0, 3.0)), defined: true }
    );
    assert_eq!(corr.points().to_vec(), vec![(3.0, 2.0), (6.0, 1.0), (5.0, 2.0)]);
}

#[test]
fn correlation_first_point_never_defined() {
    for p in 1..20 {
        let mut corr = CorrelationCore::<(f64, f64)>::new(p).unwrap();
        assert!(!corr.advance((1.0, 1.0)).defined);
    }
}

#[test]
fn correlation_period_one_never_defined() {
    let mut corr = CorrelationCore::<(f64, f64)>::new(1).unwrap();
    assert_eq!(corr.advance((1.0, 2.0)), PairUpdate { evicted: None, defined: false });
    assert_eq!(
        corr.advance((3.0, 4.0)),
        PairUpdate { evicted: Some((1.0, 2.0)), defined: false }
    );
}

#[test]
fn correlation_constant_pairs_fill_window() {
    let mut corr = CorrelationCore::<(f64, f64)>::new(4).unwrap();
    for _ in 0..4 {
        corr.advance((5.0, 5.0));
    }
    assert_eq!(corr.points().to_vec(), vec![(5.0, 5.0); 4]);
    assert!(corr.points().is_full());
}

#[test]
fn correlation_restore_round_trip() {
    let mut corr = CorrelationCore::<(f64, f64)>::new(3).unwrap();
    for i in 0..5 {
        corr.advance((i as f64, 2.0 * i as f64));
    }
    let mut copy = CorrelationCore::restore(corr.period(), corr.points().to_vec()).unwrap();
    for i in 0..7 {
        let p = (i as f64, -(i as f64));
        assert_eq!(corr.advance(p), copy.advance(p));
    }
    assert_eq!(corr.points().to_vec(), copy.points().to_vec());
    assert!(CorrelationCore::<f64>::restore(2, vec![1.0, 2.0, 3.0]).is_err());
    assert!(CorrelationCore::<f64>::restore(0, vec![]).is_err());
}

#[test]
fn window_keeps_most_recent() {
    let mut w = SlidingWindow::<u32>::new(3).unwrap();
    assert_eq!(w.push(1), None);
    assert_eq!(w.push(2), None);
    assert_eq!(w.push(3), None);
    assert_eq!(w.push(4), Some(1));
    assert_eq!(w.push(5), Some(2));
    assert_eq!(w.len(), 3);
    assert_eq!(w.get(0), 3);
    assert_eq!(w.get(2), 5);
    assert_eq!(w.to_vec(), vec![3, 4, 5]);
    w.clear();
    assert_eq!(w.len(), 0);
    assert_eq!(w.period(), 3);
    assert!(SlidingWindow::<u32>::new(0).is_err());
}

#[test]
fn window_from_items() {
    let w = SlidingWindow::from_items(3, vec![7u32, 8, 9]).unwrap();
    assert_eq!(w.to_vec(), vec![7, 8, 9]);
    let mut w = SlidingWindow::from_items(3, vec![7u32]).unwrap();
    assert_eq!(w.push(8), None);
    assert_eq!(w.to_vec(), vec![7, 8]);
    assert!(SlidingWindow::from_items(2, vec![1u32, 2, 3]).is_err());
}
