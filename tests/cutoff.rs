use pitch_shifter::cutoff::CutoffSchedule;

#[test]
fn first_ratio_always_recomputes() {
    let mut s = CutoffSchedule::new();
    assert_eq!(s.cached_ratio(), None);
    assert!(s.update(1.0f64.to_bits()));
    assert_eq!(s.cached_ratio(), Some(1.0f64.to_bits()));
}

#[test]
fn constant_ratio_over_a_buffer_recomputes_once() {
    let mut s = CutoffSchedule::new();
    let r = 1.5f64.to_bits();
    let mut count = 0;
    for _ in 0..512 {
        if s.update(r) {
            count += 1;
        }
    }
    assert_eq!(count, 1);
}

#[test]
fn ratio_change_recomputes_again() {
    let mut s = CutoffSchedule::new();
    assert!(s.update(2.0f64.to_bits()));
    assert!(!s.is_stale(2.0f64.to_bits()));
    assert!(s.is_stale(0.5f64.to_bits()));
    assert!(s.update(0.5f64.to_bits()));
    assert!(!s.update(0.5f64.to_bits()));
}

#[test]
fn sample_rate_change_invalidates() {
    let mut s = CutoffSchedule::new();
    let r = 0.75f64.to_bits();
    s.update(r);
    s.invalidate();
    assert_eq!(s.cached_ratio(), None);
    assert!(s.update(r));
}
