use laser_sweep::drain::{DrainKind, ErrorDrain};

#[test]
fn laser_drain_stops_at_first_zero_response() {
    let mut d = ErrorDrain::new(DrainKind::Laser);
    assert!(!d.feed("-220,\"Parameter error\"".to_string()));
    assert!(!d.feed("-110,\"Command header error\"".to_string()));
    assert!(d.feed("0,\"No error\"".to_string()));
    assert!(d.done);
    assert_eq!(
        d.collected,
        vec![
            "-220,\"Parameter error\"".to_string(),
            "-110,\"Command header error\"".to_string(),
        ]
    );
}

#[test]
fn laser_drain_with_clean_queue_collects_nothing() {
    let mut d = ErrorDrain::new(DrainKind::Laser);
    assert!(d.feed("0,\"No error\"".to_string()));
    assert!(d.collected.is_empty());
}

#[test]
fn meter_drain_accepts_no_error_text_in_any_case() {
    let mut d = ErrorDrain::new(DrainKind::Meter);
    assert!(!d.feed("ERR 17".to_string()));
    assert!(d.feed("No Error".to_string()));
    assert_eq!(d.collected, vec!["ERR 17".to_string()]);
}

#[test]
fn meter_drain_accepts_trimmed_zero() {
    let mut d = ErrorDrain::new(DrainKind::Meter);
    assert!(!d.feed("fault A".to_string()));
    assert!(!d.feed("fault B".to_string()));
    assert!(d.feed("  0  ".to_string()));
    assert_eq!(d.collected, vec!["fault A".to_string(), "fault B".to_string()]);
}
