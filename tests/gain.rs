use next_gain::gain::{GainParameter, GainRange};

fn db_to_gain(db: f32) -> f32 {
    10f32.powf(db * 0.05)
}

fn gain_range() -> GainRange {
    GainRange::new(db_to_gain(-30.0).to_bits(), db_to_gain(30.0).to_bits()).unwrap()
}

#[test]
fn range_rejects_inverted_ends() {
    assert!(GainRange::new(2.0f32.to_bits(), 1.0f32.to_bits()).is_none());
}

#[test]
fn range_rejects_infinite_upper_end() {
    assert!(GainRange::new(1.0f32.to_bits(), f32::INFINITY.to_bits()).is_none());
}

#[test]
fn range_accepts_single_point() {
    let r = GainRange::new(1.0f32.to_bits(), 1.0f32.to_bits()).unwrap();
    assert_eq!(r.clamp(5.0f32.to_bits()), 1.0f32.to_bits());
    assert_eq!(r.clamp(0.5f32.to_bits()), 1.0f32.to_bits());
}

#[test]
fn clamp_keeps_value_in_range() {
    let r = gain_range();
    assert_eq!(r.clamp(0.5f32.to_bits()), 0.5f32.to_bits());
    assert_eq!(r.clamp(r.min), r.min);
    assert_eq!(r.clamp(r.max), r.max);
}

#[test]
fn clamp_below_range_gives_lower_end() {
    let r = gain_range();
    let v = f32::from_bits(r.clamp(0.01f32.to_bits()));
    assert!((v - db_to_gain(-30.0)).abs() < 1e-7);
    assert_eq!(r.clamp(0.0f32.to_bits()), r.min);
}

#[test]
fn clamp_above_range_gives_upper_end() {
    let r = gain_range();
    assert_eq!(r.clamp(100.0f32.to_bits()), r.max);
    assert_eq!(r.clamp(f32::INFINITY.to_bits()), r.max);
    let v = f32::from_bits(r.clamp(40.0f32.to_bits()));
    assert!((v - 31.622776).abs() < 1e-4);
}

#[test]
fn clamp_negative_gives_lower_end() {
    let r = gain_range();
    assert_eq!(r.clamp((-0.5f32).to_bits()), r.min);
    assert_eq!(r.clamp((-100.0f32).to_bits()), r.min);
    assert_eq!(r.clamp((-0.0f32).to_bits()), r.min);
}

#[test]
fn new_parameter_clamps_default_and_flag_is_down() {
    let p = GainParameter::new(gain_range(), 100.0f32.to_bits());
    assert_eq!(p.target(), gain_range().max);
    assert!(!p.is_changed());
    let q = GainParameter::new(gain_range(), 1.0f32.to_bits());
    assert_eq!(q.target(), 1.0f32.to_bits());
    assert_eq!(q.range(), gain_range());
}

#[test]
fn out_of_range_write_stores_boundary() {
    let mut p = GainParameter::new(gain_range(), 1.0f32.to_bits());
    p.set_target(1000.0f32.to_bits());
    assert_eq!(p.target(), gain_range().max);
    assert_ne!(p.target(), 1000.0f32.to_bits());
    p.set_target(0.001f32.to_bits());
    assert_eq!(p.target(), gain_range().min);
    assert_ne!(p.target(), 0.001f32.to_bits());
}

#[test]
fn write_of_new_value_raises_flag() {
    let mut p = GainParameter::new(gain_range(), 1.0f32.to_bits());
    p.set_target(0.5f32.to_bits());
    assert_eq!(p.target(), 0.5f32.to_bits());
    assert!(p.is_changed());
}

#[test]
fn write_of_same_value_leaves_flag_down() {
    let mut p = GainParameter::new(gain_range(), 1.0f32.to_bits());
    p.set_target(1.0f32.to_bits());
    assert!(!p.is_changed());
    let mut q = GainParameter::new(gain_range(), gain_range().max);
    q.set_target(500.0f32.to_bits());
    assert!(!q.is_changed());
}

#[test]
fn take_changed_reads_and_lowers_flag() {
    let mut p = GainParameter::new(gain_range(), 1.0f32.to_bits());
    assert!(!p.take_changed());
    p.set_target(2.0f32.to_bits());
    assert!(p.take_changed());
    assert!(!p.is_changed());
    assert!(!p.take_changed());
    assert_eq!(p.target(), 2.0f32.to_bits());
}

#[test]
fn with_state_keeps_flag_and_clamps_target() {
    let p = GainParameter::with_state(gain_range(), 0.25f32.to_bits(), true);
    assert_eq!(p.target(), 0.25f32.to_bits());
    assert!(p.is_changed());
    let q = GainParameter::with_state(gain_range(), (-1.0f32).to_bits(), false);
    assert_eq!(q.target(), gain_range().min);
    assert!(!q.is_changed());
}
