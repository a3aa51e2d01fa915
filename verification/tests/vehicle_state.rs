use sdv_twin::vehicle_state::visibility::VisibilityContext;

#[test]
fn apply_lux_stores_value() {
    let mut v = VisibilityContext::default();
    v.apply_lux(42);
    assert_eq!(v.ambient_lux, 42);
}
