use kiro_service::DeliveryMode;

#[test]
fn delivery_mode_variants_are_distinct() {
    assert_ne!(DeliveryMode::Live, DeliveryMode::Buffered);
}

#[test]
fn delivery_mode_is_copy_and_equal_to_itself() {
    let m = DeliveryMode::Buffered;
    let n = m;
    assert_eq!(m, n);
    assert_eq!(DeliveryMode::Live, DeliveryMode::Live);
}
