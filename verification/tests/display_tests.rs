use intervalsets_core::factory::UnboundedFactory;
use intervalsets_core::EnumInterval;

#[test]
fn test_display_interval() {
    assert_eq!(EnumInterval::<i8>::empty().to_string(), "{}");

    assert_eq!(EnumInterval::<i8>::unbounded().to_string(), "(<-, ->)");
}
