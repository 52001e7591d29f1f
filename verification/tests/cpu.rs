use kernel::cpu::{extended_feature_value, write_protect_value};
use kernel::interrupts::irq::ScancodeReader;

#[test]
fn control_register_values() {
    assert_eq!(extended_feature_value(0x500), 0xd01);
    assert_eq!(write_protect_value(0x8000_0011), 0x8001_0011);
}

#[test]
fn scancode_reader_waits_for_a_change() {
    let mut r = ScancodeReader::new();
    assert!(!r.changed(0));
    assert!(r.changed(0x1e));
    assert_eq!(r.accept(0x1e), Some(0x1e));
    assert!(!r.changed(0x1e));
    assert!(r.changed(0x9e));
    assert_eq!(r.accept(0), None);
    assert!(r.changed(0x9e));
}
