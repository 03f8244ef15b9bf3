use jsfader::params::law_slot;
use jsfader::params::taper_slot;

#[test]
fn taper_slot_keeps_valid_slots() {
    assert_eq!(taper_slot(0), 0);
    assert_eq!(taper_slot(1), 1);
}

#[test]
fn taper_slot_clamps_out_of_range() {
    assert_eq!(taper_slot(-3), 0);
    assert_eq!(taper_slot(2), 1);
    assert_eq!(taper_slot(i32::MAX), 1);
}

#[test]
fn law_slot_keeps_valid_slots() {
    assert_eq!(law_slot(0), 0);
    assert_eq!(law_slot(1), 1);
    assert_eq!(law_slot(2), 2);
}

#[test]
fn law_slot_clamps_out_of_range() {
    assert_eq!(law_slot(-1), 0);
    assert_eq!(law_slot(3), 2);
    assert_eq!(law_slot(i32::MIN), 0);
}
