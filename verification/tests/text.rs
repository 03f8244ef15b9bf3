use jsfader::text::decimal_string;
use jsfader::text::law_text;
use jsfader::text::pan_text;
use jsfader::text::parameter_name;
use jsfader::text::taper_text;

#[test]
fn parameter_names_are_fixed() {
    assert_eq!(parameter_name(0), "Volume");
    assert_eq!(parameter_name(1), "Pan");
    assert_eq!(parameter_name(2), "Pan Taper");
    assert_eq!(parameter_name(3), "Pan Law");
}

#[test]
fn taper_names() {
    assert_eq!(taper_text(0), "Sine");
    assert_eq!(taper_text(1), "Root");
}

#[test]
fn law_names() {
    assert_eq!(law_text(0), "3 dB");
    assert_eq!(law_text(1), "4.5 dB");
    assert_eq!(law_text(2), "6 dB");
}

#[test]
fn decimal_single_digits() {
    assert_eq!(decimal_string(0), "0");
    assert_eq!(decimal_string(7), "7");
    assert_eq!(decimal_string(9), "9");
}

#[test]
fn decimal_multi_digits() {
    assert_eq!(decimal_string(10), "10");
    assert_eq!(decimal_string(57), "57");
    assert_eq!(decimal_string(100), "100");
    assert_eq!(decimal_string(100200), "100200");
    assert_eq!(decimal_string(u32::MAX), "4294967295");
}

#[test]
fn pan_text_left_of_centre() {
    assert_eq!(pan_text(-100), "100 L");
    assert_eq!(pan_text(-57), "57 L");
    assert_eq!(pan_text(-1), "1 L");
}

#[test]
fn pan_text_at_centre() {
    assert_eq!(pan_text(0), "0 C");
}

#[test]
fn pan_text_right_of_centre() {
    assert_eq!(pan_text(1), "1 R");
    assert_eq!(pan_text(42), "42 R");
    assert_eq!(pan_text(100), "100 R");
}
