use gen_todo::text::{push_decimal, render_decimal};

#[test]
fn zero_is_a_single_digit() {
    assert_eq!(render_decimal(0), "0");
}

#[test]
fn single_digits_render_as_themselves() {
    let expected = ["0", "1", "2", "3", "4", "5", "6", "7", "8", "9"];
    for (n, text) in expected.iter().enumerate() {
        assert_eq!(render_decimal(n as u16), *text);
    }
}

#[test]
fn numerals_have_no_leading_zero() {
    assert_eq!(render_decimal(10), "10");
    assert_eq!(render_decimal(99), "99");
    assert_eq!(render_decimal(100), "100");
    assert_eq!(render_decimal(1009), "1009");
    assert_eq!(render_decimal(5432), "5432");
    assert_eq!(render_decimal(8080), "8080");
    assert_eq!(render_decimal(65535), "65535");
}

#[test]
fn every_port_renders_as_the_standard_library_does() {
    for n in 0..=u16::MAX {
        assert_eq!(render_decimal(n), n.to_string());
    }
}

#[test]
fn push_appends_to_what_is_there() {
    let mut out = String::from("port=");
    push_decimal(&mut out, 5432);
    assert_eq!(out, "port=5432");
    push_decimal(&mut out, 0);
    assert_eq!(out, "port=54320");
}
