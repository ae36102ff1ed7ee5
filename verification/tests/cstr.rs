use fibre_std::cstr::{c_string, wide_string};

#[test]
fn c_strings_end_with_zero() {
    assert_eq!(c_string(b"ab"), Some(vec![97, 98, 0]));
    assert_eq!(c_string(b""), Some(vec![0]));
    assert_eq!(c_string(b"a\0"), None);
}

#[test]
fn wide_strings_end_with_zero() {
    assert_eq!(wide_string(&[0x263a, 0, 1]), vec![0x263a, 0, 1, 0]);
}
