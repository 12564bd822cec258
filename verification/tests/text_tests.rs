use gpu_usage::model::bytes_to_mb;
use gpu_usage::text::{capitalize, u32_to_string, u64_to_string};

#[test]
fn capitalize_lowercase_name() {
    assert_eq!(capitalize(String::from("firefox")), "Firefox");
}

#[test]
fn capitalize_empty() {
    assert_eq!(capitalize(String::new()), "");
}

#[test]
fn capitalize_all_uppercase() {
    assert_eq!(capitalize(String::from("ABC")), "Abc");
}

#[test]
fn capitalize_mixed_and_non_letters() {
    assert_eq!(capitalize(String::from("gnome-Shell")), "Gnome-shell");
    assert_eq!(capitalize(String::from("1password")), "1password");
}

#[test]
fn bytes_to_mb_is_floor_division() {
    assert_eq!(bytes_to_mb(0), 0);
    assert_eq!(bytes_to_mb(1), 0);
    assert_eq!(bytes_to_mb((1 << 20) - 1), 0);
    assert_eq!(bytes_to_mb(1 << 20), 1);
    assert_eq!(bytes_to_mb((1 << 20) + 1), 1);
    assert_eq!(bytes_to_mb(104857600), 100);
    assert_eq!(bytes_to_mb(u64::MAX), u64::MAX >> 20);
}

#[test]
fn decimal_rendering() {
    assert_eq!(u64_to_string(0), "0");
    assert_eq!(u64_to_string(7), "7");
    assert_eq!(u64_to_string(10), "10");
    assert_eq!(u64_to_string(2048), "2048");
    assert_eq!(u64_to_string(u64::MAX), "18446744073709551615");
    assert_eq!(u32_to_string(55), "55");
}
