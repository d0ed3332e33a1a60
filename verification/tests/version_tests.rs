use rserial::version::{compare_versions, parse_version};
use std::cmp::Ordering;

#[test]
fn test_parse_version() {
    assert_eq!(parse_version("1.2.0"), Some((1, 2, 0)));
    assert_eq!(parse_version("v1.2.0"), Some((1, 2, 0)));
    assert_eq!(parse_version("1.10.5"), Some((1, 10, 5)));
    assert_eq!(parse_version("invalid"), None);
}

#[test]
fn test_compare_versions() {
    assert_eq!(compare_versions("1.3.0", "1.2.0"), Some(Ordering::Greater));
    assert_eq!(compare_versions("1.2.0", "1.2.0"), Some(Ordering::Equal));
    assert_eq!(compare_versions("1.2.0", "1.3.0"), Some(Ordering::Less));
    assert_eq!(compare_versions("2.0.0", "1.9.9"), Some(Ordering::Greater));
}

#[test]
fn every_leading_v_is_dropped() {
    assert_eq!(parse_version("vv1.2.3"), Some((1, 2, 3)));
    assert_eq!(parse_version("V1.2.3"), None);
    assert_eq!(parse_version("1.v2.3"), None);
    assert_eq!(parse_version("v"), None);
    assert_eq!(parse_version(""), None);
}

#[test]
fn a_version_has_exactly_three_numbers() {
    assert_eq!(parse_version("1.2"), None);
    assert_eq!(parse_version("1"), None);
    assert_eq!(parse_version("1.2.3.4"), None);
    assert_eq!(parse_version("1..3"), None);
    assert_eq!(parse_version(".1.2"), None);
    assert_eq!(parse_version("1.2."), None);
    assert_eq!(parse_version(".."), None);
}

#[test]
fn a_number_is_digits_after_an_optional_plus_sign() {
    assert_eq!(parse_version("+1.+2.+3"), Some((1, 2, 3)));
    assert_eq!(parse_version("001.02.0003"), Some((1, 2, 3)));
    assert_eq!(parse_version("1.2.+"), None);
    assert_eq!(parse_version("1.-2.3"), None);
    assert_eq!(parse_version("1.2.3-beta"), None);
    assert_eq!(parse_version("1.2. 3"), None);
    assert_eq!(parse_version("1.2.3 "), None);
    assert_eq!(parse_version("1.++2.3"), None);
    assert_eq!(parse_version("1.2.\u{663}"), None);
}

#[test]
fn a_number_fits_in_32_bits() {
    assert_eq!(parse_version("4294967295.0.0"), Some((4_294_967_295, 0, 0)));
    assert_eq!(parse_version("4294967296.0.0"), None);
    assert_eq!(parse_version("0.0.99999999999999999999999999"), None);
    assert_eq!(parse_version("0.00000000000000000000004294967295.0"), Some((0, 4_294_967_295, 0)));
}

#[test]
fn versions_are_ordered_by_major_then_minor_then_patch() {
    assert_eq!(compare_versions("1.2.3", "1.2.4"), Some(Ordering::Less));
    assert_eq!(compare_versions("1.10.0", "1.9.9"), Some(Ordering::Greater));
    assert_eq!(compare_versions("0.9.9", "1.0.0"), Some(Ordering::Less));
    assert_eq!(compare_versions("v2.0.0", "2.0.0"), Some(Ordering::Equal));
    assert_eq!(compare_versions("3.0.0", "2.99.99"), Some(Ordering::Greater));
}

#[test]
fn texts_that_are_no_versions_have_no_order() {
    assert_eq!(compare_versions("invalid", "1.0.0"), None);
    assert_eq!(compare_versions("1.0.0", "invalid"), None);
    assert_eq!(compare_versions("", ""), None);
}
