use std::cmp::Ordering;

use superchain_client::query::{Bound, QueryOptions};
use superchain_client::query::render_bound;
use superchain_client::text::{dec_i64, dec_u64, parse_i64, parse_u64};

#[test]
fn renders_unsigned_decimals() {
    assert_eq!(dec_u64(0), b"0".to_vec());
    assert_eq!(dec_u64(7), b"7".to_vec());
    assert_eq!(dec_u64(12345), b"12345".to_vec());
    assert_eq!(dec_u64(u64::MAX), b"18446744073709551615".to_vec());
}

#[test]
fn renders_signed_decimals() {
    assert_eq!(dec_i64(0), b"0".to_vec());
    assert_eq!(dec_i64(-42), b"-42".to_vec());
    assert_eq!(dec_i64(i64::MIN), b"-9223372036854775808".to_vec());
}

#[test]
fn parses_unsigned_decimals() {
    assert_eq!(parse_u64(b"0"), Some(0));
    assert_eq!(parse_u64(b"007"), Some(7));
    assert_eq!(parse_u64(b"18446744073709551615"), Some(u64::MAX));
    assert_eq!(parse_u64(b"18446744073709551616"), None);
    assert_eq!(parse_u64(b""), None);
    assert_eq!(parse_u64(b"12a"), None);
    assert_eq!(parse_u64(b"-3"), None);
}

#[test]
fn parses_signed_decimals() {
    assert_eq!(parse_i64(b"17"), Some(17));
    assert_eq!(parse_i64(b"+17"), Some(17));
    assert_eq!(parse_i64(b"-17"), Some(-17));
    assert_eq!(parse_i64(b"-9223372036854775808"), Some(i64::MIN));
    assert_eq!(parse_i64(b"9223372036854775807"), Some(i64::MAX));
    assert_eq!(parse_i64(b"9223372036854775808"), None);
    assert_eq!(parse_i64(b"-"), None);
    assert_eq!(parse_i64(b""), None);
}

#[test]
fn bound_parses_keywords() {
    assert_eq!(Bound::parse(b"latest"), Some(Bound::Latest));
    assert_eq!(Bound::parse(b"none"), Some(Bound::Subscribe));
}

#[test]
fn bound_parses_from_latest() {
    assert_eq!(Bound::parse(b"latest-5"), Some(Bound::FromLatest(5)));
    assert_eq!(Bound::parse(b"latest - 10"), Some(Bound::FromLatest(10)));
    assert_eq!(Bound::parse(b"latest-0"), None);
    assert_eq!(Bound::parse(b"latest-"), None);
}

#[test]
fn bound_parses_heights() {
    assert_eq!(Bound::parse(b"123"), Some(Bound::Exact(123)));
    // A negative decimal string parses as an exact height, as the
    // service's text form always did.
    assert_eq!(Bound::parse(b"-7"), Some(Bound::Exact(-7)));
    assert_eq!(Bound::parse(b"soon"), None);
    assert_eq!(Bound::parse(b""), None);
}

#[test]
fn bound_renders() {
    assert_eq!(render_bound(&Bound::Exact(5)), b"5".to_vec());
    assert_eq!(render_bound(&Bound::Exact(-5)), b"-5".to_vec());
    assert_eq!(render_bound(&Bound::Latest), b"latest".to_vec());
    assert_eq!(render_bound(&Bound::FromLatest(3)), b"latest-3".to_vec());
    assert_eq!(render_bound(&Bound::Subscribe), b"none".to_vec());
}

#[test]
fn bound_none_is_subscribe() {
    assert_eq!(Bound::none(), Bound::Subscribe);
    assert_eq!(Bound::default(), Bound::Latest);
}

#[test]
fn bound_partial_order() {
    assert_eq!(Bound::Exact(1).partial_cmp(&Bound::Exact(2)), Some(Ordering::Less));
    assert_eq!(Bound::Exact(2).partial_cmp(&Bound::Exact(2)), Some(Ordering::Equal));
    assert_eq!(Bound::FromLatest(3).partial_cmp(&Bound::FromLatest(1)), Some(Ordering::Greater));
    assert_eq!(Bound::Latest.partial_cmp(&Bound::Latest), Some(Ordering::Equal));
    assert_eq!(Bound::Subscribe.partial_cmp(&Bound::Subscribe), None);
    assert_eq!(Bound::Latest.partial_cmp(&Bound::Subscribe), Some(Ordering::Less));
    assert_eq!(Bound::Exact(9).partial_cmp(&Bound::Latest), None);
}

#[test]
fn query_options_builders() {
    let opts = QueryOptions::default()
        .start(Bound::Exact(10))
        .end(Bound::Subscribe);
    assert_eq!(opts.start, Bound::Exact(10));
    assert_eq!(opts.end, Bound::Subscribe);
}

#[test]
fn bound_from_numeric_values() {
    assert_eq!(Bound::from_i64(12), Bound::Exact(12));
    assert_eq!(Bound::from_i64(0), Bound::Exact(0));
    assert_eq!(Bound::from_i64(-3), Bound::FromLatest(3));
    assert_eq!(Bound::from_i64(i64::MIN), Bound::FromLatest(1u64 << 63));
}
